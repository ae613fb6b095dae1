[package]
name = "haru_cmaes"
version = "0.1.0"
edition = "2021"
publish = false

[dependencies]
anyhow = "*"
fastrand = "*"
nalgebra = "*"
