//! Full optimization runs: the verified decision core paired with a
//! floating-point numeric backend (nalgebra for the linear algebra,
//! fastrand for the draws), the way the optimizer is meant to be driven.

use haru_cmaes::errors::{NumericalError, ShapeMismatchError};
use haru_cmaes::params::CmaesParams;
use haru_cmaes::prepare::{clamp_eigenvalues, sparsify_covariance};
use haru_cmaes::state::CmaesState;
use haru_cmaes::strategy::CmaesAlgo;
use nalgebra::{DMatrix, DVector};

/// Order key of an `f32`: the standard monotone recoding of its bits.
fn key_of(x: f32) -> i64 {
    let b = x.to_bits() as i32;
    (b ^ ((b >> 31) & 0x7fff_ffff)) as i64
}

/// Inverse of `key_of`; the recoding is an involution.
fn float_of(k: i64) -> f32 {
    let b = k as i32;
    f32::from_bits((b ^ ((b >> 31) & 0x7fff_ffff)) as u32)
}

/// Floating-point constants derived from the population size and dimension.
struct FloatParams {
    n: f32,
    weights: DVector<f32>,
    mueff: f32,
    cc: f32,
    cs: f32,
    c1: f32,
    cmu: f32,
    damps: f32,
    /// Magnitude below which off-diagonal covariance entries are thinned away.
    zs: f32,
}

fn derive_floats(popsize: usize, dim: usize) -> FloatParams {
    let n = dim as f32;
    let k = popsize as f32;
    let mu = popsize / 2;
    let raw: Vec<f32> = (0..popsize)
        .map(|i| if i < mu { (k / 2.0 + 0.5).ln() - ((i + 1) as f32).ln() } else { 0.0 })
        .collect();
    let w_sum: f32 = raw.iter().take(mu).sum();
    let weights = DVector::from_vec(raw.iter().map(|x| x / w_sum).collect());
    let sum: f32 = weights.iter().take(mu).sum();
    let sum_sq: f32 = weights.iter().take(mu).map(|x| x * x).sum();
    let mueff = sum * sum / sum_sq;
    let cc = (4.0 + mueff / n) / (n + 4.0 + 2.0 * mueff / n);
    let cs = (mueff + 2.0) / (n + mueff + 5.0);
    let c1 = 2.0 / ((n + 1.3) * (n + 1.3) + mueff);
    let cmu = (1.0 - c1).min(2.0 * (mueff - 2.0 + 1.0 / mueff) / ((n + 2.0) * (n + 2.0) + mueff));
    let damps = 2.0 * mueff / k + 0.3 + cs;
    FloatParams { n, weights, mueff, cc, cs, c1, cmu, damps, zs: 1e-4 }
}

/// The floating-point half of the search state.
struct FloatState {
    mean: DVector<f32>,
    sigma: f32,
    cov: DMatrix<f32>,
    eig_vecs: DMatrix<f32>,
    eig_vals: DVector<f32>,
    inv_sqrt: DMatrix<f32>,
    ps: DVector<f32>,
    pc: DVector<f32>,
}

fn init_floats(params: &CmaesParams) -> FloatState {
    let dim = params.dim();
    FloatState {
        mean: DVector::from_vec(params.xstart.iter().map(|&k| float_of(k)).collect()),
        sigma: float_of(params.sigma),
        cov: DMatrix::identity(dim, dim),
        eig_vecs: DMatrix::identity(dim, dim),
        eig_vals: DVector::from_element(dim, 1.0),
        inv_sqrt: DMatrix::identity(dim, dim),
        ps: DVector::zeros(dim),
        pc: DVector::zeros(dim),
    }
}

/// Symmetrize, thin, decompose, safeguard, and refresh the inverse square
/// root; the entry decisions are the verified core's.
fn prepare_ask(
    algo: &CmaesAlgo,
    fs: &mut FloatState,
    fp: &FloatParams,
) -> Result<(), NumericalError> {
    let dim = fs.mean.len();
    fs.cov = (&fs.cov + &fs.cov.transpose()) / 2.0;
    let rows: Vec<Vec<i64>> =
        (0..dim).map(|i| (0..dim).map(|j| key_of(fs.cov[(i, j)])).collect()).collect();
    let (lo_band, hi_band) = if algo.params.only_diag {
        (i64::MIN, i64::MAX)
    } else {
        (key_of(-fp.zs), key_of(fp.zs))
    };
    let thinned = sparsify_covariance(&rows, key_of(0.0), key_of(0.1), lo_band, hi_band);
    for i in 0..dim {
        for j in 0..dim {
            fs.cov[(i, j)] = float_of(thinned[i][j]);
        }
    }
    let eigen = nalgebra::SymmetricEigen::try_new(fs.cov.clone(), f32::EPSILON, 10000)
        .ok_or(NumericalError)?;
    let val_keys: Vec<i64> = eigen.eigenvalues.iter().map(|&v| key_of(v)).collect();
    let clamped = clamp_eigenvalues(&val_keys, key_of(0.1), key_of(10.0));
    fs.eig_vals = DVector::from_vec(clamped.iter().map(|&k| float_of(k)).collect());
    fs.eig_vecs = eigen.eigenvectors;
    let inv_sqrt_diag = DMatrix::from_diagonal(&fs.eig_vals.map(|e| e.powf(-0.5)));
    fs.inv_sqrt = &fs.eig_vecs * inv_sqrt_diag * fs.eig_vecs.transpose();
    Ok(())
}

/// Draw a fresh population: standard normal draws rotated through the
/// eigenbasis, scaled by the step size, translated by the mean.
fn ask(
    algo: &CmaesAlgo,
    fs: &mut FloatState,
    fp: &FloatParams,
) -> Result<DMatrix<f32>, NumericalError> {
    prepare_ask(algo, fs, fp)?;
    let popsize = algo.params.popsize;
    let dim = fs.mean.len();
    let data: Vec<f32> = (0..popsize * dim)
        .map(|_| {
            let u1 = fastrand::f32();
            let u2 = fastrand::f32();
            (-2.0 * u1.clamp(0.0001, 0.9999).ln()).sqrt()
                * (2.0 * std::f32::consts::PI * u2).cos()
        })
        .collect();
    let z = DMatrix::from_row_slice(popsize, dim, &data);
    let eig_sqrt = DMatrix::from_diagonal(&fs.eig_vals.map(|x| x.sqrt()));
    let scaled = z.map(|x| x * fs.sigma) * eig_sqrt;
    let rotated = scaled * fs.eig_vecs.transpose();
    let y = DMatrix::from_rows(
        &rotated.row_iter().map(|row| row + fs.mean.transpose()).collect::<Vec<_>>(),
    );
    Ok(y)
}

/// Fold an evaluated population back in: the verified core checks shapes,
/// ranks, and tracks the best; the backend recombines and adapts.
fn tell(
    algo: &CmaesAlgo,
    ds: &mut CmaesState,
    fs: &mut FloatState,
    fp: &FloatParams,
    pop: &DMatrix<f32>,
    fitness: &DVector<f32>,
) -> Result<(), ShapeMismatchError> {
    let popsize = algo.params.popsize;
    let dim = fs.mean.len();
    let pop_keys: Vec<Vec<i64>> = (0..pop.nrows())
        .map(|i| (0..pop.ncols()).map(|j| key_of(pop[(i, j)])).collect())
        .collect();
    let fit_keys: Vec<i64> = fitness.iter().map(|&x| key_of(x)).collect();
    let order = algo.tell(ds, &pop_keys, &fit_keys)?;
    let xold = fs.mean.clone();

    // recombination over the top mu ranked candidates
    let mut new_mean: DVector<f32> = DVector::zeros(dim);
    for (r, &idx) in order.iter().take(algo.params.mu).enumerate() {
        new_mean += pop.row(idx).transpose() * fp.weights[r];
    }
    fs.mean = new_mean;

    // step-size evolution path
    let delta = &fs.mean - &xold;
    let new_z = &fs.inv_sqrt * &delta;
    let csn = (fp.cs * (2.0 - fp.cs) * fp.mueff).sqrt() / fs.sigma;
    fs.ps = &fs.ps * (1.0 - fp.cs) + new_z * csn;

    // stall indicator: squared path length, normalized and corrected for the
    // expected random-walk magnitude, against the expected threshold
    let exponent = (2 * ds.evals_count / popsize as u64) as i32;
    let corrected = fs.ps.norm_squared() / fp.n / (1.0 - (1.0 - fp.cs).powi(exponent));
    let threshold = (1.4 + 2.0 / (fp.n + 1.0)).powi(2);
    let hsig: f32 = if corrected < threshold { 1.0 } else { 0.0 };

    // covariance evolution path
    let ccn = (fp.cc * (2.0 - fp.cc) * fp.mueff).sqrt() / fs.sigma;
    fs.pc = &fs.pc * (1.0 - fp.cc) + &delta * (ccn * hsig);

    // covariance: decay, rank-one term, rank-mu terms
    let c1a = fp.c1 * (1.0 - (1.0 - hsig * hsig) * fp.cc * (2.0 - fp.cc));
    fs.cov = fs.cov.map(|x| x * (1.0 - c1a - fp.cmu));
    fs.cov += (&fs.pc * fs.pc.transpose()).map(|x| x * fp.c1);
    let s2 = fs.sigma * fs.sigma;
    for (r, &idx) in order.iter().enumerate() {
        let w = fp.weights[r];
        let w = if w < 0.0 { 0.001 } else { w };
        let dx = pop.row(idx).transpose() - &xold;
        fs.cov += (&dx * dx.transpose()).map(|x| x * w * fp.cmu / s2);
    }

    // multiplicative step-size update keeps sigma strictly positive
    let cn = fp.cs / fp.damps;
    let other = cn * (fs.ps.norm_squared() / fp.n - 1.0) / 2.0;
    fs.sigma *= f32::min(1.0, other).exp();
    Ok(())
}

/// The convergence check: the backend averages the history window and
/// measures the gap; the verified core decides.
fn is_done(algo: &CmaesAlgo, ds: &CmaesState, step: u64) -> bool {
    let hist = ds.history();
    if hist.is_empty() {
        return false;
    }
    let window: Vec<f32> = hist.iter().map(|&k| float_of(k)).collect();
    let avg = window.iter().sum::<f32>() / window.len() as f32;
    let (_, best_key) = ds.get_best();
    let gap = (float_of(best_key) - avg).abs();
    algo.is_done(step, key_of(gap))
}

fn sphere_fitness(pop: &DMatrix<f32>) -> DVector<f32> {
    DVector::from_vec(
        pop.row_iter().map(|row| row.iter().map(|x| x * x).sum::<f32>()).collect(),
    )
}

#[test]
fn weights_sum_to_one_and_mueff_is_bounded() {
    for (popsize, dim) in [(6, 2), (10, 6), (23, 7), (50, 50)] {
        let fp = derive_floats(popsize, dim);
        let mu = popsize / 2;
        let sum: f32 = fp.weights.iter().take(mu).sum();
        assert!((sum - 1.0).abs() < 1e-5);
        for i in mu..popsize {
            assert_eq!(fp.weights[i], 0.0);
        }
        assert!(fp.mueff >= 1.0 - 1e-5);
        assert!(fp.mueff <= mu as f32 + 1e-5);
    }
}

#[test]
fn two_hundred_generations_stay_finite() {
    fastrand::seed(3);
    let params =
        CmaesParams::new(12, vec![key_of(0.5); 8], key_of(0.75), key_of(0.001), 200).unwrap();
    let algo = CmaesAlgo::new(params).unwrap();
    let fp = derive_floats(12, 8);
    let mut ds = CmaesState::init_state(&algo.params);
    let mut fs = init_floats(&algo.params);
    for _ in 0..200 {
        let pop = ask(&algo, &mut fs, &fp).unwrap();
        // the Rastrigin landscape keeps the run from settling too quickly
        let a = 10.0f32;
        let pi = std::f32::consts::PI;
        let fitness = DVector::from_vec(
            pop.row_iter()
                .map(|row| {
                    row.iter().map(|x| x * x - a * (2.0 * pi * x).cos() + a).sum::<f32>()
                })
                .collect::<Vec<f32>>(),
        );
        tell(&algo, &mut ds, &mut fs, &fp, &pop, &fitness).unwrap();
        assert!(fs.mean.iter().all(|x| x.is_finite()));
        assert!(fs.cov.iter().all(|x| x.is_finite()));
        assert!(fs.sigma.is_finite() && fs.sigma > 0.0);
    }
    assert_eq!(ds.g, 200);
    assert_eq!(ds.evals_count, 200 * 12);
}

#[test]
fn sphere_benchmark_reaches_the_optimum_region() {
    fastrand::seed(42);
    let params =
        CmaesParams::new(50, vec![key_of(0.5); 50], key_of(0.5), key_of(0.001), 150).unwrap();
    let algo = CmaesAlgo::new(params).unwrap();
    let fp = derive_floats(50, 50);
    let mut ds = CmaesState::init_state(&algo.params);
    let mut fs = init_floats(&algo.params);
    for _ in 0..150 {
        let pop = ask(&algo, &mut fs, &fp).unwrap();
        let fitness = sphere_fitness(&pop);
        tell(&algo, &mut ds, &mut fs, &fp, &pop, &fitness).unwrap();
    }
    let (_, best_key) = ds.get_best();
    assert!(float_of(best_key) <= 1e-2, "best fitness {}", float_of(best_key));
}

#[test]
fn quadratic_bowl_converges_and_contracts() {
    fastrand::seed(7);
    let params =
        CmaesParams::new(10, vec![key_of(0.0); 2], key_of(1.3), key_of(1e-6), 500).unwrap();
    let algo = CmaesAlgo::new(params).unwrap();
    let fp = derive_floats(10, 2);
    let mut ds = CmaesState::init_state(&algo.params);
    let mut fs = init_floats(&algo.params);
    let mut step: u64 = 0;
    loop {
        let pop = ask(&algo, &mut fs, &fp).unwrap();
        let fitness = DVector::from_vec(
            pop.row_iter()
                .map(|row| (row[0] - 1.0).powi(2) + (row[1] - 2.0).powi(2))
                .collect::<Vec<f32>>(),
        );
        tell(&algo, &mut ds, &mut fs, &fp, &pop, &fitness).unwrap();
        if is_done(&algo, &ds, step) || step >= 500 {
            break;
        }
        step += 1;
    }
    let (best, _) = ds.get_best();
    let b: Vec<f32> = best.iter().map(|&k| float_of(k)).collect();
    assert!((b[0] - 1.0).abs() <= 1e-2, "best candidate {:?}", b);
    assert!((b[1] - 2.0).abs() <= 1e-2, "best candidate {:?}", b);
    assert!(fs.sigma < 1.3);
}
