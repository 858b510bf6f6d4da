//! Solovay–Strassen probabilistic primality testing.
//!
//! The crate root exposes two entry points:
//!   * `is_witness` — one iteration of the Solovay–Strassen test, rejecting
//!     invalid inputs explicitly;
//!   * `is_prime` — the multi-trial oracle, which draws random bases and runs
//!     the trials in parallel, reporting compositeness as soon as any trial
//!     finds a witness.
//!
//! The machinery underneath lives in three modules: `jacobi` (the Jacobi
//! symbol evaluator), `modexp` (modular exponentiation), and `prime` (the
//! single-trial witness test and the oracle itself).

pub mod jacobi;
pub mod modexp;
pub mod prime;

use vstd::prelude::*;

verus! {

/// Test whether `a` is a witness for the compositeness of `n`.
///
/// Invalid inputs (`a < 2` or `n < 3`) are rejected explicitly with
/// `None`; otherwise the verdict of the single trial is returned.
pub fn is_witness(a: u64, n: u64) -> (res: Option<bool>)
    ensures
        res is None <==> a < 2 || n < 3,
        a >= 2 && n >= 3 ==> res == Some(prime::is_euler_witness(a as nat, n as nat)),
{
    if a < 2 || n < 3 {
        return None;
    }
    Some(prime::solovay_strassen(a, n))
}

/// Test whether `n` is likely prime with `k` Solovay–Strassen trials,
/// run in parallel.  A `false` verdict is definite: some sampled base
/// in `[2, n)` witnessed the compositeness of `n`.  A `true` verdict is
/// "likely prime", wrong for a composite `n` with probability at most
/// `2^-k`.
pub fn is_prime(n: u64, k: usize) -> (res: bool)
    ensures
        n <= 1 ==> res == false,
        2 <= n <= 3 ==> res == true,
        n >= 4 && n % 2 == 0 ==> res == false,
        n >= 5 && n % 2 == 1 && res == false ==> exists|a: nat|
            2 <= a < n && prime::is_euler_witness(a, n as nat),
        n >= 5 && n % 2 == 1 && k == 0 ==> res == true,
{
    prime::is_prime(n, k)
}

} // verus!
