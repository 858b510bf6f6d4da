//! The Solovay–Strassen witness test and the multi-trial primality oracle.

use crate::jacobi::jacobi;
use crate::jacobi::legendre_symbol;
use crate::modexp::mod_pow;
use rand::Rng;
use rayon::iter::IntoParallelRefIterator;
use rayon::iter::ParallelIterator;
use vstd::arithmetic::div_mod::lemma_mod_multiples_vanish;
use vstd::arithmetic::div_mod::lemma_small_mod;
use vstd::arithmetic::power::pow;
use vstd::prelude::*;

verus! {

/// The Euler-criterion test: base `a` is a witness for the compositeness
/// of `n` when the Jacobi symbol `(a/n)` is zero (a shared factor), or
/// when the symbol, taken modulo `n`, differs from `a^((n-1)/2) mod n`.
/// For a prime `n` the two sides always agree, so a witness proves `n`
/// composite.
pub open spec fn is_euler_witness(a: nat, n: nat) -> bool
    recommends
        n >= 3,
{
    jacobi(a, n) == 0 || jacobi(a, n) % (n as int) != pow(a as int, ((n - 1) / 2) as nat) % (
    n as int)
}

/// One Solovay–Strassen trial: decide whether `a` witnesses the
/// compositeness of `n`.
pub fn solovay_strassen(a: u64, n: u64) -> (res: bool)
    requires
        a >= 2,
        n >= 3,
    ensures
        res == is_euler_witness(a as nat, n as nat),
{
    let x: i64 = legendre_symbol(a, n);
    let m: u64 = mod_pow(a, (n - 1) / 2, n);

    if x == 0 {
        return true;
    }
    // `x` is the symbol's +-1 value; reduce it modulo `n`, mapping -1 to n - 1.
    let x_mod_n: u64 = if x == 1 {
        1
    } else {
        n - 1
    };
    proof {
        if x == 1 {
            lemma_small_mod(1nat, n as nat);
        } else {
            assert((-1) % (n as int) == n - 1) by {
                lemma_mod_multiples_vanish(-1, n - 1, n as int);
                lemma_small_mod((n - 1) as nat, n as nat);
            }
        }
        assert(x_mod_n == jacobi(a as nat, n as nat) % (n as int));
    }
    x_mod_n != m
}

/// Relies on rand's `thread_rng` and `Rng::gen_range`: a draw from the
/// uniform distribution on the non-empty range `[2, n)` lies in that range.
#[verifier::external_body]
fn sample_base(n: u64) -> (r: u64)
    requires
        n >= 4,
    ensures
        2 <= r < n,
{
    rand::thread_rng().gen_range(2..n)
}

/// Relies on rayon's `par_iter` and `ParallelIterator::find_any`:
/// `find_any` returns `Some` exactly when some element of the slice
/// satisfies the predicate, searching in parallel and stopping early
/// once a match is found.  The predicate calls the verified trial,
/// whose contract equates its result with `is_euler_witness`.
#[verifier::external_body]
fn find_any_witness(bases: &Vec<u64>, n: u64) -> (r: bool)
    requires
        n >= 5,
        forall|i: int| 0 <= i < bases@.len() ==> 2 <= #[trigger] bases@[i] < n,
    ensures
        r == (exists|i: int|
            0 <= i < bases@.len() && is_euler_witness(#[trigger] bases@[i] as nat, n as nat)),
{
    bases.par_iter().find_any(|&&a| solovay_strassen(a, n)).is_some()
}

/// The multi-trial oracle: test `n` with `k` independently drawn bases,
/// in parallel, returning `false` ("composite") as soon as any trial
/// finds a witness and `true` ("likely prime") otherwise.
///
/// The trivial cases are settled exactly.  For odd `n >= 5` the verdict
/// depends on the random sample, so the contract states what holds of
/// every outcome: a `false` verdict always exhibits a witness in `[2, n)`.
pub fn is_prime(n: u64, k: usize) -> (res: bool)
    ensures
        n <= 1 ==> res == false,
        2 <= n <= 3 ==> res == true,
        n >= 4 && n % 2 == 0 ==> res == false,
        n >= 5 && n % 2 == 1 && res == false ==> exists|a: nat|
            2 <= a < n && is_euler_witness(a, n as nat),
        n >= 5 && n % 2 == 1 && k == 0 ==> res == true,
{
    if n <= 1 {
        return false;
    }
    if n <= 3 {
        return true;
    }
    if n % 2 == 0 {
        return false;
    }

    let mut bases: Vec<u64> = Vec::new();
    let mut i: usize = 0;
    while i < k
        invariant
            n >= 5,
            i <= k,
            bases@.len() == i,
            forall|j: int| 0 <= j < bases@.len() ==> 2 <= #[trigger] bases@[j] < n,
        decreases k - i,
    {
        bases.push(sample_base(n));
        i = i + 1;
    }

    let found = find_any_witness(&bases, n);
    proof {
        if found {
            let i = choose|i: int|
                0 <= i < bases@.len() && is_euler_witness(#[trigger] bases@[i] as nat, n as nat);
            assert(2 <= bases@[i] < n);
            assert(is_euler_witness(bases@[i] as nat, n as nat));
        }
    }
    !found
}

} // verus!
