//! The Jacobi symbol, and its iterative evaluator.

use vstd::prelude::*;

verus! {

/// The Jacobi symbol `(a/n)`, defined by the standard reduction rules:
/// pulling out factors of two with the supplementary law for `(2/n)`,
/// and quadratic reciprocity for two odd arguments.  For odd `n >= 1`
/// this agrees with the classical symbol; the definition is total so
/// that the evaluator's contract needs no side condition.
pub open spec fn jacobi(a: nat, n: nat) -> int
    decreases a,
{
    if a == 0 {
        if n == 1 {
            1
        } else {
            0
        }
    } else if a % 2 == 0 {
        (if n % 8 == 3 || n % 8 == 5 {
            -1int
        } else {
            1int
        }) * jacobi(a / 2, n)
    } else {
        (if a % 4 == 3 && n % 4 == 3 {
            -1int
        } else {
            1int
        }) * jacobi(n % a, a)
    }
}

/// The Jacobi symbol only ever takes the values -1, 0 and 1.
pub proof fn lemma_jacobi_bounds(a: nat, n: nat)
    ensures
        -1 <= jacobi(a, n) <= 1,
    decreases a,
{
    if a == 0 {
    } else if a % 2 == 0 {
        lemma_jacobi_bounds(a / 2, n);
        let j = jacobi(a / 2, n);
        if n % 8 == 3 || n % 8 == 5 {
            assert(jacobi(a, n) == -1 * j);
        } else {
            assert(jacobi(a, n) == 1 * j);
        }
    } else {
        lemma_jacobi_bounds(n % a, a);
        let j = jacobi(n % a, a);
        if a % 4 == 3 && n % 4 == 3 {
            assert(jacobi(a, n) == -1 * j);
        } else {
            assert(jacobi(a, n) == 1 * j);
        }
    }
}

/// The Jacobi symbol of 1 is 1 against every modulus: the symbol of a
/// unit never vanishes and never flips sign.
pub proof fn lemma_jacobi_one(n: nat)
    ensures
        jacobi(1, n) == 1,
{
    assert(jacobi(1, n) == 1 * jacobi(n % 1, 1));
    assert(n % 1 == 0);
}

/// Evaluate the Jacobi symbol `(a/n)` by the iterative
/// quadratic-reciprocity reduction.  The sign lives in `res`; the working
/// magnitudes stay non-negative throughout.
pub fn legendre_symbol(a: u64, n: u64) -> (res: i64)
    ensures
        res == jacobi(a as nat, n as nat),
        -1 <= res <= 1,
{
    let ghost j0 = jacobi(a as nat, n as nat);
    let mut a = a;
    let mut n = n;
    let mut res: i64 = 1;

    while a != 0
        invariant
            res == 1 || res == -1,
            res * jacobi(a as nat, n as nat) == j0,
        decreases a,
    {
        let ghost a_head = a;
        while a % 2 == 0
            invariant
                a != 0,
                res == 1 || res == -1,
                res * jacobi(a as nat, n as nat) == j0,
                a <= a_head,
            decreases a,
        {
            let ghost a_pre = a as nat;
            let ghost res_pre = res as int;
            a = a / 2;
            if n % 8 == 3 || n % 8 == 5 {
                res = -res;
            }
            proof {
                let s: int = if n % 8 == 3 || n % 8 == 5 {
                    -1
                } else {
                    1
                };
                assert(jacobi(a_pre, n as nat) == s * jacobi(a as nat, n as nat));
                assert(res == s * res_pre);
                assert(res * jacobi(a as nat, n as nat) == res_pre * jacobi(a_pre, n as nat))
                    by (nonlinear_arith)
                    requires
                        res == s * res_pre,
                        jacobi(a_pre, n as nat) == s * jacobi(a as nat, n as nat),
                        s == 1 || s == -1,
                ;
            }
        }
        let ghost a_odd = a as nat;
        let ghost n_old = n as nat;
        let ghost res_pre = res as int;
        let t = a;
        a = n;
        n = t;
        if a % 4 == 3 && n % 4 == 3 {
            res = -res;
        }
        a = a % n;
        proof {
            let s: int = if n_old % 4 == 3 && a_odd % 4 == 3 {
                -1
            } else {
                1
            };
            assert(jacobi(a_odd, n_old) == s * jacobi(n_old % a_odd, a_odd));
            assert(a as nat == n_old % a_odd);
            assert(res == s * res_pre);
            assert(res * jacobi(a as nat, n as nat) == res_pre * jacobi(a_odd, n_old))
                by (nonlinear_arith)
                requires
                    res == s * res_pre,
                    jacobi(a_odd, n_old) == s * jacobi(a as nat, n as nat),
                    s == 1 || s == -1,
            ;
        }
    }

    if n == 1 {
        res
    } else {
        0
    }
}

} // verus!
