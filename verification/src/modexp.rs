//! Modular exponentiation by binary square-and-multiply.

use vstd::arithmetic::div_mod::lemma_mul_mod_noop_general;
use vstd::arithmetic::div_mod::lemma_small_mod;
use vstd::arithmetic::power::lemma_pow0;
use vstd::arithmetic::power::lemma_pow1;
use vstd::arithmetic::power::lemma_pow_adds;
use vstd::arithmetic::power::lemma_pow_multiplies;
use vstd::arithmetic::power::lemma_pow_mod_noop;
use vstd::arithmetic::power::lemma_square_is_pow2;
use vstd::arithmetic::power::pow;
use vstd::prelude::*;

verus! {

/// Compute `x^e mod n`.  For the degenerate modulus `n == 1` every power
/// is congruent to zero, which the single postcondition already covers.
/// Each multiplication is promoted to 128 bits, so no intermediate
/// product can overflow for any 64-bit modulus.
pub fn mod_pow(x: u64, e: u64, n: u64) -> (res: u64)
    requires
        n >= 1,
    ensures
        res == pow(x as int, e as nat) % (n as int),
        e == 0 && n > 1 ==> res == 1,
        e == 1 ==> res == x % n,
{
    proof {
        lemma_pow0(x as int);
        lemma_pow1(x as int);
        if n > 1 {
            lemma_small_mod(1nat, n as nat);
        }
    }
    if n == 1 {
        return 0;
    }
    let ghost x0 = x as int;
    let ghost e0 = e as nat;
    let mut x = x % n;
    let mut e = e;
    let mut res: u64 = 1;
    proof {
        lemma_pow_mod_noop(x0, e0, n as int);
        lemma_mul_mod_noop_general(1, pow(x as int, e as nat), n as int);
    }

    while e != 0
        invariant
            n >= 2,
            x < n,
            res < n,
            (res * pow(x as int, e as nat)) % (n as int) == pow(x0, e0) % (n as int),
        decreases e,
    {
        let ghost r_pre = res as int;
        let ghost x_pre = x as int;
        let ghost e_pre = e as nat;
        let ghost nn = n as int;
        proof {
            assert(res as int * x as int <= u128::MAX as int)
                by (nonlinear_arith)
                requires
                    res < 0x1_0000_0000_0000_0000u128,
                    x < 0x1_0000_0000_0000_0000u128,
            ;
            assert(x as int * x as int <= u128::MAX as int)
                by (nonlinear_arith)
                requires
                    x < 0x1_0000_0000_0000_0000u128,
            ;
        }
        if e % 2 == 1 {
            res = ((res as u128 * x as u128) % (n as u128)) as u64;
        }
        e = e / 2;
        x = ((x as u128 * x as u128) % (n as u128)) as u64;
        proof {
            let k = e as nat;
            // pow(x_pre, e_pre) splits into the low bit and the rest.
            lemma_square_is_pow2(x_pre);
            lemma_pow_multiplies(x_pre, 2, k);
            assert(pow(pow(x_pre, 2), k) == pow(x_pre * x_pre, k));
            lemma_pow_mod_noop(x_pre * x_pre, k, nn);
            assert(x as int == (x_pre * x_pre) % nn);
            assert(pow(x as int, k) % nn == pow(x_pre * x_pre, k) % nn);
            if e_pre % 2 == 1 {
                assert(e_pre == 2 * k + 1);
                assert(pow(x_pre, 2 * k + 1) == x_pre * pow(x_pre, 2 * k)) by {
                    lemma_pow_adds(x_pre, (2 * k) as nat, 1nat);
                    lemma_pow1(x_pre);
                }
                assert(res as int == (r_pre * x_pre) % nn);
                // (res * pow(x, k)) % n == (r_pre * x_pre * pow(x_pre*x_pre, k)) % n
                lemma_mul_mod_noop_general(r_pre * x_pre, pow(x as int, k), nn);
                lemma_mul_mod_noop_general(r_pre * x_pre, pow(x_pre * x_pre, k), nn);
                assert((res * pow(x as int, k)) % nn == ((r_pre * x_pre) * pow(x_pre * x_pre, k))
                    % nn) by {
                    assert(((r_pre * x_pre) % nn * (pow(x as int, k) % nn)) % nn == ((r_pre * x_pre)
                        % nn * (pow(x_pre * x_pre, k) % nn)) % nn);
                }
                assert((r_pre * x_pre) * pow(x_pre * x_pre, k) == r_pre * pow(x_pre, e_pre))
                    by (nonlinear_arith)
                    requires
                        pow(x_pre * x_pre, k) == pow(x_pre, (2 * k) as nat),
                        pow(x_pre, (2 * k + 1) as nat) == x_pre * pow(x_pre, (2 * k) as nat),
                        e_pre == 2 * k + 1,
                ;
            } else {
                assert(e_pre == 2 * k);
                lemma_mul_mod_noop_general(r_pre, pow(x as int, k), nn);
                lemma_mul_mod_noop_general(r_pre, pow(x_pre * x_pre, k), nn);
                assert((res * pow(x as int, k)) % nn == (r_pre * pow(x_pre * x_pre, k)) % nn) by {
                    assert((r_pre % nn * (pow(x as int, k) % nn)) % nn == (r_pre % nn * (pow(
                        x_pre * x_pre,
                        k,
                    ) % nn)) % nn);
                }
                assert(r_pre * pow(x_pre * x_pre, k) == r_pre * pow(x_pre, e_pre));
            }
        }
    }
    proof {
        assert(pow(x as int, 0) == 1) by {
            lemma_pow0(x as int);
        }
        lemma_small_mod(res as nat, n as nat);
    }
    res
}

} // verus!
