use solovay_strassen::is_prime;
use solovay_strassen::is_witness;
use solovay_strassen::jacobi::legendre_symbol;
use solovay_strassen::modexp::mod_pow;
use solovay_strassen::prime;

const K: usize = 100;

#[test]
fn lib_test_prime() {
    let prime: u64 = 0x7FFF_FFFF;
    assert!(is_prime(prime, K));
}

#[test]
fn lib_test_composite() {
    let composite: u64 = 0x7FFF_FFFE;
    assert!(!is_prime(composite, K));
}

#[test]
fn main_test_prime() {
    let prime: u64 = 0x7FFF_FFFF;
    assert_eq!(prime::is_prime(prime, K), true);
}

#[test]
fn main_test_composite() {
    let composite: u64 = 0x7FFF_FFFE;
    assert_eq!(prime::is_prime(composite, K), false);
}

#[test]
fn prime_test_prime() {
    let prime: u64 = 0x7FFF_FFFF;
    assert_eq!(prime::is_prime(prime, K), true);
}

#[test]
fn prime_test_composite() {
    let composite: u64 = 0x7FFF_FFFE;
    assert_eq!(prime::is_prime(composite, K), false);
}

// No base in [2, n) ever witnesses against a true prime: the test has no
// false negatives.  Checked exhaustively for a few primes.
#[test]
fn no_witness_for_primes() {
    let primes: [u64; 6] = [3, 5, 13, 17, 31, 101];
    for &n in primes.iter() {
        let mut a: u64 = 2;
        while a < n {
            assert_eq!(prime::solovay_strassen(a, n), false);
            assert_eq!(is_witness(a, n), Some(false));
            a += 1;
        }
    }
}

// Every odd composite here has at least one witness in [2, n), and the
// oracle with 100 trials detects compositeness.
#[test]
fn witness_exists_for_odd_composites() {
    let composites: [u64; 6] = [9, 15, 21, 25, 27, 33];
    for &n in composites.iter() {
        let mut found: bool = false;
        let mut a: u64 = 2;
        while a < n {
            if prime::solovay_strassen(a, n) {
                found = true;
            }
            a += 1;
        }
        assert!(found);
        assert_eq!(is_prime(n, K), false);
    }
}

// The Jacobi symbol is multiplicative in its upper argument:
// (a*b / n) == (a/n) * (b/n), spot-checked on small values.
#[test]
fn jacobi_multiplicative() {
    let moduli: [u64; 7] = [1, 3, 5, 7, 9, 15, 25];
    for &n in moduli.iter() {
        for a in 0u64..30 {
            for b in 0u64..30 {
                assert_eq!(
                    legendre_symbol(a * b, n),
                    legendre_symbol(a, n) * legendre_symbol(b, n)
                );
            }
        }
    }
}

// Exact values of the Jacobi symbol on known cases.
#[test]
fn jacobi_known_values() {
    // 2 is a quadratic residue mod 7 (3*3 == 2), 3 is not.
    assert_eq!(legendre_symbol(2, 7), 1);
    assert_eq!(legendre_symbol(3, 7), -1);
    // (2/15) == (2/3)(2/5) == (-1)(-1) == 1.
    assert_eq!(legendre_symbol(2, 15), 1);
    // A shared factor makes the symbol vanish.
    assert_eq!(legendre_symbol(6, 9), 0);
    assert_eq!(legendre_symbol(5, 5), 0);
    assert_eq!(legendre_symbol(0, 9), 0);
    assert_eq!(legendre_symbol(0, 1), 1);
}

// x^0 mod n == 1 for n > 1, and x^1 mod n == x mod n.
#[test]
fn mod_pow_unit_exponents() {
    let moduli: [u64; 5] = [2, 3, 7, 100, 0xFFFF_FFFF_FFFF_FFFF];
    for &n in moduli.iter() {
        for x in 0u64..20 {
            assert_eq!(mod_pow(x, 0, n), 1);
            assert_eq!(mod_pow(x, 1, n), x % n);
        }
    }
}

// Exact modular powers, including the degenerate modulus and a modulus
// large enough that squaring needs more than 64 bits.
#[test]
fn mod_pow_known_values() {
    assert_eq!(mod_pow(2, 10, 1000), 24);
    assert_eq!(mod_pow(3, 5, 7), 5);
    assert_eq!(mod_pow(7, 2, 1), 0);
    assert_eq!(mod_pow(0, 0, 5), 1);
    // 2^64 mod (2^64 - 1) == 1, so 2^65 mod (2^64 - 1) == 2.
    assert_eq!(mod_pow(2, 65, 0xFFFF_FFFF_FFFF_FFFF), 2);
}

// Scenario: 2 witnesses the compositeness of 27.
#[test]
fn witness_two_against_27() {
    assert_eq!(prime::solovay_strassen(2, 27), true);
    assert_eq!(is_witness(2, 27), Some(true));
}

// Scenario: the trivial small primes pass for any trial count.
#[test]
fn trivial_small_primes() {
    let counts: [usize; 4] = [0, 1, 20, 100];
    for &k in counts.iter() {
        assert!(is_prime(2, k));
        assert!(is_prime(3, k));
        assert!(!is_prime(0, k));
        assert!(!is_prime(1, k));
    }
}

// Scenario: the Jacobi symbol of 1 is 1 against every odd modulus.
#[test]
fn jacobi_of_one() {
    let moduli: [u64; 6] = [1, 3, 9, 15, 27, 0x7FFF_FFFF];
    for &n in moduli.iter() {
        assert_eq!(legendre_symbol(1, n), 1);
    }
}

// Repeated calls on a fixed prime always agree: no false negatives,
// whatever bases were sampled.
#[test]
fn idempotent_on_primes() {
    for _ in 0..20 {
        assert!(is_prime(31, 20));
        assert!(is_prime(97, 20));
    }
}

// Invalid inputs are rejected explicitly.
#[test]
fn is_witness_rejects_invalid() {
    assert_eq!(is_witness(1, 27), None);
    assert_eq!(is_witness(0, 27), None);
    assert_eq!(is_witness(2, 2), None);
    assert_eq!(is_witness(0, 0), None);
    assert_eq!(is_witness(2, 3), Some(false));
}

// Zero trials gather no evidence, so any odd n >= 5 passes vacuously.
#[test]
fn zero_trials_find_no_witness() {
    assert!(is_prime(9, 0));
    assert!(is_prime(31, 0));
}

// The full 64-bit range is handled: squaring near the top of the range
// must not overflow.  18446744073709551557 is the largest 64-bit prime;
// u64::MAX itself is composite (it factors through the Fermat numbers).
#[test]
fn large_moduli() {
    assert!(is_prime(18446744073709551557, K));
    assert!(!is_prime(0xFFFF_FFFF_FFFF_FFFF, K));
}

// Even numbers above 2 are composite.
#[test]
fn even_numbers_are_composite() {
    let evens: [u64; 4] = [4, 6, 100, 0x7FFF_FFFE];
    for &n in evens.iter() {
        assert_eq!(is_prime(n, 10), false);
    }
}
