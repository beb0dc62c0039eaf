use vstd::prelude::*;
use vstd::arithmetic::div_mod::lemma_fundamental_div_mod_converse;

verus! {

/// The quotient of `a` by `b`, rounded toward zero.
pub open spec fn trunc_div(a: int, b: int) -> int {
    if a >= 0 {
        a / b
    } else {
        -((-a) / b)
    }
}

/// Floor quotient and non-negative remainder of `a` by a positive `b`.
pub fn div_floor(a: i128, b: i128) -> (qr: (i128, i128))
    requires
        b > 0,
        a > i128::MIN,
    ensures
        qr.0 == a as int / b as int,
        qr.1 == a as int % b as int,
{
    if a >= 0 {
        (a / b, a % b)
    } else {
        let n: i128 = -a;
        let q: i128 = n / b;
        let r: i128 = n % b;
        proof {
            assert(n as int == q as int * b as int + r as int) by (nonlinear_arith)
                requires
                    n >= 0,
                    b > 0,
                    q == n as int / b as int,
                    r == n as int % b as int,
            ;
        }
        if r == 0 {
            proof {
                assert(a as int == (-q) * b as int + 0) by (nonlinear_arith)
                    requires
                        a == -n,
                        n as int == q as int * b as int + r as int,
                        r == 0,
                ;
                lemma_fundamental_div_mod_converse(a as int, b as int, -(q as int), 0);
            }
            (-q, 0)
        } else {
            proof {
                assert(a as int == (-q - 1) * b as int + (b - r)) by (nonlinear_arith)
                    requires
                        a == -n,
                        n as int == q as int * b as int + r as int,
                ;
                lemma_fundamental_div_mod_converse(
                    a as int,
                    b as int,
                    -(q as int) - 1,
                    b as int - r as int,
                );
            }
            (-q - 1, b - r)
        }
    }
}

/// The quotient of `a` by a positive `b`, rounded toward zero.
pub fn div_trunc(a: i128, b: i128) -> (q: i128)
    requires
        b > 0,
        a > i128::MIN,
    ensures
        q == trunc_div(a as int, b as int),
{
    if a >= 0 {
        a / b
    } else {
        let n: i128 = -a;
        -(n / b)
    }
}

} // verus!
