//! Integer division that reports a zero divisor as an error.

use vstd::prelude::*;

verus! {

/// What can go wrong in the sample computations.
#[derive(Debug, Clone, Copy, PartialEq, Eq, Structural)]
pub enum MyError {
    DivideByZero,
    SerdeError,
    DBError,
}

/// `a / b` rounded towards zero, as Rust's integer division does.
pub open spec fn quotient(a: int, b: int) -> int {
    let q = (if a >= 0 { a } else { -a }) / (if b >= 0 { b } else { -b });
    if (a >= 0) == (b >= 0) {
        q
    } else {
        -q
    }
}

/// `a / b` rounded towards zero; an error when `b` is zero. The one
/// quotient that does not fit, `i32::MIN / -1`, is not asked for.
pub fn div(a: i32, b: i32) -> (r: Result<i32, MyError>)
    requires
        !(a == i32::MIN && b == -1),
    ensures
        b == 0 ==> r == Err::<i32, MyError>(MyError::DivideByZero),
        b != 0 ==> r == Ok::<i32, MyError>(quotient(a as int, b as int) as i32),
{
    if b != 0 {
        let size_a: i64 = if a >= 0 { a as i64 } else { -(a as i64) };
        let size_b: i64 = if b >= 0 { b as i64 } else { -(b as i64) };
        let q: i64 = size_a / size_b;
        assert(q <= size_a) by (nonlinear_arith)
            requires
                size_a >= 0,
                size_b >= 1,
                q == size_a / size_b,
        ;
        assert((a >= 0) == (b >= 0) ==> q <= i32::MAX) by {
            if (a >= 0) == (b >= 0) && q > i32::MAX {
                assert(size_a == 0x8000_0000);
                assert(size_b == 1) by (nonlinear_arith)
                    requires
                        size_a == 0x8000_0000,
                        size_b >= 1,
                        q == size_a / size_b,
                        q > 0x7fff_ffff,
                ;
            }
        }
        if (a >= 0) == (b >= 0) {
            Ok(q as i32)
        } else {
            Ok((-q) as i32)
        }
    } else {
        Err(MyError::DivideByZero)
    }
}

} // verus!
