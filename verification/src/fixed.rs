//! Decimal fixed-point numbers: an exact [`Scalar`].

use crate::scalar::Laws;
use crate::scalar::Scalar;
use vstd::prelude::*;

verus! {

/// The largest magnitude, in thousandths, that a [`Fixed`] holds.
pub const LIMIT: i64 = 0x7fff_ffff_ffff_ffff;

/// A number held as a whole count of thousandths.
///
/// Sums and differences are exact, products and quotients are rounded toward
/// zero to the nearest thousandth, and a result beyond [`LIMIT`] in magnitude
/// is held at the limit with its sign. A quotient by zero is held at the
/// limit with the sign of the dividend, and zero by zero is zero.
#[derive(Clone, Copy, Debug, PartialEq, Eq)]
pub struct Fixed {
    pub milli: i64,
}

/// `x` held within `-LIMIT ..= LIMIT`.
pub open spec fn clamped(x: int) -> i64 {
    if x > LIMIT {
        LIMIT
    } else if x < -LIMIT {
        (-LIMIT) as i64
    } else {
        x as i64
    }
}

/// `x / 1000`, rounded toward zero.
pub open spec fn thousandth(x: int) -> int {
    if x >= 0 {
        x / 1000
    } else {
        -((-x) / 1000)
    }
}

/// `x * 1000 / y`, rounded toward zero, for a `y` that is not zero.
pub open spec fn ratio(x: int, y: int) -> int {
    if (x >= 0) == (y > 0) {
        (magnitude(x) * 1000) / magnitude(y)
    } else {
        -((magnitude(x) * 1000) / magnitude(y))
    }
}

/// The magnitude of `x`.
pub open spec fn magnitude(x: int) -> int {
    if x >= 0 {
        x
    } else {
        -x
    }
}

fn clamp(x: i128) -> (r: i64)
    ensures
        r == clamped(x as int),
{
    if x > LIMIT as i128 {
        LIMIT
    } else if x < -(LIMIT as i128) {
        -LIMIT
    } else {
        x as i64
    }
}

impl Scalar for Fixed {
    open spec fn zero_spec() -> Fixed {
        Fixed { milli: 0 }
    }

    open spec fn one_spec() -> Fixed {
        Fixed { milli: 1000 }
    }

    open spec fn milli_spec(n: i32) -> Fixed {
        Fixed { milli: n as i64 }
    }

    open spec fn plus_spec(self, rhs: Fixed) -> Fixed {
        Fixed { milli: clamped(self.milli + rhs.milli) }
    }

    open spec fn minus_spec(self, rhs: Fixed) -> Fixed {
        Fixed { milli: clamped(self.milli - rhs.milli) }
    }

    open spec fn times_spec(self, rhs: Fixed) -> Fixed {
        Fixed { milli: clamped(thousandth(self.milli * rhs.milli)) }
    }

    open spec fn divided_spec(self, rhs: Fixed) -> Fixed {
        if rhs.milli == 0 {
            Fixed {
                milli: if self.milli > 0 {
                    LIMIT
                } else if self.milli < 0 {
                    (-LIMIT) as i64
                } else {
                    0
                },
            }
        } else {
            Fixed { milli: clamped(ratio(self.milli as int, rhs.milli as int)) }
        }
    }

    open spec fn negated_spec(self) -> Fixed {
        Fixed { milli: clamped(-self.milli) }
    }

    fn zero() -> (r: Fixed) {
        Fixed { milli: 0 }
    }

    fn one() -> (r: Fixed) {
        Fixed { milli: 1000 }
    }

    fn from_milli(n: i32) -> (r: Fixed) {
        Fixed { milli: n as i64 }
    }

    fn plus(self, rhs: Fixed) -> (r: Fixed) {
        Fixed { milli: clamp(self.milli as i128 + rhs.milli as i128) }
    }

    fn minus(self, rhs: Fixed) -> (r: Fixed) {
        Fixed { milli: clamp(self.milli as i128 - rhs.milli as i128) }
    }

    fn times(self, rhs: Fixed) -> (r: Fixed) {
        let a: i128 = self.milli as i128;
        let b: i128 = rhs.milli as i128;
        assert(-0x8000_0000_0000_0000 * 0x8000_0000_0000_0000 <= a * b
            <= 0x8000_0000_0000_0000 * 0x8000_0000_0000_0000) by (nonlinear_arith)
            requires
                -0x8000_0000_0000_0000 <= a <= 0x8000_0000_0000_0000,
                -0x8000_0000_0000_0000 <= b <= 0x8000_0000_0000_0000,
        ;
        let p: i128 = a * b;
        let q: i128 = if p >= 0 {
            p / 1000
        } else {
            -((-p) / 1000)
        };
        Fixed { milli: clamp(q) }
    }

    fn divided(self, rhs: Fixed) -> (r: Fixed) {
        let a: i128 = self.milli as i128;
        let b: i128 = rhs.milli as i128;
        if b == 0 {
            Fixed {
                milli: if a > 0 {
                    LIMIT
                } else if a < 0 {
                    -LIMIT
                } else {
                    0
                },
            }
        } else {
            let x: i128 = if a >= 0 {
                a
            } else {
                -a
            };
            let y: i128 = if b > 0 {
                b
            } else {
                -b
            };
            let q: i128 = (x * 1000) / y;
            assert(0 <= q <= x * 1000) by (nonlinear_arith)
                requires
                    q == (x * 1000) / (y as int),
                    x >= 0,
                    y >= 1,
            ;
            Fixed {
                milli: clamp(
                    if (a >= 0) == (b > 0) {
                        q
                    } else {
                        -q
                    },
                ),
            }
        }
    }

    fn negated(self) -> (r: Fixed) {
        Fixed { milli: clamp(-(self.milli as i128)) }
    }
}

impl Laws for Fixed {
    open spec fn in_range(self) -> bool {
        -LIMIT <= self.milli
    }

    proof fn law_constants(n: i32) {
    }

    proof fn law_closed(a: Fixed, b: Fixed) {
    }

    proof fn law_neutral(a: Fixed) {
    }

    proof fn law_commutes(a: Fixed, b: Fixed) {
    }

    proof fn law_sign(a: Fixed, b: Fixed) {
        let p = a.milli * b.milli;
        assert((-a.milli) * b.milli == -p) by (nonlinear_arith)
            requires
                p == a.milli * b.milli,
        ;
        assert(a.milli * (-b.milli) == -p) by (nonlinear_arith)
            requires
                p == a.milli * b.milli,
        ;
    }
}

} // verus!
