use vstd::prelude::*;

verus! {

/// Number of fixed-point steps in one world unit: positions, velocities and
/// direction vectors are stored as integer multiples of 1/1000 of a unit.
pub const MILLI: i64 = 1000;

/// Largest magnitude `mul_milli` accepts; the raw product of two operands
/// this size still fits comfortably in an `i64`.
pub const MUL_LIMIT: i64 = 1_000_000_000;

/// A fixed-point plane vector, components in milli-units.
#[derive(Clone, Copy, Debug, PartialEq, Eq, Structural)]
pub struct Vec2 {
    pub x: i64,
    pub y: i64,
}

/// A fixed-point space vector, components in milli-units.
#[derive(Clone, Copy, Debug, PartialEq, Eq, Structural)]
pub struct Vec3 {
    pub x: i64,
    pub y: i64,
    pub z: i64,
}

impl Vec2 {
    /// Both components lie within one world unit, as a normalized input does.
    pub open spec fn in_unit_range(self) -> bool {
        &&& -MILLI <= self.x <= MILLI
        &&& -MILLI <= self.y <= MILLI
    }

    /// Whether the vector is exactly zero.
    pub open spec fn is_zero(self) -> bool {
        self.x == 0 && self.y == 0
    }
}

impl Vec3 {
    /// The zero vector.
    pub open spec fn zero_spec() -> Vec3 {
        Vec3 { x: 0, y: 0, z: 0 }
    }

    /// Builds the zero vector.
    pub fn zero() -> (v: Vec3)
        ensures
            v == Vec3::zero_spec(),
    {
        Vec3 { x: 0, y: 0, z: 0 }
    }

    /// All components lie within one world unit, as a unit direction does.
    pub open spec fn in_unit_range(self) -> bool {
        &&& -MILLI <= self.x <= MILLI
        &&& -MILLI <= self.y <= MILLI
        &&& -MILLI <= self.z <= MILLI
    }
}

/// Division by 1000 rounding toward zero: the scale-back step of a
/// fixed-point product.
pub open spec fn scale_down(x: int) -> int {
    if x >= 0 {
        x / 1000
    } else {
        -((-x) / 1000)
    }
}

/// The fixed-point product of two milli-unit quantities:
/// `(a * b) / 1000`, rounded toward zero.
pub open spec fn milli_mul(a: int, b: int) -> int {
    scale_down(a * b)
}

/// When `|a| <= bound_a` and `|b| <= bound_b`, the scaled product stays
/// within `bound_a * bound_b / 1000` on either side.
pub proof fn lemma_milli_mul_bound(a: int, b: int, bound_a: int, bound_b: int)
    by (nonlinear_arith)
    requires
        -bound_a <= a <= bound_a,
        -bound_b <= b <= bound_b,
        0 <= bound_a,
        0 <= bound_b,
    ensures
        -(bound_a * bound_b) <= 1000 * milli_mul(a, b) <= bound_a * bound_b,
{
}

/// Fixed-point multiply: operands and result in milli-units, rounded
/// toward zero.
pub fn mul_milli(a: i64, b: i64) -> (r: i64)
    requires
        -MUL_LIMIT <= a <= MUL_LIMIT,
        -MUL_LIMIT <= b <= MUL_LIMIT,
    ensures
        r == milli_mul(a as int, b as int),
{
    proof {
        assert(-1_000_000_000_000_000_000 <= (a as int) * (b as int) <= 1_000_000_000_000_000_000)
            by (nonlinear_arith)
            requires
                -MUL_LIMIT <= a <= MUL_LIMIT,
                -MUL_LIMIT <= b <= MUL_LIMIT,
        ;
    }
    let p: i64 = a * b;
    proof {
        if p >= 0 {
            assert(0 <= p as int / 1000 <= p) by (nonlinear_arith)
                requires
                    p >= 0,
            ;
        } else {
            assert(0 <= (-(p as int)) / 1000 <= -(p as int)) by (nonlinear_arith)
                requires
                    p < 0,
            ;
        }
    }
    p.checked_div(1000).unwrap()
}

} // verus!
