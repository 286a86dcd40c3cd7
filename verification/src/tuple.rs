//! The homogeneous tuple type and its algebra.
//!
//! A tuple holds four fixed-point coordinates `x`, `y`, `z` and a
//! discriminant `w`. A `w` of exactly one whole unit (`SCALE` raw units)
//! marks a point, a `w` of exactly zero marks a vector. The constructors
//! produce no other discriminants, but arithmetic may: negating a point
//! leaves `w` at minus one whole unit, which is neither a point nor a
//! vector. That is deliberate, inherited behaviour, not a defect.

use vstd::prelude::*;

verus! {

/// Raw units in one whole coordinate: a coordinate stores its value
/// scaled by `SCALE`, so `4.3` is written as `4_300_000` raw units.
pub const SCALE: i64 = 1_000_000;

/// Tolerance of approximate equality, in raw units. Two coordinates are
/// close when they differ by strictly less than `EPSILON`; with exact
/// fixed-point arithmetic the smallest representable step is the honest
/// analogue of a machine epsilon, so closeness means agreement to the
/// last raw unit. The strict `<` is kept on purpose: a pair exactly
/// `EPSILON` apart is judged unequal.
pub const EPSILON: i64 = 1;

/// A point or vector in homogeneous coordinates.
#[derive(Clone, Copy, Debug, PartialEq, Eq, Structural)]
pub struct Tuple {
    pub x: i64,
    pub y: i64,
    pub z: i64,
    pub w: i64,
}

/// A geometrically invalid operation. Both variants are programmer-error
/// class failures: nothing is retried and nothing is silently corrected.
#[derive(Clone, Copy, Debug, PartialEq, Eq, Structural)]
pub enum TupleError {
    /// Two points were added; a location plus a location has no meaning.
    InvalidAddition,
    /// A point was subtracted from a vector; a direction minus a
    /// location has no meaning.
    InvalidSubtraction,
}

/// A tuple is a point exactly when its discriminant is one whole unit.
pub open spec fn spec_is_point(t: Tuple) -> bool {
    t.w == SCALE
}

/// A tuple is a vector exactly when its discriminant is zero.
pub open spec fn spec_is_vector(t: Tuple) -> bool {
    t.w == 0
}

/// Two coordinates agree to within strictly less than `EPSILON` raw units.
pub open spec fn coords_close(a: i64, b: i64) -> bool {
    -EPSILON < a - b < EPSILON
}

/// Component-wise approximate equality of two tuples, the discriminant
/// included.
pub open spec fn tuples_close(a: Tuple, b: Tuple) -> bool {
    &&& coords_close(a.x, b.x)
    &&& coords_close(a.y, b.y)
    &&& coords_close(a.z, b.z)
    &&& coords_close(a.w, b.w)
}

/// The component-wise sum of two tuples fits in the coordinate type.
/// A machine limit, not a geometric rule.
pub open spec fn sum_in_range(a: Tuple, b: Tuple) -> bool {
    &&& i64::MIN <= a.x + b.x <= i64::MAX
    &&& i64::MIN <= a.y + b.y <= i64::MAX
    &&& i64::MIN <= a.z + b.z <= i64::MAX
    &&& i64::MIN <= a.w + b.w <= i64::MAX
}

/// The component-wise difference of two tuples fits in the coordinate
/// type. A machine limit, not a geometric rule.
pub open spec fn diff_in_range(a: Tuple, b: Tuple) -> bool {
    &&& i64::MIN <= a.x - b.x <= i64::MAX
    &&& i64::MIN <= a.y - b.y <= i64::MAX
    &&& i64::MIN <= a.z - b.z <= i64::MAX
    &&& i64::MIN <= a.w - b.w <= i64::MAX
}

/// Every negated component fits in the coordinate type; only the single
/// most negative raw value has no negation.
pub open spec fn neg_in_range(a: Tuple) -> bool {
    &&& a.x != i64::MIN
    &&& a.y != i64::MIN
    &&& a.z != i64::MIN
    &&& a.w != i64::MIN
}

/// The component-wise sum of two tuples, every field included.
pub open spec fn spec_add(a: Tuple, b: Tuple) -> Tuple {
    Tuple {
        x: (a.x + b.x) as i64,
        y: (a.y + b.y) as i64,
        z: (a.z + b.z) as i64,
        w: (a.w + b.w) as i64,
    }
}

/// The component-wise difference of two tuples, every field included.
pub open spec fn spec_sub(a: Tuple, b: Tuple) -> Tuple {
    Tuple {
        x: (a.x - b.x) as i64,
        y: (a.y - b.y) as i64,
        z: (a.z - b.z) as i64,
        w: (a.w - b.w) as i64,
    }
}

/// The tuple with every field sign-flipped, the discriminant included.
pub open spec fn spec_neg(a: Tuple) -> Tuple {
    Tuple { x: (-a.x) as i64, y: (-a.y) as i64, z: (-a.z) as i64, w: (-a.w) as i64 }
}

impl Tuple {
    /// Builds a tuple with an explicit discriminant; nothing is validated.
    pub fn new(x: i64, y: i64, z: i64, w: i64) -> (r: Tuple)
        ensures
            r.x == x,
            r.y == y,
            r.z == z,
            r.w == w,
    {
        Tuple { x, y, z, w }
    }

    /// Builds a point: the discriminant is one whole unit.
    pub fn new_point(x: i64, y: i64, z: i64) -> (r: Tuple)
        ensures
            r.x == x,
            r.y == y,
            r.z == z,
            r.w == SCALE,
            spec_is_point(r),
            !spec_is_vector(r),
    {
        Tuple { x, y, z, w: SCALE }
    }

    /// Builds a vector: the discriminant is zero.
    pub fn new_vector(x: i64, y: i64, z: i64) -> (r: Tuple)
        ensures
            r.x == x,
            r.y == y,
            r.z == z,
            r.w == 0,
            spec_is_vector(r),
            !spec_is_point(r),
    {
        Tuple { x, y, z, w: 0 }
    }

    /// The canonical point at the origin.
    pub fn zero() -> (r: Tuple)
        ensures
            r.x == 0,
            r.y == 0,
            r.z == 0,
            r.w == SCALE,
            spec_is_point(r),
    {
        Tuple { x: 0, y: 0, z: 0, w: SCALE }
    }

    /// The canonical point at the origin, under its other customary name.
    pub fn origin() -> (r: Tuple)
        ensures
            r.x == 0,
            r.y == 0,
            r.z == 0,
            r.w == SCALE,
            spec_is_point(r),
    {
        Tuple::new_point(0, 0, 0)
    }

    /// The zero vector.
    pub fn zero_vector() -> (r: Tuple)
        ensures
            r.x == 0,
            r.y == 0,
            r.z == 0,
            r.w == 0,
            spec_is_vector(r),
    {
        Tuple::new_vector(0, 0, 0)
    }

    /// True exactly when the discriminant is one whole unit.
    pub fn is_point(&self) -> (r: bool)
        ensures
            r == spec_is_point(*self),
    {
        self.w == SCALE
    }

    /// True exactly when the discriminant is zero.
    pub fn is_vector(&self) -> (r: bool)
        ensures
            r == spec_is_vector(*self),
    {
        self.w == 0
    }

    /// Component-wise approximate equality: true exactly when every pair
    /// of corresponding coordinates differs by strictly less than
    /// `EPSILON` raw units. The differences are taken in a wider type, so
    /// any two tuples may be compared.
    pub fn approx_eq(&self, other: &Tuple) -> (r: bool)
        ensures
            r == tuples_close(*self, *other),
    {
        let dx: i128 = self.x as i128 - other.x as i128;
        let dy: i128 = self.y as i128 - other.y as i128;
        let dz: i128 = self.z as i128 - other.z as i128;
        let dw: i128 = self.w as i128 - other.w as i128;
        let tol: i128 = EPSILON as i128;
        -tol < dx && dx < tol && -tol < dy && dy < tol && -tol < dz && dz < tol && -tol < dw
            && dw < tol
    }

    /// Component-wise addition. Adding two points is the one invalid
    /// combination and yields `InvalidAddition`; a point plus a vector,
    /// or two vectors, is summed field by field, the discriminant
    /// included.
    pub fn add(&self, rhs: &Tuple) -> (r: Result<Tuple, TupleError>)
        requires
            !(spec_is_point(*self) && spec_is_point(*rhs)) ==> sum_in_range(*self, *rhs),
        ensures
            spec_is_point(*self) && spec_is_point(*rhs) ==> r == Err::<Tuple, TupleError>(
                TupleError::InvalidAddition,
            ),
            !(spec_is_point(*self) && spec_is_point(*rhs)) ==> r == Ok::<Tuple, TupleError>(
                spec_add(*self, *rhs),
            ),
    {
        if self.w == SCALE && rhs.w == SCALE {
            return Err(TupleError::InvalidAddition);
        }
        Ok(
            Tuple {
                x: self.x + rhs.x,
                y: self.y + rhs.y,
                z: self.z + rhs.z,
                w: self.w + rhs.w,
            },
        )
    }

    /// Component-wise subtraction. Taking a point away from a vector is
    /// the one invalid combination and yields `InvalidSubtraction`; every
    /// other pairing is subtracted field by field, which gives the
    /// geometrically correct discriminant on its own (point minus point
    /// is a vector, point minus vector a point, vector minus vector a
    /// vector).
    pub fn sub(&self, rhs: &Tuple) -> (r: Result<Tuple, TupleError>)
        requires
            !(spec_is_vector(*self) && spec_is_point(*rhs)) ==> diff_in_range(*self, *rhs),
        ensures
            spec_is_vector(*self) && spec_is_point(*rhs) ==> r == Err::<Tuple, TupleError>(
                TupleError::InvalidSubtraction,
            ),
            !(spec_is_vector(*self) && spec_is_point(*rhs)) ==> r == Ok::<Tuple, TupleError>(
                spec_sub(*self, *rhs),
            ),
    {
        if self.w == 0 && rhs.w == SCALE {
            return Err(TupleError::InvalidSubtraction);
        }
        Ok(
            Tuple {
                x: self.x - rhs.x,
                y: self.y - rhs.y,
                z: self.z - rhs.z,
                w: self.w - rhs.w,
            },
        )
    }

    /// Sign-flips every field, the discriminant included; negation never
    /// fails. Negating a point leaves the discriminant at minus one whole
    /// unit, so the result is neither a point nor a vector.
    pub fn negate(&self) -> (r: Tuple)
        requires
            neg_in_range(*self),
        ensures
            r == spec_neg(*self),
    {
        Tuple { x: -self.x, y: -self.y, z: -self.z, w: -self.w }
    }
}

/// Approximate equality is reflexive: every tuple is within tolerance of
/// itself.
pub proof fn lemma_approx_eq_reflexive(a: Tuple)
    ensures
        tuples_close(a, a),
{
}

/// No tuple is both a point and a vector: the two discriminants are
/// distinct exact values, so the predicates exclude each other. In
/// particular the results of `new_point` and `new_vector` satisfy exactly
/// one of the two.
pub proof fn lemma_point_vector_exclusive(t: Tuple)
    ensures
        !(spec_is_point(t) && spec_is_vector(t)),
{
}

/// Addition and subtraction are mutual inverses: adding a tuple and then
/// subtracting it again returns the first operand exactly, and hence
/// within tolerance, whenever both operations are defined (the operands
/// are not two points, the sum is not a vector with a point taken away
/// from it, and the sum fits the coordinate type).
pub proof fn lemma_add_sub_round_trip(a: Tuple, b: Tuple)
    requires
        sum_in_range(a, b),
        !(spec_is_point(a) && spec_is_point(b)),
        !(spec_is_vector(spec_add(a, b)) && spec_is_point(b)),
    ensures
        spec_sub(spec_add(a, b), b) == a,
        tuples_close(spec_sub(spec_add(a, b), b), a),
{
}

/// Negation is self-inverse: flipping every sign twice returns the
/// original tuple exactly, and hence within tolerance.
pub proof fn lemma_negate_involutive(a: Tuple)
    requires
        neg_in_range(a),
    ensures
        spec_neg(spec_neg(a)) == a,
        tuples_close(spec_neg(spec_neg(a)), a),
{
}

} // verus!
