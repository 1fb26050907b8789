use vstd::prelude::*;

verus! {

/// Whether `c` can be stored in one component of an `IVec3`.
pub open spec fn in_i32(c: int) -> bool {
    i32::MIN <= c <= i32::MAX
}

/// Whether every component of `v` can be stored in an `IVec3`.
pub open spec fn fits(v: (int, int, int)) -> bool {
    in_i32(v.0) && in_i32(v.1) && in_i32(v.2)
}

pub open spec fn add3(a: (int, int, int), b: (int, int, int)) -> (int, int, int) {
    (a.0 + b.0, a.1 + b.1, a.2 + b.2)
}

pub open spec fn sub3(a: (int, int, int), b: (int, int, int)) -> (int, int, int) {
    (a.0 - b.0, a.1 - b.1, a.2 - b.2)
}

pub open spec fn neg3(a: (int, int, int)) -> (int, int, int) {
    (-a.0, -a.1, -a.2)
}

pub open spec fn scale3(a: (int, int, int), k: int) -> (int, int, int) {
    (a.0 * k, a.1 * k, a.2 * k)
}

pub open spec fn dot3(a: (int, int, int), b: (int, int, int)) -> int {
    a.0 * b.0 + a.1 * b.1 + a.2 * b.2
}

pub open spec fn cross3(a: (int, int, int), b: (int, int, int)) -> (int, int, int) {
    (a.1 * b.2 - a.2 * b.1, a.2 * b.0 - a.0 * b.2, a.0 * b.1 - a.1 * b.0)
}

pub open spec fn length_squared3(a: (int, int, int)) -> int {
    dot3(a, a)
}

/// A point or a direction with integer components.
#[derive(Clone, Copy, Debug, PartialEq, Eq, Structural)]
pub struct IVec3 {
    pub x: i32,
    pub y: i32,
    pub z: i32,
}

impl View for IVec3 {
    type V = (int, int, int);

    open spec fn view(&self) -> (int, int, int) {
        (self.x as int, self.y as int, self.z as int)
    }
}

proof fn lemma_product_bound(a: int, b: int)
    requires
        in_i32(a),
        in_i32(b),
    ensures
        -0x4000_0000_0000_0000 <= a * b <= 0x4000_0000_0000_0000,
{
    assert(-0x4000_0000_0000_0000 <= a * b <= 0x4000_0000_0000_0000) by (nonlinear_arith)
        requires
            -0x8000_0000 <= a <= 0x7fff_ffff,
            -0x8000_0000 <= b <= 0x7fff_ffff,
    ;
}

/// The product of two `i32` values, exactly, as an `i64`.
fn wide_mul(a: i32, b: i32) -> (r: i64)
    ensures
        r == a as int * b as int,
{
    proof {
        lemma_product_bound(a as int, b as int);
    }
    a as i64 * b as i64
}

impl IVec3 {
    pub fn new(x: i32, y: i32, z: i32) -> (r: IVec3)
        ensures
            r@ == (x as int, y as int, z as int),
    {
        IVec3 { x, y, z }
    }

    /// The zero vector.
    pub fn origin() -> (r: IVec3)
        ensures
            r@ == (0int, 0int, 0int),
    {
        IVec3 { x: 0, y: 0, z: 0 }
    }

    pub fn length_squared(&self) -> (r: i128)
        ensures
            r == length_squared3(self@),
    {
        self.dot(self)
    }

    pub fn dot(&self, rhs: &IVec3) -> (r: i128)
        ensures
            r == dot3(self@, rhs@),
    {
        let px = wide_mul(self.x, rhs.x) as i128;
        let py = wide_mul(self.y, rhs.y) as i128;
        let pz = wide_mul(self.z, rhs.z) as i128;
        px + py + pz
    }

    pub fn cross(&self, rhs: &IVec3) -> (r: IVec3)
        requires
            fits(cross3(self@, rhs@)),
        ensures
            r@ == cross3(self@, rhs@),
    {
        let x = wide_mul(self.y, rhs.z) - wide_mul(self.z, rhs.y);
        let y = wide_mul(self.z, rhs.x) - wide_mul(self.x, rhs.z);
        let z = wide_mul(self.x, rhs.y) - wide_mul(self.y, rhs.x);
        IVec3 { x: x as i32, y: y as i32, z: z as i32 }
    }

    pub fn add(self, rhs: IVec3) -> (r: IVec3)
        requires
            fits(add3(self@, rhs@)),
        ensures
            r@ == add3(self@, rhs@),
    {
        IVec3 { x: self.x + rhs.x, y: self.y + rhs.y, z: self.z + rhs.z }
    }

    pub fn sub(self, rhs: IVec3) -> (r: IVec3)
        requires
            fits(sub3(self@, rhs@)),
        ensures
            r@ == sub3(self@, rhs@),
    {
        IVec3 { x: self.x - rhs.x, y: self.y - rhs.y, z: self.z - rhs.z }
    }

    pub fn neg(self) -> (r: IVec3)
        requires
            fits(neg3(self@)),
        ensures
            r@ == neg3(self@),
    {
        IVec3 { x: -self.x, y: -self.y, z: -self.z }
    }

    pub fn mul(self, k: i32) -> (r: IVec3)
        requires
            fits(scale3(self@, k as int)),
        ensures
            r@ == scale3(self@, k as int),
    {
        let x = wide_mul(self.x, k);
        let y = wide_mul(self.y, k);
        let z = wide_mul(self.z, k);
        IVec3 { x: x as i32, y: y as i32, z: z as i32 }
    }

    pub fn mul_assign(&mut self, k: i32)
        requires
            fits(scale3(old(self)@, k as int)),
        ensures
            final(self)@ == scale3(old(self)@, k as int),
    {
        *self = self.mul(k);
    }
}

/// The cross product of `u` and `v`.
pub fn cross(u: &IVec3, v: &IVec3) -> (r: IVec3)
    requires
        fits(cross3(u@, v@)),
    ensures
        r@ == cross3(u@, v@),
{
    u.cross(v)
}

/// The dot product of `u` and `v`.
pub fn dot(u: &IVec3, v: &IVec3) -> (r: i128)
    ensures
        r == dot3(u@, v@),
{
    u.dot(v)
}

/// Swapping the operands of a cross product negates it.
pub proof fn lemma_cross_anticommutative(a: (int, int, int), b: (int, int, int))
    ensures
        cross3(a, b) == neg3(cross3(b, a)),
{
    assert(a.1 * b.2 == b.2 * a.1) by (nonlinear_arith);
    assert(a.2 * b.1 == b.1 * a.2) by (nonlinear_arith);
    assert(a.2 * b.0 == b.0 * a.2) by (nonlinear_arith);
    assert(a.0 * b.2 == b.2 * a.0) by (nonlinear_arith);
    assert(a.0 * b.1 == b.1 * a.0) by (nonlinear_arith);
    assert(a.1 * b.0 == b.0 * a.1) by (nonlinear_arith);
}

/// The dot product does not depend on the order of its operands.
pub proof fn lemma_dot_symmetric(a: (int, int, int), b: (int, int, int))
    ensures
        dot3(a, b) == dot3(b, a),
{
    assert(a.0 * b.0 == b.0 * a.0) by (nonlinear_arith);
    assert(a.1 * b.1 == b.1 * a.1) by (nonlinear_arith);
    assert(a.2 * b.2 == b.2 * a.2) by (nonlinear_arith);
}

/// A squared length is never negative, and is zero only for the zero vector.
pub proof fn lemma_length_squared_zero(a: (int, int, int))
    ensures
        length_squared3(a) >= 0,
        length_squared3(a) == 0 <==> a == (0int, 0int, 0int),
{
    let (a0, a1, a2) = a;
    assert(a0 * a0 >= 0 && (a0 * a0 == 0 <==> a0 == 0)) by (nonlinear_arith);
    assert(a1 * a1 >= 0 && (a1 * a1 == 0 <==> a1 == 0)) by (nonlinear_arith);
    assert(a2 * a2 >= 0 && (a2 * a2 == 0 <==> a2 == 0)) by (nonlinear_arith);
}

/// A cross product is orthogonal to both of its operands.
pub proof fn lemma_cross_orthogonal(a: (int, int, int), b: (int, int, int))
    ensures
        dot3(a, cross3(a, b)) == 0,
        dot3(b, cross3(a, b)) == 0,
{
    let (a0, a1, a2) = a;
    let (b0, b1, b2) = b;
    assert(a0 * (a1 * b2 - a2 * b1) + a1 * (a2 * b0 - a0 * b2) + a2 * (a0 * b1 - a1 * b0) == 0)
        by (nonlinear_arith);
    assert(b0 * (a1 * b2 - a2 * b1) + b1 * (a2 * b0 - a0 * b2) + b2 * (a0 * b1 - a1 * b0) == 0)
        by (nonlinear_arith);
}

proof fn lemma_square_of_product(p: int, q: int)
    ensures
        (p * p) * (q * q) == (p * q) * (p * q),
{
    assert((p * p) * (q * q) == (p * q) * (p * q)) by (nonlinear_arith);
}

proof fn lemma_swap_products(p: int, q: int, r: int, t: int)
    ensures
        (p * q) * (r * t) == (p * t) * (r * q),
{
    assert((p * q) * (r * t) == (p * t) * (r * q)) by (nonlinear_arith);
}

/// The squared length of a cross product is the product of the squared
/// lengths of its operands less the square of their dot product.
pub proof fn lemma_cross_length(a: (int, int, int), b: (int, int, int))
    ensures
        length_squared3(cross3(a, b)) == length_squared3(a) * length_squared3(b) - dot3(a, b)
            * dot3(a, b),
{
    let (a0, a1, a2) = a;
    let (b0, b1, b2) = b;
    lemma_square_of_product(a0, b0);
    lemma_square_of_product(a0, b1);
    lemma_square_of_product(a0, b2);
    lemma_square_of_product(a1, b0);
    lemma_square_of_product(a1, b1);
    lemma_square_of_product(a1, b2);
    lemma_square_of_product(a2, b0);
    lemma_square_of_product(a2, b1);
    lemma_square_of_product(a2, b2);
    lemma_swap_products(a0, b0, a1, b1);
    lemma_swap_products(a0, b0, a2, b2);
    lemma_swap_products(a1, b1, a2, b2);
    let (x00, x01, x02) = (a0 * b0, a0 * b1, a0 * b2);
    let (x10, x11, x12) = (a1 * b0, a1 * b1, a1 * b2);
    let (x20, x21, x22) = (a2 * b0, a2 * b1, a2 * b2);
    let (s0, s1, s2) = (a0 * a0, a1 * a1, a2 * a2);
    let (t0, t1, t2) = (b0 * b0, b1 * b1, b2 * b2);
    lemma_square_of_difference(x12, x21);
    lemma_square_of_difference(x20, x02);
    lemma_square_of_difference(x01, x10);
    lemma_sum_times_sum(s0, s1, s2, t0, t1, t2);
    lemma_square_of_sum(x00, x11, x22);
}

proof fn lemma_square_of_difference(p: int, q: int)
    ensures
        (p - q) * (p - q) == p * p + q * q - 2 * (p * q),
        p * q == q * p,
{
    assert((p - q) * (p - q) == p * p + q * q - 2 * (p * q)) by (nonlinear_arith);
    assert(p * q == q * p) by (nonlinear_arith);
}

proof fn lemma_sum_times_sum(p0: int, p1: int, p2: int, q0: int, q1: int, q2: int)
    ensures
        (p0 + p1 + p2) * (q0 + q1 + q2) == p0 * q0 + p0 * q1 + p0 * q2 + p1 * q0 + p1 * q1 + p1
            * q2 + p2 * q0 + p2 * q1 + p2 * q2,
{
    assert((p0 + p1 + p2) * (q0 + q1 + q2) == p0 * q0 + p0 * q1 + p0 * q2 + p1 * q0 + p1 * q1
        + p1 * q2 + p2 * q0 + p2 * q1 + p2 * q2) by (nonlinear_arith);
}

proof fn lemma_square_of_sum(p: int, q: int, r: int)
    ensures
        (p + q + r) * (p + q + r) == p * p + q * q + r * r + 2 * (p * q) + 2 * (p * r) + 2 * (q
            * r),
{
    assert((p + q + r) * (p + q + r) == p * p + q * q + r * r + 2 * (p * q) + 2 * (p * r) + 2 * (q
        * r)) by (nonlinear_arith);
}

} // verus!
