use vstd::prelude::*;

use crate::vec3::{
    cross3, dot3, fits, length_squared3, lemma_cross_length, lemma_cross_orthogonal,
    lemma_dot_symmetric, lemma_length_squared_zero, sub3, IVec3,
};

verus! {

/// The axes a camera derives from where it stands, where it looks and which
/// way is up, before they are scaled to unit length: `w` points from the
/// target back to the eye, `u` to the right and `v` upwards.
#[derive(Clone, Copy, Debug, PartialEq, Eq, Structural)]
pub struct ViewBasis {
    pub u: IVec3,
    pub v: IVec3,
    pub w: IVec3,
}

/// Backward axis: from the target to the eye.
pub open spec fn back_axis(look_from: (int, int, int), look_at: (int, int, int)) -> (int, int, int) {
    sub3(look_from, look_at)
}

/// Right axis: `up × w`.
pub open spec fn right_axis(
    look_from: (int, int, int),
    look_at: (int, int, int),
    up: (int, int, int),
) -> (int, int, int) {
    cross3(up, back_axis(look_from, look_at))
}

/// Up axis of the view: `w × u`.
pub open spec fn up_axis(
    look_from: (int, int, int),
    look_at: (int, int, int),
    up: (int, int, int),
) -> (int, int, int) {
    cross3(back_axis(look_from, look_at), right_axis(look_from, look_at, up))
}

/// Whether every axis of the basis can be stored in an `IVec3`.
pub open spec fn basis_fits(
    look_from: (int, int, int),
    look_at: (int, int, int),
    up: (int, int, int),
) -> bool {
    &&& fits(back_axis(look_from, look_at))
    &&& fits(right_axis(look_from, look_at, up))
    &&& fits(up_axis(look_from, look_at, up))
}

pub open spec fn is_zero(a: (int, int, int)) -> bool {
    a == (0int, 0int, 0int)
}

impl ViewBasis {
    /// Builds the basis; the axes are pairwise orthogonal, and the length of
    /// `v` is the product of the lengths of `w` and `u`, so that scaling `w`
    /// and `u` to unit length leaves `v` of unit length too.
    pub fn new(look_from: IVec3, look_at: IVec3, up: IVec3) -> (r: ViewBasis)
        requires
            basis_fits(look_from@, look_at@, up@),
        ensures
            r.w@ == back_axis(look_from@, look_at@),
            r.u@ == right_axis(look_from@, look_at@, up@),
            r.v@ == up_axis(look_from@, look_at@, up@),
            dot3(r.u@, r.v@) == 0,
            dot3(r.u@, r.w@) == 0,
            dot3(r.v@, r.w@) == 0,
            length_squared3(r.v@) == length_squared3(r.w@) * length_squared3(r.u@),
    {
        let w = look_from.sub(look_at);
        let u = up.cross(&w);
        let v = w.cross(&u);
        proof {
            lemma_cross_orthogonal(up@, w@);
            lemma_cross_orthogonal(w@, u@);
            lemma_cross_length(w@, u@);
            lemma_dot_symmetric(u@, w@);
            lemma_dot_symmetric(v@, w@);
        }
        ViewBasis { u, v, w }
    }
}

/// A basis built from an eye apart from its target and an up direction not
/// parallel to the line of sight has no zero axis.
pub proof fn lemma_basis_nondegenerate(
    look_from: (int, int, int),
    look_at: (int, int, int),
    up: (int, int, int),
)
    requires
        look_from != look_at,
        !is_zero(right_axis(look_from, look_at, up)),
    ensures
        !is_zero(back_axis(look_from, look_at)),
        !is_zero(up_axis(look_from, look_at, up)),
{
    let w = back_axis(look_from, look_at);
    let u = right_axis(look_from, look_at, up);
    let v = up_axis(look_from, look_at, up);
    lemma_cross_orthogonal(up, w);
    lemma_dot_symmetric(u, w);
    lemma_cross_length(w, u);
    lemma_length_squared_zero(w);
    lemma_length_squared_zero(u);
    lemma_length_squared_zero(v);
    let (lw, lu) = (length_squared3(w), length_squared3(u));
    assert(lw * lu > 0) by (nonlinear_arith)
        requires
            lw > 0,
            lu > 0,
    ;
}

} // verus!
