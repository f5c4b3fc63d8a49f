use vstd::prelude::*;

verus! {

/// Four numbers: a point or direction in homogeneous coordinates, or one
/// row of a [`Mat4`].
#[derive(Copy, Debug, PartialEq)]
pub struct Vec4<S>(pub S, pub S, pub S, pub S);

/// A 4x4 matrix as four rows.
#[derive(Copy, Debug, PartialEq)]
pub struct Mat4<S>(pub Vec4<S>, pub Vec4<S>, pub Vec4<S>, pub Vec4<S>);

impl<S: Copy> Clone for Vec4<S> {
    fn clone(&self) -> (copy: Self)
        ensures
            copy == *self,
    {
        *self
    }
}

impl<S: Copy> Clone for Mat4<S> {
    fn clone(&self) -> (copy: Self)
        ensures
            copy == *self,
    {
        *self
    }
}

impl<S> Vec4<S> {
    /// The number at place `i`, counted from 0.
    pub open spec fn at(self, i: int) -> S {
        if i == 0 {
            self.0
        } else if i == 1 {
            self.1
        } else if i == 2 {
            self.2
        } else {
            self.3
        }
    }
}

impl<S> Mat4<S> {
    /// Row `r`, counted from 0.
    pub open spec fn row(self, r: int) -> Vec4<S> {
        if r == 0 {
            self.0
        } else if r == 1 {
            self.1
        } else if r == 2 {
            self.2
        } else {
            self.3
        }
    }

    /// The number in row `r` and column `c`, both counted from 0.
    pub open spec fn at(self, r: int, c: int) -> S {
        self.row(r).at(c)
    }

    /// The matrix mirrored at its diagonal.
    pub open spec fn transposed(self) -> Self {
        Mat4(
            Vec4(self.0.0, self.1.0, self.2.0, self.3.0),
            Vec4(self.0.1, self.1.1, self.2.1, self.3.1),
            Vec4(self.0.2, self.1.2, self.2.2, self.3.2),
            Vec4(self.0.3, self.1.3, self.2.3, self.3.3),
        )
    }

    /// The matrix with `d` on the diagonal, `t` in the last column above
    /// `one`, and `zero` elsewhere.
    pub open spec fn affine(d: (S, S, S), t: (S, S, S), zero: S, one: S) -> Self {
        Mat4(
            Vec4(d.0, zero, zero, t.0),
            Vec4(zero, d.1, zero, t.1),
            Vec4(zero, zero, d.2, t.2),
            Vec4(zero, zero, zero, one),
        )
    }
}

impl<S: Copy> Mat4<S> {
    /// The matrix that changes nothing, made of the numbers given for 0 and
    /// 1.
    pub fn identity(zero: S, one: S) -> (m: Self)
        ensures
            m == Self::affine((one, one, one), (zero, zero, zero), zero, one),
            forall|r: int, c: int|
                0 <= r < 4 && 0 <= c < 4 ==> #[trigger] m.at(r, c) == (if r == c {
                    one
                } else {
                    zero
                }),
    {
        Mat4(
            Vec4(one, zero, zero, zero),
            Vec4(zero, one, zero, zero),
            Vec4(zero, zero, one, zero),
            Vec4(zero, zero, zero, one),
        )
    }

    /// The matrix that scales by `sx`, `sy`, `sz` along the axes.
    pub fn scale(sx: S, sy: S, sz: S, zero: S, one: S) -> (m: Self)
        ensures
            m == Self::affine((sx, sy, sz), (zero, zero, zero), zero, one),
    {
        Mat4(
            Vec4(sx, zero, zero, zero),
            Vec4(zero, sy, zero, zero),
            Vec4(zero, zero, sz, zero),
            Vec4(zero, zero, zero, one),
        )
    }

    /// The matrix that moves by `tx`, `ty`, `tz`: the offsets stand in the
    /// last column.
    pub fn translate(tx: S, ty: S, tz: S, zero: S, one: S) -> (m: Self)
        ensures
            m == Self::affine((one, one, one), (tx, ty, tz), zero, one),
            m.at(0, 3) == tx,
            m.at(1, 3) == ty,
            m.at(2, 3) == tz,
    {
        Mat4(
            Vec4(one, zero, zero, tx),
            Vec4(zero, one, zero, ty),
            Vec4(zero, zero, one, tz),
            Vec4(zero, zero, zero, one),
        )
    }

    /// The matrix mirrored at its diagonal: rows become columns.
    pub fn transpose(mat: &Mat4<S>) -> (t: Self)
        ensures
            t == mat.transposed(),
            forall|r: int, c: int| 0 <= r < 4 && 0 <= c < 4 ==> #[trigger] t.at(r, c) == mat.at(c, r),
    {
        let r1 = Vec4(mat.0.0, mat.1.0, mat.2.0, mat.3.0);
        let r2 = Vec4(mat.0.1, mat.1.1, mat.2.1, mat.3.1);
        let r3 = Vec4(mat.0.2, mat.1.2, mat.2.2, mat.3.2);
        let r4 = Vec4(mat.0.3, mat.1.3, mat.2.3, mat.3.3);
        Mat4(r1, r2, r3, r4)
    }

    /// Mirrors the matrix at its diagonal in place.
    pub fn transpose_me(&mut self)
        ensures
            *final(self) == old(self).transposed(),
    {
        let r1 = Vec4(self.0.0, self.1.0, self.2.0, self.3.0);
        let r2 = Vec4(self.0.1, self.1.1, self.2.1, self.3.1);
        let r3 = Vec4(self.0.2, self.1.2, self.2.2, self.3.2);
        let r4 = Vec4(self.0.3, self.1.3, self.2.3, self.3.3);
        self.0 = r1;
        self.1 = r2;
        self.2 = r3;
        self.3 = r4;
    }
}

/// Mirroring swaps row and column of every number, and mirroring twice
/// gives the matrix back.
pub proof fn lemma_transposed<S>(m: Mat4<S>)
    ensures
        forall|r: int, c: int|
            0 <= r < 4 && 0 <= c < 4 ==> #[trigger] m.transposed().at(r, c) == m.at(c, r),
        m.transposed().transposed() == m,
{
}

/// A matrix without offsets, such as the identity or a scaling, is its own
/// mirror image.
pub proof fn lemma_diagonal_is_symmetric<S>(d: (S, S, S), zero: S, one: S)
    ensures
        Mat4::affine(d, (zero, zero, zero), zero, one).transposed() == Mat4::affine(
            d,
            (zero, zero, zero),
            zero,
            one,
        ),
{
}

} // verus!
