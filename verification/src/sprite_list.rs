//! The bounded per-scanline sprite range: the indices of the object-attribute
//! entries found on the current scanline, capped at 32, kept in a
//! fixed-capacity vector of the `arrayvec` crate.

use vstd::prelude::*;

verus! {

/// The indices a sprite range holds, in the order they were found.
pub uninterp spec fn sprite_range_view(v: SpriteRange) -> Seq<u8>;

/// The per-scanline sprite range. Verus sees its contents only through
/// [`sprite_range_view`]; the methods below say what each operation of the
/// backing vector does to that view.
#[verifier::external_body]
pub struct SpriteRange {
    inner: arrayvec::ArrayVec<u8, 32>,
}

impl SpriteRange {
    /// Relies on arrayvec's `ArrayVec::new`: a freshly created vector is empty.
    #[verifier::external_body]
    pub fn new() -> (r: SpriteRange)
        ensures
            sprite_range_view(r) == Seq::<u8>::empty(),
    {
        SpriteRange { inner: arrayvec::ArrayVec::new() }
    }

    /// Relies on arrayvec's `ArrayVec::len`.
    #[verifier::external_body]
    pub fn len(&self) -> (n: usize)
        ensures
            n == sprite_range_view(*self).len(),
    {
        self.inner.len()
    }

    /// Relies on arrayvec's `ArrayVec::try_push`: the element is appended
    /// while the vector is below its capacity of 32, and rejected once it
    /// is full.
    #[verifier::external_body]
    pub fn try_push(&mut self, value: u8) -> (ok: bool)
        ensures
            ok == (sprite_range_view(*old(self)).len() < 32),
            ok ==> sprite_range_view(*final(self)) == sprite_range_view(*old(self)).push(value),
            !ok ==> sprite_range_view(*final(self)) == sprite_range_view(*old(self)),
    {
        self.inner.try_push(value).is_ok()
    }

    /// Relies on arrayvec's `ArrayVec::as_slice` and slice indexing.
    #[verifier::external_body]
    pub fn get(&self, i: usize) -> (r: u8)
        requires
            i < sprite_range_view(*self).len(),
        ensures
            r == sprite_range_view(*self)[i as int],
    {
        self.inner.as_slice()[i]
    }
}

} // verus!
