use vstd::prelude::*;

verus! {

/// The fixed-capacity byte vector that holds one command frame.
pub type Frame = arrayvec::ArrayVec<u8, 4>;

/// Declares `arrayvec::ArrayVec`, held opaque: what a frame holds is
/// `frame_contents`, as the wrappers below state it.
#[verifier::external_type_specification]
#[verifier::external_body]
#[verifier::reject_recursive_types(T)]
pub struct ExArrayVec<T, const CAP: usize>(arrayvec::ArrayVec<T, CAP>);

/// The bytes held by a frame, in order.
pub uninterp spec fn frame_contents(f: arrayvec::ArrayVec<u8, 4>) -> Seq<u8>;

/// Relies on `arrayvec::ArrayVec::new`: the vector starts empty.
#[verifier::external_body]
pub(crate) fn frame_new() -> (r: Frame)
    ensures
        frame_contents(r) == Seq::<u8>::empty(),
{
    arrayvec::ArrayVec::new()
}

/// Relies on `arrayvec::ArrayVec::push`: below capacity, the element is
/// appended after the others (it panics only on a full vector).
#[verifier::external_body]
pub(crate) fn frame_push(f: &mut Frame, b: u8)
    requires
        frame_contents(*old(f)).len() < 4,
    ensures
        frame_contents(*final(f)) == frame_contents(*old(f)).push(b),
{
    f.push(b)
}

} // verus!
