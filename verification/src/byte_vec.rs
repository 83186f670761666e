//! The fixed-capacity byte vector that minimal encodings are returned in.
//!
//! The vector is `arrayvec::ArrayVec<u8, 8>`. Verus does not read that crate:
//! what this file states of it is taken on trust from its source.

use arrayvec::ArrayVec;
use vstd::prelude::*;

verus! {

/// `arrayvec::ArrayVec`, carried as an opaque value.
#[verifier::external_type_specification]
#[verifier::external_body]
#[verifier::reject_recursive_types(T)]
pub struct ExArrayVec<T, const CAP: usize>(ArrayVec<T, CAP>);

/// The bytes that a vector holds, in index order.
pub uninterp spec fn held_bytes(vec: ArrayVec<u8, 8>) -> Seq<u8>;

/// `ArrayVec::new`: the new vector holds nothing.
#[verifier::external_body]
pub(crate) fn byte_vec_new() -> (vec: ArrayVec<u8, 8>)
    ensures
        held_bytes(vec) == Seq::<u8>::empty(),
{
    ArrayVec::new()
}

/// `ArrayVec::push`: the byte is appended behind those already held. The
/// outside function panics on a full vector, so a full vector is not admitted.
#[verifier::external_body]
pub(crate) fn byte_vec_push(vec: &mut ArrayVec<u8, 8>, byte: u8)
    requires
        held_bytes(*old(vec)).len() < 8,
    ensures
        held_bytes(*final(vec)) == held_bytes(*old(vec)).push(byte),
{
    vec.push(byte)
}

/// `ArrayVec::as_slice`: the slice shows the bytes held, in index order.
#[verifier::external_body]
pub(crate) fn byte_vec_as_slice(vec: &ArrayVec<u8, 8>) -> (bytes: &[u8])
    ensures
        bytes@ == held_bytes(*vec),
{
    vec.as_slice()
}

} // verus!
