//! Trusted boundary around `ntex_bytes::Bytes`, the shared byte buffer the
//! engine carries payloads in. Verus sees the buffer through `bytes_view`.

use vstd::prelude::*;
use ntex_bytes::Bytes;

verus! {

#[verifier::external_type_specification]
#[verifier::external_body]
pub struct ExBytes(Bytes);

/// The octets a `Bytes` buffer holds.
pub uninterp spec fn bytes_view(b: Bytes) -> Seq<u8>;

/// Relies on ntex_bytes::Bytes::len: the number of octets the buffer holds.
#[verifier::external_body]
pub fn bytes_len(b: &Bytes) -> (r: usize)
    ensures
        r == bytes_view(*b).len(),
{
    b.len()
}

/// Relies on ntex_bytes::Bytes::copy_from_slice: the new buffer holds a copy
/// of the slice.
#[verifier::external_body]
pub fn bytes_from_slice(data: &[u8]) -> (r: Bytes)
    ensures
        bytes_view(r) == data@,
{
    Bytes::copy_from_slice(data)
}

/// Relies on ntex_bytes::Bytes's `Deref` to `[u8]`: the slice view holds
/// exactly the buffer's octets, copied out here into a vector.
#[verifier::external_body]
pub fn bytes_to_vec(b: &Bytes) -> (r: Vec<u8>)
    ensures
        r@ == bytes_view(*b),
{
    b.as_ref().to_vec()
}

/// Relies on ntex_bytes::Bytes::split_to: afterwards the buffer holds the
/// octets from `at` on, and the result holds the first `at` of them.
#[verifier::external_body]
pub fn bytes_split_to(b: &mut Bytes, at: usize) -> (r: Bytes)
    requires
        at <= bytes_view(*old(b)).len(),
    ensures
        bytes_view(r) == bytes_view(*old(b)).take(at as int),
        bytes_view(*final(b)) == bytes_view(*old(b)).skip(at as int),
{
    b.split_to(at)
}

/// Relies on ntex_bytes::Bytes::new: the fresh buffer is empty.
#[verifier::external_body]
pub fn bytes_new() -> (r: Bytes)
    ensures
        bytes_view(r) == Seq::<u8>::empty(),
{
    Bytes::new()
}

} // verus!
