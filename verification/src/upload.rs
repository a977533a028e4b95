//! The bytes that a buffer of 32-bit lanes occupies in memory.

use vstd::prelude::*;

verus! {

/// The four bytes of `lane`, least significant first.
pub open spec fn le_bytes(lane: u32) -> Seq<u8> {
    seq![
        (lane % 256) as u8,
        ((lane / 256) % 256) as u8,
        ((lane / 65536) % 256) as u8,
        (lane / 16777216) as u8,
    ]
}

/// The four bytes of `lane`, most significant first.
pub open spec fn be_bytes(lane: u32) -> Seq<u8> {
    seq![
        (lane / 16777216) as u8,
        ((lane / 65536) % 256) as u8,
        ((lane / 256) % 256) as u8,
        (lane % 256) as u8,
    ]
}

/// The lanes in order, each as its four bytes, least significant first.
pub open spec fn lanes_le(lanes: Seq<u32>) -> Seq<u8> {
    Seq::new(4 * lanes.len(), |i: int| le_bytes(lanes[i / 4])[i % 4])
}

/// The lanes in order, each as its four bytes, most significant first.
pub open spec fn lanes_be(lanes: Seq<u32>) -> Seq<u8> {
    Seq::new(4 * lanes.len(), |i: int| be_bytes(lanes[i / 4])[i % 4])
}

/// The bytes of the lanes in the byte order of some machine: the lanes in
/// order, all of them least significant byte first or all of them most
/// significant byte first.
pub open spec fn is_memory_image(bytes: Seq<u8>, lanes: Seq<u32>) -> bool {
    bytes == lanes_le(lanes) || bytes == lanes_be(lanes)
}

/// Calls `bytemuck::cast_slice` from `u32` to `u8` and copies the result.
///
/// Trusted: the cast hands back the memory that the lanes occupy, which for
/// `u32` is four bytes per lane in the machine's byte order. The contract does
/// not say which of the two orders the machine has. The cast cannot fail,
/// since `u8` has alignment 1 and its size divides that of `u32`.
#[verifier::external_body]
pub(crate) fn cast_lanes(lanes: &[u32]) -> (bytes: Vec<u8>)
    ensures
        is_memory_image(bytes@, lanes@),
{
    bytemuck::cast_slice::<u32, u8>(lanes).to_vec()
}

} // verus!
