//! Frames: an encoded packet, padded to the fixed width of a slot.
//!
//! What a packet's bytes mean is not this crate's concern. An encoded packet
//! ends in a zero byte and holds no other, so the zeroes that pad it to the
//! slot's width never reach its decoder. Frames are held in buffers of fixed
//! capacity, so that a packet wider than a frame cannot even be handed in.

use vstd::prelude::*;
use crate::codec::{offset_of, slot_of, AXL_POSTCARD_SZ, COLLECTION_SIZE, PACKAGE_SZ};

verus! {

/// `heapless::Vec`, the fixed-capacity buffer that frames are held in.
#[verifier::external_type_specification]
#[verifier::external_body]
#[verifier::reject_recursive_types(T)]
pub struct ExBuffer<T, const N: usize>(heapless::Vec<T, N>);

/// The bytes that a buffer holds.
pub uninterp spec fn frame_bytes(buf: heapless::Vec<u8, AXL_POSTCARD_SZ>) -> Seq<u8>;

/// The frame of an encoded packet: its bytes, then zeroes up to the width of
/// a frame.
pub open spec fn padded(encoded: Seq<u8>) -> Seq<u8>
    recommends
        encoded.len() <= AXL_POSTCARD_SZ,
{
    encoded + Seq::new((AXL_POSTCARD_SZ - encoded.len()) as nat, |i: int| 0u8)
}

/// Bytes brought to the length `len`: cut off where they are longer, filled
/// up with zeroes where they are shorter.
pub open spec fn resized(bytes: Seq<u8>, len: nat) -> Seq<u8> {
    if len <= bytes.len() {
        bytes.subrange(0, len as int)
    } else {
        bytes + Seq::new((len - bytes.len()) as nat, |i: int| 0u8)
    }
}

/// `heapless::Vec::resize_default`: a length beyond the capacity is refused
/// and changes nothing; any other is taken, by cutting the buffer off or by
/// filling it up with the default of its items, which for a byte is zero. A
/// buffer never holds more than its capacity.
#[verifier::external_body]
fn resize_default(buf: &mut heapless::Vec<u8, AXL_POSTCARD_SZ>, len: usize) -> (r: Result<(), ()>)
    ensures
        frame_bytes(*old(buf)).len() <= AXL_POSTCARD_SZ,
        r is Ok <==> len <= AXL_POSTCARD_SZ,
        r is Ok ==> frame_bytes(*final(buf)) == resized(frame_bytes(*old(buf)), len as nat),
        r is Err ==> frame_bytes(*final(buf)) == frame_bytes(*old(buf)),
{
    buf.resize_default(len)
}

/// Pads an encoded packet to a frame: the buffer is filled up to its
/// capacity.
pub fn frame(encoded: heapless::Vec<u8, AXL_POSTCARD_SZ>) -> (f: heapless::Vec<
    u8,
    AXL_POSTCARD_SZ,
>)
    ensures
        frame_bytes(encoded).len() <= AXL_POSTCARD_SZ,
        frame_bytes(f) == padded(frame_bytes(encoded)),
        frame_bytes(f).len() == AXL_POSTCARD_SZ,
{
    let mut f = encoded;
    let filled = resize_default(&mut f, AXL_POSTCARD_SZ);
    assert(filled is Ok);
    assert(frame_bytes(f) =~= padded(frame_bytes(encoded)));
    f
}

/// A frame has the width of a frame and begins with the packet's bytes.
pub proof fn lemma_padded_keeps_packet(encoded: Seq<u8>)
    requires
        encoded.len() <= AXL_POSTCARD_SZ,
    ensures
        padded(encoded).len() == AXL_POSTCARD_SZ,
        padded(encoded).subrange(0, encoded.len() as int) == encoded,
        forall|i: int| encoded.len() <= i < AXL_POSTCARD_SZ ==> padded(encoded)[i] == 0,
{
    assert(padded(encoded).subrange(0, encoded.len() as int) =~= encoded);
}

/// What is written is what is read: in a collection whose slots were filled
/// in order, the frame appended for `id` is the slot found at the offset of
/// `id`, and the file then reaches as far as that slot.
pub proof fn lemma_slot_holds_frame(file: Seq<u8>, id: nat, frame: Seq<u8>)
    requires
        file.len() == offset_of(id),
        frame.len() == PACKAGE_SZ,
    ensures
        (file + frame).len() == offset_of(id) + PACKAGE_SZ,
        (file + frame).subrange(offset_of(id) as int, offset_of(id) + PACKAGE_SZ) == frame,
        slot_of(id) + 1 < COLLECTION_SIZE ==> (file + frame).len() == offset_of(id + 1),
{
    assert((file + frame).subrange(offset_of(id) as int, offset_of(id) + PACKAGE_SZ) =~= frame);
    if slot_of(id) + 1 < COLLECTION_SIZE {
        assert((id + 1) % 100 == id % 100 + 1) by (nonlinear_arith)
            requires
                id % 100 + 1 < 100,
        ;
        assert((slot_of(id) + 1) * 10240 == slot_of(id) * 10240 + 10240) by (nonlinear_arith);
    }
}

} // verus!
