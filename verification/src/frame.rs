//! The binary pose frame.
//!
//! A frame is one tag byte, six numbers of eight bytes each, and six bytes of
//! padding: 55 bytes, whatever the pose. Each number travels as the bit
//! pattern of an IEEE 754 double, least significant byte first.

use vstd::bytes::{lemma_auto_spec_u64_to_from_le_bytes, spec_u64_to_le_bytes, u64_to_le_bytes};
use vstd::prelude::*;

verus! {

/// The length of every frame, in bytes.
pub const FRAME_LEN: usize = 55;

/// The first byte of every frame.
pub const FRAME_TAG: u8 = 0;

/// The number of zero bytes that close a frame.
pub const PADDING_LEN: usize = 6;

/// The six numbers of a frame, in the order in which they travel. Each field
/// holds the bit pattern of a double.
#[derive(Clone, Copy, Debug, PartialEq, Eq, Structural)]
pub struct PoseRecord {
    pub lat_radians: u64,
    pub lon_radians: u64,
    pub alt_meters: u64,
    pub roll_radians: u64,
    pub pitch_radians: u64,
    pub yaw_radians: u64,
}

/// The padding that closes a frame.
pub open spec fn padding() -> Seq<u8> {
    Seq::new(PADDING_LEN as nat, |i: int| 0u8)
}

/// The bytes of the frame that carries `record`.
pub open spec fn frame_bytes(record: PoseRecord) -> Seq<u8> {
    seq![FRAME_TAG] + spec_u64_to_le_bytes(record.lat_radians) + spec_u64_to_le_bytes(
        record.lon_radians,
    ) + spec_u64_to_le_bytes(record.alt_meters) + spec_u64_to_le_bytes(record.roll_radians)
        + spec_u64_to_le_bytes(record.pitch_radians) + spec_u64_to_le_bytes(record.yaw_radians)
        + padding()
}

/// Where the number at place `index` (from 0 to 5) starts in a frame.
pub open spec fn field_offset(index: int) -> int {
    1 + 8 * index
}

/// Every frame has the same length, starts with the tag, holds its six
/// numbers back to back from the second byte on, and ends in zeros.
pub proof fn lemma_frame_layout(record: PoseRecord)
    ensures
        frame_bytes(record).len() == FRAME_LEN,
        frame_bytes(record)[0] == FRAME_TAG,
        frame_bytes(record).subrange(field_offset(0), field_offset(1)) == spec_u64_to_le_bytes(
            record.lat_radians,
        ),
        frame_bytes(record).subrange(field_offset(1), field_offset(2)) == spec_u64_to_le_bytes(
            record.lon_radians,
        ),
        frame_bytes(record).subrange(field_offset(2), field_offset(3)) == spec_u64_to_le_bytes(
            record.alt_meters,
        ),
        frame_bytes(record).subrange(field_offset(3), field_offset(4)) == spec_u64_to_le_bytes(
            record.roll_radians,
        ),
        frame_bytes(record).subrange(field_offset(4), field_offset(5)) == spec_u64_to_le_bytes(
            record.pitch_radians,
        ),
        frame_bytes(record).subrange(field_offset(5), field_offset(6)) == spec_u64_to_le_bytes(
            record.yaw_radians,
        ),
        forall|i: int| field_offset(6) <= i < FRAME_LEN ==> frame_bytes(record)[i] == 0,
{
    lemma_auto_spec_u64_to_from_le_bytes();
    let frame = frame_bytes(record);
    assert(frame.subrange(1, 9) =~= spec_u64_to_le_bytes(record.lat_radians));
    assert(frame.subrange(9, 17) =~= spec_u64_to_le_bytes(record.lon_radians));
    assert(frame.subrange(17, 25) =~= spec_u64_to_le_bytes(record.alt_meters));
    assert(frame.subrange(25, 33) =~= spec_u64_to_le_bytes(record.roll_radians));
    assert(frame.subrange(33, 41) =~= spec_u64_to_le_bytes(record.pitch_radians));
    assert(frame.subrange(41, 49) =~= spec_u64_to_le_bytes(record.yaw_radians));
}

/// Encodes `record` as a frame.
pub fn encode_frame(record: &PoseRecord) -> (frame: Vec<u8>)
    ensures
        frame@ == frame_bytes(*record),
        frame@.len() == FRAME_LEN,
{
    let mut frame: Vec<u8> = Vec::new();
    frame.push(FRAME_TAG);
    let mut lat = u64_to_le_bytes(record.lat_radians);
    frame.append(&mut lat);
    let mut lon = u64_to_le_bytes(record.lon_radians);
    frame.append(&mut lon);
    let mut alt = u64_to_le_bytes(record.alt_meters);
    frame.append(&mut alt);
    let mut roll = u64_to_le_bytes(record.roll_radians);
    frame.append(&mut roll);
    let mut pitch = u64_to_le_bytes(record.pitch_radians);
    frame.append(&mut pitch);
    let mut yaw = u64_to_le_bytes(record.yaw_radians);
    frame.append(&mut yaw);
    let ghost body = frame@;
    let mut i: usize = 0;
    assert(frame@ =~= body + Seq::new(0, |k: int| 0u8));
    while i < PADDING_LEN
        invariant
            i <= PADDING_LEN,
            frame@ == body + Seq::new(i as nat, |k: int| 0u8),
        decreases PADDING_LEN - i,
    {
        frame.push(0);
        i += 1;
        assert(frame@ =~= body + Seq::new(i as nat, |k: int| 0u8));
    }
    proof {
        lemma_frame_layout(*record);
    }
    frame
}

} // verus!
