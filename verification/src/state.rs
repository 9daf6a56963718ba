//! Decoding the classic-controller snapshot out of the shared data region.
//!
//! The wider plugin's peer side deposits a fixed binary layout into the data
//! payload: one byte per button or flag (nonzero means pressed) in bytes
//! `[0, 15)`, one padding byte, then two little-endian signed spinner pairs —
//! a 16-bit delta and a 32-bit position for each player. This layer only
//! reads that layout; producing it is the data producer's business.

use vstd::prelude::*;

verus! {

/// The byte at `i`, or zero where the layout ends early (a short region reads
/// as zeros, as the producer would have left it).
pub open spec fn byte_at(data: Seq<u8>, i: int) -> u8 {
    if 0 <= i < data.len() {
        data[i]
    } else {
        0
    }
}

/// The little-endian 16-bit value at `off`.
pub open spec fn le16_at(data: Seq<u8>, off: int) -> u16 {
    (byte_at(data, off) as u16) | (byte_at(data, off + 1) as u16) << 8
}

/// The little-endian 32-bit value at `off`.
pub open spec fn le32_at(data: Seq<u8>, off: int) -> u32 {
    (byte_at(data, off) as u32) | (byte_at(data, off + 1) as u32) << 8 | (byte_at(data, off + 2)
        as u32) << 16 | (byte_at(data, off + 3) as u32) << 24
}

/// The two's-complement reading of a 16-bit pattern.
pub open spec fn as_signed_16(v: u16) -> int {
    if v < 0x8000 {
        v as int
    } else {
        v - 0x10000
    }
}

/// The two's-complement reading of a 32-bit pattern.
pub open spec fn as_signed_32(v: u32) -> int {
    if v < 0x80000000 {
        v as int
    } else {
        v - 0x100000000
    }
}

/// One snapshot of the classic controller, as read from the data region.
#[derive(Clone, Copy, Debug, PartialEq, Eq, Structural)]
pub struct ControllerState {
    pub connected: bool,
    pub system_one_player: bool,
    pub system_two_player: bool,
    pub player1_up: bool,
    pub player1_down: bool,
    pub player1_left: bool,
    pub player1_right: bool,
    pub player1_a: bool,
    pub player1_b: bool,
    pub player2_up: bool,
    pub player2_down: bool,
    pub player2_left: bool,
    pub player2_right: bool,
    pub player2_a: bool,
    pub player2_b: bool,
    pub player1_spinner_delta: i16,
    pub player1_spinner_position: i32,
    pub player2_spinner_delta: i16,
    pub player2_spinner_position: i32,
}

/// The byte, or zero where `i + d` runs past the layout.
fn byte_or_zero(data: &Vec<u8>, i: usize, d: usize) -> (r: u8)
    ensures
        r == byte_at(data@, i + d),
{
    let n = data.len();
    if d < n && i < n - d {
        data[i + d]
    } else {
        0
    }
}

/// Read the little-endian signed 16-bit value at `offset`; bytes past the end
/// of the layout read as zero.
pub fn read_i16(data: &Vec<u8>, offset: usize) -> (r: i16)
    ensures
        r as int == as_signed_16(le16_at(data@, offset as int)),
{
    let b0 = byte_or_zero(data, offset, 0);
    let b1 = byte_or_zero(data, offset, 1);
    let u: u16 = (b0 as u16) | (b1 as u16) << 8;
    proof {
        assert(u == le16_at(data@, offset as int));
    }
    if u < 0x8000 {
        u as i16
    } else {
        -((0xffffu16 - u) as i16) - 1
    }
}

/// Read the little-endian signed 32-bit value at `offset`; bytes past the end
/// of the layout read as zero.
pub fn read_i32(data: &Vec<u8>, offset: usize) -> (r: i32)
    ensures
        r as int == as_signed_32(le32_at(data@, offset as int)),
{
    let b0 = byte_or_zero(data, offset, 0);
    let b1 = byte_or_zero(data, offset, 1);
    let b2 = byte_or_zero(data, offset, 2);
    let b3 = byte_or_zero(data, offset, 3);
    let u: u32 = (b0 as u32) | (b1 as u32) << 8 | (b2 as u32) << 16 | (b3 as u32) << 24;
    proof {
        assert(u == le32_at(data@, offset as int));
    }
    if u < 0x80000000 {
        u as i32
    } else {
        -((0xffffffffu32 - u) as i32) - 1
    }
}

impl ControllerState {
    /// Decode one snapshot from a copy of the data region.
    ///
    /// The fifteen button and flag bytes must be present; the spinner fields
    /// read as zero where the region ends early.
    pub fn decode(data: &Vec<u8>) -> (s: ControllerState)
        requires
            data@.len() >= 15,
        ensures
            s.connected == (data@[0] != 0),
            s.system_one_player == (data@[1] != 0),
            s.system_two_player == (data@[2] != 0),
            s.player1_up == (data@[3] != 0),
            s.player1_down == (data@[4] != 0),
            s.player1_left == (data@[5] != 0),
            s.player1_right == (data@[6] != 0),
            s.player1_a == (data@[7] != 0),
            s.player1_b == (data@[8] != 0),
            s.player2_up == (data@[9] != 0),
            s.player2_down == (data@[10] != 0),
            s.player2_left == (data@[11] != 0),
            s.player2_right == (data@[12] != 0),
            s.player2_a == (data@[13] != 0),
            s.player2_b == (data@[14] != 0),
            s.player1_spinner_delta as int == as_signed_16(le16_at(data@, 16)),
            s.player1_spinner_position as int == as_signed_32(le32_at(data@, 18)),
            s.player2_spinner_delta as int == as_signed_16(le16_at(data@, 22)),
            s.player2_spinner_position as int == as_signed_32(le32_at(data@, 24)),
    {
        ControllerState {
            connected: data[0] != 0,
            system_one_player: data[1] != 0,
            system_two_player: data[2] != 0,
            player1_up: data[3] != 0,
            player1_down: data[4] != 0,
            player1_left: data[5] != 0,
            player1_right: data[6] != 0,
            player1_a: data[7] != 0,
            player1_b: data[8] != 0,
            player2_up: data[9] != 0,
            player2_down: data[10] != 0,
            player2_left: data[11] != 0,
            player2_right: data[12] != 0,
            player2_a: data[13] != 0,
            player2_b: data[14] != 0,
            player1_spinner_delta: read_i16(data, 16),
            player1_spinner_position: read_i32(data, 18),
            player2_spinner_delta: read_i16(data, 22),
            player2_spinner_position: read_i32(data, 24),
        }
    }
}

} // verus!
