//! The face on the LED matrix.
//!
//! A frame is 64 bytes, eight rows of eight, one bit per light. All faces
//! share the mouth; they differ in the eyes.

use vstd::prelude::*;

verus! {

/// A face the matrix can show.
#[derive(Debug, Clone, Copy, PartialEq, Eq, Structural, Hash)]
pub enum Face {
    /// Nothing lit.
    Blank,
    /// Both eyes open.
    EyesOpen,
    /// Both eyes shut.
    Blink,
    /// One eye open, one shut.
    Wink,
}

/// Bytes in a frame.
pub const FRAME_BYTES: usize = 64;

/// Milliseconds from one blink to the next.
pub const BLINK_PERIOD_MS: u64 = 5000;

/// Milliseconds the eyes stay shut in a blink.
pub const BLINK_HOLD_MS: u64 = 250;

/// The byte at place `i` of the frame of `face`.
pub open spec fn frame_byte(face: Face, i: int) -> u8 {
    if face == Face::Blank {
        0u8
    } else if i == 0 {
        0x78u8
    } else if i == 3 {
        0x1Eu8
    } else if i == 4 && (face == Face::EyesOpen || face == Face::Wink) {
        0x30u8
    } else if i == 7 && face == Face::EyesOpen {
        0x0Cu8
    } else if i == 33 || i == 34 {
        0xFFu8
    } else if i == 37 {
        0x20u8
    } else if i == 38 {
        0x04u8
    } else if i == 41 {
        0x1Fu8
    } else if i == 42 {
        0xF8u8
    } else {
        0u8
    }
}

/// The frame of `face`.
pub open spec fn frame_of(face: Face) -> Seq<u8> {
    Seq::new(FRAME_BYTES as nat, |i: int| frame_byte(face, i))
}

/// Builds the frame that shows `face`, row by row.
pub fn frame(face: Face) -> (buffer: Vec<u8>)
    ensures
        buffer@ == frame_of(face),
{
    let mut buffer: Vec<u8> = Vec::new();
    let mut i: usize = 0;
    while i < FRAME_BYTES
        invariant
            i <= FRAME_BYTES,
            buffer@.len() == i,
            forall|k: int| 0 <= k < i ==> #[trigger] buffer@[k] == frame_byte(face, k),
        decreases FRAME_BYTES - i,
    {
        let blank = match face {
            Face::Blank => true,
            _ => false,
        };
        let left_open = match face {
            Face::EyesOpen | Face::Wink => true,
            _ => false,
        };
        let right_open = match face {
            Face::EyesOpen => true,
            _ => false,
        };
        let byte: u8 = if blank {
            0
        } else if i == 0 {
            0x78
        } else if i == 3 {
            0x1E
        } else if i == 4 && left_open {
            0x30
        } else if i == 7 && right_open {
            0x0C
        } else if i == 33 || i == 34 {
            0xFF
        } else if i == 37 {
            0x20
        } else if i == 38 {
            0x04
        } else if i == 41 {
            0x1F
        } else if i == 42 {
            0xF8
        } else {
            0
        };
        buffer.push(byte);
        i += 1;
    }
    assert(buffer@ =~= frame_of(face));
    buffer
}

} // verus!
