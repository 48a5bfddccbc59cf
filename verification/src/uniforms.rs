//! The block of per-frame values handed to the fragment stage, and its layout
//! in bytes.

use vstd::prelude::*;
use crate::single::{single_of, Single};
use crate::swapchain::Extent;

verus! {

/// The number of bytes of the payload: twenty-two scalars of four bytes.
pub const PAYLOAD_LEN: usize = 88;

/// The per-frame values of the shader: the view matrix, the position of the
/// camera padded to four scalars, and the resolution of the viewport in pixels.
#[derive(Clone, Copy, Debug, PartialEq, Eq)]
pub struct Constants {
    pub view_matrix: [[Single; 4]; 4],
    pub camera_position: [Single; 4],
    pub resolution: [Single; 2],
}

/// Byte `k` of a word, counted from the least significant.
pub open spec fn byte_of(word: u32, k: int) -> u8 {
    if k == 0 {
        (word % 0x100) as u8
    } else if k == 1 {
        (word / 0x100 % 0x100) as u8
    } else if k == 2 {
        (word / 0x1_0000 % 0x100) as u8
    } else {
        (word / 0x100_0000) as u8
    }
}

impl Constants {
    /// The scalars in the order the shader reads them: the sixteen of the
    /// matrix, outer index first; the four of the position; the two of the
    /// resolution.
    pub open spec fn words(self) -> Seq<u32> {
        Seq::new(
            22,
            |i: int|
                if i < 16 {
                    self.view_matrix[i / 4][i % 4].bits
                } else if i < 20 {
                    self.camera_position[i - 16].bits
                } else {
                    self.resolution[i - 20].bits
                },
        )
    }

    /// The payload: the scalars in order, each as four bytes, least
    /// significant first.
    pub open spec fn payload(self) -> Seq<u8> {
        Seq::new(88, |i: int| byte_of(self.words()[i / 4], i % 4))
    }

    /// The values of a frame: the matrix as given, the position followed by a
    /// zero, and the resolution of a viewport of the given extent.
    pub open spec fn frame(view_matrix: [[Single; 4]; 4], position: [Single; 3], extent: Extent) -> Constants {
        Constants {
            view_matrix,
            camera_position: [position[0], position[1], position[2], Single { bits: 0 }],
            resolution: [
                Single { bits: single_of(extent.width as nat) as u32 },
                Single { bits: single_of(extent.height as nat) as u32 },
            ],
        }
    }

    /// Puts together the values of a frame from the camera and the viewport.
    pub fn new(view_matrix: [[Single; 4]; 4], position: [Single; 3], extent: Extent) -> (block:
        Constants)
        ensures
            block == Constants::frame(view_matrix, position, extent),
    {
        Constants {
            view_matrix,
            camera_position: [position[0], position[1], position[2], Single { bits: 0 }],
            resolution: [Single::from_u32(extent.width), Single::from_u32(extent.height)],
        }
    }

    /// Lays the block out as the bytes that are pushed to the shader.
    pub fn to_bytes(&self) -> (bytes: Vec<u8>)
        ensures
            bytes@ == self.payload(),
            bytes@.len() == PAYLOAD_LEN,
    {
        let mut bytes: Vec<u8> = Vec::new();
        let mut i: usize = 0;
        while i < 22
            invariant
                i <= 22,
                bytes@.len() == 4 * i,
                forall|j: int| 0 <= j < 4 * i ==> bytes@[j] == self.payload()[j],
            decreases 22 - i,
        {
            let word: u32 = if i < 16 {
                self.view_matrix[i / 4][i % 4].bits
            } else if i < 20 {
                self.camera_position[i - 16].bits
            } else {
                self.resolution[i - 20].bits
            };
            assert(word == self.words()[i as int]);
            bytes.push((word % 0x100) as u8);
            bytes.push((word / 0x100 % 0x100) as u8);
            bytes.push((word / 0x1_0000 % 0x100) as u8);
            bytes.push((word / 0x100_0000) as u8);
            i += 1;
        }
        assert(bytes@ =~= self.payload());
        bytes
    }
}

} // verus!
