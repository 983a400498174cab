//! The description of a bitstream file.

use vstd::prelude::*;

verus! {

/// A bitstream on disk and what is known about it.
pub struct BitStream {
    bitstream_file: String,
    dtbo: String,
    partial: bool,
    firmware_patch: String,
    timestamp: String,
}

/// What a bitstream description holds.
pub ghost struct BitStreamView {
    /// The path of the bitstream file.
    pub bitstream_file: Seq<char>,
    /// The path of the device-tree overlay that goes with it.
    pub dtbo: Seq<char>,
    /// Whether the bitstream reconfigures only a part of the logic.
    pub partial: bool,
    /// The path of a firmware patch.
    pub firmware_patch: Seq<char>,
    /// When the bitstream was built.
    pub timestamp: Seq<char>,
}

impl View for BitStream {
    type V = BitStreamView;

    closed spec fn view(&self) -> BitStreamView {
        BitStreamView {
            bitstream_file: self.bitstream_file@,
            dtbo: self.dtbo@,
            partial: self.partial,
            firmware_patch: self.firmware_patch@,
            timestamp: self.timestamp@,
        }
    }
}

impl BitStream {
    /// What a new description of the file `bitstream_file` holds: a full
    /// bitstream, with nothing else known about it.
    pub open spec fn new_view(bitstream_file: Seq<char>) -> BitStreamView {
        BitStreamView {
            bitstream_file,
            dtbo: Seq::empty(),
            partial: false,
            firmware_patch: Seq::empty(),
            timestamp: Seq::empty(),
        }
    }

    /// The description of the full bitstream in the file `bitstream_file`,
    /// with nothing else known about it.
    pub fn new(bitstream_file: &str) -> (bitstream: BitStream)
        ensures
            bitstream@ == BitStream::new_view(bitstream_file@),
    {
        BitStream {
            bitstream_file: bitstream_file.to_owned(),
            dtbo: String::new(),
            partial: false,
            firmware_patch: String::new(),
            timestamp: String::new(),
        }
    }

    /// The path of the bitstream file.
    pub fn bitstream_file(&self) -> (path: &str)
        ensures
            path@ == self@.bitstream_file,
    {
        self.bitstream_file.as_str()
    }

    /// Whether the bitstream reconfigures only a part of the logic.
    pub fn partial(&self) -> (partial: bool)
        ensures
            partial == self@.partial,
    {
        self.partial
    }
}

} // verus!
