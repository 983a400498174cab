//! Overlays: a bitstream together with the blocks it puts into the logic.

use vstd::prelude::*;
use std::rc::Rc;
use crate::bitstream::{BitStream, BitStreamView};
use crate::mmio::{Mmio, MapOp, MapOpView, MapStage, Window};
use crate::sys::RegWrite;
use crate::text::same_text;

verus! {

/// A block of the programmable logic that is driven through registers.
///
/// A block does not access its registers itself: it names the accesses, and
/// names none where an access would leave its registers.
pub trait IpBlock {
    /// The writes that store the words of `value`, in order, in the
    /// registers from `addr` on.
    fn write(&mut self, addr: usize, value: &[u32]) -> Option<Vec<RegWrite>>;

    /// The address to read the register `addr` from.
    fn read(&self, addr: usize) -> Option<usize>;

    /// The name of the kind of block.
    fn ip_type(&self) -> &'static str;
}

/// A block without behaviour of its own: a plain register window.
pub struct DefaultIpBlock {
    mmio: Mmio,
}

impl View for DefaultIpBlock {
    type V = Window;

    closed spec fn view(&self) -> Window {
        self.mmio@
    }
}

/// The writes that store the words of `value`, in order, in the words of
/// `mem` from `offset` on.
pub open spec fn block_writes(mem: Window, offset: usize, value: Seq<u32>) -> Seq<RegWrite> {
    Seq::new(
        value.len(),
        |i: int| RegWrite { address: mem.address(offset + i) as usize, value: value[i] },
    )
}

impl DefaultIpBlock {
    /// Begins mapping the `length` bytes of registers at `phys_addr`; the
    /// window that the mapping ends with becomes a block by
    /// [`DefaultIpBlock::from_window`].
    pub fn new(phys_addr: u32, length: u32) -> (op: MapOp)
        ensures
            op@ == (MapOpView { phys_addr, length, stage: MapStage::PageSize }),
    {
        Mmio::map(phys_addr, length)
    }

    /// The block over the registers of `mmio`.
    pub fn from_window(mmio: Mmio) -> (block: DefaultIpBlock)
        ensures
            block@ == mmio@,
    {
        DefaultIpBlock { mmio }
    }

    /// Gives the registers back, to be released.
    pub fn into_window(self) -> (mmio: Mmio)
        ensures
            mmio@ == self@,
    {
        self.mmio
    }
}

impl IpBlock for DefaultIpBlock {
    fn write(&mut self, offset: usize, buf: &[u32]) -> (writes: Option<Vec<RegWrite>>)
        ensures
            final(self)@ == old(self)@,
            offset + buf@.len() <= old(self)@.words ==> (writes matches Some(list) && list@
                == block_writes(old(self)@, offset, buf@)),
            offset + buf@.len() > old(self)@.words ==> writes is None,
    {
        let words = self.mmio.words();
        if offset > words || buf.len() > words - offset {
            return None;
        }
        let mut list: Vec<RegWrite> = Vec::new();
        let mut i: usize = 0;
        while i < buf.len()
            invariant
                i <= buf@.len(),
                words == self.mmio@.words,
                offset + buf@.len() <= words,
                list@ == block_writes(self.mmio@, offset, buf@.take(i as int)),
            decreases buf@.len() - i,
        {
            list.push(self.mmio.write(offset + i, buf[i]));
            assert(list@ =~= block_writes(self.mmio@, offset, buf@.take(i + 1)));
            i += 1;
        }
        assert(buf@.take(buf@.len() as int) == buf@);
        Some(list)
    }

    fn read(&self, offset: usize) -> (address: Option<usize>)
        ensures
            offset < self@.words ==> address == Some(self@.address(offset as int) as usize),
            offset >= self@.words ==> address is None,
    {
        if offset < self.mmio.words() {
            Some(self.mmio.read(offset))
        } else {
            None
        }
    }

    fn ip_type(&self) -> (name: &'static str)
        ensures
            name@ == "DefaultIpBlock"@,
    {
        "DefaultIpBlock"
    }
}

/// A block of an overlay, under its name.
pub struct NamedBlock {
    /// The name the block is found by.
    pub name: String,
    /// The block.
    pub block: Rc<dyn IpBlock>,
}

/// A bitstream and the blocks it provides, by name.
pub struct Overlay {
    bitstream: BitStream,
    ip_block_map: Vec<NamedBlock>,
}

impl Overlay {
    /// The bitstream of the overlay.
    pub closed spec fn spec_bitstream(&self) -> BitStreamView {
        self.bitstream@
    }

    /// The names of the blocks of the overlay.
    pub closed spec fn names(&self) -> Seq<Seq<char>> {
        Seq::new(self.ip_block_map@.len(), |i: int| self.ip_block_map@[i].name@)
    }

    /// The blocks of the overlay, in the order of their names.
    pub closed spec fn blocks(&self) -> Seq<Rc<dyn IpBlock>> {
        Seq::new(self.ip_block_map@.len(), |i: int| self.ip_block_map@[i].block)
    }

    /// The overlay of the bitstream in `bit_stream_file`. It has no blocks
    /// yet.
    pub fn new(bit_stream_file: &str, dtbo_file: &str) -> (overlay: Overlay)
        ensures
            overlay.spec_bitstream() == BitStream::new_view(bit_stream_file@),
            overlay.names() == Seq::<Seq<char>>::empty(),
    {
        let overlay = Overlay { ip_block_map: Vec::new(), bitstream: BitStream::new(bit_stream_file) };
        assert(overlay.names() =~= Seq::<Seq<char>>::empty());
        overlay
    }

    /// The first block of the name `ii`, if the overlay has one.
    pub fn index(&self, ii: &str) -> (block: Option<&Rc<dyn IpBlock>>)
        ensures
            match block {
                Some(found) => exists|i: int|
                    0 <= i < self.names().len() && self.names()[i] == ii@ && self.blocks()[i]
                        == *found && forall|j: int| 0 <= j < i ==> self.names()[j] != ii@,
                None => forall|i: int| 0 <= i < self.names().len() ==> self.names()[i] != ii@,
            },
    {
        let mut i: usize = 0;
        while i < self.ip_block_map.len()
            invariant
                i <= self.ip_block_map@.len(),
                forall|j: int| 0 <= j < i ==> self.names()[j] != ii@,
            decreases self.ip_block_map@.len() - i,
        {
            if same_text(self.ip_block_map[i].name.as_str(), ii) {
                assert(self.names()[i as int] == ii@);
                assert(self.blocks()[i as int] == self.ip_block_map@[i as int].block);
                return Some(&self.ip_block_map[i].block);
            }
            i += 1;
        }
        None
    }
}

} // verus!
