//! Register windows: a page-aligned physical range, mapped into the process
//! and addressed as 32-bit words.

use vstd::prelude::*;
use crate::fault::Fault;
use crate::sys::{
    Access, Device, RegWrite, Reply, Request, Resources, Sharing, Span, Step, MAP_FAILED,
};

verus! {

/// The number of 32-bit words that cover `length` bytes.
pub open spec fn words_for(length: u32) -> nat {
    ((length + 3) / 4) as nat
}

/// Whether `phys_addr` is a multiple of the page size.
pub open spec fn aligned(phys_addr: u32, page_size: u32) -> bool {
    page_size != 0 && phys_addr % page_size == 0
}

/// A mapped register window.
///
/// A window comes into being when a [`MapOp`] completes and is given up by
/// [`Mmio::release`], which consumes it: it cannot be released twice.
pub struct Mmio {
    phys_addr: u32,
    words: usize,
    mem: usize,
}

/// What a register window is: its physical base, its length in words and the
/// address at which its first word is mapped.
pub ghost struct Window {
    pub phys_addr: u32,
    pub words: nat,
    pub mem: usize,
}

impl Window {
    /// The length of the window in bytes.
    pub open spec fn bytes(self) -> nat {
        self.words * 4
    }

    /// The address of the word at `index`.
    pub open spec fn address(self, index: int) -> int {
        self.mem + 4 * index
    }

    /// Whether the four bytes at `address` are one word of the window.
    pub open spec fn holds(self, address: int) -> bool {
        exists|index: int| 0 <= index < self.words && address == #[trigger] self.address(index)
    }
}

impl View for Mmio {
    type V = Window;

    closed spec fn view(&self) -> Window {
        Window { phys_addr: self.phys_addr, words: self.words as nat, mem: self.mem }
    }
}

impl Mmio {
    #[verifier::type_invariant]
    spec fn wf(self) -> bool {
        self.mem + self.words * 4 <= usize::MAX
    }

    /// Begins mapping `length` bytes of physical memory at `phys_addr`.
    pub fn map(phys_addr: u32, length: u32) -> (op: MapOp)
        ensures
            op@ == (MapOpView { phys_addr, length, stage: MapStage::PageSize }),
    {
        MapOp { phys_addr, length, stage: MapStage::PageSize }
    }

    /// The physical address of the first word.
    pub fn phys_addr(&self) -> (phys_addr: u32)
        ensures
            phys_addr == self@.phys_addr,
    {
        self.phys_addr
    }

    /// The number of words in the window.
    pub fn words(&self) -> (words: usize)
        ensures
            words == self@.words,
    {
        self.words
    }

    /// The address at which the first word is mapped. The whole window lies
    /// in the address space.
    pub fn mem(&self) -> (mem: usize)
        ensures
            mem == self@.mem,
            self@.mem + self@.bytes() <= usize::MAX,
    {
        proof {
            use_type_invariant(self);
        }
        self.mem
    }

    /// The address to read the word at `index` from.
    pub fn read(&self, index: usize) -> (address: usize)
        requires
            index < self@.words,
        ensures
            address == self@.address(index as int),
            self@.holds(address as int),
    {
        proof {
            use_type_invariant(self);
        }
        self.mem + 4 * index
    }

    /// The write that stores `value` in the word at `index`.
    pub fn write(&self, index: usize, value: u32) -> (access: RegWrite)
        requires
            index < self@.words,
        ensures
            access.address == self@.address(index as int),
            access.value == value,
            self@.holds(access.address as int),
    {
        RegWrite { address: self.read(index), value }
    }

    /// The whole window as a range of bytes.
    pub fn get_slice(&mut self) -> (bytes: Span)
        ensures
            final(self)@ == old(self)@,
            bytes.address == old(self)@.mem,
            bytes.length == old(self)@.bytes(),
            bytes.address + bytes.length <= usize::MAX,
    {
        proof {
            use_type_invariant(&*self);
        }
        Span { address: self.mem, length: self.words * 4 }
    }

    /// Whether the `count` words from the word at `offset` on lie in the
    /// window and `available` bytes are enough to hold them.
    pub open spec fn covers(self, offset: usize, count: usize, available: nat) -> bool {
        &&& offset + count <= self@.words
        &&& 4 * count <= available
        &&& available > 0
    }

    /// The range of the window to copy the first `length_u32` words of `buf`
    /// to, starting at the word `offset_u32`. There is none where the words
    /// do not lie in the window, or where `buf` is empty or too short.
    pub fn copy_from_slice(&mut self, offset_u32: usize, buf: &[u8], length_u32: usize) -> (target:
        Option<Span>)
        ensures
            final(self)@ == old(self)@,
            old(self).covers(offset_u32, length_u32, buf@.len()) ==> target == Some(
                Span {
                    address: old(self)@.address(offset_u32 as int) as usize,
                    length: (4 * length_u32) as usize,
                },
            ),
            !old(self).covers(offset_u32, length_u32, buf@.len()) ==> target is None,
    {
        self.span(offset_u32, length_u32, buf.len())
    }

    /// The range of the window to copy `length_u32` words from into `buf`,
    /// starting at the word `offset_u32`. There is none where the words do
    /// not lie in the window, or where `buf` is empty or too short.
    pub fn read_into_slice(&self, offset_u32: usize, buf: &[u8], length_u32: usize) -> (source:
        Option<Span>)
        ensures
            self.covers(offset_u32, length_u32, buf@.len()) ==> source == Some(
                Span {
                    address: self@.address(offset_u32 as int) as usize,
                    length: (4 * length_u32) as usize,
                },
            ),
            !self.covers(offset_u32, length_u32, buf@.len()) ==> source is None,
    {
        self.span(offset_u32, length_u32, buf.len())
    }

    fn span(&self, offset: usize, count: usize, available: usize) -> (span: Option<Span>)
        ensures
            self.covers(offset, count, available as nat) ==> span == Some(
                Span {
                    address: self@.address(offset as int) as usize,
                    length: (4 * count) as usize,
                },
            ),
            !self.covers(offset, count, available as nat) ==> span is None,
    {
        proof {
            use_type_invariant(self);
        }
        if available == 0 || offset > self.words || count > self.words - offset || count
            > available / 4 {
            None
        } else {
            Some(Span { address: self.mem + 4 * offset, length: 4 * count })
        }
    }

    /// Begins giving the window up.
    pub fn release(self) -> (op: UnmapOp)
        ensures
            op.address == self@.mem,
            op.length == self@.bytes(),
    {
        proof {
            use_type_invariant(&self);
        }
        UnmapOp { address: self.mem, length: self.words * 4 }
    }
}

/// How far a [`MapOp`] has come.
#[derive(Clone, Copy, Debug, PartialEq, Eq, Structural)]
pub enum MapStage {
    /// The page size is being asked for.
    PageSize,
    /// The physical-memory device is being opened.
    Open,
    /// The range is being mapped through the descriptor `fd`.
    Mmap { fd: i32 },
    /// The descriptor is being closed; the range is mapped at `address`.
    Close { fd: i32, address: usize },
}

/// The mapping of a register window, in progress.
///
/// The operation asks for the page size and checks the alignment of the
/// physical base, opens the physical-memory device for reading and writing
/// with synchronous writes, maps the range in whole words as a shared mapping
/// for reading and writing, and closes the device again at once: the mapping
/// outlives the descriptor. The first step that fails ends it.
pub struct MapOp {
    phys_addr: u32,
    length: u32,
    stage: MapStage,
}

/// What a [`MapOp`] is: the range asked for and the step it waits on.
pub ghost struct MapOpView {
    pub phys_addr: u32,
    pub length: u32,
    pub stage: MapStage,
}

impl View for MapOp {
    type V = MapOpView;

    closed spec fn view(&self) -> MapOpView {
        MapOpView { phys_addr: self.phys_addr, length: self.length, stage: self.stage }
    }
}

impl MapOpView {
    /// The number of requests that the operation makes at most from here on.
    pub open spec fn steps(self) -> nat {
        match self.stage {
            MapStage::PageSize => 4,
            MapStage::Open => 3,
            MapStage::Mmap { .. } => 2,
            MapStage::Close { .. } => 1,
        }
    }

    /// The length of the mapping in bytes: whole words.
    pub open spec fn bytes(self) -> nat {
        words_for(self.length) * 4
    }

    /// The request whose reply the operation waits for.
    pub open spec fn request(self) -> Request {
        match self.stage {
            MapStage::PageSize => Request::PageSize,
            MapStage::Open => Request::Open { device: Device::Mem, access: Access::ReadWrite, sync: true },
            MapStage::Mmap { fd } => Request::Mmap {
                fd,
                length: self.bytes() as usize,
                offset: self.phys_addr,
                access: Access::ReadWrite,
                sharing: Sharing::Shared,
                locked: false,
            },
            MapStage::Close { fd, .. } => Request::Close { fd },
        }
    }

    /// The operation after `reply`.
    pub open spec fn advance(self, reply: Reply) -> Step<MapOpView, Window> {
        match (self.stage, reply) {
            (MapStage::PageSize, Reply::PageSize(size)) => {
                if aligned(self.phys_addr, size as u32) {
                    Step::Pending(MapOpView { stage: MapStage::Open, ..self })
                } else {
                    Step::Done(Err(Fault::Unaligned))
                }
            },
            (MapStage::Open, Reply::Opened(fd)) => {
                if fd <= -1 {
                    Step::Done(Err(Fault::OpenMem))
                } else if self.bytes() > usize::MAX {
                    Step::Done(Err(Fault::MapMem))
                } else {
                    Step::Pending(MapOpView { stage: MapStage::Mmap { fd }, ..self })
                }
            },
            (MapStage::Mmap { fd }, Reply::Mapped(address)) => {
                if address == MAP_FAILED || address + self.bytes() > usize::MAX {
                    Step::Done(Err(Fault::MapMem))
                } else {
                    Step::Pending(MapOpView { stage: MapStage::Close { fd, address }, ..self })
                }
            },
            (MapStage::Close { fd, address }, Reply::Closed(status)) => {
                if status == 0 {
                    Step::Done(
                        Ok(
                            Window {
                                phys_addr: self.phys_addr,
                                words: words_for(self.length),
                                mem: address,
                            },
                        ),
                    )
                } else {
                    Step::Done(Err(Fault::CloseMem))
                }
            },
            _ => Step::Done(Err(Fault::UnexpectedReply)),
        }
    }
}

/// The model of a step of a [`MapOp`]: states and windows by their views.
pub open spec fn map_step_view(step: Step<MapOp, Mmio>) -> Step<MapOpView, Window> {
    match step {
        Step::Pending(op) => Step::Pending(op@),
        Step::Done(Ok(window)) => Step::Done(Ok(window@)),
        Step::Done(Err(fault)) => Step::Done(Err(fault)),
    }
}

impl MapOp {
    #[verifier::type_invariant]
    spec fn wf(self) -> bool {
        match self.stage {
            MapStage::PageSize | MapStage::Open => true,
            MapStage::Mmap { .. } => words_for(self.length) * 4 <= usize::MAX,
            MapStage::Close { address, .. } => address + words_for(self.length) * 4 <= usize::MAX,
        }
    }

    /// The number of words that cover the length asked for.
    fn words(&self) -> (words: u64)
        ensures
            words == words_for(self.length),
            words <= 0x4000_0000,
    {
        (self.length as u64 + 3) / 4
    }

    /// The request to perform next.
    pub fn request(&self) -> (request: Request)
        ensures
            request == self@.request(),
    {
        match self.stage {
            MapStage::PageSize => Request::PageSize,
            MapStage::Open => Request::Open { device: Device::Mem, access: Access::ReadWrite, sync: true },
            MapStage::Mmap { fd } => {
                proof {
                    use_type_invariant(self);
                }
                let bytes: u64 = self.words() * 4;
                Request::Mmap {
                    fd,
                    length: bytes as usize,
                    offset: self.phys_addr,
                    access: Access::ReadWrite,
                    sharing: Sharing::Shared,
                    locked: false,
                }
            },
            MapStage::Close { fd, .. } => Request::Close { fd },
        }
    }

    /// Takes the reply to [`MapOp::request`] and moves on.
    pub fn advance(self, reply: Reply) -> (next: Step<MapOp, Mmio>)
        ensures
            map_step_view(next) == self@.advance(reply),
    {
        proof {
            use_type_invariant(&self);
        }
        let bytes: u64 = self.words() * 4;
        match (self.stage, reply) {
            (MapStage::PageSize, Reply::PageSize(size)) => {
                let page_size: u32 = #[verifier::truncate] (size as u32);
                if page_size != 0 && self.phys_addr % page_size == 0 {
                    Step::Pending(
                        MapOp { phys_addr: self.phys_addr, length: self.length, stage: MapStage::Open },
                    )
                } else {
                    Step::Done(Err(Fault::Unaligned))
                }
            },
            (MapStage::Open, Reply::Opened(fd)) => {
                if fd <= -1 {
                    Step::Done(Err(Fault::OpenMem))
                } else if bytes > usize::MAX as u64 {
                    Step::Done(Err(Fault::MapMem))
                } else {
                    Step::Pending(
                        MapOp {
                            phys_addr: self.phys_addr,
                            length: self.length,
                            stage: MapStage::Mmap { fd },
                        },
                    )
                }
            },
            (MapStage::Mmap { fd }, Reply::Mapped(address)) => {
                if address == MAP_FAILED || address > usize::MAX - (bytes as usize) {
                    Step::Done(Err(Fault::MapMem))
                } else {
                    Step::Pending(
                        MapOp {
                            phys_addr: self.phys_addr,
                            length: self.length,
                            stage: MapStage::Close { fd, address },
                        },
                    )
                }
            },
            (MapStage::Close { fd, address }, Reply::Closed(status)) => {
                if status == 0 {
                    Step::Done(
                        Ok(
                            Mmio {
                                phys_addr: self.phys_addr,
                                words: self.words() as usize,
                                mem: address,
                            },
                        ),
                    )
                } else {
                    Step::Done(Err(Fault::CloseMem))
                }
            },
            _ => Step::Done(Err(Fault::UnexpectedReply)),
        }
    }
}

/// The release of a register window, in progress: one unmapping of the whole
/// window.
#[derive(Clone, Copy, Debug, PartialEq, Eq, Structural)]
pub struct UnmapOp {
    /// The address at which the window is mapped.
    pub address: usize,
    /// The length of the window in bytes.
    pub length: usize,
}

impl UnmapOp {
    /// The request whose reply the operation waits for.
    pub open spec fn spec_request(self) -> Request {
        Request::Munmap { address: self.address, length: self.length }
    }

    /// The operation after `reply`: it is over, whatever the reply.
    pub open spec fn spec_advance(self, reply: Reply) -> Step<UnmapOp, ()> {
        match reply {
            Reply::Unmapped(status) => if status == 0 {
                Step::Done(Ok(()))
            } else {
                Step::Done(Err(Fault::UnmapIo))
            },
            _ => Step::Done(Err(Fault::UnexpectedReply)),
        }
    }

    /// The request to perform next.
    #[verifier::when_used_as_spec(spec_request)]
    pub fn request(self) -> (request: Request)
        ensures
            request == self.spec_request(),
    {
        Request::Munmap { address: self.address, length: self.length }
    }

    /// Takes the reply to [`UnmapOp::request`] and ends the operation.
    #[verifier::when_used_as_spec(spec_advance)]
    pub fn advance(self, reply: Reply) -> (next: Step<UnmapOp, ()>)
        ensures
            next == self.spec_advance(reply),
    {
        match reply {
            Reply::Unmapped(status) => if status == 0 {
                Step::Done(Ok(()))
            } else {
                Step::Done(Err(Fault::UnmapIo))
            },
            _ => Step::Done(Err(Fault::UnexpectedReply)),
        }
    }
}

/// A mapping comes to its end: each reply either ends it or leaves one
/// request fewer to make, for the same range.
pub proof fn lemma_map_ends(op: MapOpView, reply: Reply)
    ensures
        op.advance(reply) matches Step::Pending(next) ==> next.steps() + 1 == op.steps()
            && next.phys_addr == op.phys_addr && next.length == op.length,
{
}

/// A word that a window holds lies within the bytes of the window, a whole
/// number of words from its start.
pub proof fn lemma_holds(mem: Window, address: int)
    requires
        mem.holds(address),
    ensures
        mem.mem <= address,
        address + 4 <= mem.mem + mem.bytes(),
        (address - mem.mem) % 4 == 0,
{
    let index = choose|index: int| 0 <= index < mem.words && address == mem.address(index);
    assert(address - mem.mem == 4 * index);
}

/// Mapping a page-aligned range of positive length and releasing the window
/// at once succeeds whenever each system call does, and leaves the process
/// with exactly the descriptors and mappings it had before.
///
/// In between, the device is opened for reading and writing with synchronous
/// writes, the range is mapped from its physical address on in whole words,
/// shared and for reading and writing, and the descriptor is closed; from
/// then until the release the process holds the one mapping more and no
/// descriptor more. The release unmaps the range at its full length.
pub proof fn lemma_map_then_release(
    phys_addr: u32,
    length: u32,
    page_size: i64,
    fd: i32,
    address: usize,
    before: Resources,
)
    requires
        aligned(phys_addr, page_size as u32),
        length > 0,
        fd > -1,
        address != MAP_FAILED,
        address + words_for(length) * 4 <= usize::MAX,
        !before.descriptors.contains(fd),
        !before.mappings.contains((address, (words_for(length) * 4) as usize)),
    ensures
        ({
            let bytes = (words_for(length) * 4) as usize;
            let start = MapOpView { phys_addr, length, stage: MapStage::PageSize };
            let sized = Reply::PageSize(page_size);
            let opened = Reply::Opened(fd);
            let mapped = Reply::Mapped(address);
            let closed = Reply::Closed(0);
            let unmapped = Reply::Unmapped(0);
            &&& start.request() == Request::PageSize
            &&& start.advance(sized) matches Step::Pending(open)
            &&& open.request() == (Request::Open {
                device: Device::Mem,
                access: Access::ReadWrite,
                sync: true,
            })
            &&& open.advance(opened) matches Step::Pending(mmap)
            &&& mmap.request() == (Request::Mmap {
                fd,
                length: bytes,
                offset: phys_addr,
                access: Access::ReadWrite,
                sharing: Sharing::Shared,
                locked: false,
            })
            &&& mmap.advance(mapped) matches Step::Pending(close)
            &&& close.request() == (Request::Close { fd })
            &&& close.advance(closed) matches Step::Done(Ok(window))
            &&& window == (Window { phys_addr, words: words_for(length), mem: address })
            &&& window.words > 0
            &&& ({
                let held = before.after(start.request(), sized).after(open.request(), opened).after(
                    mmap.request(),
                    mapped,
                ).after(close.request(), closed);
                let release = UnmapOp { address: window.mem, length: window.bytes() as usize };
                &&& held.descriptors == before.descriptors
                &&& held.mappings == before.mappings.insert((address, bytes))
                &&& held.buffers == before.buffers
                &&& release.request() == (Request::Munmap { address, length: bytes })
                &&& release.advance(unmapped) == Step::<UnmapOp, ()>::Done(Ok(()))
                &&& held.after(release.request(), unmapped) == before
            })
        }),
{
    let start = MapOpView { phys_addr, length, stage: MapStage::PageSize };
    let open = MapOpView { stage: MapStage::Open, ..start };
    let mmap = MapOpView { stage: MapStage::Mmap { fd }, ..start };
    let close = MapOpView { stage: MapStage::Close { fd, address }, ..start };
    let bytes = (words_for(length) * 4) as usize;
    let release = UnmapOp { address, length: bytes };
    let held = before.after(start.request(), Reply::PageSize(page_size)).after(
        open.request(),
        Reply::Opened(fd),
    ).after(mmap.request(), Reply::Mapped(address)).after(close.request(), Reply::Closed(0));
    assert(held.descriptors =~= before.descriptors);
    assert(held.mappings =~= before.mappings.insert((address, bytes)));
    let after = held.after(release.request(), Reply::Unmapped(0));
    assert(after.mappings =~= before.mappings);
    assert(after =~= before);
}

} // verus!
