//! Physically contiguous buffers and the engine that moves them to and from
//! the programmable logic.

use vstd::prelude::*;
use crate::fault::Fault;
use crate::mmio::{Mmio, MapOp, MapOpView, MapStage, Window, words_for};
use crate::sys::{
    Access, AllocBufIoctlArg, Device, FreeBufIoctlArg, RegWrite, Reply, Request, Resources,
    Sharing, Span, Step, MAP_FAILED,
};
use crate::xlnk::{alloc_args, mmap_offset, Xlnk};

verus! {

/// A physically contiguous buffer, allocated by the kernel and mapped into the
/// process.
///
/// A buffer comes into being when an [`AllocOp`] completes and is given up by
/// [`DmaBuffer::release`], which consumes it. It is never copied: whoever
/// holds the value owns the memory.
pub struct DmaBuffer {
    id: u32,
    physical_addr: u32,
    data: usize,
    size: usize,
}

/// What a buffer is: the identifier the kernel knows it by, its physical
/// address, the address at which it is mapped and its length in bytes.
pub ghost struct Buffer {
    pub id: u32,
    pub physical_addr: u32,
    pub data: usize,
    pub size: nat,
}

impl View for DmaBuffer {
    type V = Buffer;

    closed spec fn view(&self) -> Buffer {
        Buffer {
            id: self.id,
            physical_addr: self.physical_addr,
            data: self.data,
            size: self.size as nat,
        }
    }
}

impl DmaBuffer {
    #[verifier::type_invariant]
    spec fn wf(self) -> bool {
        &&& self.size <= u32::MAX
        &&& self.data + self.size <= usize::MAX
    }

    /// Begins allocating and mapping a buffer of `size` bytes that the
    /// processor does not cache.
    pub fn allocate(size: usize) -> (op: AllocOp)
        ensures
            op@ == (AllocOpView { size, stage: AllocStage::Open }),
    {
        AllocOp { size, stage: AllocState::Open }
    }

    /// The identifier the kernel knows the buffer by.
    pub fn id(&self) -> (id: u32)
        ensures
            id == self@.id,
    {
        self.id
    }

    /// The physical address of the first byte.
    pub fn physical_addr(&self) -> (physical_addr: u32)
        ensures
            physical_addr == self@.physical_addr,
    {
        self.physical_addr
    }

    /// The length in bytes. It fits the 32-bit length register of the engine.
    pub fn size(&self) -> (size: usize)
        ensures
            size == self@.size,
            size <= u32::MAX,
    {
        proof {
            use_type_invariant(self);
        }
        self.size
    }

    /// The bytes of the buffer, for reading: all of them, where they are
    /// mapped.
    pub fn as_slice(&self) -> (bytes: Span)
        ensures
            bytes.address == self@.data,
            bytes.length == self@.size,
            bytes.address + bytes.length <= usize::MAX,
    {
        proof {
            use_type_invariant(self);
        }
        Span { address: self.data, length: self.size }
    }

    /// The bytes of the buffer, for writing: all of them, where they are
    /// mapped.
    pub fn as_slice_mut(&mut self) -> (bytes: Span)
        ensures
            final(self)@ == old(self)@,
            bytes.address == old(self)@.data,
            bytes.length == old(self)@.size,
            bytes.address + bytes.length <= usize::MAX,
    {
        self.as_slice()
    }

    /// Begins giving the buffer up.
    pub fn release(self) -> (op: ReleaseOp)
        ensures
            op@ == (ReleaseOpView {
                id: self@.id,
                data: self@.data,
                size: self@.size as usize,
                stage: ReleaseStage::Munmap,
            }),
    {
        ReleaseOp { id: self.id, data: self.data, size: self.size, stage: ReleaseState::Munmap }
    }
}

/// How far an [`AllocOp`] has come.
#[derive(Clone, Copy, Debug, PartialEq, Eq, Structural)]
pub enum AllocStage {
    /// A session with the buffer manager is being opened.
    Open,
    /// The buffer is being allocated through the session `fd`.
    Alloc { fd: i32 },
    /// The buffer `id` is being mapped.
    Mmap { fd: i32, id: u32, physical_addr: u32 },
    /// The session is being closed; the buffer is mapped at `data`.
    Close { fd: i32, id: u32, physical_addr: u32, data: usize },
}

enum AllocState {
    Open,
    Alloc { xlnk: Xlnk },
    Mmap { xlnk: Xlnk, id: u32, physical_addr: u32 },
    Close { xlnk: Xlnk, id: u32, physical_addr: u32, data: usize },
}

/// The allocation of a buffer, in progress.
///
/// The operation opens a session with the buffer manager, allocates the
/// buffer, maps it and closes the session. The first step that fails ends it;
/// a buffer that was allocated but could not be mapped is not freed.
pub struct AllocOp {
    size: usize,
    stage: AllocState,
}

/// What an [`AllocOp`] is: the size asked for and the step it waits on.
pub ghost struct AllocOpView {
    pub size: usize,
    pub stage: AllocStage,
}

impl View for AllocOp {
    type V = AllocOpView;

    closed spec fn view(&self) -> AllocOpView {
        AllocOpView {
            size: self.size,
            stage: match self.stage {
                AllocState::Open => AllocStage::Open,
                AllocState::Alloc { xlnk } => AllocStage::Alloc { fd: xlnk.spec_fd() },
                AllocState::Mmap { xlnk, id, physical_addr } => AllocStage::Mmap {
                    fd: xlnk.spec_fd(),
                    id,
                    physical_addr,
                },
                AllocState::Close { xlnk, id, physical_addr, data } => AllocStage::Close {
                    fd: xlnk.spec_fd(),
                    id,
                    physical_addr,
                    data,
                },
            },
        }
    }
}

impl AllocOpView {
    /// The number of requests that the operation makes at most from here on.
    pub open spec fn steps(self) -> nat {
        match self.stage {
            AllocStage::Open => 4,
            AllocStage::Alloc { .. } => 3,
            AllocStage::Mmap { .. } => 2,
            AllocStage::Close { .. } => 1,
        }
    }

    /// The request whose reply the operation waits for.
    pub open spec fn request(self) -> Request {
        match self.stage {
            AllocStage::Open => Request::Open { device: Device::Xlnk, access: Access::ReadWrite, sync: false },
            AllocStage::Alloc { fd } => Request::AllocBuf {
                fd,
                alloc: alloc_args(self.size as u32, false),
            },
            AllocStage::Mmap { fd, id, .. } => Request::Mmap {
                fd,
                length: self.size,
                offset: mmap_offset(id),
                access: Access::ReadWrite,
                sharing: Sharing::Shared,
                locked: true,
            },
            AllocStage::Close { fd, .. } => Request::Close { fd },
        }
    }

    /// The operation after `reply`.
    pub open spec fn advance(self, reply: Reply) -> Step<AllocOpView, Buffer> {
        match (self.stage, reply) {
            (AllocStage::Open, Reply::Opened(fd)) => {
                if fd <= -1 {
                    Step::Done(Err(Fault::OpenXlnk))
                } else if self.size > u32::MAX {
                    Step::Done(Err(Fault::AllocBuf))
                } else {
                    Step::Pending(AllocOpView { stage: AllocStage::Alloc { fd }, ..self })
                }
            },
            (AllocStage::Alloc { fd }, Reply::Allocated { status, alloc }) => {
                if status >= 0 {
                    Step::Pending(
                        AllocOpView {
                            stage: AllocStage::Mmap {
                                fd,
                                id: alloc.id as u32,
                                physical_addr: alloc.phyaddr,
                            },
                            ..self
                        },
                    )
                } else {
                    Step::Done(Err(Fault::AllocBuf))
                }
            },
            (AllocStage::Mmap { fd, id, physical_addr }, Reply::Mapped(mm)) => {
                if mm == MAP_FAILED || mm + self.size > usize::MAX {
                    Step::Done(Err(Fault::MapBuffer))
                } else {
                    Step::Pending(
                        AllocOpView {
                            stage: AllocStage::Close { fd, id, physical_addr, data: mm },
                            ..self
                        },
                    )
                }
            },
            (AllocStage::Close { fd, id, physical_addr, data }, Reply::Closed(status)) => {
                if status == 0 {
                    Step::Done(Ok(Buffer { id, physical_addr, data, size: self.size as nat }))
                } else {
                    Step::Done(Err(Fault::CloseXlnk))
                }
            },
            _ => Step::Done(Err(Fault::UnexpectedReply)),
        }
    }
}

/// The model of a step of an [`AllocOp`]: states and buffers by their views.
pub open spec fn alloc_step_view(step: Step<AllocOp, DmaBuffer>) -> Step<AllocOpView, Buffer> {
    match step {
        Step::Pending(op) => Step::Pending(op@),
        Step::Done(Ok(buffer)) => Step::Done(Ok(buffer@)),
        Step::Done(Err(fault)) => Step::Done(Err(fault)),
    }
}

impl AllocOp {
    #[verifier::type_invariant]
    spec fn wf(self) -> bool {
        match self.stage {
            AllocState::Open => true,
            AllocState::Alloc { .. } | AllocState::Mmap { .. } => self.size <= u32::MAX,
            AllocState::Close { data, .. } => self.size <= u32::MAX && data + self.size
                <= usize::MAX,
        }
    }

    /// The request to perform next.
    pub fn request(&self) -> (request: Request)
        ensures
            request == self@.request(),
    {
        proof {
            use_type_invariant(self);
        }
        match &self.stage {
            AllocState::Open => Xlnk::open_request(),
            AllocState::Alloc { xlnk } => match xlnk.alloc_buf_request(self.size, false) {
                Ok(request) => request,
                Err(_) => vstd::pervasive::unreached(),
            },
            AllocState::Mmap { xlnk, id, .. } => xlnk.mmap_buffer_request(*id, self.size),
            AllocState::Close { xlnk, .. } => xlnk.close_request(),
        }
    }

    /// Takes the reply to [`AllocOp::request`] and moves on.
    pub fn advance(self, reply: Reply) -> (next: Step<AllocOp, DmaBuffer>)
        ensures
            alloc_step_view(next) == self@.advance(reply),
    {
        proof {
            use_type_invariant(&self);
        }
        let size = self.size;
        match self.stage {
            AllocState::Open => match Xlnk::open(reply) {
                Ok(xlnk) => if size > u32::MAX as usize {
                    Step::Done(Err(Fault::AllocBuf))
                } else {
                    Step::Pending(AllocOp { size, stage: AllocState::Alloc { xlnk } })
                },
                Err(fault) => Step::Done(Err(fault)),
            },
            AllocState::Alloc { xlnk } => {
                let mut xlnk = xlnk;
                match xlnk.alloc_buf(reply) {
                    Ok((id, physical_addr)) => Step::Pending(
                        AllocOp { size, stage: AllocState::Mmap { xlnk, id, physical_addr } },
                    ),
                    Err(fault) => Step::Done(Err(fault)),
                }
            },
            AllocState::Mmap { xlnk, id, physical_addr } => {
                let mut xlnk = xlnk;
                match xlnk.mmap_buffer(reply) {
                    Ok(data) => if data > usize::MAX - size {
                        Step::Done(Err(Fault::MapBuffer))
                    } else {
                        Step::Pending(
                            AllocOp {
                                size,
                                stage: AllocState::Close { xlnk, id, physical_addr, data },
                            },
                        )
                    },
                    Err(fault) => Step::Done(Err(fault)),
                }
            },
            AllocState::Close { xlnk, id, physical_addr, data } => match xlnk.close(reply) {
                Ok(()) => Step::Done(Ok(DmaBuffer { id, physical_addr, data, size })),
                Err(fault) => Step::Done(Err(fault)),
            },
        }
    }
}

/// How far a [`ReleaseOp`] has come.
#[derive(Clone, Copy, Debug, PartialEq, Eq, Structural)]
pub enum ReleaseStage {
    /// The buffer is being unmapped.
    Munmap,
    /// A session with the buffer manager is being opened.
    Open,
    /// The buffer is being freed through the session `fd`.
    Free { fd: i32 },
    /// The session is being closed.
    Close { fd: i32 },
}

enum ReleaseState {
    Munmap,
    Open,
    Free { xlnk: Xlnk },
    Close { xlnk: Xlnk },
}

/// The release of a buffer, in progress.
///
/// The operation unmaps the buffer first and frees it afterwards, through a
/// session of its own: freed memory is never left mapped. The first step that
/// fails ends it.
pub struct ReleaseOp {
    id: u32,
    data: usize,
    size: usize,
    stage: ReleaseState,
}

/// What a [`ReleaseOp`] is: the buffer being given up and the step it waits on.
pub ghost struct ReleaseOpView {
    pub id: u32,
    pub data: usize,
    pub size: usize,
    pub stage: ReleaseStage,
}

impl View for ReleaseOp {
    type V = ReleaseOpView;

    closed spec fn view(&self) -> ReleaseOpView {
        ReleaseOpView {
            id: self.id,
            data: self.data,
            size: self.size,
            stage: match self.stage {
                ReleaseState::Munmap => ReleaseStage::Munmap,
                ReleaseState::Open => ReleaseStage::Open,
                ReleaseState::Free { xlnk } => ReleaseStage::Free { fd: xlnk.spec_fd() },
                ReleaseState::Close { xlnk } => ReleaseStage::Close { fd: xlnk.spec_fd() },
            },
        }
    }
}

impl ReleaseOpView {
    /// The number of requests that the operation makes at most from here on.
    pub open spec fn steps(self) -> nat {
        match self.stage {
            ReleaseStage::Munmap => 4,
            ReleaseStage::Open => 3,
            ReleaseStage::Free { .. } => 2,
            ReleaseStage::Close { .. } => 1,
        }
    }

    /// The request whose reply the operation waits for.
    pub open spec fn request(self) -> Request {
        match self.stage {
            ReleaseStage::Munmap => Request::Munmap { address: self.data, length: self.size },
            ReleaseStage::Open => Request::Open { device: Device::Xlnk, access: Access::ReadWrite, sync: false },
            ReleaseStage::Free { fd } => Request::FreeBuf {
                fd,
                free: FreeBufIoctlArg { id: self.id, buf: 0 },
            },
            ReleaseStage::Close { fd } => Request::Close { fd },
        }
    }

    /// The operation after `reply`.
    pub open spec fn advance(self, reply: Reply) -> Step<ReleaseOpView, ()> {
        match (self.stage, reply) {
            (ReleaseStage::Munmap, Reply::Unmapped(status)) => {
                if status == 0 {
                    Step::Pending(ReleaseOpView { stage: ReleaseStage::Open, ..self })
                } else {
                    Step::Done(Err(Fault::UnmapBuffer))
                }
            },
            (ReleaseStage::Open, Reply::Opened(fd)) => {
                if fd > -1 {
                    Step::Pending(ReleaseOpView { stage: ReleaseStage::Free { fd }, ..self })
                } else {
                    Step::Done(Err(Fault::OpenXlnk))
                }
            },
            (ReleaseStage::Free { fd }, Reply::Freed(status)) => {
                if status >= 0 {
                    Step::Pending(ReleaseOpView { stage: ReleaseStage::Close { fd }, ..self })
                } else {
                    Step::Done(Err(Fault::FreeBuf))
                }
            },
            (ReleaseStage::Close { fd }, Reply::Closed(status)) => {
                if status == 0 {
                    Step::Done(Ok(()))
                } else {
                    Step::Done(Err(Fault::CloseXlnk))
                }
            },
            _ => Step::Done(Err(Fault::UnexpectedReply)),
        }
    }
}

/// The model of a step of a [`ReleaseOp`]: states by their views.
pub open spec fn release_step_view(step: Step<ReleaseOp, ()>) -> Step<ReleaseOpView, ()> {
    match step {
        Step::Pending(op) => Step::Pending(op@),
        Step::Done(result) => Step::Done(result),
    }
}

impl ReleaseOp {
    /// The request to perform next.
    pub fn request(&self) -> (request: Request)
        ensures
            request == self@.request(),
    {
        match &self.stage {
            ReleaseState::Munmap => Request::Munmap { address: self.data, length: self.size },
            ReleaseState::Open => Xlnk::open_request(),
            ReleaseState::Free { xlnk } => xlnk.free_buf_request(self.id),
            ReleaseState::Close { xlnk } => xlnk.close_request(),
        }
    }

    /// Takes the reply to [`ReleaseOp::request`] and moves on.
    pub fn advance(self, reply: Reply) -> (next: Step<ReleaseOp, ()>)
        ensures
            release_step_view(next) == self@.advance(reply),
    {
        let id = self.id;
        let data = self.data;
        let size = self.size;
        match self.stage {
            ReleaseState::Munmap => match reply {
                Reply::Unmapped(status) => if status == 0 {
                    Step::Pending(ReleaseOp { id, data, size, stage: ReleaseState::Open })
                } else {
                    Step::Done(Err(Fault::UnmapBuffer))
                },
                _ => Step::Done(Err(Fault::UnexpectedReply)),
            },
            ReleaseState::Open => match Xlnk::open(reply) {
                Ok(xlnk) => Step::Pending(
                    ReleaseOp { id, data, size, stage: ReleaseState::Free { xlnk } },
                ),
                Err(fault) => Step::Done(Err(fault)),
            },
            ReleaseState::Free { xlnk } => {
                let mut xlnk = xlnk;
                match xlnk.free_buf(reply) {
                    Ok(()) => Step::Pending(
                        ReleaseOp { id, data, size, stage: ReleaseState::Close { xlnk } },
                    ),
                    Err(fault) => Step::Done(Err(fault)),
                }
            },
            ReleaseState::Close { xlnk } => match xlnk.close(reply) {
                Ok(()) => Step::Done(Ok(())),
                Err(fault) => Step::Done(Err(fault)),
            },
        }
    }
}

/// The physical address of the engine's registers.
pub const DMA_BASE: u32 = 0x4000_0000;

/// The length in bytes of the engine's registers: two channels of twelve
/// words each.
pub const DMA_LENGTH: u32 = 2 * 0x30;

/// The number of registers of one channel.
pub const CHANNEL_STRIDE: usize = 12;

/// The control register of a channel, counted from the channel's first word.
pub const CONTROL: usize = 0;

/// The status register of a channel, counted from the channel's first word.
pub const STATUS: usize = 1;

/// The address register of a channel, counted from the channel's first word.
pub const ADDRESS: usize = 6;

/// The length register of a channel, counted from the channel's first word.
/// Writing it arms the transfer.
pub const LENGTH: usize = 10;

/// The bit of a control register that lets the channel run.
pub const RUN: u32 = 1;

/// The bit of a status register that reports the channel halted.
pub const HALTED: u32 = 1;

/// The bit of a status register that reports the channel idle.
pub const IDLE: u32 = 2;

/// The two channels of the engine.
#[derive(Clone, Copy, Debug, PartialEq, Eq, Structural)]
pub enum Direction {
    /// From memory to the programmable logic.
    Send,
    /// From the programmable logic to memory.
    Receive,
}

impl Direction {
    /// The index of the channel's first register: the send channel comes
    /// first, the receive channel one stride after it.
    pub open spec fn spec_base(self) -> usize {
        match self {
            Direction::Send => 0,
            Direction::Receive => CHANNEL_STRIDE,
        }
    }

    /// The index of the channel's first register.
    #[verifier::when_used_as_spec(spec_base)]
    pub fn base(self) -> (base: usize)
        ensures
            base == self.spec_base(),
    {
        match self {
            Direction::Send => 0,
            Direction::Receive => CHANNEL_STRIDE,
        }
    }

    /// The fault of starting a transfer on a channel that is in flight.
    pub open spec fn busy(self) -> Fault {
        match self {
            Direction::Send => Fault::SendBusy,
            Direction::Receive => Fault::ReceiveBusy,
        }
    }

    /// The fault of finishing a transfer that the hardware has not completed.
    pub open spec fn unfinished(self) -> Fault {
        match self {
            Direction::Send => Fault::SendUnfinished,
            Direction::Receive => Fault::ReceiveUnfinished,
        }
    }

    /// The fault of finishing a transfer on a channel that holds no buffer.
    pub open spec fn not_started(self) -> Fault {
        match self {
            Direction::Send => Fault::SendNotStarted,
            Direction::Receive => Fault::ReceiveNotStarted,
        }
    }
}

/// Whether a status word reports its channel halted.
pub open spec fn halted(status: u32) -> bool {
    status & HALTED != 0
}

/// Whether a status word reports its channel idle.
pub open spec fn idle(status: u32) -> bool {
    status & IDLE == IDLE
}

/// The address of the register `register` of the channel `dir` in the window
/// `mem`.
pub open spec fn register(mem: Window, dir: Direction, register: usize) -> usize {
    mem.address(dir.spec_base() + register) as usize
}

/// The state of one channel.
pub ghost enum Channel {
    /// No buffer is registered with the channel.
    Idle,
    /// The channel holds the buffer of a transfer that was started and not
    /// yet finished.
    InFlight(Buffer),
}

/// What an engine is: its register window and the state of its two channels.
pub ghost struct Engine {
    pub mem: Window,
    pub send: Channel,
    pub receive: Channel,
}

impl Engine {
    /// The engine as it is when it has just started: nothing is in flight.
    pub open spec fn fresh(mem: Window) -> Engine {
        Engine { mem, send: Channel::Idle, receive: Channel::Idle }
    }

    /// The state of the channel `dir`.
    pub open spec fn channel(self, dir: Direction) -> Channel {
        match dir {
            Direction::Send => self.send,
            Direction::Receive => self.receive,
        }
    }

    /// The engine with the channel `dir` in the state `channel`.
    pub open spec fn with_channel(self, dir: Direction, channel: Channel) -> Engine {
        match dir {
            Direction::Send => Engine { send: channel, ..self },
            Direction::Receive => Engine { receive: channel, ..self },
        }
    }

    /// The writes that hand `buf` to the channel `dir`: its physical address
    /// first, then its length, which arms the transfer.
    pub open spec fn arm(self, dir: Direction, buf: Buffer) -> Seq<RegWrite> {
        seq![
            RegWrite { address: register(self.mem, dir, ADDRESS), value: buf.physical_addr },
            RegWrite { address: register(self.mem, dir, LENGTH), value: buf.size as u32 },
        ]
    }

    /// Starting a transfer of `buf` on the channel `dir`: the engine
    /// afterwards, and the writes to perform or the reason for refusing.
    pub open spec fn start(self, dir: Direction, buf: Buffer) -> (Engine, Result<
        Seq<RegWrite>,
        Fault,
    >) {
        if self.channel(dir) is InFlight {
            (self, Err(dir.busy()))
        } else {
            (self.with_channel(dir, Channel::InFlight(buf)), Ok(self.arm(dir, buf)))
        }
    }

    /// Whether nothing is left to wait for on the channel `dir`, given its
    /// status word: no transfer is in flight, or the hardware reports the
    /// channel idle.
    pub open spec fn is_done(self, dir: Direction, status: u32) -> bool {
        self.channel(dir) is Idle || idle(status)
    }

    /// Finishing the transfer on the channel `dir`, given its status word:
    /// the engine afterwards, and the buffer handed back or the reason for
    /// refusing.
    pub open spec fn finish(self, dir: Direction, status: u32) -> (Engine, Result<Buffer, Fault>) {
        if !self.is_done(dir, status) {
            (self, Err(dir.unfinished()))
        } else {
            match self.channel(dir) {
                Channel::Idle => (self, Err(dir.not_started())),
                Channel::InFlight(buf) => (self.with_channel(dir, Channel::Idle), Ok(buf)),
            }
        }
    }
}

/// The state of a channel that holds `buffer`, or none.
pub open spec fn channel_view(buffer: Option<DmaBuffer>) -> Channel {
    match buffer {
        None => Channel::Idle,
        Some(buf) => Channel::InFlight(buf@),
    }
}

/// A buffer that the engine did not take, with the reason.
pub struct Rejected {
    /// Why the transfer was not started.
    pub fault: Fault,
    /// The buffer, back with the caller.
    pub buffer: DmaBuffer,
}

/// The driver of the engine.
///
/// It owns the window over the engine's registers and, while a transfer is in
/// flight, the buffer of that transfer. It decides which registers to write
/// and what a status word means; reading and writing them is left to the
/// embedding program.
///
/// A driver exists only for an engine that has started: a [`GetOp`] ends with
/// one when both channels have reported that they left the halted state, and
/// nothing takes that back.
pub struct Dma {
    mem: Mmio,
    tx_buffer: Option<DmaBuffer>,
    rx_buffer: Option<DmaBuffer>,
}

impl View for Dma {
    type V = Engine;

    closed spec fn view(&self) -> Engine {
        Engine {
            mem: self.mem@,
            send: channel_view(self.tx_buffer),
            receive: channel_view(self.rx_buffer),
        }
    }
}

/// How far a [`GetOp`] has come.
pub ghost enum GetStage {
    /// The registers are being mapped.
    Mapping(MapOpView),
    /// The send channel is being told to run.
    RunSend(Window),
    /// The receive channel is being told to run.
    RunReceive(Window),
    /// The status of the send channel is being read.
    PollSend(Window),
    /// The status of the receive channel is being read; the send channel has
    /// just reported that it is not halted.
    PollReceive(Window),
}

enum GetState {
    Mapping(MapOp),
    RunSend(Mmio),
    RunReceive(Mmio),
    PollSend(Mmio),
    PollReceive(Mmio),
}

/// The start of the engine, in progress.
///
/// The operation maps the engine's registers, sets the run bit of both
/// channels and then reads the two status registers, the send channel's
/// first, again and again until neither reports its channel halted. It sets
/// no limit to the number of reads.
pub struct GetOp {
    state: GetState,
}

impl View for GetOp {
    type V = GetStage;

    closed spec fn view(&self) -> GetStage {
        match self.state {
            GetState::Mapping(map) => GetStage::Mapping(map@),
            GetState::RunSend(mem) => GetStage::RunSend(mem@),
            GetState::RunReceive(mem) => GetStage::RunReceive(mem@),
            GetState::PollSend(mem) => GetStage::PollSend(mem@),
            GetState::PollReceive(mem) => GetStage::PollReceive(mem@),
        }
    }
}

impl GetStage {
    /// The window over the engine's registers, once it is mapped.
    pub open spec fn window(self) -> Option<Window> {
        match self {
            GetStage::Mapping(_) => None,
            GetStage::RunSend(mem)
            | GetStage::RunReceive(mem)
            | GetStage::PollSend(mem)
            | GetStage::PollReceive(mem) => Some(mem),
        }
    }

    /// The request whose reply the operation waits for.
    pub open spec fn request(self) -> Request {
        match self {
            GetStage::Mapping(map) => map.request(),
            GetStage::RunSend(mem) => Request::Write {
                address: register(mem, Direction::Send, CONTROL),
                value: RUN,
            },
            GetStage::RunReceive(mem) => Request::Write {
                address: register(mem, Direction::Receive, CONTROL),
                value: RUN,
            },
            GetStage::PollSend(mem) => Request::Read {
                address: register(mem, Direction::Send, STATUS),
            },
            GetStage::PollReceive(mem) => Request::Read {
                address: register(mem, Direction::Receive, STATUS),
            },
        }
    }

    /// The operation after `reply`.
    pub open spec fn advance(self, reply: Reply) -> Step<GetStage, Engine> {
        match (self, reply) {
            (GetStage::Mapping(map), _) => match map.advance(reply) {
                Step::Pending(next) => Step::Pending(GetStage::Mapping(next)),
                Step::Done(Ok(mem)) => Step::Pending(GetStage::RunSend(mem)),
                Step::Done(Err(fault)) => Step::Done(Err(fault)),
            },
            (GetStage::RunSend(mem), Reply::Written) => Step::Pending(GetStage::RunReceive(mem)),
            (GetStage::RunReceive(mem), Reply::Written) => Step::Pending(GetStage::PollSend(mem)),
            (GetStage::PollSend(mem), Reply::Word(status)) => {
                if halted(status) {
                    Step::Pending(GetStage::PollSend(mem))
                } else {
                    Step::Pending(GetStage::PollReceive(mem))
                }
            },
            (GetStage::PollReceive(mem), Reply::Word(status)) => {
                if halted(status) {
                    Step::Pending(GetStage::PollSend(mem))
                } else {
                    Step::Done(Ok(Engine::fresh(mem)))
                }
            },
            _ => Step::Done(Err(Fault::UnexpectedReply)),
        }
    }
}

/// The model of a step of a [`GetOp`]: states and drivers by their views.
pub open spec fn get_step_view(step: Step<GetOp, Dma>) -> Step<GetStage, Engine> {
    match step {
        Step::Pending(op) => Step::Pending(op@),
        Step::Done(Ok(dma)) => Step::Done(Ok(dma@)),
        Step::Done(Err(fault)) => Step::Done(Err(fault)),
    }
}

impl GetOp {
    #[verifier::type_invariant]
    spec fn wf(self) -> bool {
        match self.state {
            GetState::Mapping(map) => map@.length == DMA_LENGTH,
            GetState::RunSend(mem)
            | GetState::RunReceive(mem)
            | GetState::PollSend(mem)
            | GetState::PollReceive(mem) => mem@.words >= 2 * CHANNEL_STRIDE,
        }
    }

    /// The request to perform next. Once the registers are mapped, it is an
    /// access to a word of their window.
    pub fn request(&self) -> (request: Request)
        ensures
            request == self@.request(),
            self@.window() matches Some(mem) ==> request.register() matches Some(address)
                && mem.holds(address as int),
    {
        proof {
            use_type_invariant(self);
        }
        match &self.state {
            GetState::Mapping(map) => map.request(),
            GetState::RunSend(mem) => mem.write(CONTROL, RUN).request(),
            GetState::RunReceive(mem) => mem.write(CHANNEL_STRIDE + CONTROL, RUN).request(),
            GetState::PollSend(mem) => Request::Read { address: mem.read(STATUS) },
            GetState::PollReceive(mem) => Request::Read {
                address: mem.read(CHANNEL_STRIDE + STATUS),
            },
        }
    }

    /// Takes the reply to [`GetOp::request`] and moves on.
    pub fn advance(self, reply: Reply) -> (next: Step<GetOp, Dma>)
        ensures
            get_step_view(next) == self@.advance(reply),
    {
        proof {
            use_type_invariant(&self);
        }
        match self.state {
            GetState::Mapping(map) => match map.advance(reply) {
                Step::Pending(map) => Step::Pending(GetOp { state: GetState::Mapping(map) }),
                Step::Done(Ok(mem)) => Step::Pending(GetOp { state: GetState::RunSend(mem) }),
                Step::Done(Err(fault)) => Step::Done(Err(fault)),
            },
            GetState::RunSend(mem) => match reply {
                Reply::Written => Step::Pending(GetOp { state: GetState::RunReceive(mem) }),
                _ => Step::Done(Err(Fault::UnexpectedReply)),
            },
            GetState::RunReceive(mem) => match reply {
                Reply::Written => Step::Pending(GetOp { state: GetState::PollSend(mem) }),
                _ => Step::Done(Err(Fault::UnexpectedReply)),
            },
            GetState::PollSend(mem) => match reply {
                Reply::Word(status) => if status & HALTED != 0 {
                    Step::Pending(GetOp { state: GetState::PollSend(mem) })
                } else {
                    Step::Pending(GetOp { state: GetState::PollReceive(mem) })
                },
                _ => Step::Done(Err(Fault::UnexpectedReply)),
            },
            GetState::PollReceive(mem) => match reply {
                Reply::Word(status) => if status & HALTED != 0 {
                    Step::Pending(GetOp { state: GetState::PollSend(mem) })
                } else {
                    Step::Done(Ok(Dma { mem, tx_buffer: None, rx_buffer: None }))
                },
                _ => Step::Done(Err(Fault::UnexpectedReply)),
            },
        }
    }
}

impl Dma {
    #[verifier::type_invariant]
    spec fn wf(self) -> bool {
        self.mem@.words >= 2 * CHANNEL_STRIDE
    }

    /// Begins starting the engine.
    pub fn get() -> (op: GetOp)
        ensures
            op@ == GetStage::Mapping(
                MapOpView { phys_addr: DMA_BASE, length: DMA_LENGTH, stage: MapStage::PageSize },
            ),
    {
        GetOp { state: GetState::Mapping(Mmio::map(DMA_BASE, DMA_LENGTH)) }
    }

    /// The write that stores `value` in the register `index` of the channel
    /// `dir`.
    fn write(&self, dir: Direction, index: usize, value: u32) -> (access: RegWrite)
        requires
            index < CHANNEL_STRIDE,
        ensures
            access == (RegWrite { address: register(self@.mem, dir, index), value }),
            self@.mem.holds(access.address as int),
    {
        proof {
            use_type_invariant(self);
        }
        self.mem.write(dir.base() + index, value)
    }

    /// The address of the status register of the channel `dir`.
    pub fn status(&self, dir: Direction) -> (address: usize)
        ensures
            address == register(self@.mem, dir, STATUS),
            self@.mem.holds(address as int),
    {
        proof {
            use_type_invariant(self);
        }
        self.mem.read(dir.base() + STATUS)
    }

    /// Whether a status word of the send channel reports it idle.
    pub fn is_tx_idle(&self, status: u32) -> (is_idle: bool)
        ensures
            is_idle == idle(status),
    {
        status & IDLE == IDLE
    }

    /// Whether a status word of the receive channel reports it idle.
    pub fn is_rx_idle(&self, status: u32) -> (is_idle: bool)
        ensures
            is_idle == idle(status),
    {
        status & IDLE == IDLE
    }

    /// Hands `buf` to the send channel. On success the engine owns the buffer
    /// and the transfer begins once the returned writes are performed, in
    /// order. A channel that is in flight takes nothing: the buffer comes
    /// back and no register is to be written.
    pub fn start_send(&mut self, buf: DmaBuffer) -> (result: Result<[RegWrite; 2], Rejected>)
        ensures
            final(self)@ == old(self)@.start(Direction::Send, buf@).0,
            match (result, old(self)@.start(Direction::Send, buf@).1) {
                (Ok(writes), Ok(expected)) => writes@ == expected && forall|i: int|
                    0 <= i < 2 ==> old(self)@.mem.holds(#[trigger] writes@[i].address as int),
                (Err(rejected), Err(fault)) => rejected.fault == fault && rejected.buffer@ == buf@,
                _ => false,
            },
    {
        proof {
            use_type_invariant(&*self);
        }
        if self.tx_buffer.is_some() {
            return Err(Rejected { fault: Fault::SendBusy, buffer: buf });
        }
        let writes = [
            self.write(Direction::Send, ADDRESS, buf.physical_addr()),
            self.write(Direction::Send, LENGTH, buf.size() as u32),
        ];
        self.tx_buffer = Some(buf);
        Ok(writes)
    }

    /// Whether nothing is left to wait for on the send channel, given its
    /// status word.
    pub fn is_send_done(&self, status: u32) -> (done: bool)
        ensures
            done == self@.is_done(Direction::Send, status),
    {
        self.tx_buffer.is_none() || self.is_tx_idle(status)
    }

    /// Takes the buffer of the completed send back, given the status word of
    /// the send channel.
    pub fn finish_send(&mut self, status: u32) -> (result: Result<DmaBuffer, Fault>)
        ensures
            final(self)@ == old(self)@.finish(Direction::Send, status).0,
            match (result, old(self)@.finish(Direction::Send, status).1) {
                (Ok(buf), Ok(expected)) => buf@ == expected,
                (Err(fault), Err(expected)) => fault == expected,
                _ => false,
            },
    {
        proof {
            use_type_invariant(&*self);
        }
        if !self.is_send_done(status) {
            return Err(Fault::SendUnfinished);
        }
        let mut buf = None;
        std::mem::swap(&mut buf, &mut self.tx_buffer);
        match buf {
            Some(buf) => Ok(buf),
            None => Err(Fault::SendNotStarted),
        }
    }

    /// Hands `buf` to the receive channel. On success the engine owns the
    /// buffer and the transfer begins once the returned writes are performed,
    /// in order. A channel that is in flight takes nothing: the buffer comes
    /// back and no register is to be written.
    pub fn start_receive(&mut self, buf: DmaBuffer) -> (result: Result<[RegWrite; 2], Rejected>)
        ensures
            final(self)@ == old(self)@.start(Direction::Receive, buf@).0,
            match (result, old(self)@.start(Direction::Receive, buf@).1) {
                (Ok(writes), Ok(expected)) => writes@ == expected && forall|i: int|
                    0 <= i < 2 ==> old(self)@.mem.holds(#[trigger] writes@[i].address as int),
                (Err(rejected), Err(fault)) => rejected.fault == fault && rejected.buffer@ == buf@,
                _ => false,
            },
    {
        proof {
            use_type_invariant(&*self);
        }
        if self.rx_buffer.is_some() {
            return Err(Rejected { fault: Fault::ReceiveBusy, buffer: buf });
        }
        let writes = [
            self.write(Direction::Receive, ADDRESS, buf.physical_addr()),
            self.write(Direction::Receive, LENGTH, buf.size() as u32),
        ];
        self.rx_buffer = Some(buf);
        Ok(writes)
    }

    /// Whether nothing is left to wait for on the receive channel, given its
    /// status word.
    pub fn is_receive_done(&self, status: u32) -> (done: bool)
        ensures
            done == self@.is_done(Direction::Receive, status),
    {
        self.rx_buffer.is_none() || self.is_rx_idle(status)
    }

    /// Takes the buffer of the completed receive back, given the status word
    /// of the receive channel.
    pub fn finish_receive(&mut self, status: u32) -> (result: Result<DmaBuffer, Fault>)
        ensures
            final(self)@ == old(self)@.finish(Direction::Receive, status).0,
            match (result, old(self)@.finish(Direction::Receive, status).1) {
                (Ok(buf), Ok(expected)) => buf@ == expected,
                (Err(fault), Err(expected)) => fault == expected,
                _ => false,
            },
    {
        proof {
            use_type_invariant(&*self);
        }
        if !self.is_receive_done(status) {
            return Err(Fault::ReceiveUnfinished);
        }
        let mut buf = None;
        std::mem::swap(&mut buf, &mut self.rx_buffer);
        match buf {
            Some(buf) => Ok(buf),
            None => Err(Fault::ReceiveNotStarted),
        }
    }

    /// Takes the driver apart: the window to release, and the buffers that
    /// were still in flight, the send channel's first.
    pub fn release(self) -> (parts: (Mmio, Option<DmaBuffer>, Option<DmaBuffer>))
        ensures
            parts.0@ == self@.mem,
            channel_view(parts.1) == self@.send,
            channel_view(parts.2) == self@.receive,
    {
        (self.mem, self.tx_buffer, self.rx_buffer)
    }
}

/// Allocating a buffer succeeds whenever each system call does and the size
/// fits the 32-bit length the kernel is asked with; the buffer then has the
/// size that was asked for and the identifier and physical address that the
/// kernel reported. Releasing it at once unmaps it first and frees it
/// afterwards, and leaves the process with exactly the descriptors, mappings
/// and buffers it had before.
pub proof fn lemma_allocate_then_release(
    size: usize,
    fd: i32,
    status: i32,
    alloc: AllocBufIoctlArg,
    data: usize,
    release_fd: i32,
    before: Resources,
)
    requires
        size <= u32::MAX,
        fd > -1,
        status >= 0,
        data != MAP_FAILED,
        data + size <= usize::MAX,
        release_fd > -1,
        !before.descriptors.contains(fd),
        !before.descriptors.contains(release_fd),
        !before.mappings.contains((data, size)),
        !before.buffers.contains(alloc.id as u32),
    ensures
        ({
            let start = AllocOpView { size, stage: AllocStage::Open };
            let opened = Reply::Opened(fd);
            let allocated = Reply::Allocated { status, alloc };
            let mapped = Reply::Mapped(data);
            let closed = Reply::Closed(0);
            &&& start.advance(opened) matches Step::Pending(allocate)
            &&& allocate.advance(allocated) matches Step::Pending(mmap)
            &&& mmap.advance(mapped) matches Step::Pending(close)
            &&& close.advance(closed) matches Step::Done(Ok(buffer))
            &&& buffer == (Buffer {
                id: alloc.id as u32,
                physical_addr: alloc.phyaddr,
                data,
                size: size as nat,
            })
            &&& ({
                let held = before.after(start.request(), opened).after(
                    allocate.request(),
                    allocated,
                ).after(mmap.request(), mapped).after(close.request(), closed);
                let unmap = ReleaseOpView {
                    id: buffer.id,
                    data: buffer.data,
                    size: buffer.size as usize,
                    stage: ReleaseStage::Munmap,
                };
                let unmapped = Reply::Unmapped(0);
                let reopened = Reply::Opened(release_fd);
                let freed = Reply::Freed(0);
                &&& held.descriptors == before.descriptors
                &&& held.mappings == before.mappings.insert((data, size))
                &&& held.buffers == before.buffers.insert(buffer.id)
                &&& unmap.request() == (Request::Munmap { address: data, length: size })
                &&& unmap.advance(unmapped) matches Step::Pending(open)
                &&& open.advance(reopened) matches Step::Pending(free)
                &&& free.request() == (Request::FreeBuf {
                    fd: release_fd,
                    free: FreeBufIoctlArg { id: buffer.id, buf: 0 },
                })
                &&& free.advance(freed) matches Step::Pending(shut)
                &&& shut.advance(closed) == Step::<ReleaseOpView, ()>::Done(Ok(()))
                &&& held.after(unmap.request(), unmapped).after(open.request(), reopened).after(
                    free.request(),
                    freed,
                ).after(shut.request(), closed) == before
            })
        }),
{
    let id = alloc.id as u32;
    let start = AllocOpView { size, stage: AllocStage::Open };
    let allocate = AllocOpView { stage: AllocStage::Alloc { fd }, ..start };
    let mmap = AllocOpView {
        stage: AllocStage::Mmap { fd, id, physical_addr: alloc.phyaddr },
        ..start
    };
    let close = AllocOpView {
        stage: AllocStage::Close { fd, id, physical_addr: alloc.phyaddr, data },
        ..start
    };
    let held = before.after(start.request(), Reply::Opened(fd)).after(
        allocate.request(),
        Reply::Allocated { status, alloc },
    ).after(mmap.request(), Reply::Mapped(data)).after(close.request(), Reply::Closed(0));
    assert(held.descriptors =~= before.descriptors);
    assert(held.mappings =~= before.mappings.insert((data, size)));
    assert(held.buffers =~= before.buffers.insert(id));
    let unmap = ReleaseOpView { id, data, size, stage: ReleaseStage::Munmap };
    let open = ReleaseOpView { stage: ReleaseStage::Open, ..unmap };
    let free = ReleaseOpView { stage: ReleaseStage::Free { fd: release_fd }, ..unmap };
    let shut = ReleaseOpView { stage: ReleaseStage::Close { fd: release_fd }, ..unmap };
    let after = held.after(unmap.request(), Reply::Unmapped(0)).after(
        open.request(),
        Reply::Opened(release_fd),
    ).after(free.request(), Reply::Freed(0)).after(shut.request(), Reply::Closed(0));
    assert(after.descriptors =~= before.descriptors);
    assert(after.mappings =~= before.mappings);
    assert(after.buffers =~= before.buffers);
    assert(after =~= before);
}

/// An allocation and a release come to their ends: each reply either ends
/// the operation or leaves one request fewer to make, for the same buffer.
pub proof fn lemma_buffer_operations_end(alloc: AllocOpView, release: ReleaseOpView, reply: Reply)
    ensures
        alloc.advance(reply) matches Step::Pending(next) ==> next.steps() + 1 == alloc.steps()
            && next.size == alloc.size,
        release.advance(reply) matches Step::Pending(next) ==> next.steps() + 1
            == release.steps() && next.id == release.id && next.data == release.data
            && next.size == release.size,
{
}

/// An allocation that ends with a buffer ends with one of the size that was
/// asked for, whatever the replies were.
pub proof fn lemma_allocated_size(
    size: usize,
    first: Reply,
    second: Reply,
    third: Reply,
    fourth: Reply,
)
    ensures
        ({
            let start = AllocOpView { size, stage: AllocStage::Open };
            start.advance(first) matches Step::Pending(allocate) ==> (allocate.advance(
                second,
            ) matches Step::Pending(mmap) ==> (mmap.advance(third) matches Step::Pending(close)
                ==> (close.advance(fourth) matches Step::Done(Ok(buffer)) ==> buffer.size
                == size)))
        }),
{
}

/// Starting the engine maps the 24 registers of the two channels, sets the
/// run bit of the send channel and of the receive channel, in this order, and
/// ends with a fresh engine as soon as a reading of the send status and the
/// following reading of the receive status both report the channels not
/// halted, provided each system call succeeds.
pub proof fn lemma_get(page_size: i64, fd: i32, address: usize, send: u32, receive: u32)
    requires
        crate::mmio::aligned(DMA_BASE, page_size as u32),
        fd > -1,
        address != MAP_FAILED,
        address + 96 <= usize::MAX,
        !halted(send),
        !halted(receive),
    ensures
        ({
            let mem = Window { phys_addr: DMA_BASE, words: 24, mem: address };
            let start = GetStage::Mapping(
                MapOpView { phys_addr: DMA_BASE, length: DMA_LENGTH, stage: MapStage::PageSize },
            );
            &&& start.advance(Reply::PageSize(page_size)) matches Step::Pending(open)
            &&& open.advance(Reply::Opened(fd)) matches Step::Pending(mmap)
            &&& mmap.request() == (Request::Mmap {
                fd,
                length: 96,
                offset: DMA_BASE,
                access: Access::ReadWrite,
                sharing: Sharing::Shared,
                locked: false,
            })
            &&& mmap.advance(Reply::Mapped(address)) matches Step::Pending(close)
            &&& close.advance(Reply::Closed(0)) == Step::<GetStage, Engine>::Pending(
                GetStage::RunSend(mem),
            )
            &&& GetStage::RunSend(mem).request() == (Request::Write {
                address: (address + 0) as usize,
                value: 1,
            })
            &&& GetStage::RunSend(mem).advance(Reply::Written) == Step::<
                GetStage,
                Engine,
            >::Pending(GetStage::RunReceive(mem))
            &&& GetStage::RunReceive(mem).request() == (Request::Write {
                address: (address + 48) as usize,
                value: 1,
            })
            &&& GetStage::RunReceive(mem).advance(Reply::Written) == Step::<
                GetStage,
                Engine,
            >::Pending(GetStage::PollSend(mem))
            &&& GetStage::PollSend(mem).request() == (Request::Read {
                address: (address + 4) as usize,
            })
            &&& GetStage::PollSend(mem).advance(Reply::Word(send)) == Step::<
                GetStage,
                Engine,
            >::Pending(GetStage::PollReceive(mem))
            &&& GetStage::PollReceive(mem).request() == (Request::Read {
                address: (address + 52) as usize,
            })
            &&& GetStage::PollReceive(mem).advance(Reply::Word(receive)) == Step::<
                GetStage,
                Engine,
            >::Done(Ok(Engine::fresh(mem)))
        }),
{
    assert(words_for(DMA_LENGTH) == 24);
}

/// While a status word reports its channel halted, the start of the engine
/// does not end: it goes back to reading the send status.
pub proof fn lemma_get_waits(mem: Window, status: u32)
    requires
        halted(status),
    ensures
        GetStage::PollSend(mem).advance(Reply::Word(status)) == Step::<GetStage, Engine>::Pending(
            GetStage::PollSend(mem),
        ),
        GetStage::PollReceive(mem).advance(Reply::Word(status)) == Step::<
            GetStage,
            Engine,
        >::Pending(GetStage::PollSend(mem)),
{
}

/// One transfer takes a channel from idle to in flight and back to idle. On
/// an engine whose channel is idle, starting a transfer is accepted and puts
/// the buffer in flight; once the status word reports the channel idle,
/// finishing hands the same buffer back and leaves the engine as it was
/// before the transfer.
pub proof fn lemma_transfer_cycle(engine: Engine, dir: Direction, buf: Buffer, status: u32)
    requires
        engine.channel(dir) is Idle,
        idle(status),
    ensures
        engine.start(dir, buf).1 == Ok::<Seq<RegWrite>, Fault>(engine.arm(dir, buf)),
        engine.start(dir, buf).0.channel(dir) == Channel::InFlight(buf),
        engine.start(dir, buf).0.finish(dir, status).1 == Ok::<Buffer, Fault>(buf),
        engine.start(dir, buf).0.finish(dir, status).0 == engine,
{
}

/// While the status word does not report the channel idle, a transfer in
/// flight is not done and cannot be finished: the attempt is a usage error
/// and changes nothing.
pub proof fn lemma_finish_too_early(engine: Engine, dir: Direction, status: u32)
    requires
        engine.channel(dir) is InFlight,
        !idle(status),
    ensures
        !engine.is_done(dir, status),
        engine.finish(dir, status) == (engine, Err::<Buffer, Fault>(dir.unfinished())),
        dir.unfinished().spec_kind() == crate::fault::ErrorKind::Usage,
{
}

/// Finishing on an idle channel is a usage error and changes nothing, so it
/// is refused again however often it is repeated, whatever the status words
/// are.
pub proof fn lemma_finish_without_start(
    engine: Engine,
    dir: Direction,
    status: u32,
    again: u32,
)
    requires
        engine.channel(dir) is Idle,
    ensures
        engine.finish(dir, status) == (engine, Err::<Buffer, Fault>(dir.not_started())),
        engine.finish(dir, status).0.finish(dir, again) == (
            engine,
            Err::<Buffer, Fault>(dir.not_started()),
        ),
        dir.not_started().spec_kind() == crate::fault::ErrorKind::Usage,
{
}

/// After a finish that handed a buffer back, a second finish in a row is a
/// usage error and changes nothing.
pub proof fn lemma_finish_twice(engine: Engine, dir: Direction, status: u32, again: u32)
    requires
        engine.finish(dir, status).1 is Ok,
    ensures
        engine.finish(dir, status).0.finish(dir, again).1 == Err::<Buffer, Fault>(
            dir.not_started(),
        ),
        engine.finish(dir, status).0.finish(dir, again).0 == engine.finish(dir, status).0,
{
}

/// Starting a second transfer on a channel that is in flight is a usage
/// error: the engine keeps the first buffer, and there is no register to
/// write for the second.
pub proof fn lemma_start_twice(engine: Engine, dir: Direction, first: Buffer, second: Buffer)
    requires
        engine.start(dir, first).1 is Ok,
    ensures
        engine.start(dir, first).0.start(dir, second) == (
            engine.start(dir, first).0,
            Err::<Seq<RegWrite>, Fault>(dir.busy()),
        ),
        engine.start(dir, first).0.channel(dir) == Channel::InFlight(first),
        dir.busy().spec_kind() == crate::fault::ErrorKind::Usage,
{
}

/// On an engine with no transfer in flight, such as a fresh one, every
/// channel is done, whatever its status word.
pub proof fn lemma_idle_is_done(engine: Engine, dir: Direction, status: u32)
    requires
        engine.channel(dir) is Idle,
    ensures
        engine.is_done(dir, status),
        Engine::fresh(engine.mem).is_done(dir, status),
{
}

/// The two channels are independent: starting or finishing a transfer on one
/// leaves the state of the other, and whether it is done, untouched; and no
/// operation moves the register window.
pub proof fn lemma_channels_independent(
    engine: Engine,
    dir: Direction,
    other: Direction,
    buf: Buffer,
    status: u32,
    other_status: u32,
)
    requires
        dir != other,
    ensures
        engine.start(dir, buf).0.channel(other) == engine.channel(other),
        engine.finish(dir, status).0.channel(other) == engine.channel(other),
        engine.start(dir, buf).0.is_done(other, other_status) == engine.is_done(
            other,
            other_status,
        ),
        engine.finish(dir, status).0.is_done(other, other_status) == engine.is_done(
            other,
            other_status,
        ),
        engine.start(dir, buf).0.mem == engine.mem,
        engine.finish(dir, status).0.mem == engine.mem,
{
}

/// The registers of the two channels lie at the documented places of the
/// window: control, status, address and length of the send channel in the
/// words 0, 1, 6 and 10, those of the receive channel in the words 12, 13, 18
/// and 22.
pub proof fn lemma_register_layout(mem: Window)
    requires
        mem.mem + 4 * (2 * CHANNEL_STRIDE) <= usize::MAX,
    ensures
        register(mem, Direction::Send, CONTROL) == mem.mem + 4 * 0,
        register(mem, Direction::Send, STATUS) == mem.mem + 4 * 1,
        register(mem, Direction::Send, ADDRESS) == mem.mem + 4 * 6,
        register(mem, Direction::Send, LENGTH) == mem.mem + 4 * 10,
        register(mem, Direction::Receive, CONTROL) == mem.mem + 4 * 12,
        register(mem, Direction::Receive, STATUS) == mem.mem + 4 * 13,
        register(mem, Direction::Receive, ADDRESS) == mem.mem + 4 * 18,
        register(mem, Direction::Receive, LENGTH) == mem.mem + 4 * 22,
{
}

} // verus!
