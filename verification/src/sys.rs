//! The system calls the crate asks for, and what it is told of their outcome.
//!
//! A [`Request`] names one system call, or one access to a mapped register,
//! with all of its arguments; a [`Reply`] carries what came back. The
//! embedding program performs each request and hands the reply to the
//! operation that made it.

use vstd::prelude::*;

verus! {

/// The value with which a failed mapping is reported (all bits set).
pub const MAP_FAILED: usize = usize::MAX;

/// The control request that allocates a buffer.
pub const XLNK_IOCALLOCBUF: u64 = 0xc0045802;

/// The control request that frees a buffer.
pub const XLNK_IOCFREEBUF: u64 = 0xc0045803;

/// The two character devices the crate works through.
#[derive(Clone, Copy, Debug, PartialEq, Eq, Structural)]
pub enum Device {
    /// Physical memory, mapped by page-aligned offsets.
    Mem,
    /// The kernel's manager of physically contiguous buffers.
    Xlnk,
}

impl Device {
    /// The path of each device.
    pub open spec fn spec_path(self) -> Seq<char> {
        match self {
            Device::Mem => "/dev/mem"@,
            Device::Xlnk => "/dev/xlnk"@,
        }
    }

    /// Where the device is found in the file system.
    pub fn path(self) -> (text: &'static str)
        ensures
            text@ == self.spec_path(),
    {
        match self {
            Device::Mem => "/dev/mem",
            Device::Xlnk => "/dev/xlnk",
        }
    }
}

/// The directions in which a device is opened or a range is mapped.
#[derive(Clone, Copy, Debug, PartialEq, Eq, Structural)]
pub enum Access {
    /// For reading only.
    Read,
    /// For writing only.
    Write,
    /// For reading and writing.
    ReadWrite,
}

/// Whether the writes to a mapping reach the device and the other processes
/// that map it.
#[derive(Clone, Copy, Debug, PartialEq, Eq, Structural)]
pub enum Sharing {
    /// They do.
    Shared,
    /// They stay with the process.
    Private,
}

/// The argument block of the allocating control request: the caller fills
/// `len` and `cacheable`, the kernel fills `id` and `phyaddr`.
#[derive(Clone, Copy, Debug, PartialEq, Eq, Structural)]
pub struct AllocBufIoctlArg {
    pub len: u32,
    pub id: i32,
    pub phyaddr: u32,
    pub cacheable: u8,
}

/// The argument block of the freeing control request.
#[derive(Clone, Copy, Debug, PartialEq, Eq, Structural)]
pub struct FreeBufIoctlArg {
    pub id: u32,
    pub buf: u32,
}

/// One system call or register access, with its arguments.
#[derive(Clone, Copy, Debug, PartialEq, Eq, Structural)]
pub enum Request {
    /// Ask the system for its page size.
    PageSize,
    /// Open a device for the given access; `sync` asks for synchronous
    /// writes as well.
    Open { device: Device, access: Access, sync: bool },
    /// Map `length` bytes of the open device `fd`, starting at `offset`, at
    /// an address of the kernel's choice; `locked` pins the pages in memory.
    Mmap { fd: i32, length: usize, offset: u32, access: Access, sharing: Sharing, locked: bool },
    /// Close a descriptor.
    Close { fd: i32 },
    /// Remove the mapping of `length` bytes at `address`.
    Munmap { address: usize, length: usize },
    /// Send the allocating control request to the open buffer manager `fd`.
    AllocBuf { fd: i32, alloc: AllocBufIoctlArg },
    /// Send the freeing control request to the open buffer manager `fd`.
    FreeBuf { fd: i32, free: FreeBufIoctlArg },
    /// Read the 32-bit register mapped at `address`.
    Read { address: usize },
    /// Store `value` in the 32-bit register mapped at `address`.
    Write { address: usize, value: u32 },
}

impl Request {
    /// The address of the register that the request reads or writes, if it
    /// is an access to a register.
    pub open spec fn register(self) -> Option<usize> {
        match self {
            Request::Read { address } => Some(address),
            Request::Write { address, .. } => Some(address),
            _ => None,
        }
    }
}

/// What a system call or register access returned.
#[derive(Clone, Copy, Debug, PartialEq, Eq, Structural)]
pub enum Reply {
    /// The page size the system reported.
    PageSize(i64),
    /// The descriptor of the opened device, negative on failure.
    Opened(i32),
    /// The address of the new mapping, [`MAP_FAILED`] on failure.
    Mapped(usize),
    /// The status of a close, zero on success.
    Closed(i32),
    /// The status of an unmapping, zero on success.
    Unmapped(i32),
    /// The status of the allocating control request, negative on failure,
    /// and the argument block as the kernel left it.
    Allocated { status: i32, alloc: AllocBufIoctlArg },
    /// The status of the freeing control request, negative on failure.
    Freed(i32),
    /// The word that was read from a register.
    Word(u32),
    /// A register was written.
    Written,
}

impl Reply {
    /// Whether the reply is of the sort that `request` is answered with.
    pub open spec fn answers(self, request: Request) -> bool {
        match request {
            Request::PageSize => self is PageSize,
            Request::Open { .. } => self is Opened,
            Request::Mmap { .. } => self is Mapped,
            Request::Close { .. } => self is Closed,
            Request::Munmap { .. } => self is Unmapped,
            Request::AllocBuf { .. } => self is Allocated,
            Request::FreeBuf { .. } => self is Freed,
            Request::Read { .. } => self is Word,
            Request::Write { .. } => self is Written,
        }
    }

    /// Whether the reply reports that the call succeeded.
    pub open spec fn succeeded(self) -> bool {
        match self {
            Reply::PageSize(_) => true,
            Reply::Opened(fd) => fd > -1,
            Reply::Mapped(address) => address != MAP_FAILED,
            Reply::Closed(status) => status == 0,
            Reply::Unmapped(status) => status == 0,
            Reply::Allocated { status, .. } => status >= 0,
            Reply::Freed(status) => status >= 0,
            Reply::Word(_) => true,
            Reply::Written => true,
        }
    }
}

/// A write of one word to a mapped register.
#[derive(Clone, Copy, Debug, PartialEq, Eq, Structural)]
pub struct RegWrite {
    /// The address of the register.
    pub address: usize,
    /// The word to store there.
    pub value: u32,
}

impl RegWrite {
    /// The request that performs the write.
    pub open spec fn spec_request(self) -> Request {
        Request::Write { address: self.address, value: self.value }
    }

    /// The request that performs the write.
    #[verifier::when_used_as_spec(spec_request)]
    pub fn request(self) -> (request: Request)
        ensures
            request == self.spec_request(),
    {
        Request::Write { address: self.address, value: self.value }
    }
}

/// A range of bytes in the address space of the process.
#[derive(Clone, Copy, Debug, PartialEq, Eq, Structural)]
pub struct Span {
    /// The address of the first byte.
    pub address: usize,
    /// The number of bytes.
    pub length: usize,
}

/// How far an operation has come: it either waits for the reply to its next
/// request, or has ended with a result.
pub enum Step<S, T> {
    /// The operation goes on from this state.
    Pending(S),
    /// The operation is over.
    Done(Result<T, crate::fault::Fault>),
}

/// What the kernel holds for the process, as far as the requests of this crate
/// change it.
#[verifier::ext_equal]
pub ghost struct Resources {
    /// The open descriptors.
    pub descriptors: Set<i32>,
    /// The live mappings, each an address with its length in bytes.
    pub mappings: Set<(usize, usize)>,
    /// The identifiers of the allocated buffers.
    pub buffers: Set<u32>,
}

impl Resources {
    /// The holdings after `request` was answered with `reply`. A call that
    /// failed changes nothing.
    pub open spec fn after(self, request: Request, reply: Reply) -> Resources {
        if !reply.answers(request) || !reply.succeeded() {
            self
        } else {
            match (request, reply) {
                (Request::Open { .. }, Reply::Opened(fd)) => Resources {
                    descriptors: self.descriptors.insert(fd),
                    ..self
                },
                (Request::Close { fd }, _) => Resources {
                    descriptors: self.descriptors.remove(fd),
                    ..self
                },
                (Request::Mmap { length, .. }, Reply::Mapped(address)) => Resources {
                    mappings: self.mappings.insert((address, length)),
                    ..self
                },
                (Request::Munmap { address, length }, _) => Resources {
                    mappings: self.mappings.remove((address, length)),
                    ..self
                },
                (Request::AllocBuf { .. }, Reply::Allocated { alloc, .. }) => Resources {
                    buffers: self.buffers.insert(alloc.id as u32),
                    ..self
                },
                (Request::FreeBuf { free, .. }, _) => Resources {
                    buffers: self.buffers.remove(free.id),
                    ..self
                },
                _ => self,
            }
        }
    }
}

} // verus!
