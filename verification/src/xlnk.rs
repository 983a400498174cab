//! Sessions with the kernel's manager of physically contiguous buffers.
//!
//! Each call of a session comes in two halves: one builds the request, the
//! other reads the reply.

use vstd::prelude::*;
use crate::fault::Fault;
use crate::sys::{
    Access, AllocBufIoctlArg, Device, FreeBufIoctlArg, Reply, Request, Sharing, MAP_FAILED,
};

verus! {

/// The argument block that asks for `length` bytes. The kernel has not named
/// a buffer yet: `id` is -1 and `phyaddr` is 0.
pub open spec fn alloc_args(length: u32, is_cacheable: bool) -> AllocBufIoctlArg {
    AllocBufIoctlArg {
        len: length,
        id: -1i32,
        phyaddr: 0,
        cacheable: if is_cacheable {
            1
        } else {
            0
        },
    }
}

/// The offset at which the buffer manager maps the buffer `id`: the
/// identifier moved into the bits above the low 24.
pub open spec fn mmap_offset(id: u32) -> u32 {
    id << 24
}

/// An open session with the buffer manager.
///
/// The session is consumed when it is closed, so it is closed at most once.
pub struct Xlnk {
    fd: i32,
}

impl Xlnk {
    /// The descriptor of the session.
    pub closed spec fn spec_fd(&self) -> i32 {
        self.fd
    }

    /// The descriptor of the session.
    #[verifier::when_used_as_spec(spec_fd)]
    pub fn fd(&self) -> (fd: i32)
        ensures
            fd == self.spec_fd(),
    {
        self.fd
    }

    /// The request that opens a session.
    pub fn open_request() -> (request: Request)
        ensures
            request == (Request::Open { device: Device::Xlnk, access: Access::ReadWrite, sync: false }),
    {
        Request::Open { device: Device::Xlnk, access: Access::ReadWrite, sync: false }
    }

    /// The session that `reply` opened, if it opened one.
    pub fn open(reply: Reply) -> (session: Result<Xlnk, Fault>)
        ensures
            match reply {
                Reply::Opened(fd) => if fd > -1 {
                    session matches Ok(xlnk) && xlnk.spec_fd() == fd
                } else {
                    session matches Err(fault) && fault == Fault::OpenXlnk
                },
                _ => session matches Err(fault) && fault == Fault::UnexpectedReply,
            },
    {
        match reply {
            Reply::Opened(fd) => if fd > -1 {
                Ok(Xlnk { fd })
            } else {
                Err(Fault::OpenXlnk)
            },
            _ => Err(Fault::UnexpectedReply),
        }
    }

    /// The request that allocates `length` bytes. A length that the 32-bit
    /// field of the argument block cannot hold is refused.
    pub fn alloc_buf_request(&self, length: usize, is_cacheable: bool) -> (request: Result<
        Request,
        Fault,
    >)
        ensures
            length <= u32::MAX ==> request == Ok::<Request, Fault>(
                Request::AllocBuf {
                    fd: self.spec_fd(),
                    alloc: alloc_args(length as u32, is_cacheable),
                },
            ),
            length > u32::MAX ==> request == Err::<Request, Fault>(Fault::AllocBuf),
    {
        if length > u32::MAX as usize {
            Err(Fault::AllocBuf)
        } else {
            Ok(
                Request::AllocBuf {
                    fd: self.fd,
                    alloc: AllocBufIoctlArg {
                        len: length as u32,
                        id: -1,
                        phyaddr: 0,
                        cacheable: if is_cacheable {
                            1
                        } else {
                            0
                        },
                    },
                },
            )
        }
    }

    /// The identifier and the physical address of the buffer that `reply`
    /// allocated, if it allocated one.
    pub fn alloc_buf(&mut self, reply: Reply) -> (buffer: Result<(u32, u32), Fault>)
        ensures
            final(self).spec_fd() == old(self).spec_fd(),
            match reply {
                Reply::Allocated { status, alloc } => if status >= 0 {
                    buffer == Ok::<(u32, u32), Fault>((alloc.id as u32, alloc.phyaddr))
                } else {
                    buffer == Err::<(u32, u32), Fault>(Fault::AllocBuf)
                },
                _ => buffer == Err::<(u32, u32), Fault>(Fault::UnexpectedReply),
            },
    {
        match reply {
            Reply::Allocated { status, alloc } => if status >= 0 {
                Ok((#[verifier::truncate] (alloc.id as u32), alloc.phyaddr))
            } else {
                Err(Fault::AllocBuf)
            },
            _ => Err(Fault::UnexpectedReply),
        }
    }

    /// The request that frees the buffer `id`.
    pub fn free_buf_request(&self, id: u32) -> (request: Request)
        ensures
            request == (Request::FreeBuf {
                fd: self.spec_fd(),
                free: FreeBufIoctlArg { id, buf: 0 },
            }),
    {
        Request::FreeBuf { fd: self.fd, free: FreeBufIoctlArg { id, buf: 0 } }
    }

    /// Whether `reply` freed the buffer.
    pub fn free_buf(&mut self, reply: Reply) -> (freed: Result<(), Fault>)
        ensures
            final(self).spec_fd() == old(self).spec_fd(),
            match reply {
                Reply::Freed(status) => if status >= 0 {
                    freed == Ok::<(), Fault>(())
                } else {
                    freed == Err::<(), Fault>(Fault::FreeBuf)
                },
                _ => freed == Err::<(), Fault>(Fault::UnexpectedReply),
            },
    {
        match reply {
            Reply::Freed(status) => if status >= 0 {
                Ok(())
            } else {
                Err(Fault::FreeBuf)
            },
            _ => Err(Fault::UnexpectedReply),
        }
    }

    /// The request that maps the `length` bytes of the buffer `id`: a shared
    /// mapping, locked in memory, at the offset that stands for the buffer.
    pub fn mmap_buffer_request(&self, id: u32, length: usize) -> (request: Request)
        ensures
            request == (Request::Mmap {
                fd: self.spec_fd(),
                length,
                offset: mmap_offset(id),
                access: Access::ReadWrite,
                sharing: Sharing::Shared,
                locked: true,
            }),
    {
        Request::Mmap {
            fd: self.fd,
            length,
            offset: id << 24,
            access: Access::ReadWrite,
            sharing: Sharing::Shared,
            locked: true,
        }
    }

    /// The address at which `reply` mapped the buffer, if it mapped it.
    pub fn mmap_buffer(&mut self, reply: Reply) -> (address: Result<usize, Fault>)
        ensures
            final(self).spec_fd() == old(self).spec_fd(),
            match reply {
                Reply::Mapped(mm) => if mm != MAP_FAILED {
                    address == Ok::<usize, Fault>(mm)
                } else {
                    address == Err::<usize, Fault>(Fault::MapBuffer)
                },
                _ => address == Err::<usize, Fault>(Fault::UnexpectedReply),
            },
    {
        match reply {
            Reply::Mapped(mm) => if mm != MAP_FAILED {
                Ok(mm)
            } else {
                Err(Fault::MapBuffer)
            },
            _ => Err(Fault::UnexpectedReply),
        }
    }

    /// The request that closes the session.
    pub fn close_request(&self) -> (request: Request)
        ensures
            request == (Request::Close { fd: self.spec_fd() }),
    {
        Request::Close { fd: self.fd }
    }

    /// Ends the session; tells whether `reply` closed it.
    pub fn close(self, reply: Reply) -> (closed: Result<(), Fault>)
        ensures
            match reply {
                Reply::Closed(status) => if status == 0 {
                    closed == Ok::<(), Fault>(())
                } else {
                    closed == Err::<(), Fault>(Fault::CloseXlnk)
                },
                _ => closed == Err::<(), Fault>(Fault::UnexpectedReply),
            },
    {
        match reply {
            Reply::Closed(status) => if status == 0 {
                Ok(())
            } else {
                Err(Fault::CloseXlnk)
            },
            _ => Err(Fault::UnexpectedReply),
        }
    }
}

/// A buffer identifier below 256 is mapped at the identifier times 2^24;
/// larger identifiers lose their high bits.
pub proof fn lemma_mmap_offset(id: u32)
    ensures
        id < 256 ==> mmap_offset(id) == id * 0x100_0000,
        mmap_offset(id) == mmap_offset(id % 256),
        mmap_offset(id) % 0x100_0000 == 0,
{
    assert(id < 256 ==> id << 24 == id * 0x100_0000) by (bit_vector);
    assert(id << 24 == (id % 256) << 24) by (bit_vector);
    assert((id << 24) % 0x100_0000 == 0) by (bit_vector);
}

} // verus!
