//! The conditions under which an operation gives up.

use vstd::prelude::*;

verus! {

/// The four families of failure.
#[derive(Clone, Copy, Debug, PartialEq, Eq, Structural)]
pub enum ErrorKind {
    /// A physical address is not a multiple of the page size.
    Alignment,
    /// A device could not be opened, mapped, unmapped or closed.
    Mapping,
    /// The kernel refused to allocate or free a buffer.
    Allocation,
    /// The caller broke the protocol of an operation.
    Usage,
}

/// One failed step: which operation gave up, and on which resource.
///
/// None of these can be recovered from at the place where it is detected; an
/// embedding program is expected to stop with [`Fault::message`].
#[derive(Clone, Copy, Debug, PartialEq, Eq, Structural)]
pub enum Fault {
    /// The physical base of a register window is not page aligned.
    Unaligned,
    /// The physical-memory device could not be opened.
    OpenMem,
    /// The physical range could not be mapped.
    MapMem,
    /// The physical-memory device could not be closed.
    CloseMem,
    /// A register window could not be unmapped.
    UnmapIo,
    /// The buffer-management device could not be opened.
    OpenXlnk,
    /// The kernel refused to allocate a buffer.
    AllocBuf,
    /// The kernel refused to free a buffer.
    FreeBuf,
    /// A buffer could not be mapped.
    MapBuffer,
    /// The buffer-management device could not be closed.
    CloseXlnk,
    /// A buffer could not be unmapped.
    UnmapBuffer,
    /// A send was started while another one is in flight.
    SendBusy,
    /// A send was finished before the hardware reported the channel idle.
    SendUnfinished,
    /// A send was finished although none was started.
    SendNotStarted,
    /// A receive was started while another one is in flight.
    ReceiveBusy,
    /// A receive was finished before the hardware reported the channel idle.
    ReceiveUnfinished,
    /// A receive was finished although none was started.
    ReceiveNotStarted,
    /// No clock was given to configure.
    NoClocks,
    /// More than four clocks were given to configure.
    TooManyClocks,
    /// An operation was told the outcome of a request it did not make.
    UnexpectedReply,
}

impl Fault {
    /// The family of each fault.
    pub open spec fn spec_kind(self) -> ErrorKind {
        match self {
            Fault::Unaligned => ErrorKind::Alignment,
            Fault::OpenMem
            | Fault::MapMem
            | Fault::CloseMem
            | Fault::UnmapIo
            | Fault::OpenXlnk
            | Fault::MapBuffer
            | Fault::CloseXlnk
            | Fault::UnmapBuffer => ErrorKind::Mapping,
            Fault::AllocBuf | Fault::FreeBuf => ErrorKind::Allocation,
            Fault::SendBusy
            | Fault::SendUnfinished
            | Fault::SendNotStarted
            | Fault::ReceiveBusy
            | Fault::ReceiveUnfinished
            | Fault::ReceiveNotStarted
            | Fault::NoClocks
            | Fault::TooManyClocks
            | Fault::UnexpectedReply => ErrorKind::Usage,
        }
    }

    /// The family this fault belongs to.
    #[verifier::when_used_as_spec(spec_kind)]
    pub fn kind(self) -> (kind: ErrorKind)
        ensures
            kind == self.spec_kind(),
    {
        match self {
            Fault::Unaligned => ErrorKind::Alignment,
            Fault::OpenMem
            | Fault::MapMem
            | Fault::CloseMem
            | Fault::UnmapIo
            | Fault::OpenXlnk
            | Fault::MapBuffer
            | Fault::CloseXlnk
            | Fault::UnmapBuffer => ErrorKind::Mapping,
            Fault::AllocBuf | Fault::FreeBuf => ErrorKind::Allocation,
            _ => ErrorKind::Usage,
        }
    }

    /// The diagnostic an embedding program stops with.
    pub fn message(self) -> (text: &'static str)
        ensures
            text@ == self.spec_message(),
    {
        match self {
            Fault::Unaligned => "Only page boundary aligned IO is supported!",
            Fault::OpenMem => "Failed to open /dev/mem. Are we root?",
            Fault::MapMem => "Failed to mmap physical memory.",
            Fault::CloseMem => "Failed to close /dev/mem.",
            Fault::UnmapIo => "Failed to unmap IO.",
            Fault::OpenXlnk => "Failed to open /dev/xlnk.",
            Fault::AllocBuf => "xlnk.alloc_buf failed!",
            Fault::FreeBuf => "xlnk.free_buf failed!",
            Fault::MapBuffer => "Failed to mmap DMA buffer.",
            Fault::CloseXlnk => "Failed to close /dev/xlnk.",
            Fault::UnmapBuffer => "Failed to unmap DMA buffer.",
            Fault::SendBusy => "Cannot send when transmission is in progress!",
            Fault::SendUnfinished => "Cannot finish send when transmission hasn't finished!",
            Fault::SendNotStarted => "Cannot finish send when no transmission was started!",
            Fault::ReceiveBusy => "Cannot receive when transmission is in progress!",
            Fault::ReceiveUnfinished => "Cannot finish receive when transmission hasn't finished!",
            Fault::ReceiveNotStarted => "Cannot finish receive when no transmission was started!",
            Fault::NoClocks => "Need to enable at least 1 clock!",
            Fault::TooManyClocks => "Only four clocks FCLK(0-3) can be configured!",
            Fault::UnexpectedReply => "Received the outcome of a request that was not made!",
        }
    }

    /// The text of [`Fault::message`].
    pub open spec fn spec_message(self) -> Seq<char> {
        match self {
            Fault::Unaligned => "Only page boundary aligned IO is supported!"@,
            Fault::OpenMem => "Failed to open /dev/mem. Are we root?"@,
            Fault::MapMem => "Failed to mmap physical memory."@,
            Fault::CloseMem => "Failed to close /dev/mem."@,
            Fault::UnmapIo => "Failed to unmap IO."@,
            Fault::OpenXlnk => "Failed to open /dev/xlnk."@,
            Fault::AllocBuf => "xlnk.alloc_buf failed!"@,
            Fault::FreeBuf => "xlnk.free_buf failed!"@,
            Fault::MapBuffer => "Failed to mmap DMA buffer."@,
            Fault::CloseXlnk => "Failed to close /dev/xlnk."@,
            Fault::UnmapBuffer => "Failed to unmap DMA buffer."@,
            Fault::SendBusy => "Cannot send when transmission is in progress!"@,
            Fault::SendUnfinished => "Cannot finish send when transmission hasn't finished!"@,
            Fault::SendNotStarted => "Cannot finish send when no transmission was started!"@,
            Fault::ReceiveBusy => "Cannot receive when transmission is in progress!"@,
            Fault::ReceiveUnfinished => "Cannot finish receive when transmission hasn't finished!"@,
            Fault::ReceiveNotStarted => "Cannot finish receive when no transmission was started!"@,
            Fault::NoClocks => "Need to enable at least 1 clock!"@,
            Fault::TooManyClocks => "Only four clocks FCLK(0-3) can be configured!"@,
            Fault::UnexpectedReply => "Received the outcome of a request that was not made!"@,
        }
    }
}

} // verus!
