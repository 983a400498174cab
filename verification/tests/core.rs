// Register windows, buffers and the engine, driven against a simulated
// kernel and a simulated engine.

use pynq::dma::{AllocOp, Direction, Dma, DmaBuffer, GetOp, ReleaseOp};
use pynq::fault::{ErrorKind, Fault};
use pynq::mmio::{MapOp, Mmio, UnmapOp};
use pynq::sys::{
    Access, AllocBufIoctlArg, Device, FreeBufIoctlArg, RegWrite, Reply, Request, Sharing, Span,
    Step, MAP_FAILED, XLNK_IOCALLOCBUF, XLNK_IOCFREEBUF,
};
use pynq::xlnk::Xlnk;

const PAGE: i64 = 4096;
const REGS_AT: usize = 0x1000_0000;
const RAM_AT: usize = 0x2000_0000;
const RAM_PHYSICAL: u32 = 0x1800_0000;

/// A kernel and an engine that live in memory.
struct Machine {
    descriptors: Vec<(i32, Device)>,
    mappings: Vec<(usize, usize)>,
    buffers: Vec<u32>,
    regs: Vec<u32>,
    ram: Vec<u8>,
    log: Vec<Request>,
    fail_open: bool,
    fail_mmap: bool,
    fail_close: bool,
    fail_munmap: bool,
    fail_alloc: bool,
    fail_free: bool,
    halted_reads: u32,
}

impl Machine {
    fn new() -> Machine {
        Machine {
            descriptors: Vec::new(),
            mappings: Vec::new(),
            buffers: Vec::new(),
            regs: vec![0; 24],
            ram: vec![0; 256],
            log: Vec::new(),
            fail_open: false,
            fail_mmap: false,
            fail_close: false,
            fail_munmap: false,
            fail_alloc: false,
            fail_free: false,
            halted_reads: 0,
        }
    }

    fn device_of(&self, fd: i32) -> Option<Device> {
        self.descriptors.iter().find(|entry| entry.0 == fd).map(|entry| entry.1)
    }

    fn perform(&mut self, request: Request) -> Reply {
        self.log.push(request);
        match request {
            Request::PageSize => Reply::PageSize(PAGE),
            Request::Open { device, .. } => {
                if self.fail_open {
                    return Reply::Opened(-1);
                }
                let mut fd = 3;
                while self.device_of(fd).is_some() {
                    fd += 1;
                }
                self.descriptors.push((fd, device));
                Reply::Opened(fd)
            }
            Request::Mmap { fd, length, .. } => {
                if self.fail_mmap {
                    return Reply::Mapped(MAP_FAILED);
                }
                let address = match self.device_of(fd) {
                    Some(Device::Mem) => REGS_AT,
                    Some(Device::Xlnk) => RAM_AT,
                    None => return Reply::Mapped(MAP_FAILED),
                };
                self.mappings.push((address, length));
                Reply::Mapped(address)
            }
            Request::Close { fd } => {
                if self.fail_close || self.device_of(fd).is_none() {
                    return Reply::Closed(-1);
                }
                self.descriptors.retain(|entry| entry.0 != fd);
                Reply::Closed(0)
            }
            Request::Munmap { address, length } => {
                if self.fail_munmap || !self.mappings.contains(&(address, length)) {
                    return Reply::Unmapped(-1);
                }
                self.mappings.retain(|entry| *entry != (address, length));
                Reply::Unmapped(0)
            }
            Request::AllocBuf { alloc, .. } => {
                if self.fail_alloc {
                    return Reply::Allocated { status: -1, alloc };
                }
                let id = 7 + self.buffers.len() as u32;
                self.buffers.push(id);
                Reply::Allocated {
                    status: 0,
                    alloc: AllocBufIoctlArg { id: id as i32, phyaddr: RAM_PHYSICAL, ..alloc },
                }
            }
            Request::FreeBuf { free, .. } => {
                if self.fail_free || !self.buffers.contains(&free.id) {
                    return Reply::Freed(-1);
                }
                self.buffers.retain(|id| *id != free.id);
                Reply::Freed(0)
            }
            Request::Read { address } => {
                let index = (address - REGS_AT) / 4;
                if self.halted_reads > 0 && (index == 1 || index == 13) {
                    self.halted_reads -= 1;
                    return Reply::Word(self.regs[index] | 1);
                }
                Reply::Word(self.regs[index])
            }
            Request::Write { address, value } => {
                let index = (address - REGS_AT) / 4;
                self.regs[index] = value;
                Reply::Written
            }
        }
    }

    fn write_all(&mut self, writes: &[RegWrite]) {
        for write in writes {
            self.perform(write.request());
        }
    }

    fn read_at(&mut self, address: usize) -> u32 {
        match self.perform(Request::Read { address }) {
            Reply::Word(word) => word,
            _ => unreachable!(),
        }
    }

    fn is_clean(&self) -> bool {
        self.descriptors.is_empty() && self.mappings.is_empty() && self.buffers.is_empty()
    }
}

fn run_map(machine: &mut Machine, mut op: MapOp) -> Result<Mmio, Fault> {
    loop {
        let reply = machine.perform(op.request());
        match op.advance(reply) {
            Step::Pending(next) => op = next,
            Step::Done(result) => return result,
        }
    }
}

fn run_unmap(machine: &mut Machine, mut op: UnmapOp) -> Result<(), Fault> {
    loop {
        let reply = machine.perform(op.request());
        match op.advance(reply) {
            Step::Pending(next) => op = next,
            Step::Done(result) => return result,
        }
    }
}

fn run_alloc(machine: &mut Machine, mut op: AllocOp) -> Result<DmaBuffer, Fault> {
    loop {
        let reply = machine.perform(op.request());
        match op.advance(reply) {
            Step::Pending(next) => op = next,
            Step::Done(result) => return result,
        }
    }
}

fn run_release(machine: &mut Machine, mut op: ReleaseOp) -> Result<(), Fault> {
    loop {
        let reply = machine.perform(op.request());
        match op.advance(reply) {
            Step::Pending(next) => op = next,
            Step::Done(result) => return result,
        }
    }
}

fn run_get(machine: &mut Machine, mut op: GetOp) -> Result<Dma, Fault> {
    loop {
        let reply = machine.perform(op.request());
        match op.advance(reply) {
            Step::Pending(next) => op = next,
            Step::Done(result) => return result,
        }
    }
}

fn fault_of<T>(result: Result<T, Fault>) -> Fault {
    match result {
        Ok(_) => panic!("the operation succeeded"),
        Err(fault) => fault,
    }
}

fn engine(machine: &mut Machine) -> Dma {
    match run_get(machine, Dma::get()) {
        Ok(dma) => dma,
        Err(fault) => panic!("{}", fault.message()),
    }
}

fn buffer(machine: &mut Machine, size: usize) -> DmaBuffer {
    match run_alloc(machine, DmaBuffer::allocate(size)) {
        Ok(buffer) => buffer,
        Err(fault) => panic!("{}", fault.message()),
    }
}

#[test]
fn map_asks_for_the_page_size_first() {
    let op = Mmio::map(0x4000_0000, 0x60);
    assert_eq!(op.request(), Request::PageSize);
}

#[test]
fn map_opens_maps_and_closes() {
    let mut machine = Machine::new();
    let window = run_map(&mut machine, Mmio::map(0x4000_0000, 0x60)).unwrap();
    assert_eq!(
        machine.log,
        vec![
            Request::PageSize,
            Request::Open { device: Device::Mem, access: Access::ReadWrite, sync: true },
            Request::Mmap {
                fd: 3,
                length: 0x60,
                offset: 0x4000_0000,
                access: Access::ReadWrite,
                sharing: Sharing::Shared,
                locked: false,
            },
            Request::Close { fd: 3 },
        ]
    );
    assert_eq!(window.phys_addr(), 0x4000_0000);
    assert_eq!(window.words(), 24);
    assert_eq!(window.mem(), REGS_AT);
    assert!(machine.descriptors.is_empty());
    assert_eq!(machine.mappings, vec![(REGS_AT, 0x60)]);
}

#[test]
fn map_rounds_the_length_up_to_whole_words() {
    let mut machine = Machine::new();
    let window = run_map(&mut machine, Mmio::map(0, 5)).unwrap();
    assert_eq!(window.words(), 2);
    assert_eq!(machine.mappings, vec![(REGS_AT, 8)]);
    let mut machine = Machine::new();
    let window = run_map(&mut machine, Mmio::map(0, 8)).unwrap();
    assert_eq!(window.words(), 2);
    let mut machine = Machine::new();
    let window = run_map(&mut machine, Mmio::map(0, 1)).unwrap();
    assert_eq!(window.words(), 1);
    assert_eq!(machine.mappings, vec![(REGS_AT, 4)]);
}

#[test]
fn map_of_no_bytes_gives_an_empty_window() {
    let mut machine = Machine::new();
    let window = run_map(&mut machine, Mmio::map(0x1000, 0)).unwrap();
    assert_eq!(window.words(), 0);
}

#[test]
fn map_of_the_longest_range_does_not_wrap() {
    let op = Mmio::map(0, u32::MAX);
    let op = match op.advance(Reply::PageSize(PAGE)) {
        Step::Pending(op) => op,
        Step::Done(_) => panic!("ended early"),
    };
    let op = match op.advance(Reply::Opened(3)) {
        Step::Pending(op) => op,
        Step::Done(_) => panic!("ended early"),
    };
    assert_eq!(
        op.request(),
        Request::Mmap {
                fd: 3,
                length: 0x1_0000_0000,
                offset: 0,
                access: Access::ReadWrite,
                sharing: Sharing::Shared,
                locked: false,
            }
    );
}

#[test]
fn map_refuses_an_unaligned_base() {
    let mut machine = Machine::new();
    let fault = fault_of(run_map(&mut machine, Mmio::map(0x4000_0004, 0x60)));
    assert_eq!(fault, Fault::Unaligned);
    assert_eq!(fault.kind(), ErrorKind::Alignment);
    assert_eq!(machine.log, vec![Request::PageSize]);
}

#[test]
fn map_refuses_every_base_for_a_page_size_of_zero() {
    let op = Mmio::map(0, 4);
    match op.advance(Reply::PageSize(0)) {
        Step::Done(Err(fault)) => assert_eq!(fault, Fault::Unaligned),
        _ => panic!("went on"),
    }
}

#[test]
fn map_takes_the_low_32_bits_of_the_page_size() {
    let op = Mmio::map(0x1000, 4);
    match op.advance(Reply::PageSize(0x1_0000_1000)) {
        Step::Pending(op) => {
            assert_eq!(op.request(), Request::Open { device: Device::Mem, access: Access::ReadWrite, sync: true })
        }
        Step::Done(_) => panic!("ended early"),
    }
}

#[test]
fn map_reports_a_failed_open() {
    let mut machine = Machine::new();
    machine.fail_open = true;
    let fault = fault_of(run_map(&mut machine, Mmio::map(0x4000_0000, 0x60)));
    assert_eq!(fault, Fault::OpenMem);
    assert_eq!(fault.kind(), ErrorKind::Mapping);
    assert_eq!(machine.log.len(), 2);
}

#[test]
fn map_reports_a_failed_mapping() {
    let mut machine = Machine::new();
    machine.fail_mmap = true;
    let fault = fault_of(run_map(&mut machine, Mmio::map(0x4000_0000, 0x60)));
    assert_eq!(fault, Fault::MapMem);
    assert_eq!(fault.kind(), ErrorKind::Mapping);
    assert_eq!(machine.log.len(), 3);
}

#[test]
fn map_reports_a_mapping_that_leaves_the_address_space() {
    let op = Mmio::map(0, 8);
    let op = match op.advance(Reply::PageSize(PAGE)) {
        Step::Pending(op) => op,
        Step::Done(_) => panic!("ended early"),
    };
    let op = match op.advance(Reply::Opened(3)) {
        Step::Pending(op) => op,
        Step::Done(_) => panic!("ended early"),
    };
    match op.advance(Reply::Mapped(usize::MAX - 4)) {
        Step::Done(Err(fault)) => assert_eq!(fault, Fault::MapMem),
        _ => panic!("went on"),
    }
}

#[test]
fn map_reports_a_failed_close() {
    let mut machine = Machine::new();
    machine.fail_close = true;
    let fault = fault_of(run_map(&mut machine, Mmio::map(0x4000_0000, 0x60)));
    assert_eq!(fault, Fault::CloseMem);
    assert_eq!(machine.log.len(), 4);
}

#[test]
fn map_reports_a_reply_to_another_request() {
    let op = Mmio::map(0x4000_0000, 0x60);
    match op.advance(Reply::Opened(3)) {
        Step::Done(Err(fault)) => {
            assert_eq!(fault, Fault::UnexpectedReply);
            assert_eq!(fault.kind(), ErrorKind::Usage);
        }
        _ => panic!("went on"),
    }
}

#[test]
fn map_then_release_leaves_no_mapping_behind() {
    for (phys_addr, length) in [(0u32, 1u32), (0x1000, 4), (0x4000_0000, 0x60), (0xf800_0000, 0x1b0)]
    {
        let mut machine = Machine::new();
        let window = run_map(&mut machine, Mmio::map(phys_addr, length)).unwrap();
        assert_eq!(machine.mappings.len(), 1);
        assert_eq!(run_unmap(&mut machine, window.release()), Ok(()));
        assert!(machine.is_clean());
    }
}

#[test]
fn release_unmaps_the_whole_window() {
    let mut machine = Machine::new();
    let window = run_map(&mut machine, Mmio::map(0x4000_0000, 0x5d)).unwrap();
    let op = window.release();
    assert_eq!(op.request(), Request::Munmap { address: REGS_AT, length: 0x60 });
}

#[test]
fn release_reports_a_failed_unmapping() {
    let mut machine = Machine::new();
    let window = run_map(&mut machine, Mmio::map(0x4000_0000, 0x60)).unwrap();
    machine.fail_munmap = true;
    let fault = fault_of(run_unmap(&mut machine, window.release()));
    assert_eq!(fault, Fault::UnmapIo);
    assert_eq!(fault.kind(), ErrorKind::Mapping);
}

#[test]
fn window_addresses_its_words() {
    let mut machine = Machine::new();
    let mut window = run_map(&mut machine, Mmio::map(0x4000_0000, 0x60)).unwrap();
    assert_eq!(window.read(0), REGS_AT);
    assert_eq!(window.read(23), REGS_AT + 92);
    assert_eq!(window.write(6, 0xdead_beef), RegWrite { address: REGS_AT + 24, value: 0xdead_beef });
    assert_eq!(window.get_slice(), Span { address: REGS_AT, length: 0x60 });
}

#[test]
fn window_names_the_range_of_a_copy() {
    let mut machine = Machine::new();
    let mut window = run_map(&mut machine, Mmio::map(0x4000_0000, 0x60)).unwrap();
    let bytes = [0u8; 16];
    assert_eq!(
        window.copy_from_slice(2, &bytes, 4),
        Some(Span { address: REGS_AT + 8, length: 16 })
    );
    assert_eq!(
        window.read_into_slice(20, &bytes, 4),
        Some(Span { address: REGS_AT + 80, length: 16 })
    );
    assert_eq!(window.copy_from_slice(21, &bytes, 4), None);
    assert_eq!(window.copy_from_slice(0, &bytes, 5), None);
    assert_eq!(window.read_into_slice(0, &bytes[..0], 0), None);
    assert_eq!(window.read_into_slice(usize::MAX, &bytes, 1), None);
    assert_eq!(window.copy_from_slice(0, &bytes, usize::MAX), None);
}

#[test]
fn control_requests_keep_their_numbers() {
    assert_eq!(XLNK_IOCALLOCBUF, 0xc0045802);
    assert_eq!(XLNK_IOCFREEBUF, 0xc0045803);
    assert_eq!(Device::Mem.path(), "/dev/mem");
    assert_eq!(Device::Xlnk.path(), "/dev/xlnk");
}

#[test]
fn session_builds_its_requests() {
    assert_eq!(Xlnk::open_request(), Request::Open { device: Device::Xlnk, access: Access::ReadWrite, sync: false });
    let session = Xlnk::open(Reply::Opened(5)).ok().unwrap();
    assert_eq!(session.fd(), 5);
    assert_eq!(
        session.alloc_buf_request(16, false),
        Ok(Request::AllocBuf {
            fd: 5,
            alloc: AllocBufIoctlArg { len: 16, id: -1, phyaddr: 0, cacheable: 0 },
        })
    );
    assert_eq!(
        session.alloc_buf_request(0x1000, true),
        Ok(Request::AllocBuf {
            fd: 5,
            alloc: AllocBufIoctlArg { len: 0x1000, id: -1, phyaddr: 0, cacheable: 1 },
        })
    );
    assert_eq!(
        session.free_buf_request(9),
        Request::FreeBuf { fd: 5, free: FreeBufIoctlArg { id: 9, buf: 0 } }
    );
    assert_eq!(
        session.mmap_buffer_request(1, 16),
        Request::Mmap {
                fd: 5,
                length: 16,
                offset: 0x0100_0000,
                access: Access::ReadWrite,
                sharing: Sharing::Shared,
                locked: true,
            }
    );
    assert_eq!(
        session.mmap_buffer_request(0x12, 64),
        Request::Mmap {
                fd: 5,
                length: 64,
                offset: 0x1200_0000,
                access: Access::ReadWrite,
                sharing: Sharing::Shared,
                locked: true,
            }
    );
    assert_eq!(
        session.mmap_buffer_request(0x1ff, 64),
        Request::Mmap {
                fd: 5,
                length: 64,
                offset: 0xff00_0000,
                access: Access::ReadWrite,
                sharing: Sharing::Shared,
                locked: true,
            }
    );
    assert_eq!(session.close_request(), Request::Close { fd: 5 });
    assert_eq!(session.close(Reply::Closed(0)), Ok(()));
}

#[test]
fn session_reads_its_replies() {
    assert_eq!(fault_of(Xlnk::open(Reply::Opened(-1)).map(|_| ())), Fault::OpenXlnk);
    assert_eq!(fault_of(Xlnk::open(Reply::Closed(0)).map(|_| ())), Fault::UnexpectedReply);
    let mut session = Xlnk::open(Reply::Opened(0)).ok().unwrap();
    let alloc = AllocBufIoctlArg { len: 16, id: 4, phyaddr: 0x1234_0000, cacheable: 0 };
    assert_eq!(session.alloc_buf(Reply::Allocated { status: 0, alloc }), Ok((4, 0x1234_0000)));
    assert_eq!(session.alloc_buf(Reply::Allocated { status: -1, alloc }), Err(Fault::AllocBuf));
    assert_eq!(Fault::AllocBuf.kind(), ErrorKind::Allocation);
    let odd = AllocBufIoctlArg { len: 16, id: -1, phyaddr: 0, cacheable: 0 };
    assert_eq!(session.alloc_buf(Reply::Allocated { status: 0, alloc: odd }), Ok((u32::MAX, 0)));
    assert_eq!(session.alloc_buf(Reply::Freed(0)), Err(Fault::UnexpectedReply));
    assert_eq!(session.free_buf(Reply::Freed(0)), Ok(()));
    assert_eq!(session.free_buf(Reply::Freed(-1)), Err(Fault::FreeBuf));
    assert_eq!(Fault::FreeBuf.kind(), ErrorKind::Allocation);
    assert_eq!(session.mmap_buffer(Reply::Mapped(0x7000)), Ok(0x7000));
    assert_eq!(session.mmap_buffer(Reply::Mapped(MAP_FAILED)), Err(Fault::MapBuffer));
    assert_eq!(session.mmap_buffer(Reply::Written), Err(Fault::UnexpectedReply));
    assert_eq!(session.fd(), 0);
    assert_eq!(session.close(Reply::Closed(-1)), Err(Fault::CloseXlnk));
}

#[test]
fn session_refuses_a_length_that_does_not_fit() {
    if usize::BITS > 32 {
        let session = Xlnk::open(Reply::Opened(5)).ok().unwrap();
        let length = (u32::MAX as usize) + 1;
        assert_eq!(session.alloc_buf_request(length, false), Err(Fault::AllocBuf));
        assert!(session.alloc_buf_request(u32::MAX as usize, false).is_ok());
    }
}

#[test]
fn allocate_opens_allocates_maps_and_closes() {
    let mut machine = Machine::new();
    let buffer = run_alloc(&mut machine, DmaBuffer::allocate(16)).unwrap();
    assert_eq!(
        machine.log,
        vec![
            Request::Open { device: Device::Xlnk, access: Access::ReadWrite, sync: false },
            Request::AllocBuf {
                fd: 3,
                alloc: AllocBufIoctlArg { len: 16, id: -1, phyaddr: 0, cacheable: 0 },
            },
            Request::Mmap {
                fd: 3,
                length: 16,
                offset: 0x0700_0000,
                access: Access::ReadWrite,
                sharing: Sharing::Shared,
                locked: true,
            },
            Request::Close { fd: 3 },
        ]
    );
    assert_eq!(buffer.id(), 7);
    assert_eq!(buffer.physical_addr(), RAM_PHYSICAL);
    assert_eq!(buffer.size(), 16);
    assert!(machine.descriptors.is_empty());
}

#[test]
fn allocated_buffer_has_the_size_asked_for() {
    for size in [1usize, 2, 16, 4096, 0x10_0000] {
        let mut machine = Machine::new();
        let mut buffer = run_alloc(&mut machine, DmaBuffer::allocate(size)).unwrap();
        assert_eq!(buffer.as_slice().length, size);
        assert_eq!(buffer.as_slice_mut().length, size);
        assert_eq!(buffer.size(), size);
        assert_eq!(buffer.as_slice(), Span { address: RAM_AT, length: size });
    }
}

#[test]
fn allocate_reports_each_failure() {
    let mut machine = Machine::new();
    machine.fail_open = true;
    assert_eq!(fault_of(run_alloc(&mut machine, DmaBuffer::allocate(16))), Fault::OpenXlnk);
    let mut machine = Machine::new();
    machine.fail_alloc = true;
    assert_eq!(fault_of(run_alloc(&mut machine, DmaBuffer::allocate(16))), Fault::AllocBuf);
    let mut machine = Machine::new();
    machine.fail_mmap = true;
    assert_eq!(fault_of(run_alloc(&mut machine, DmaBuffer::allocate(16))), Fault::MapBuffer);
    assert_eq!(machine.buffers, vec![7]);
    let mut machine = Machine::new();
    machine.fail_close = true;
    assert_eq!(fault_of(run_alloc(&mut machine, DmaBuffer::allocate(16))), Fault::CloseXlnk);
    assert_eq!(
        fault_of(run_alloc(&mut Machine::new(), DmaBuffer::allocate(16)).and_then(|_| {
            match DmaBuffer::allocate(16).advance(Reply::Written) {
                Step::Done(result) => result,
                Step::Pending(_) => panic!("went on"),
            }
        })),
        Fault::UnexpectedReply
    );
}

#[test]
fn allocate_refuses_a_size_that_does_not_fit() {
    if usize::BITS > 32 {
        let mut machine = Machine::new();
        let size = (u32::MAX as usize) + 1;
        assert_eq!(fault_of(run_alloc(&mut machine, DmaBuffer::allocate(size))), Fault::AllocBuf);
        assert_eq!(machine.log, vec![Request::Open { device: Device::Xlnk, access: Access::ReadWrite, sync: false }]);
    }
}

#[test]
fn release_unmaps_before_it_frees() {
    let mut machine = Machine::new();
    let buffer = run_alloc(&mut machine, DmaBuffer::allocate(64)).unwrap();
    machine.log.clear();
    assert_eq!(run_release(&mut machine, buffer.release()), Ok(()));
    assert_eq!(
        machine.log,
        vec![
            Request::Munmap { address: RAM_AT, length: 64 },
            Request::Open { device: Device::Xlnk, access: Access::ReadWrite, sync: false },
            Request::FreeBuf { fd: 3, free: FreeBufIoctlArg { id: 7, buf: 0 } },
            Request::Close { fd: 3 },
        ]
    );
    assert!(machine.is_clean());
}

#[test]
fn release_reports_each_failure() {
    let mut machine = Machine::new();
    let buffer = run_alloc(&mut machine, DmaBuffer::allocate(64)).unwrap();
    machine.fail_munmap = true;
    machine.log.clear();
    assert_eq!(fault_of(run_release(&mut machine, buffer.release())), Fault::UnmapBuffer);
    assert_eq!(machine.log.len(), 1);
    assert_eq!(machine.buffers, vec![7]);

    let mut machine = Machine::new();
    let buffer = run_alloc(&mut machine, DmaBuffer::allocate(64)).unwrap();
    machine.fail_open = true;
    assert_eq!(fault_of(run_release(&mut machine, buffer.release())), Fault::OpenXlnk);

    let mut machine = Machine::new();
    let buffer = run_alloc(&mut machine, DmaBuffer::allocate(64)).unwrap();
    machine.fail_free = true;
    assert_eq!(fault_of(run_release(&mut machine, buffer.release())), Fault::FreeBuf);

    let mut machine = Machine::new();
    let buffer = run_alloc(&mut machine, DmaBuffer::allocate(64)).unwrap();
    machine.fail_close = true;
    assert_eq!(fault_of(run_release(&mut machine, buffer.release())), Fault::CloseXlnk);
    assert!(machine.buffers.is_empty());
}

#[test]
fn get_maps_runs_and_waits() {
    let mut machine = Machine::new();
    let dma = run_get(&mut machine, Dma::get()).unwrap();
    assert_eq!(
        machine.log,
        vec![
            Request::PageSize,
            Request::Open { device: Device::Mem, access: Access::ReadWrite, sync: true },
            Request::Mmap {
                fd: 3,
                length: 0x60,
                offset: 0x4000_0000,
                access: Access::ReadWrite,
                sharing: Sharing::Shared,
                locked: false,
            },
            Request::Close { fd: 3 },
            Request::Write { address: REGS_AT, value: 1 },
            Request::Write { address: REGS_AT + 48, value: 1 },
            Request::Read { address: REGS_AT + 4 },
            Request::Read { address: REGS_AT + 52 },
        ]
    );
    assert_eq!(machine.regs[0], 1);
    assert_eq!(machine.regs[12], 1);
    assert_eq!(dma.status(Direction::Send), REGS_AT + 4);
    assert_eq!(dma.status(Direction::Receive), REGS_AT + 52);
}

#[test]
fn get_polls_until_neither_channel_is_halted() {
    let mut machine = Machine::new();
    machine.halted_reads = 3;
    assert!(run_get(&mut machine, Dma::get()).is_ok());
    let reads: Vec<Request> =
        machine.log.iter().filter(|r| matches!(r, Request::Read { .. })).cloned().collect();
    assert_eq!(
        reads,
        vec![
            Request::Read { address: REGS_AT + 4 },
            Request::Read { address: REGS_AT + 4 },
            Request::Read { address: REGS_AT + 4 },
            Request::Read { address: REGS_AT + 4 },
            Request::Read { address: REGS_AT + 52 },
        ]
    );
}

#[test]
fn get_reads_the_send_status_again_after_a_halted_receive_channel() {
    let mut machine = Machine::new();
    let mut op = Dma::get();
    for _ in 0..6 {
        let reply = machine.perform(op.request());
        op = match op.advance(reply) {
            Step::Pending(next) => next,
            Step::Done(_) => panic!("ended early"),
        };
    }
    assert_eq!(op.request(), Request::Read { address: REGS_AT + 4 });
    op = match op.advance(Reply::Word(0)) {
        Step::Pending(next) => next,
        Step::Done(_) => panic!("ended early"),
    };
    assert_eq!(op.request(), Request::Read { address: REGS_AT + 52 });
    op = match op.advance(Reply::Word(1)) {
        Step::Pending(next) => next,
        Step::Done(_) => panic!("ended early"),
    };
    assert_eq!(op.request(), Request::Read { address: REGS_AT + 4 });
    op = match op.advance(Reply::Word(0xffff_fffe)) {
        Step::Pending(next) => next,
        Step::Done(_) => panic!("ended early"),
    };
    match op.advance(Reply::Word(2)) {
        Step::Done(Ok(_)) => {}
        _ => panic!("did not end"),
    }
}

#[test]
fn get_reports_the_failures_of_the_mapping() {
    let mut machine = Machine::new();
    machine.fail_mmap = true;
    assert_eq!(fault_of(run_get(&mut machine, Dma::get()).map(|_| ())), Fault::MapMem);
    let op = Dma::get();
    match op.advance(Reply::PageSize(0x1_0000_0000)) {
        Step::Done(Err(fault)) => assert_eq!(fault, Fault::Unaligned),
        _ => panic!("went on"),
    }
}

#[test]
fn fresh_engine_reports_both_channels_done() {
    let mut machine = Machine::new();
    let dma = engine(&mut machine);
    for status in [0u32, 1, 2, 3, 0xffff_ffff, 0xffff_fffd] {
        assert!(dma.is_send_done(status));
        assert!(dma.is_receive_done(status));
    }
}

#[test]
fn status_words_are_read_by_their_idle_bit() {
    let mut machine = Machine::new();
    let dma = engine(&mut machine);
    assert!(dma.is_tx_idle(2));
    assert!(dma.is_tx_idle(0xffff_ffff));
    assert!(!dma.is_tx_idle(0));
    assert!(!dma.is_tx_idle(0xffff_fffd));
    assert!(dma.is_rx_idle(3));
    assert!(!dma.is_rx_idle(1));
}

#[test]
fn start_send_writes_address_then_length() {
    let mut machine = Machine::new();
    let mut dma = engine(&mut machine);
    let buf = buffer(&mut machine, 16);
    let writes = dma.start_send(buf).ok().unwrap();
    assert_eq!(
        writes,
        [
            RegWrite { address: REGS_AT + 24, value: RAM_PHYSICAL },
            RegWrite { address: REGS_AT + 40, value: 16 },
        ]
    );
    machine.write_all(&writes);
    assert_eq!(machine.regs[6], RAM_PHYSICAL);
    assert_eq!(machine.regs[10], 16);
}

#[test]
fn start_receive_writes_address_then_length() {
    let mut machine = Machine::new();
    let mut dma = engine(&mut machine);
    let buf = buffer(&mut machine, 32);
    let writes = dma.start_receive(buf).ok().unwrap();
    assert_eq!(
        writes,
        [
            RegWrite { address: REGS_AT + 72, value: RAM_PHYSICAL },
            RegWrite { address: REGS_AT + 88, value: 32 },
        ]
    );
    machine.write_all(&writes);
    assert_eq!(machine.regs[18], RAM_PHYSICAL);
    assert_eq!(machine.regs[22], 32);
}

#[test]
fn send_scenario_end_to_end() {
    let mut machine = Machine::new();
    let mut dma = engine(&mut machine);
    let buf = buffer(&mut machine, 16);
    let id = buf.id();
    let writes = dma.start_send(buf).ok().unwrap();
    machine.write_all(&writes);
    let address = dma.status(Direction::Send);
    let status = machine.read_at(address);
    assert_eq!(dma.is_send_done(status), false);
    machine.regs[1] |= 2;
    let status = machine.read_at(address);
    assert_eq!(dma.is_send_done(status), true);
    let back = dma.finish_send(status).unwrap();
    assert_eq!(back.id(), id);
    assert_eq!(back.size(), 16);
}

#[test]
fn receive_scenario_end_to_end() {
    let mut machine = Machine::new();
    let mut dma = engine(&mut machine);
    let buf = buffer(&mut machine, 16);
    let id = buf.id();
    let writes = dma.start_receive(buf).ok().unwrap();
    machine.write_all(&writes);
    let address = dma.status(Direction::Receive);
    let status = machine.read_at(address);
    assert_eq!(dma.is_receive_done(status), false);
    assert_eq!(dma.finish_receive(status).err(), Some(Fault::ReceiveUnfinished));
    machine.regs[13] = 2;
    let status = machine.read_at(address);
    assert_eq!(dma.is_receive_done(status), true);
    let back = dma.finish_receive(status).unwrap();
    assert_eq!(back.id(), id);
}

#[test]
fn channel_goes_from_idle_to_in_flight_and_back() {
    let mut machine = Machine::new();
    let mut dma = engine(&mut machine);
    for round in 0..3 {
        let buf = buffer(&mut machine, 8 + round);
        let id = buf.id();
        assert!(dma.is_send_done(0));
        assert!(dma.start_send(buf).is_ok());
        assert!(!dma.is_send_done(0));
        let back = dma.finish_send(2).unwrap();
        assert_eq!(back.id(), id);
        assert!(dma.is_send_done(0));
        assert_eq!(run_release(&mut machine, back.release()), Ok(()));
    }
}

#[test]
fn finish_twice_in_a_row_is_refused() {
    let mut machine = Machine::new();
    let mut dma = engine(&mut machine);
    let first = dma.finish_send(2).err().unwrap();
    let second = dma.finish_send(2).err().unwrap();
    assert_eq!(first, Fault::SendNotStarted);
    assert_eq!(second, Fault::SendNotStarted);
    assert_eq!(first.kind(), ErrorKind::Usage);
    assert_eq!(dma.finish_send(0).err(), Some(Fault::SendNotStarted));
    assert_eq!(dma.finish_receive(2).err(), Some(Fault::ReceiveNotStarted));
    assert_eq!(dma.finish_receive(0).err(), Some(Fault::ReceiveNotStarted));

    let buf = buffer(&mut machine, 16);
    assert!(dma.start_send(buf).is_ok());
    assert!(dma.finish_send(2).is_ok());
    assert_eq!(dma.finish_send(2).err(), Some(Fault::SendNotStarted));
    assert_eq!(dma.finish_send(2).err(), Some(Fault::SendNotStarted));
}

#[test]
fn finish_before_the_channel_is_idle_is_refused() {
    let mut machine = Machine::new();
    let mut dma = engine(&mut machine);
    let buf = buffer(&mut machine, 16);
    assert!(dma.start_send(buf).is_ok());
    let fault = dma.finish_send(0).err().unwrap();
    assert_eq!(fault, Fault::SendUnfinished);
    assert_eq!(fault.kind(), ErrorKind::Usage);
    assert_eq!(dma.finish_send(1).err(), Some(Fault::SendUnfinished));
    assert!(dma.finish_send(2).is_ok());
}

#[test]
fn start_send_twice_is_refused() {
    let mut machine = Machine::new();
    let mut dma = engine(&mut machine);
    let first = buffer(&mut machine, 16);
    let second = buffer(&mut machine, 32);
    let first_id = first.id();
    let second_id = second.id();
    let writes = dma.start_send(first).ok().unwrap();
    machine.write_all(&writes);
    let before = machine.regs.clone();
    let rejected = dma.start_send(second).err().unwrap();
    assert_eq!(rejected.fault, Fault::SendBusy);
    assert_eq!(rejected.fault.kind(), ErrorKind::Usage);
    assert_eq!(rejected.buffer.id(), second_id);
    assert_eq!(rejected.buffer.size(), 32);
    assert_eq!(machine.regs, before);
    assert_eq!(machine.regs[10], 16);
    let back = dma.finish_send(2).unwrap();
    assert_eq!(back.id(), first_id);
}

#[test]
fn start_receive_twice_is_refused() {
    let mut machine = Machine::new();
    let mut dma = engine(&mut machine);
    let first = buffer(&mut machine, 16);
    let second = buffer(&mut machine, 32);
    assert!(dma.start_receive(first).is_ok());
    let rejected = dma.start_receive(second).err().unwrap();
    assert_eq!(rejected.fault, Fault::ReceiveBusy);
    assert_eq!(rejected.buffer.size(), 32);
}

#[test]
fn channels_are_independent() {
    let mut machine = Machine::new();
    let mut dma = engine(&mut machine);
    let out = buffer(&mut machine, 16);
    let back = buffer(&mut machine, 32);
    let out_id = out.id();
    let back_id = back.id();
    assert!(dma.start_send(out).is_ok());
    assert!(dma.is_receive_done(0));
    assert!(dma.start_receive(back).is_ok());
    assert!(!dma.is_send_done(0));
    assert!(!dma.is_receive_done(0));
    assert_eq!(dma.finish_receive(2).unwrap().id(), back_id);
    assert!(!dma.is_send_done(0));
    assert!(dma.is_receive_done(0));
    assert_eq!(dma.finish_send(2).unwrap().id(), out_id);
}

#[test]
fn bytes_written_before_a_send_are_the_bytes_at_the_physical_address() {
    let mut machine = Machine::new();
    let mut dma = engine(&mut machine);
    let mut buf = buffer(&mut machine, 16);
    let view = buf.as_slice_mut();
    let message = *b"sixteen bytes ok";
    for (i, byte) in message.iter().enumerate() {
        machine.ram[view.address - RAM_AT + i] = *byte;
    }
    let writes = dma.start_send(buf).ok().unwrap();
    machine.write_all(&writes);
    let physical = machine.regs[6];
    let length = machine.regs[10] as usize;
    let start = (physical - RAM_PHYSICAL) as usize;
    let seen: Vec<u8> = machine.ram[start..start + length].to_vec();
    assert_eq!(seen, message.to_vec());
    machine.regs[1] = 2;
    let back = dma.finish_send(2).unwrap();
    let again = back.as_slice();
    assert_eq!(again, view);
    let read: Vec<u8> =
        machine.ram[again.address - RAM_AT..again.address - RAM_AT + again.length].to_vec();
    assert_eq!(read, seen);
}

#[test]
fn release_hands_out_the_window_and_the_buffers_in_flight() {
    let mut machine = Machine::new();
    let mut dma = engine(&mut machine);
    let buf = buffer(&mut machine, 16);
    let id = buf.id();
    assert!(dma.start_receive(buf).is_ok());
    let (window, sending, receiving) = dma.release();
    assert!(sending.is_none());
    assert_eq!(receiving.as_ref().map(|b| b.id()), Some(id));
    assert_eq!(window.words(), 24);
    assert_eq!(run_unmap(&mut machine, window.release()), Ok(()));
    assert_eq!(run_release(&mut machine, receiving.unwrap().release()), Ok(()));
    assert!(machine.is_clean());
}

#[test]
fn faults_name_the_operation_and_the_resource() {
    assert_eq!(Fault::Unaligned.message(), "Only page boundary aligned IO is supported!");
    assert_eq!(Fault::OpenMem.message(), "Failed to open /dev/mem. Are we root?");
    assert_eq!(Fault::MapMem.message(), "Failed to mmap physical memory.");
    assert_eq!(Fault::CloseMem.message(), "Failed to close /dev/mem.");
    assert_eq!(Fault::UnmapIo.message(), "Failed to unmap IO.");
    assert_eq!(Fault::OpenXlnk.message(), "Failed to open /dev/xlnk.");
    assert_eq!(Fault::AllocBuf.message(), "xlnk.alloc_buf failed!");
    assert_eq!(Fault::FreeBuf.message(), "xlnk.free_buf failed!");
    assert_eq!(Fault::MapBuffer.message(), "Failed to mmap DMA buffer.");
    assert_eq!(Fault::CloseXlnk.message(), "Failed to close /dev/xlnk.");
    assert_eq!(Fault::UnmapBuffer.message(), "Failed to unmap DMA buffer.");
    assert_eq!(Fault::SendBusy.message(), "Cannot send when transmission is in progress!");
    assert_eq!(
        Fault::SendUnfinished.message(),
        "Cannot finish send when transmission hasn't finished!"
    );
    assert_eq!(
        Fault::SendNotStarted.message(),
        "Cannot finish send when no transmission was started!"
    );
    assert_eq!(Fault::ReceiveBusy.message(), "Cannot receive when transmission is in progress!");
    assert_eq!(
        Fault::ReceiveUnfinished.message(),
        "Cannot finish receive when transmission hasn't finished!"
    );
    assert_eq!(
        Fault::ReceiveNotStarted.message(),
        "Cannot finish receive when no transmission was started!"
    );
    assert_eq!(Fault::NoClocks.message(), "Need to enable at least 1 clock!");
    assert_eq!(Fault::TooManyClocks.message(), "Only four clocks FCLK(0-3) can be configured!");
}

#[test]
fn faults_fall_into_four_families() {
    assert_eq!(Fault::Unaligned.kind(), ErrorKind::Alignment);
    for fault in [
        Fault::OpenMem,
        Fault::MapMem,
        Fault::CloseMem,
        Fault::UnmapIo,
        Fault::OpenXlnk,
        Fault::MapBuffer,
        Fault::CloseXlnk,
        Fault::UnmapBuffer,
    ] {
        assert_eq!(fault.kind(), ErrorKind::Mapping);
    }
    for fault in [Fault::AllocBuf, Fault::FreeBuf] {
        assert_eq!(fault.kind(), ErrorKind::Allocation);
    }
    for fault in [
        Fault::SendBusy,
        Fault::SendUnfinished,
        Fault::SendNotStarted,
        Fault::ReceiveBusy,
        Fault::ReceiveUnfinished,
        Fault::ReceiveNotStarted,
        Fault::NoClocks,
        Fault::TooManyClocks,
        Fault::UnexpectedReply,
    ] {
        assert_eq!(fault.kind(), ErrorKind::Usage);
    }
}
