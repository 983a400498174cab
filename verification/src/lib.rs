//! Hardware-access core for a reconfigurable SoC board.
//!
//! The crate never touches a device itself. Every operation is split into the
//! decisions, which live here and are verified, and the system calls and
//! register accesses, which the embedding program performs on the crate's
//! behalf: an operation hands out [`sys::Request`]s as plain values and is
//! told their outcome as plain values.

use vstd::prelude::*;
use crate::fault::Fault;
use crate::mmio::{Mmio, MapOp, MapOpView, MapStage, UnmapOp, Window};
use crate::sys::{Reply, Request, Step};

pub mod fault;
pub mod sys;
pub mod mmio;
pub mod xlnk;
pub mod dma;
pub mod leds;
pub mod bitstream;
pub mod text;
pub mod overlay;
pub mod xrfclk;
pub mod rfsoc;

verus! {

/// The physical address of the system-level control registers.
pub const SLCR_BASE: u32 = 0xf800_0000;

/// The length in bytes of the range that holds the clock controls of the
/// programmable logic.
pub const SLCR_LENGTH: u32 = 0x170 + 0x10 * 4;

/// The file that tells the configuration device whether the next bitstream
/// is a partial one.
pub const PARTIAL_BITSTREAM: &'static str =
    "/sys/devices/soc0/amba/f8007000.devcfg/is_partial_bitstream";

/// The configuration device that takes the bitstream.
pub const XDEVCFG: &'static str = "/dev/xdevcfg";

/// The two divisors of one clock of the programmable logic. A clock whose
/// divisors are both zero is disabled.
#[derive(Copy, Clone, Debug, PartialEq, Eq, Structural)]
pub struct Clock {
    pub div0: u32,
    pub div1: u32,
}

/// The index of the control register of the clock `ii`.
pub open spec fn spec_offset(ii: usize) -> usize {
    (0x170int / 4 + ii * (0x10int / 4)) as usize
}

/// The index of the control register of the clock `ii`.
#[verifier::when_used_as_spec(spec_offset)]
pub fn offset(ii: usize) -> (index: usize)
    requires
        92 + 4 * ii <= usize::MAX,
    ensures
        index == spec_offset(ii),
        index == 92 + 4 * ii,
{
    let first: usize = 0x170 / 4;
    let stride: usize = 0x10 / 4;
    assert(first == 92 && stride == 4);
    first + ii * stride
}

/// The control word `old` with the two divisor fields, six bits each at the
/// bits 8 and 20, replaced by the low six bits of the divisors of `clk`.
pub open spec fn spec_calc_divs(clk: &Clock, old_word: u32) -> u32 {
    (old_word & !((0x3fu32 << 20) | (0x3fu32 << 8))) | (((clk.div1 & 0x3f) << 20) | ((clk.div0
        & 0x3f) << 8))
}

/// The control word that selects the divisors of `clk` and keeps every other
/// bit of `old_word`.
#[verifier::when_used_as_spec(spec_calc_divs)]
pub fn calc_divs(clk: &Clock, old_word: u32) -> (word: u32)
    ensures
        word == spec_calc_divs(clk, old_word),
{
    (old_word & !((0x3f << 20) | (0x3f << 8))) | (((clk.div1 & 0x3f) << 20) | ((clk.div0 & 0x3f)
        << 8))
}

/// The divisors of all four clocks: those given, in order, and disabled
/// clocks for the rest.
pub open spec fn padded(clocks: Seq<Clock>) -> Seq<Clock> {
    Seq::new(
        4,
        |i: int|
            if i < clocks.len() {
                clocks[i]
            } else {
                Clock { div0: 0, div1: 0 }
            },
    )
}

/// How far a [`ClockOp`] has come.
pub ghost enum ClockStage {
    /// The control registers are being mapped.
    Mapping(MapOpView),
    /// The control word of the clock `ii` is being read.
    Read { mem: Window, ii: usize },
    /// The control word of the clock `ii` is being written.
    Write { mem: Window, ii: usize, value: u32 },
    /// The control registers are being unmapped.
    Unmap(UnmapOp),
}

enum ClockState {
    Mapping(MapOp),
    Read { mem: Mmio, ii: usize },
    Write { mem: Mmio, ii: usize, value: u32 },
    Unmap(UnmapOp),
}

/// The configuration of the four clocks of the programmable logic, in
/// progress.
///
/// The operation maps the control registers, then for each clock in turn
/// reads its control word and writes it back with the new divisors, and
/// unmaps the registers again.
pub struct ClockOp {
    clocks: [Clock; 4],
    state: ClockState,
}

/// What a [`ClockOp`] is: the divisors of the four clocks and the step it
/// waits on.
pub ghost struct ClockOpView {
    pub clocks: Seq<Clock>,
    pub stage: ClockStage,
}

impl View for ClockOp {
    type V = ClockOpView;

    closed spec fn view(&self) -> ClockOpView {
        ClockOpView {
            clocks: self.clocks@,
            stage: match self.state {
                ClockState::Mapping(map) => ClockStage::Mapping(map@),
                ClockState::Read { mem, ii } => ClockStage::Read { mem: mem@, ii },
                ClockState::Write { mem, ii, value } => ClockStage::Write { mem: mem@, ii, value },
                ClockState::Unmap(unmap) => ClockStage::Unmap(unmap),
            },
        }
    }
}

impl ClockOpView {
    /// The number of requests that the operation makes at most from here on:
    /// those of the mapping, a read and a write for each clock, and the
    /// unmapping.
    pub open spec fn steps(self) -> nat {
        match self.stage {
            ClockStage::Mapping(map) => map.steps() + 9,
            ClockStage::Read { ii, .. } => if ii < 4 {
                (2 * (4 - ii) + 1) as nat
            } else {
                3
            },
            ClockStage::Write { ii, .. } => if ii < 4 {
                (2 * (4 - ii)) as nat
            } else {
                2
            },
            ClockStage::Unmap(_) => 1,
        }
    }

    /// The window over the control registers, while it is mapped.
    pub open spec fn window(self) -> Option<Window> {
        match self.stage {
            ClockStage::Mapping(_) => None,
            ClockStage::Read { mem, .. } => Some(mem),
            ClockStage::Write { mem, .. } => Some(mem),
            ClockStage::Unmap(_) => None,
        }
    }

    /// The request whose reply the operation waits for.
    pub open spec fn request(self) -> Request {
        match self.stage {
            ClockStage::Mapping(map) => map.request(),
            ClockStage::Read { mem, ii } => Request::Read {
                address: mem.address(spec_offset(ii) as int) as usize,
            },
            ClockStage::Write { mem, ii, value } => Request::Write {
                address: mem.address(spec_offset(ii) as int) as usize,
                value,
            },
            ClockStage::Unmap(unmap) => unmap.spec_request(),
        }
    }

    /// The operation after `reply`.
    pub open spec fn advance(self, reply: Reply) -> Step<ClockOpView, ()> {
        match (self.stage, reply) {
            (ClockStage::Mapping(map), _) => match map.advance(reply) {
                Step::Pending(next) => Step::Pending(
                    ClockOpView { stage: ClockStage::Mapping(next), ..self },
                ),
                Step::Done(Ok(mem)) => Step::Pending(
                    ClockOpView { stage: ClockStage::Read { mem, ii: 0 }, ..self },
                ),
                Step::Done(Err(fault)) => Step::Done(Err(fault)),
            },
            (ClockStage::Read { mem, ii }, Reply::Word(old_word)) => Step::Pending(
                ClockOpView {
                    stage: ClockStage::Write {
                        mem,
                        ii,
                        value: spec_calc_divs(&self.clocks[ii as int], old_word),
                    },
                    ..self
                },
            ),
            (ClockStage::Write { mem, ii, .. }, Reply::Written) => {
                if ii + 1 < 4 {
                    Step::Pending(
                        ClockOpView {
                            stage: ClockStage::Read { mem, ii: (ii + 1) as usize },
                            ..self
                        },
                    )
                } else {
                    Step::Pending(
                        ClockOpView {
                            stage: ClockStage::Unmap(
                                UnmapOp { address: mem.mem, length: mem.bytes() as usize },
                            ),
                            ..self
                        },
                    )
                }
            },
            (ClockStage::Unmap(unmap), _) => match unmap.spec_advance(reply) {
                Step::Pending(next) => Step::Pending(
                    ClockOpView { stage: ClockStage::Unmap(next), ..self },
                ),
                Step::Done(result) => Step::Done(result),
            },
            _ => Step::Done(Err(Fault::UnexpectedReply)),
        }
    }
}

/// The model of a step of a [`ClockOp`]: states by their views.
pub open spec fn clock_step_view(step: Step<ClockOp, ()>) -> Step<ClockOpView, ()> {
    match step {
        Step::Pending(op) => Step::Pending(op@),
        Step::Done(result) => Step::Done(result),
    }
}

impl ClockOp {
    #[verifier::type_invariant]
    spec fn wf(self) -> bool {
        match self.state {
            ClockState::Mapping(map) => map@.length == SLCR_LENGTH,
            ClockState::Read { mem, ii } => mem@.words >= 108 && ii < 4,
            ClockState::Write { mem, ii, .. } => mem@.words >= 108 && ii < 4,
            ClockState::Unmap(_) => true,
        }
    }

    /// The request to perform next. While the registers are mapped, it is
    /// an access to a word of their window.
    pub fn request(&self) -> (request: Request)
        ensures
            request == self@.request(),
            self@.window() matches Some(mem) ==> request.register() matches Some(address)
                && mem.holds(address as int),
    {
        proof {
            use_type_invariant(self);
        }
        match &self.state {
            ClockState::Mapping(map) => map.request(),
            ClockState::Read { mem, ii } => Request::Read { address: mem.read(offset(*ii)) },
            ClockState::Write { mem, ii, value } => mem.write(offset(*ii), *value).request(),
            ClockState::Unmap(unmap) => unmap.request(),
        }
    }

    /// Takes the reply to [`ClockOp::request`] and moves on.
    pub fn advance(self, reply: Reply) -> (next: Step<ClockOp, ()>)
        ensures
            clock_step_view(next) == self@.advance(reply),
    {
        proof {
            use_type_invariant(&self);
        }
        let clocks = self.clocks;
        match self.state {
            ClockState::Mapping(map) => match map.advance(reply) {
                Step::Pending(map) => Step::Pending(
                    ClockOp { clocks, state: ClockState::Mapping(map) },
                ),
                Step::Done(Ok(mem)) => Step::Pending(
                    ClockOp { clocks, state: ClockState::Read { mem, ii: 0 } },
                ),
                Step::Done(Err(fault)) => Step::Done(Err(fault)),
            },
            ClockState::Read { mem, ii } => match reply {
                Reply::Word(old_word) => {
                    let value = calc_divs(&clocks[ii], old_word);
                    Step::Pending(ClockOp { clocks, state: ClockState::Write { mem, ii, value } })
                },
                _ => Step::Done(Err(Fault::UnexpectedReply)),
            },
            ClockState::Write { mem, ii, value } => match reply {
                Reply::Written => if ii + 1 < 4 {
                    Step::Pending(ClockOp { clocks, state: ClockState::Read { mem, ii: ii + 1 } })
                } else {
                    Step::Pending(ClockOp { clocks, state: ClockState::Unmap(mem.release()) })
                },
                _ => Step::Done(Err(Fault::UnexpectedReply)),
            },
            ClockState::Unmap(unmap) => match unmap.advance(reply) {
                Step::Pending(unmap) => Step::Pending(
                    ClockOp { clocks, state: ClockState::Unmap(unmap) },
                ),
                Step::Done(result) => Step::Done(result),
            },
        }
    }
}

/// Begins configuring the clocks of the programmable logic: the clocks given
/// get their divisors, the others of the four are disabled. At least one
/// clock and at most four must be given.
pub fn configure_clocks(clocks: &[Clock]) -> (op: Result<ClockOp, Fault>)
    ensures
        clocks@.len() == 0 ==> (op matches Err(fault) && fault == Fault::NoClocks),
        clocks@.len() > 4 ==> (op matches Err(fault) && fault == Fault::TooManyClocks),
        0 < clocks@.len() <= 4 ==> (op matches Ok(begun) && begun@ == (ClockOpView {
            clocks: padded(clocks@),
            stage: ClockStage::Mapping(
                MapOpView { phys_addr: SLCR_BASE, length: SLCR_LENGTH, stage: MapStage::PageSize },
            ),
        })),
{
    if clocks.len() == 0 {
        return Err(Fault::NoClocks);
    }
    if clocks.len() > 4 {
        return Err(Fault::TooManyClocks);
    }
    let disabled = Clock { div0: 0, div1: 0 };
    let mut all = [disabled, disabled, disabled, disabled];
    let mut ii: usize = 0;
    while ii < clocks.len()
        invariant
            ii <= clocks@.len() <= 4,
            forall|i: int| 0 <= i < ii ==> all@[i] == clocks@[i],
            forall|i: int| ii <= i < 4 ==> all@[i] == disabled,
            disabled == (Clock { div0: 0, div1: 0 }),
        decreases clocks@.len() - ii,
    {
        all[ii] = clocks[ii];
        ii += 1;
    }
    assert(all@ =~= padded(clocks@));
    Ok(ClockOp { clocks: all, state: ClockState::Mapping(Mmio::map(SLCR_BASE, SLCR_LENGTH)) })
}

/// The byte that the flag file of partial bitstreams is to hold: the digit 1
/// for a partial bitstream, the digit 0 for a full one.
pub fn partial_bitstream_flag(enabled: bool) -> (flag: u8)
    ensures
        flag == (if enabled {
            0x31u8
        } else {
            0x30u8
        }),
{
    if enabled {
        0x31
    } else {
        0x30
    }
}

/// What loading a bitstream consists of, in the order of its parts: the
/// clocks are configured, the flag file is written, the program is written to
/// the configuration device, and the length of the program is reported.
pub struct BitstreamLoad {
    /// The configuration of the clocks, to be run first.
    pub clocks: ClockOp,
    /// The byte to write to [`PARTIAL_BITSTREAM`] next.
    pub partial_flag: u8,
    /// The number of bytes of the program, all of which go to [`XDEVCFG`].
    pub length: usize,
}

/// Plans the loading of the full bitstream `program` with the given clocks.
pub fn load_bitstream_from_mem(program: &Vec<u8>, clocks: &[Clock]) -> (plan: Result<
    BitstreamLoad,
    Fault,
>)
    ensures
        clocks@.len() == 0 ==> (plan matches Err(fault) && fault == Fault::NoClocks),
        clocks@.len() > 4 ==> (plan matches Err(fault) && fault == Fault::TooManyClocks),
        0 < clocks@.len() <= 4 ==> (plan matches Ok(load) && load.length == program@.len()
            && load.partial_flag == 0x30u8 && load.clocks@ == (ClockOpView {
            clocks: padded(clocks@),
            stage: ClockStage::Mapping(
                MapOpView { phys_addr: SLCR_BASE, length: SLCR_LENGTH, stage: MapStage::PageSize },
            ),
        })),
{
    match configure_clocks(clocks) {
        Ok(op) => Ok(
            BitstreamLoad {
                clocks: op,
                partial_flag: partial_bitstream_flag(false),
                length: program.len(),
            },
        ),
        Err(fault) => Err(fault),
    }
}

/// The configuration of the clocks comes to its end: each reply either ends
/// it or leaves fewer requests to make, for the same divisors.
pub proof fn lemma_clocks_end(op: ClockOpView, reply: Reply)
    ensures
        op.advance(reply) matches Step::Pending(next) ==> next.steps() < op.steps()
            && next.clocks == op.clocks,
{
    if let ClockStage::Mapping(map) = op.stage {
        crate::mmio::lemma_map_ends(map, reply);
    }
}

/// A control word holds in its two fields the low six bits of the divisors
/// that were put there, and outside the fields what it held before. A
/// disabled clock clears both fields.
pub proof fn lemma_calc_divs(clk: Clock, old_word: u32)
    ensures
        (spec_calc_divs(&clk, old_word) >> 8) & 0x3f == clk.div0 & 0x3f,
        (spec_calc_divs(&clk, old_word) >> 20) & 0x3f == clk.div1 & 0x3f,
        spec_calc_divs(&clk, old_word) & !((0x3fu32 << 20) | (0x3fu32 << 8)) == old_word & !((
        0x3fu32 << 20) | (0x3fu32 << 8)),
        spec_calc_divs(&Clock { div0: 0, div1: 0 }, old_word) == old_word & !((0x3fu32 << 20) | (
        0x3fu32 << 8)),
{
    let d0 = clk.div0;
    let d1 = clk.div1;
    assert((((old_word & !((0x3fu32 << 20) | (0x3fu32 << 8))) | (((d1 & 0x3f) << 20) | ((d0 & 0x3f)
        << 8))) >> 8) & 0x3f == d0 & 0x3f) by (bit_vector);
    assert((((old_word & !((0x3fu32 << 20) | (0x3fu32 << 8))) | (((d1 & 0x3f) << 20) | ((d0 & 0x3f)
        << 8))) >> 20) & 0x3f == d1 & 0x3f) by (bit_vector);
    assert(((old_word & !((0x3fu32 << 20) | (0x3fu32 << 8))) | (((d1 & 0x3f) << 20) | ((d0 & 0x3f)
        << 8))) & !((0x3fu32 << 20) | (0x3fu32 << 8)) == old_word & !((0x3fu32 << 20) | (0x3fu32
        << 8))) by (bit_vector);
    assert((old_word & !((0x3fu32 << 20) | (0x3fu32 << 8))) | (((0u32 & 0x3f) << 20) | ((0u32
        & 0x3f) << 8)) == old_word & !((0x3fu32 << 20) | (0x3fu32 << 8))) by (bit_vector);
}

/// The control words of the four clocks lie 0x170, 0x180, 0x190 and 0x1a0
/// bytes into the control registers.
pub proof fn lemma_clock_offsets(mem: Window)
    ensures
        mem.address(spec_offset(0) as int) == mem.mem + 0x170,
        mem.address(spec_offset(1) as int) == mem.mem + 0x180,
        mem.address(spec_offset(2) as int) == mem.mem + 0x190,
        mem.address(spec_offset(3) as int) == mem.mem + 0x1a0,
{
}

} // verus!
