//! The two RGB LEDs of the board, driven through a GPIO block.

use vstd::prelude::*;
use crate::fault::Fault;
use crate::mmio::{Mmio, MapOp, MapOpView, MapStage, UnmapOp, Window};
use crate::sys::{RegWrite, Reply, Request, Step};

verus! {

/// The physical address of the GPIO block.
pub const LEDS_BASE: u32 = 0x4121_0000;

/// The length in bytes of the GPIO block's registers.
pub const LEDS_LENGTH: u32 = 8;

/// The index of the data register: bits 0 to 2 drive LD4, bits 3 to 5 LD5.
pub const DATA: usize = 0;

/// The index of the direction register: a pin is an output where its bit is
/// clear.
pub const TRI: usize = 1;

/// The direction word that makes the six LED pins outputs.
pub const OUTPUTS: u32 = 0xffff_ffc0;

/// The direction word that makes every pin an input.
pub const INPUTS: u32 = 0xffff_ffff;

/// The eight colors of an LED: one bit each for red, green and blue.
#[derive(Copy, Clone, Debug, PartialEq, Eq, Structural)]
pub enum Color {
    Black,
    Blue,
    Green,
    Cyan,
    Red,
    Magenta,
    Yellow,
    White,
}

impl Color {
    /// The three bits of the color: blue is 1, green 2, red 4.
    pub open spec fn spec_bits(self) -> u32 {
        match self {
            Color::Black => 0,
            Color::Blue => 1,
            Color::Green => 2,
            Color::Cyan => 3,
            Color::Red => 4,
            Color::Magenta => 5,
            Color::Yellow => 6,
            Color::White => 7,
        }
    }

    /// The three bits of the color.
    #[verifier::when_used_as_spec(spec_bits)]
    pub fn bits(self) -> (bits: u32)
        ensures
            bits == self.spec_bits(),
            bits < 8,
    {
        match self {
            Color::Black => 0,
            Color::Blue => 1,
            Color::Green => 2,
            Color::Cyan => 3,
            Color::Red => 4,
            Color::Magenta => 5,
            Color::Yellow => 6,
            Color::White => 7,
        }
    }
}

/// The data word that shows `ld4_color` on LD4 and `ld5_color` on LD5.
pub open spec fn both(ld4_color: Color, ld5_color: Color) -> u32 {
    (ld4_color.spec_bits() & 7) | ((ld5_color.spec_bits() & 7) << 3)
}

/// The data word `current` with the color of LD4 replaced by `color`.
pub open spec fn with_ld4(current: u32, color: Color) -> u32 {
    (current & !7u32) | (color.spec_bits() & 7)
}

/// The data word `current` with the color of LD5 replaced by `color`.
pub open spec fn with_ld5(current: u32, color: Color) -> u32 {
    (current & !(7u32 << 3)) | ((color.spec_bits() & 7) << 3)
}

/// The bits of LD4 in a data word.
pub open spec fn ld4_of(data: u32) -> u32 {
    data & 7
}

/// The bits of LD5 in a data word.
pub open spec fn ld5_of(data: u32) -> u32 {
    (data >> 3) & 7
}

/// The driver of the LEDs. It owns the window over the GPIO block.
pub struct RgbLeds {
    mem: Mmio,
}

impl View for RgbLeds {
    type V = Window;

    closed spec fn view(&self) -> Window {
        self.mem@
    }
}

/// How far a [`LedsOp`] has come.
pub ghost enum LedsStage {
    /// The registers are being mapped.
    Mapping(MapOpView),
    /// The LED pins are being made outputs.
    Configure(Window),
}

enum LedsState {
    Mapping(MapOp),
    Configure(Mmio),
}

/// The set-up of the LEDs, in progress: the GPIO block is mapped, then its
/// six lowest pins are made outputs.
pub struct LedsOp {
    state: LedsState,
}

impl View for LedsOp {
    type V = LedsStage;

    closed spec fn view(&self) -> LedsStage {
        match self.state {
            LedsState::Mapping(map) => LedsStage::Mapping(map@),
            LedsState::Configure(mem) => LedsStage::Configure(mem@),
        }
    }
}

impl LedsStage {
    /// The window over the GPIO block, once it is mapped.
    pub open spec fn window(self) -> Option<Window> {
        match self {
            LedsStage::Mapping(_) => None,
            LedsStage::Configure(mem) => Some(mem),
        }
    }

    /// The request whose reply the operation waits for.
    pub open spec fn request(self) -> Request {
        match self {
            LedsStage::Mapping(map) => map.request(),
            LedsStage::Configure(mem) => Request::Write {
                address: mem.address(TRI as int) as usize,
                value: OUTPUTS,
            },
        }
    }

    /// The operation after `reply`.
    pub open spec fn advance(self, reply: Reply) -> Step<LedsStage, Window> {
        match (self, reply) {
            (LedsStage::Mapping(map), _) => match map.advance(reply) {
                Step::Pending(next) => Step::Pending(LedsStage::Mapping(next)),
                Step::Done(Ok(mem)) => Step::Pending(LedsStage::Configure(mem)),
                Step::Done(Err(fault)) => Step::Done(Err(fault)),
            },
            (LedsStage::Configure(mem), Reply::Written) => Step::Done(Ok(mem)),
            _ => Step::Done(Err(Fault::UnexpectedReply)),
        }
    }
}

/// The model of a step of a [`LedsOp`]: states and drivers by their views.
pub open spec fn leds_step_view(step: Step<LedsOp, RgbLeds>) -> Step<LedsStage, Window> {
    match step {
        Step::Pending(op) => Step::Pending(op@),
        Step::Done(Ok(leds)) => Step::Done(Ok(leds@)),
        Step::Done(Err(fault)) => Step::Done(Err(fault)),
    }
}

impl LedsOp {
    #[verifier::type_invariant]
    spec fn wf(self) -> bool {
        match self.state {
            LedsState::Mapping(map) => map@.length == LEDS_LENGTH,
            LedsState::Configure(mem) => mem@.words >= 2,
        }
    }

    /// The request to perform next. Once the registers are mapped, it is an
    /// access to a word of their window.
    pub fn request(&self) -> (request: Request)
        ensures
            request == self@.request(),
            self@.window() matches Some(mem) ==> request.register() matches Some(address)
                && mem.holds(address as int),
    {
        proof {
            use_type_invariant(self);
        }
        match &self.state {
            LedsState::Mapping(map) => map.request(),
            LedsState::Configure(mem) => mem.write(TRI, OUTPUTS).request(),
        }
    }

    /// Takes the reply to [`LedsOp::request`] and moves on.
    pub fn advance(self, reply: Reply) -> (next: Step<LedsOp, RgbLeds>)
        ensures
            leds_step_view(next) == self@.advance(reply),
    {
        proof {
            use_type_invariant(&self);
        }
        match self.state {
            LedsState::Mapping(map) => match map.advance(reply) {
                Step::Pending(map) => Step::Pending(LedsOp { state: LedsState::Mapping(map) }),
                Step::Done(Ok(mem)) => Step::Pending(LedsOp { state: LedsState::Configure(mem) }),
                Step::Done(Err(fault)) => Step::Done(Err(fault)),
            },
            LedsState::Configure(mem) => match reply {
                Reply::Written => Step::Done(Ok(RgbLeds { mem })),
                _ => Step::Done(Err(Fault::UnexpectedReply)),
            },
        }
    }
}

/// How far a [`LedsReleaseOp`] has come.
pub ghost enum LedsReleaseStage {
    /// Every pin is being made an input again.
    Reset(Window),
    /// The registers are being unmapped.
    Unmap(UnmapOp),
}

enum LedsReleaseState {
    Reset(Mmio),
    Unmap(UnmapOp),
}

/// The release of the LEDs, in progress: every pin is made an input again,
/// then the GPIO block is unmapped.
pub struct LedsReleaseOp {
    state: LedsReleaseState,
}

impl View for LedsReleaseOp {
    type V = LedsReleaseStage;

    closed spec fn view(&self) -> LedsReleaseStage {
        match self.state {
            LedsReleaseState::Reset(mem) => LedsReleaseStage::Reset(mem@),
            LedsReleaseState::Unmap(unmap) => LedsReleaseStage::Unmap(unmap),
        }
    }
}

impl LedsReleaseStage {
    /// The window over the GPIO block, while it is mapped.
    pub open spec fn window(self) -> Option<Window> {
        match self {
            LedsReleaseStage::Reset(mem) => Some(mem),
            LedsReleaseStage::Unmap(_) => None,
        }
    }

    /// The request whose reply the operation waits for.
    pub open spec fn request(self) -> Request {
        match self {
            LedsReleaseStage::Reset(mem) => Request::Write {
                address: mem.address(TRI as int) as usize,
                value: INPUTS,
            },
            LedsReleaseStage::Unmap(unmap) => unmap.spec_request(),
        }
    }

    /// The operation after `reply`.
    pub open spec fn advance(self, reply: Reply) -> Step<LedsReleaseStage, ()> {
        match (self, reply) {
            (LedsReleaseStage::Reset(mem), Reply::Written) => Step::Pending(
                LedsReleaseStage::Unmap(
                    UnmapOp { address: mem.mem, length: mem.bytes() as usize },
                ),
            ),
            (LedsReleaseStage::Unmap(unmap), _) => match unmap.spec_advance(reply) {
                Step::Pending(next) => Step::Pending(LedsReleaseStage::Unmap(next)),
                Step::Done(result) => Step::Done(result),
            },
            _ => Step::Done(Err(Fault::UnexpectedReply)),
        }
    }
}

/// The model of a step of a [`LedsReleaseOp`]: states by their views.
pub open spec fn leds_release_step_view(step: Step<LedsReleaseOp, ()>) -> Step<
    LedsReleaseStage,
    (),
> {
    match step {
        Step::Pending(op) => Step::Pending(op@),
        Step::Done(result) => Step::Done(result),
    }
}

impl LedsReleaseOp {
    #[verifier::type_invariant]
    spec fn wf(self) -> bool {
        match self.state {
            LedsReleaseState::Reset(mem) => mem@.words >= 2,
            LedsReleaseState::Unmap(_) => true,
        }
    }

    /// The request to perform next. While the registers are mapped, it is
    /// an access to a word of their window.
    pub fn request(&self) -> (request: Request)
        ensures
            request == self@.request(),
            self@.window() matches Some(mem) ==> request.register() matches Some(address)
                && mem.holds(address as int),
    {
        proof {
            use_type_invariant(self);
        }
        match &self.state {
            LedsReleaseState::Reset(mem) => mem.write(TRI, INPUTS).request(),
            LedsReleaseState::Unmap(unmap) => unmap.request(),
        }
    }

    /// Takes the reply to [`LedsReleaseOp::request`] and moves on.
    pub fn advance(self, reply: Reply) -> (next: Step<LedsReleaseOp, ()>)
        ensures
            leds_release_step_view(next) == self@.advance(reply),
    {
        match self.state {
            LedsReleaseState::Reset(mem) => match reply {
                Reply::Written => Step::Pending(
                    LedsReleaseOp { state: LedsReleaseState::Unmap(mem.release()) },
                ),
                _ => Step::Done(Err(Fault::UnexpectedReply)),
            },
            LedsReleaseState::Unmap(unmap) => match unmap.advance(reply) {
                Step::Pending(unmap) => Step::Pending(
                    LedsReleaseOp { state: LedsReleaseState::Unmap(unmap) },
                ),
                Step::Done(result) => Step::Done(result),
            },
        }
    }
}

impl RgbLeds {
    #[verifier::type_invariant]
    spec fn wf(self) -> bool {
        self.mem@.words >= 2
    }

    /// Begins setting the LEDs up.
    pub fn get() -> (op: LedsOp)
        ensures
            op@ == LedsStage::Mapping(
                MapOpView { phys_addr: LEDS_BASE, length: LEDS_LENGTH, stage: MapStage::PageSize },
            ),
    {
        LedsOp { state: LedsState::Mapping(Mmio::map(LEDS_BASE, LEDS_LENGTH)) }
    }

    /// The address of the data register, to read the current colors from.
    pub fn data(&self) -> (address: usize)
        ensures
            address == self@.address(DATA as int),
            self@.holds(address as int),
    {
        proof {
            use_type_invariant(self);
        }
        self.mem.read(DATA)
    }

    /// The write that shows `ld4_color` on LD4 and `ld5_color` on LD5.
    pub fn set(&mut self, ld4_color: Color, ld5_color: Color) -> (access: RegWrite)
        ensures
            final(self)@ == old(self)@,
            access == (RegWrite {
                address: old(self)@.address(DATA as int) as usize,
                value: both(ld4_color, ld5_color),
            }),
            old(self)@.holds(access.address as int),
    {
        proof {
            use_type_invariant(&*self);
        }
        self.mem.write(DATA, (ld4_color.bits() & 7) | ((ld5_color.bits() & 7) << 3))
    }

    /// The write that shows `color` on LD4 and leaves the rest of the data
    /// word `current`, as read from the data register, as it is.
    pub fn set_ld4(&mut self, current: u32, color: Color) -> (access: RegWrite)
        ensures
            final(self)@ == old(self)@,
            access == (RegWrite {
                address: old(self)@.address(DATA as int) as usize,
                value: with_ld4(current, color),
            }),
            old(self)@.holds(access.address as int),
    {
        proof {
            use_type_invariant(&*self);
        }
        self.mem.write(DATA, (current & !7) | (color.bits() & 7))
    }

    /// The write that shows `color` on LD5 and leaves the rest of the data
    /// word `current`, as read from the data register, as it is.
    pub fn set_ld5(&mut self, current: u32, color: Color) -> (access: RegWrite)
        ensures
            final(self)@ == old(self)@,
            access == (RegWrite {
                address: old(self)@.address(DATA as int) as usize,
                value: with_ld5(current, color),
            }),
            old(self)@.holds(access.address as int),
    {
        proof {
            use_type_invariant(&*self);
        }
        self.mem.write(DATA, (current & !(7 << 3)) | ((color.bits() & 7) << 3))
    }

    /// Begins giving the LEDs up.
    pub fn release(self) -> (op: LedsReleaseOp)
        ensures
            op@ == LedsReleaseStage::Reset(self@),
    {
        proof {
            use_type_invariant(&self);
        }
        LedsReleaseOp { state: LedsReleaseState::Reset(self.mem) }
    }
}

/// A data word shows on each LED the color that was put there: setting both
/// LEDs sets both; setting one sets it and leaves every other bit of the word
/// as it was.
pub proof fn lemma_colors(current: u32, ld4_color: Color, ld5_color: Color)
    ensures
        ld4_of(both(ld4_color, ld5_color)) == ld4_color.spec_bits(),
        ld5_of(both(ld4_color, ld5_color)) == ld5_color.spec_bits(),
        both(ld4_color, ld5_color) < 64,
        ld4_of(with_ld4(current, ld4_color)) == ld4_color.spec_bits(),
        with_ld4(current, ld4_color) & !7u32 == current & !7u32,
        ld5_of(with_ld5(current, ld5_color)) == ld5_color.spec_bits(),
        with_ld5(current, ld5_color) & !(7u32 << 3) == current & !(7u32 << 3),
{
    let a = ld4_color.spec_bits();
    let b = ld5_color.spec_bits();
    assert(a < 8 && b < 8);
    assert(((a & 7) | ((b & 7) << 3)) & 7 == a && (((a & 7) | ((b & 7) << 3)) >> 3) & 7 == b && (
    (a & 7) | ((b & 7) << 3)) < 64) by (bit_vector)
        requires
            a < 8,
            b < 8,
    ;
    assert(((current & !7u32) | (a & 7)) & 7 == a && ((current & !7u32) | (a & 7)) & !7u32 == current & !7u32)
        by (bit_vector)
        requires
            a < 8,
    ;
    assert((((current & !(7u32 << 3)) | ((b & 7) << 3)) >> 3) & 7 == b && ((current & !(7u32 << 3)) | ((b
        & 7) << 3)) & !(7u32 << 3) == current & !(7u32 << 3)) by (bit_vector)
        requires
            b < 8,
    ;
}

/// The direction word of the set-up makes exactly the six LED pins outputs.
pub proof fn lemma_outputs()
    ensures
        OUTPUTS == !((7u32 << 3) | 7),
        INPUTS == !0u32,
{
    assert(0xffff_ffc0u32 == !((7u32 << 3) | 7)) by (bit_vector);
    assert(0xffff_ffffu32 == !0u32) by (bit_vector);
}

} // verus!
