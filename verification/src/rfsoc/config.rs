//! The description of the memories and registers that the logic offers.

use vstd::prelude::*;
use crate::text::same_text;

verus! {

/// The direction in which the processor accesses a memory or a register.
#[derive(Clone, Copy, Debug, PartialEq, Eq, Structural)]
pub enum MemoryAccess {
    READ,
    WRITE,
}

impl MemoryAccess {
    /// The access that is written `name`: `r` for reading, `w` for writing.
    pub open spec fn named(name: Seq<char>) -> Option<MemoryAccess> {
        if name == "r"@ {
            Some(MemoryAccess::READ)
        } else if name == "w"@ {
            Some(MemoryAccess::WRITE)
        } else {
            None
        }
    }

    /// The access that is written `name`.
    pub fn from_name(name: &str) -> (access: Option<MemoryAccess>)
        ensures
            access == MemoryAccess::named(name@),
    {
        if same_text(name, "r") {
            Some(MemoryAccess::READ)
        } else if same_text(name, "w") {
            Some(MemoryAccess::WRITE)
        } else {
            None
        }
    }
}

/// The kind of memory that a RAM is built from.
#[derive(Clone, Copy, Debug, PartialEq, Eq, Structural)]
pub enum RAMStyle {
    BLOCK,
}

impl RAMStyle {
    /// The style that is written `name`: `block` for block RAM.
    pub open spec fn named(name: Seq<char>) -> Option<RAMStyle> {
        if name == "block"@ {
            Some(RAMStyle::BLOCK)
        } else {
            None
        }
    }

    /// The style that is written `name`.
    pub fn from_name(name: &str) -> (style: Option<RAMStyle>)
        ensures
            style == RAMStyle::named(name@),
    {
        if same_text(name, "block") {
            Some(RAMStyle::BLOCK)
        } else {
            None
        }
    }
}

/// Whether the value of a register carries a sign.
#[derive(Clone, Copy, Debug, PartialEq, Eq, Structural)]
pub enum Sign {
    Unsigned,
    Signed,
}

impl Sign {
    /// The sign that is written `name`.
    pub open spec fn named(name: Seq<char>) -> Option<Sign> {
        if name == "Unsigned"@ {
            Some(Sign::Unsigned)
        } else if name == "Signed"@ {
            Some(Sign::Signed)
        } else {
            None
        }
    }

    /// The sign that is written `name`.
    pub fn from_name(name: &str) -> (sign: Option<Sign>)
        ensures
            sign == Sign::named(name@),
    {
        if same_text(name, "Unsigned") {
            Some(Sign::Unsigned)
        } else if same_text(name, "Signed") {
            Some(Sign::Signed)
        } else {
            None
        }
    }
}

/// A memory with two ports: one for the logic, one for the processor.
pub struct MMIOConfig {
    pub a_width: usize,
    pub a_depth: usize,
    pub b_width: usize,
    pub prefix: String,
    pub access: MemoryAccess,
    /// The address at which the processor finds the memory.
    pub address: usize,
    pub ram_style: RAMStyle,
}

/// A register of the logic.
pub struct RegisterConfig {
    pub access: MemoryAccess,
    pub addr_width: usize,
    pub data_width: usize,
    pub sign: Sign,
    pub init: i32,
    pub base_addr: usize,
}

} // verus!
