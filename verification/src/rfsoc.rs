//! The interface between the processor and the radio logic of the board.

pub mod config;
