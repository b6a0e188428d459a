//! A digital-logic simulator built bottom-up from the NAND function:
//! gates, routing and arithmetic circuits, a feedback latch, an
//! edge-triggered flip-flop, and small clocked register machines.
//!
//! Every circuit is an ordinary Rust value; what it computes is stated as a
//! contract over a mathematical view of its input lines and stored bits.

pub mod gate;
pub mod binary;
pub mod adder;
pub mod subtractor;
pub mod flip_flop;
pub mod multiplexer;
pub mod cpu;
