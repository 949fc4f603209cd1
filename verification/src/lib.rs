//! Verified logic of a small UART firmware. Every byte received is sent back
//! incremented by one from the receive interrupt, and an indicator blinks
//! once per wake of the idle loop.
//!
//! The firmware itself owns the registers. This library holds what it
//! decides, and a simulated board to run those decisions against:
//!
//! * [`echo`]: the byte transform;
//! * [`handler`]: the steps of the receive interrupt handler, and what one
//!   invocation does to a UART;
//! * [`indicator`]: the operations of the idle loop, and what they show on
//!   the indicator;
//! * [`startup`]: the order of bring-up, its fatal errors and its fixed
//!   parameters;
//! * [`shared`]: the slot that hands the UART from the main flow to the
//!   handler;
//! * [`uart`]: a simulated UART;
//! * [`board`]: a simulated board, with its interrupt line and critical
//!   sections.

pub mod board;
pub mod echo;
pub mod handler;
pub mod indicator;
pub mod shared;
pub mod startup;
pub mod uart;
