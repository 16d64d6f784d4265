//! Measurement core of a network loss tester: self-describing test frames,
//! the accounting a receiver keeps over them, pacing of a sender, and the
//! decisions of the transports and loops that move the frames.

pub mod args;
pub mod clock;
pub mod frames;
pub mod protocols;
pub mod routines;
pub mod speed_controllers;
pub mod stuffing;
