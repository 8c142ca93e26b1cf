//! Decides when a Docker container is to be started, left alone or suspended,
//! from the network traffic of the port that it serves.
//!
//! The crate performs no input or output. The program around it reads packet
//! counters, socket tables, container listings and the clock, hands them in as
//! plain values, and carries out the one action that it is handed back.

pub mod args;
pub mod container;
pub mod course;
pub mod duration;
pub mod laws;
pub mod monitor;
pub mod notice;
pub mod rounds;
pub mod socket;
pub mod text;
