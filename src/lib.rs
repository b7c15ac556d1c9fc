//! Cycle-level model of a microprogrammed CPU control unit.
//!
//! A hardwired microsequencer fetches one control word per machine cycle
//! from a fixed micro-ROM, drives the data-path multiplexers, and forms the
//! next micro-address by OR-ing the word's program field with a branch field
//! evaluated one cycle earlier.
pub mod error;
pub mod clock;
pub mod microrom;
pub mod machinestate;
pub mod microbranch_control;
pub mod bconstant;
pub mod data_path;
pub mod sequencer;
pub mod panel;
