//! Clock-tree configuration engine for a microcontroller family with a
//! PLL-based clock generator.
//!
//! Given a declarative [`config::Config`] (oscillator choice and target bus
//! frequencies), the planner derives a concrete [`plan::Plan`] of PLL
//! divisors, bus prescalers and a flash wait-state code, validated against
//! the hard electrical limits of the chip family. The sequencer then turns a
//! plan into the exact ordered list of register-level actions that realize
//! it on silicon, and the publisher freezes the achieved frequencies for the
//! rest of the process.

pub mod config;
pub mod laws;
pub mod plan;
pub mod planner;
pub mod publisher;
pub mod rcc;
pub mod sequencer;
pub mod validator;
