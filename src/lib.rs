//! A single sine oscillator driven by control commands, in fixed point.
//!
//! Gains, gate values and sine values are scaled so that [`fixed::UNIT`]
//! stands for 1.0; frequencies are in millihertz; the phase is a fraction
//! of one cycle with [`oscillator::PHASE_ONE`] standing for a whole cycle.
pub mod channel;
pub mod command;
pub mod control;
pub mod fixed;
pub mod laws;
pub mod oscillator;
pub mod output;
