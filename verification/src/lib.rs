//! Acquisition-to-spectrum pipeline for a software-defined radio receiver.
//!
//! The crate holds the rules of the pipeline, each with a machine-checked
//! contract:
//!
//! - [`dsp`]: exact fixed-point handling of SC16 Q11 samples;
//! - [`acquisition`]: the acquisition loop as a state machine, with its
//!   policy for timeouts, empty packets, underruns and short blocks;
//! - [`interruptor`]: the latch by which the loop is asked to stop;
//! - [`limits`] and [`opts`]: the configuration and its validation;
//! - [`exit`]: the exit code of a run.
//!
//! Device access, the floating-point transform and process set-up belong to
//! the program that drives the state machine.

pub mod acquisition;
pub mod dsp;
pub mod exit;
pub mod interruptor;
pub mod limits;
pub mod opts;
