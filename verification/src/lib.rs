//! Model layer for ILI9341 display controllers.
//!
//! The controller is driven over a command/data bus: `init` must issue a
//! chip-mandated sequence of reset, pixel-format and addressing commands with
//! settle delays between specific steps, and `write_pixels` must stream each
//! color's bytes in the format negotiated at init time.
//!
//! This crate verifies that logic. Every bus command, reset-pin edge and delay
//! is represented as a [`plan::Step`]; the model functions return step plans
//! whose contents are pinned down exactly by their contracts. An embedded
//! runner (which owns the actual pins, delay source and bus) performs the
//! steps in order and reports failures without further decisions of its own.

pub mod builder;
pub mod color;
pub mod dcs;
pub mod models;
pub mod options;
pub mod plan;
