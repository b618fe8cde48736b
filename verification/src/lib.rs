//! Verified core of a minimal bare-metal blinker firmware for a Cortex-M
//! microcontroller (an automotive CYT2B7-family part).
//!
//! The firmware itself does two things: at build time it selects a memory
//! layout and compiler inputs from the target triple, and at run time it
//! configures one GPIO pin (port 19, pin 0, wired to an LED) as a strong
//! push-pull output and toggles it every 250 ms.
//!
//! Everything that can be decided or computed away from the hardware lives
//! here, with contracts:
//! - [`target`] maps a target triple to the supported core variants;
//! - [`plan`] turns a triple and the two memory-layout sources into the
//!   complete set of build outputs;
//! - [`gpio`] computes the register values the firmware writes, at the
//!   bit-field level;
//! - [`blinker`] is the toggle state machine and its timing laws;
//! - [`peripherals`] models the singleton acquisition of the core and
//!   device peripheral sets and the startup decision.
//!
//! The unverifiable remainder (environment and file access, the vendor C
//! compilation, the volatile register writes, the SysTick busy-wait) is a
//! thin shell around this crate.

pub mod blinker;
pub mod gpio;
pub mod peripherals;
pub mod plan;
pub mod target;
