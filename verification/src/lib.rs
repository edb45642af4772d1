//! Verified core of a soil-moisture monitor: a sampler turns raw probe
//! values into calibrated moisture readings, a bounded FIFO channel carries
//! them to a renderer, and the renderer lays out a fixed gauge frame for a
//! small monochrome display.  Hardware access (ADC, I2C, GPIO, timers) stays
//! outside this crate; everything here is plain data and proved logic.

pub mod channel;
pub mod label;
pub mod reading;
pub mod render;
pub mod tasks;
