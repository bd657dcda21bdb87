//! Telemetry pipeline of a small environmental gadget: a sensor task publishes
//! readings of CO2, temperature and humidity, a render task keeps a bounded
//! history of each metric and turns it into a frame of text and line graphs.
//!
//! Everything here is plain computation with machine-checked contracts. Timers,
//! buses and the display itself stay with the program that drives these types.

pub mod canvas;
pub mod colour;
pub mod dashboard;
pub mod error;
pub mod frame;
pub mod handoff;
pub mod history;
pub mod label;
pub mod raster;
pub mod reading;
pub mod render;
pub mod sensor;
