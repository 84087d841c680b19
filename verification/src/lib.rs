//! Core of a heart-rate viewer for a Bluetooth Low Energy strap: the decisions
//! of the connection pipeline, the payload decoder and the single-slot store
//! that carries the latest value to the display.

pub mod adapter;
pub mod decoder;
pub mod display;
pub mod error;
pub mod gatt;
pub mod pipeline;
pub mod publisher;
pub mod scanner;
pub mod simulated;
pub mod subscriber;
pub mod uuid;
