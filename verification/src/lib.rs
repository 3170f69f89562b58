//! A USB-serial transport layer and a diagnostic logging pipeline for a
//! microcontroller, written so that every decision is a function of plain
//! values: the hardware is driven by the caller, which hands over what the
//! hardware returned and acts on what these functions decide.

pub mod serial;
