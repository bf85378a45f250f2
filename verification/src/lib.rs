//! A software-only simulator of the peripheral side of a USB bus.
//!
//! The crate models a bus controller as plain data: every endpoint is a
//! pair of bounded byte buffers with stall, setup and completion flags.
//! On top of that sit an adapter exposing the usual controller operations
//! (allocate, read, write, stall, poll) and a transaction driver that
//! plays the host role for control and data transfers, one poll cycle at
//! a time.

pub mod adapter;
pub mod bus;
pub mod driver;
pub mod endpoint;
pub mod usbdata;
