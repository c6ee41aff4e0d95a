//! Protocol engine for the Macronix MX25UW25645G serial NOR flash over an
//! XSPI bus: command catalog, transfer shaping, the one-way switch from
//! single-wire SPI into Octal-DTR mode, page-bounded programming and bounded
//! completion polling.
//!
//! The engine does not touch the bus itself: each operation yields a plan of
//! bus operations (`BusOp`) that a transport executes in order.

pub mod command;
pub mod device;
pub mod geometry;
pub mod model;
pub mod plan;
pub mod transfer;

pub use command::{OpiCommand, OutputDriveStrength, SpiCommand};
pub use transfer::{FieldSize, Transfer, Width};
pub use plan::{BusOp, FlashError, Op};
pub use device::{BusMode, EraseUnit, InitStep, OpiFlashMemory, PollOutcome};
