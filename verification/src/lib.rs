//! A personal reminder tracker: time-bound notes that may repeat on a
//! schedule. The crate verifies the reminder lifecycle (due detection and
//! recurrence rescheduling), the in-memory reminder store, the due scanner,
//! and the interactive editor's form state machine. File persistence,
//! terminal drawing and notification delivery are left to the surrounding
//! program, which hands this library plain values.

pub mod datetime;
pub mod reminder;
pub mod storage;
pub mod notification;
pub mod cli;
pub mod utils;
pub mod tui;
