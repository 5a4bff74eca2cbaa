//! Scan-and-report core of a split mechanical keyboard: key-position mapping,
//! matrix snapshots, cadence configuration and the control loop that feeds a
//! USB HID keyboard interface.
pub mod cadence;
pub mod control;
pub mod hid;
pub mod keymap;
pub mod scan;
