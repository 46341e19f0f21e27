//! Host-side engine for reflashing firmware on a family of USB HID audio
//! devices that speak a vendor variant of USB DFU 1.1 tunneled through HID
//! feature reports.
//!
//! The crate provides three tightly coupled pieces: the device-compatibility
//! classifier ([`device_ids`]), the firmware-file suffix parser with its
//! CRC-32 variant ([`dfu_file`]), and the DFU state machine with the chunked
//! upload/download transfer loops ([`protocol`]). Raw HID access is an
//! injected capability ([`protocol::HidTransport`]), so the engine can be
//! driven against an in-memory transport as well as real hardware.

pub mod device_ids;
pub mod dfu_file;
pub mod protocol;
pub mod wire;
