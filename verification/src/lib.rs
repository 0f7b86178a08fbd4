//! The protocol by which the methods of an embedded controller are evaluated through its ACPI test
//! driver.
//!
//! Each operation of [`acpi::Acpi`] comes in two halves. The one whose name ends in `_request`
//! gives the bytes that ask the driver to evaluate a method; the other says what the reply of the
//! driver means. Between the two the caller performs the device control call and hands back what
//! came of it as a [`device::DeviceReply`]. The search for the device works alike: a
//! [`search::SearchState`] says what to ask the system next, and takes its answer.
//!
//! The modules [`framing`], [`packing`], [`requests`], [`replies`], [`readings`], [`sending`],
//! [`operations`] and [`shown`] state what holds of the formats and operations as a whole.
pub mod acpi;
pub mod argument;
pub mod battery;
pub mod bytes;
pub mod device;
pub mod error;
pub mod framing;
pub mod guid;
pub mod input;
pub mod operations;
pub mod output;
pub mod packing;
pub mod readings;
pub mod replies;
pub mod requests;
pub mod rtc;
pub mod search;
pub mod sending;
pub mod shown;
pub mod text;
pub mod thermal;
pub mod ucsi;
pub mod value;
