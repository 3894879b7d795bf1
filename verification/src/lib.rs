//! Print-order intake and evaluation library.
//!
//! A client submits a print order as one metadata message followed by a
//! declared number of binary file chunks.  The session state machine in
//! [`web_socket_impl`] reassembles the upload, the slicer interface in
//! [`prusa_slicer_interface`] turns the completed model file into printing
//! parameters, the calculator in [`prusa_slicer_price_calculator`] prices the
//! job, and the store in [`database_handler`] keeps the resulting order
//! records through their status lifecycle.

pub mod api;
pub mod database_handler;
pub mod database_type_conversions;
pub mod global_traits;
pub mod global_types;
pub mod orca_slicer_interface;
pub mod prusa_slicer_cli;
pub mod prusa_slicer_interface;
pub mod prusa_slicer_mock;
pub mod prusa_slicer_price_calculator;
pub mod text;
pub mod web_socket_impl;
