//! Vehicle diagnostics over CAN, ISO-TP, KWP2000, UDS and OBD-II.

pub mod text;
pub mod comm_api;
pub mod bytes;
pub mod iface;
pub mod pdu_api;
pub mod protocols;
pub mod passthru_msg;
pub mod comserver;
pub mod passthru;
pub mod passthru_api;
pub mod scan;
pub mod hex_input;
pub mod tracer;
pub mod log_view;
pub mod j2534;
