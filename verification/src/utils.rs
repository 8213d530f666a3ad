//! How the clients find and address the control API.

pub mod process_info;
