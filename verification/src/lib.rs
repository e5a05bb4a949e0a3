//! Native-OS integration facade: local account identities, per-user special
//! folders, process listing and termination, and desktop-shell lifecycle.
//!
//! The facade marshals fixed- and variable-length native buffers into plain
//! values and decides what each operation returns; the platform and bridge
//! calls themselves are issued by the surrounding binary, which hands their
//! raw results to the functions here.

pub mod browser_controller;
pub mod data_controller;
pub mod logger_control;
pub mod sid;
pub mod text;
pub mod wide;
pub mod win_api;
