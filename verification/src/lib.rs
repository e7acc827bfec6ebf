//! Decision logic of the native launcher: where the PostgreSQL binaries and
//! the migration folder live, what each startup step asks the host to do,
//! how sidecar output is routed to the UI channels, and what is stopped on
//! exit.

pub mod text;
pub mod paths;
pub mod readiness;
pub mod sidecar_log;
pub mod shutdown;
pub mod commands;
pub mod startup;
pub mod startup_laws;
