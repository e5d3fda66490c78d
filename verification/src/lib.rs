//! Resolution of the launch command for the Workman language server.
//!
//! The library is a pure decision procedure: given the user's settings
//! document, the value of the server-root environment variable, the results
//! of two filesystem probes (a PATH search for the interpreter and an
//! existence check for the conventional server script) and the platform,
//! it computes the interpreter, the configuration and script paths, the
//! argument vector and the environment of the command that launches the
//! server, or a descriptive error.  The host adapter performs the probes
//! and hands their results in as plain values.

pub mod laws;
pub mod paths;
pub mod resolver;
pub mod settings;
