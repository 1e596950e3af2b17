//! Command-level logic: each submodule holds the decision and
//! construction logic of one subcommand, together with its argument
//! payload. Argument parsing itself and all I/O live with the caller.

pub mod checkout;
pub mod common;
pub mod get;
pub mod init;
pub mod push;
