//! Verified core of a manager for portable, versioned software environments.
//!
//! An environment is described by a lockspec: a spec file and a lock file
//! kept together in one directory, synchronized against a remote git-hosted
//! registry. The modules below hold the decision logic of that workflow —
//! remote repository references, lockspec validity and metadata injection,
//! the OAuth device-authorization flow, and the staged git transfer
//! protocol — each function carrying a contract that pins its result down.
//! All I/O (network, filesystem, git transport) is performed by unverified
//! callers, which hand the outcomes of those operations back to this crate
//! as plain values.

pub mod backends;
pub mod cli;
pub mod settings;
pub mod text;
pub mod toml_shape;
