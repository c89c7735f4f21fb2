//! Towa: a developer-environment bootstrap library.
//!
//! The crate has two halves: `config` persists a small per-user
//! configuration document (version tag, toolchain preferences, and an
//! optional hardware-SDK path) as a human-editable text document, and
//! `installer` plans tool installation: it resolves a requested tool name,
//! decides from detection probes whether the tool is already present, and
//! otherwise selects the ordered platform-specific install steps.
//!
//! All I/O (reading and writing the config file, launching detection
//! probes and install commands) is left to the embedding binary; the
//! library works on plain values, so every rule in it is verified.

pub mod config;
pub mod installer;
