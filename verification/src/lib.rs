//! A verified core for an OpenPGP keyring manager.
//!
//! The crate models the user-facing logic of the tool: operating modes,
//! key detail levels, the key view model that renders subkey, user-id and
//! signature lines, the engine configuration, and the decision logic of the
//! keyring operations (listing, export, import, send).  All engine and
//! filesystem work is left to the surrounding application, which hands the
//! library plain values and takes plain values back.

pub mod config;
pub mod context;
pub mod error;
pub mod key;
pub mod mode;
pub mod template;
pub mod textfmt;
