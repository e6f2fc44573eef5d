//! Verified core of a TOTP-gated credential release service.

pub mod error;
pub mod text;
pub mod totp;
pub mod wipe;
pub mod protect;
pub mod vault;
pub mod ipc;
pub mod audit;
pub mod unlock;
pub mod paths;
pub mod state;
pub mod setup;
pub mod wide;
pub mod provider;
pub mod host;
