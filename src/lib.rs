//! Keeps local Java runtime installations in sync with the latest release of a vendor.
//!
//! The library holds the logic: variable resolution and expansion, the per-target
//! decision rule, the provisioning state machine (download check, busy probe, safe
//! extraction, swap) and the metadata record. File, network and process work is done
//! by the caller, which performs the actions the library hands out.

pub mod text;
pub mod vars;
pub mod config;
pub mod checksum;
pub mod package;
pub mod archive;
pub mod version;
pub mod vendor;
pub mod metadata;
pub mod json;
pub mod request;
pub mod installation;
pub mod notify;
pub mod scheduler;
