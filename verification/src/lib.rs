//! Verified control-plane logic for supervising a TLS tunnel process.
//!
//! The crate renders the tunnel's section-based text configuration,
//! decides transactional updates (backup / write / validate / rollback),
//! detects duplicate provider sections, and chooses between reloading a
//! live process and starting a fresh one.  All file and process I/O is
//! left to the surrounding application; the functions here work on plain
//! values and carry contracts.

pub mod mutate;
pub mod render;
pub mod sections;
pub mod server;
pub mod supervise;
pub mod text;
pub mod types;
