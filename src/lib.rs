//! Builds content-blocker and hosts-file blocklists from a registry of
//! untrustworthy website domains.
mod clock;
pub mod render;
pub mod laws;
pub mod records;
pub mod format;
