//! Detection of an elevated (administrator) process token, and arbitration
//! of second launch attempts under a single-instance guarantee.
//!
//! The library holds the decisions: how a pair of operating-system query
//! outcomes resolves to an elevation status (fail-closed), and what a
//! relaunch attempt resolves to on a supported or unsupported platform.
//! The surrounding program performs the OS calls and hands their outcomes in
//! as plain values.

pub mod arbiter;
pub mod elevation;
