//! Checks whether a container image can be pulled from a fixed list of public
//! registries.
//!
//! The library holds every decision of such a check: how an image reference is
//! split, which requests a registry is asked, how its replies are read and which
//! line is reported. Sending the requests is left to the caller, who hands each
//! reply back.

pub mod image;
pub mod registry;
pub mod token;
pub mod check;
pub mod report;
pub mod session;
