//! Checking whether the current process runs with administrative rights, and
//! preparing a request to relaunch an executable with elevation.
//!
//! The operating-system queries themselves (the identity of the host OS, the
//! elevation state of the process token, the shell launch) happen in the
//! embedding program; this library decides, per platform, what to ask for and
//! what the answers mean.

pub mod elevation;
pub mod platform;
pub mod wide;

pub use elevation::{check_admin_privileges, launch_succeeded, request_admin_privileges};
pub use platform::{platform_from_os, Platform};
