//! Launch protocol of a single-container launcher.
//!
//! The crate holds the decisions of the launcher: which kernel configuration
//! step comes next, what is written to the identity-mapping control files,
//! how a child's fate becomes the launcher's own exit code, and what is
//! reported when a step fails. Performing the steps (system calls, file
//! writes, process exit) is left to the program around it.

pub mod child;
pub mod error;
pub mod identity;
pub mod isolation;
pub mod jail;
pub mod operation;
pub mod protocol;
pub mod request;
pub mod supervisor;
