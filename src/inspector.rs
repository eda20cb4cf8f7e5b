//! The inspection side: what the request handler computes from the output of
//! the package manager's commands.
pub mod flake;
pub mod system;
