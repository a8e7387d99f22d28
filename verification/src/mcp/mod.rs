//! The local editing server's file-system guard and session table.

pub mod fs_guard;
pub mod session;
