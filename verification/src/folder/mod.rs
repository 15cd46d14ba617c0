//! Folder-based batch IPC and cache.

pub mod size;
