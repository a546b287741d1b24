//! A passthrough filesystem core: the translation layer between the
//! operations of a mount driver and the answers of the operating system.
//!
//! The library maps virtual paths onto a source directory, translates the
//! operating system's `stat` and `statfs` records into the attribute records
//! that a mount driver hands to the kernel, and decides what each operation
//! replies for every outcome of the system calls made on its behalf.

pub mod types;
pub mod libc_wrapper;
pub mod unmanaged_file;
pub mod deco;
