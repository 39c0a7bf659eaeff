//! Linux-compatible `stat`-family, access and resource-limit system calls,
//! written as functions from what the pointer boundary, the descriptor table,
//! the process table and the filesystem backend hand over, to results and
//! errno numbers. Each function carries a contract that Verus proves.
//!
//! - `ptr`: what a user address was found to be, and how results are written
//!   back through one.
//! - `path`: resolution of a path against a directory descriptor.
//! - `file`: file-like objects, their metadata in both layouts, and the
//!   descriptor table.
//! - `stat`: the `stat` family, `statfs` and the access checks.
//! - `resources`: per-process resource limits.
//! - `errno`: the failure kinds and their errno numbers.
//! - `abi`: numbers of the Linux ABI.

pub mod abi;
pub mod errno;
pub mod file;
pub mod path;
pub mod ptr;
pub mod resources;
pub mod stat;
