//! Numbers of the Linux ABI that the system calls read from their arguments.

use vstd::prelude::*;

verus! {

/// The descriptor that stands for the current working directory.
pub const AT_FDCWD: i32 = -100;

/// The flag that lets an empty path name the descriptor itself.
pub const AT_EMPTY_PATH: u32 = 0x1000;

/// Access mode bit: readable.
pub const R_OK: u32 = 4;

/// Access mode bit: writable.
pub const W_OK: u32 = 2;

/// Access mode bit: executable.
pub const X_OK: u32 = 1;

/// The number of resource-limit kinds.
pub const RLIM_NLIMITS: u32 = 16;

/// Reads `linux_raw_sys::general::AT_FDCWD`; the contract gives its value.
#[verifier::external_body]
pub(crate) fn at_fdcwd() -> (v: i32)
    ensures
        v == AT_FDCWD,
{
    linux_raw_sys::general::AT_FDCWD
}

/// Reads `linux_raw_sys::general::AT_EMPTY_PATH`; the contract gives its value.
#[verifier::external_body]
pub(crate) fn at_empty_path() -> (v: u32)
    ensures
        v == AT_EMPTY_PATH,
{
    linux_raw_sys::general::AT_EMPTY_PATH
}

/// Reads `linux_raw_sys::general::R_OK`; the contract gives its value.
#[verifier::external_body]
pub(crate) fn r_ok() -> (v: u32)
    ensures
        v == R_OK,
{
    linux_raw_sys::general::R_OK
}

/// Reads `linux_raw_sys::general::W_OK`; the contract gives its value.
#[verifier::external_body]
pub(crate) fn w_ok() -> (v: u32)
    ensures
        v == W_OK,
{
    linux_raw_sys::general::W_OK
}

/// Reads `linux_raw_sys::general::X_OK`; the contract gives its value.
#[verifier::external_body]
pub(crate) fn x_ok() -> (v: u32)
    ensures
        v == X_OK,
{
    linux_raw_sys::general::X_OK
}

/// Reads `linux_raw_sys::general::RLIM_NLIMITS`; the contract gives its value.
#[verifier::external_body]
pub(crate) fn rlim_nlimits() -> (v: u32)
    ensures
        v == RLIM_NLIMITS,
{
    linux_raw_sys::general::RLIM_NLIMITS
}

} // verus!
