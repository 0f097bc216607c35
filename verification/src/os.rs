//! Values of the operating system's memory-mapping interface, as `libc` defines them.

use vstd::prelude::*;

verus! {

/// Mapping protection: pages may be read.
pub const PROT_READ: i32 = 1;

/// Mapping protection: pages may be written.
pub const PROT_WRITE: i32 = 2;

/// Mapping flag: changes stay private to the process.
pub const MAP_PRIVATE: i32 = 0x02;

/// Mapping flag: the mapping is backed by no file.
pub const MAP_ANONYMOUS: i32 = 0x20;

/// The address that a failed mapping request returns.
pub const MAP_FAILED: usize = usize::MAX;

/// `libc::PROT_READ`. Trusted: the constant is 1, as `libc` defines it for Linux.
#[verifier::external_body]
pub(crate) fn prot_read() -> (r: i32)
    ensures
        r == PROT_READ,
{
    libc::PROT_READ
}

/// `libc::PROT_WRITE`. Trusted: the constant is 2, as `libc` defines it for Linux.
#[verifier::external_body]
pub(crate) fn prot_write() -> (r: i32)
    ensures
        r == PROT_WRITE,
{
    libc::PROT_WRITE
}

/// `libc::MAP_PRIVATE`. Trusted: the constant is 2, as `libc` defines it for Linux.
#[verifier::external_body]
pub(crate) fn map_private() -> (r: i32)
    ensures
        r == MAP_PRIVATE,
{
    libc::MAP_PRIVATE
}

/// `libc::MAP_ANONYMOUS`. Trusted: the constant is 0x20, as `libc` defines it for Linux on
/// x86-64, the one architecture that has the rights register this crate switches.
#[verifier::external_body]
pub(crate) fn map_anonymous() -> (r: i32)
    ensures
        r == MAP_ANONYMOUS,
{
    libc::MAP_ANONYMOUS
}

/// `libc::MAP_FAILED` as an address. Trusted: the constant is the pointer with every bit set.
#[verifier::external_body]
pub(crate) fn map_failed() -> (r: usize)
    ensures
        r == MAP_FAILED,
{
    libc::MAP_FAILED as usize
}

} // verus!
