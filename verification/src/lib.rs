//! Discovery and decoding of the SMBIOS entry point structure.
//!
//! The library models a read-only window of physical memory, scans the legacy
//! BIOS anchor region for the `_SM_` and `_SM3` signatures, and decodes the
//! entry point structure found there into a normalized record.  Reading the
//! window from the actual physical-memory device is left to the caller.

pub mod anchor;
pub mod memory;
pub mod scan;
