//! The anchor scan over the legacy BIOS memory window.

use vstd::prelude::*;

use crate::anchor::{decode_anchor, rev_length, Anchor, AnchorVer};
use crate::memory::{bytes_at, range_readable, read_failure, PhysicalMemory, ReadError};

verus! {

/// Lowest absolute address of the legacy BIOS anchor window.
pub const SMBIOS_ANCHOR_AREA_START: u64 = 0x000F0000;

/// Highest absolute address of the legacy BIOS anchor window.
pub const SMBIOS_ANCHOR_AREA_END: u64 = 0x000FFFFF;

/// Byte length of the signature probe read at each candidate address.
pub const SMBIOS_ANCHOR_UTIL_SIZE: usize = 4;

/// Highest candidate address the scan probes, so that the probe itself stays
/// inside the window.
pub const SMBIOS_ANCHOR_SCAN_LAST: u64 = SMBIOS_ANCHOR_AREA_END - 4;

/// Discovery failure of the anchor scan.
#[derive(Clone, Copy, Debug, PartialEq, Eq, Structural)]
pub enum AnchorError {
    /// The whole window was scanned and no anchor signature was found.
    NotFound,
    /// A raw read failed before any anchor was decoded; the scan aborts.
    Read(ReadError),
}

/// The byte `b` with an ASCII lowercase letter folded to its uppercase form.
pub open spec fn ascii_upper(b: u8) -> u8 {
    if 0x61 <= b && b <= 0x7A {
        (b - 0x20) as u8
    } else {
        b
    }
}

/// Whether the 4-byte probe `p`, case-folded to uppercase, reads `_SM_`:
/// the 2.x anchor signature.  A probe that is not ASCII cannot fold to the
/// ASCII signature, so it never matches.
pub open spec fn is_rev_2_signature(p: Seq<u8>) -> bool {
    &&& p.len() == 4
    &&& ascii_upper(p[0]) == 0x5F
    &&& ascii_upper(p[1]) == 0x53
    &&& ascii_upper(p[2]) == 0x4D
    &&& ascii_upper(p[3]) == 0x5F
}

/// Whether the 4-byte probe `p`, case-folded to uppercase, reads `_SM3`:
/// the 3.x anchor signature.
pub open spec fn is_rev_3_signature(p: Seq<u8>) -> bool {
    &&& p.len() == 4
    &&& ascii_upper(p[0]) == 0x5F
    &&& ascii_upper(p[1]) == 0x53
    &&& ascii_upper(p[2]) == 0x4D
    &&& ascii_upper(p[3]) == 0x33
}

/// Whether the 4-byte probe at absolute address `addr` lies inside the window.
pub open spec fn probe_readable(base: int, mem: Seq<u8>, addr: int) -> bool {
    range_readable(base, mem, addr, SMBIOS_ANCHOR_UTIL_SIZE as int)
}

/// The 4-byte probe at absolute address `addr`.
pub open spec fn probe_at(base: int, mem: Seq<u8>, addr: int) -> Seq<u8> {
    bytes_at(base, mem, addr, SMBIOS_ANCHOR_UTIL_SIZE as int)
}

/// Whether the probe at `addr` is readable and matches no anchor signature,
/// so that the scan steps past it.
pub open spec fn probe_passed(base: int, mem: Seq<u8>, addr: int) -> bool {
    &&& probe_readable(base, mem, addr)
    &&& !is_rev_2_signature(probe_at(base, mem, addr))
    &&& !is_rev_3_signature(probe_at(base, mem, addr))
}

/// The layout the probe at `addr` announces, with the 2.x signature checked
/// first, and the decoded record read from the fixed-length region at `addr`.
/// A region that runs past the window aborts the scan with the read's failure.
pub open spec fn hit_at(base: int, mem: Seq<u8>, addr: int, rev: AnchorVer) -> Result<
    Anchor,
    AnchorError,
> {
    if range_readable(base, mem, addr, rev_length(rev)) {
        Ok(decode_anchor(rev, bytes_at(base, mem, addr, rev_length(rev))))
    } else {
        Err(AnchorError::Read(read_failure(base, mem, addr)))
    }
}

/// The outcome of scanning the window from candidate address `addr` upward:
/// the first anchor signature decides the result, an unreadable probe aborts
/// with that read's failure, and an exhausted window reports `NotFound`.
pub open spec fn scan_from(base: int, mem: Seq<u8>, addr: int) -> Result<Anchor, AnchorError>
    decreases SMBIOS_ANCHOR_SCAN_LAST + 1 - addr,
{
    if addr > SMBIOS_ANCHOR_SCAN_LAST {
        Err(AnchorError::NotFound)
    } else if !probe_readable(base, mem, addr) {
        Err(AnchorError::Read(read_failure(base, mem, addr)))
    } else if is_rev_2_signature(probe_at(base, mem, addr)) {
        hit_at(base, mem, addr, AnchorVer::Rev2)
    } else if is_rev_3_signature(probe_at(base, mem, addr)) {
        hit_at(base, mem, addr, AnchorVer::Rev3)
    } else {
        scan_from(base, mem, addr + 1)
    }
}

/// The outcome of scanning the whole window, lowest address first.
pub open spec fn scan_result(base: int, mem: Seq<u8>) -> Result<Anchor, AnchorError> {
    scan_from(base, mem, SMBIOS_ANCHOR_AREA_START as int)
}

/// Folds an ASCII lowercase letter to its uppercase form, as the scan's
/// case-insensitive signature comparison requires.
fn to_ascii_upper(b: u8) -> (r: u8)
    ensures
        r == ascii_upper(b),
{
    if 0x61 <= b && b <= 0x7A {
        b - 0x20
    } else {
        b
    }
}

/// Compares a probe against the 2.x anchor signature, case-insensitively.
fn matches_rev_2_signature(probe: &Vec<u8>) -> (r: bool)
    requires
        probe@.len() == 4,
    ensures
        r == is_rev_2_signature(probe@),
{
    to_ascii_upper(probe[0]) == 0x5F && to_ascii_upper(probe[1]) == 0x53 && to_ascii_upper(
        probe[2],
    ) == 0x4D && to_ascii_upper(probe[3]) == 0x5F
}

/// Compares a probe against the 3.x anchor signature, case-insensitively.
fn matches_rev_3_signature(probe: &Vec<u8>) -> (r: bool)
    requires
        probe@.len() == 4,
    ensures
        r == is_rev_3_signature(probe@),
{
    to_ascii_upper(probe[0]) == 0x5F && to_ascii_upper(probe[1]) == 0x53 && to_ascii_upper(
        probe[2],
    ) == 0x4D && to_ascii_upper(probe[3]) == 0x33
}

/// Walks the anchor window one byte at a time, probing 4 bytes at each
/// candidate address; the first anchor signature is decoded and returned.
/// The outcome is a function of the window's base and contents alone.
pub fn get_smbios_anchor(mem: &PhysicalMemory) -> (r: Result<Anchor, AnchorError>)
    ensures
        r == scan_result(mem.base_spec(), mem@),
{
    let ghost base = mem.base_spec();
    let mut address: u64 = SMBIOS_ANCHOR_AREA_START;
    while address <= SMBIOS_ANCHOR_SCAN_LAST
        invariant
            SMBIOS_ANCHOR_AREA_START <= address <= SMBIOS_ANCHOR_SCAN_LAST + 1,
            scan_from(base, mem@, address as int) == scan_result(base, mem@),
            base == mem.base_spec(),
        decreases SMBIOS_ANCHOR_SCAN_LAST + 1 - address,
    {
        match mem.read_physical(address, SMBIOS_ANCHOR_UTIL_SIZE) {
            Err(e) => {
                return Err(AnchorError::Read(e));
            },
            Ok(probe) => {
                if matches_rev_2_signature(&probe) {
                    return match Anchor::new(mem, address, AnchorVer::Rev2) {
                        Ok(a) => Ok(a),
                        Err(e) => Err(AnchorError::Read(e)),
                    };
                } else if matches_rev_3_signature(&probe) {
                    return match Anchor::new(mem, address, AnchorVer::Rev3) {
                        Ok(a) => Ok(a),
                        Err(e) => Err(AnchorError::Read(e)),
                    };
                }
            },
        }
        address = address + 1;
    }
    Err(AnchorError::NotFound)
}

/// The scan is deterministic: two windows with the same base and the same
/// contents yield the same outcome — the same anchor address's record, or the
/// same failure.
pub proof fn lemma_scan_deterministic(base1: int, mem1: Seq<u8>, base2: int, mem2: Seq<u8>)
    requires
        base1 == base2,
        mem1 == mem2,
    ensures
        scan_result(base1, mem1) == scan_result(base2, mem2),
{
}

/// A readable probe that matches no signature — a non-ASCII probe among them —
/// never ends the scan: the outcome from its address is the outcome from the
/// next address.
pub proof fn lemma_non_matching_probe_continues(base: int, mem: Seq<u8>, addr: int)
    requires
        SMBIOS_ANCHOR_AREA_START <= addr <= SMBIOS_ANCHOR_SCAN_LAST,
        probe_passed(base, mem, addr),
    ensures
        scan_from(base, mem, addr) == scan_from(base, mem, addr + 1),
{
}

/// If every candidate address in `[lo, hi)` is readable and matches no
/// signature, the scan steps through all of them unchanged.
proof fn lemma_scan_skips_passed_prefix(base: int, mem: Seq<u8>, lo: int, hi: int)
    requires
        SMBIOS_ANCHOR_AREA_START <= lo <= hi <= SMBIOS_ANCHOR_SCAN_LAST + 1,
        forall|a: int| lo <= a < hi ==> probe_passed(base, mem, a),
    ensures
        scan_from(base, mem, lo) == scan_from(base, mem, hi),
    decreases hi - lo,
{
    if lo < hi {
        assert(probe_passed(base, mem, lo));
        lemma_scan_skips_passed_prefix(base, mem, lo + 1, hi);
    }
}

/// If no candidate address in the whole window yields a signature, the scan
/// is exhausted: it fails with `NotFound` and decodes nothing.
pub proof fn lemma_exhausted_window_not_found(base: int, mem: Seq<u8>)
    requires
        forall|a: int|
            SMBIOS_ANCHOR_AREA_START <= a <= SMBIOS_ANCHOR_SCAN_LAST ==> probe_passed(
                base,
                mem,
                a,
            ),
    ensures
        scan_result(base, mem) == Err::<Anchor, AnchorError>(AnchorError::NotFound),
{
    lemma_scan_skips_passed_prefix(
        base,
        mem,
        SMBIOS_ANCHOR_AREA_START as int,
        SMBIOS_ANCHOR_SCAN_LAST + 1,
    );
}

/// First match wins: if every candidate below `addr` is readable and matches
/// no signature, and the probe at `addr` matches one, the scan's outcome is
/// decided at `addr` — the lowest matching address, whichever layout it
/// announces.
pub proof fn lemma_first_match_wins(base: int, mem: Seq<u8>, addr: int)
    requires
        SMBIOS_ANCHOR_AREA_START <= addr <= SMBIOS_ANCHOR_SCAN_LAST,
        forall|a: int| SMBIOS_ANCHOR_AREA_START <= a < addr ==> probe_passed(base, mem, a),
        probe_readable(base, mem, addr),
        is_rev_2_signature(probe_at(base, mem, addr)) || is_rev_3_signature(
            probe_at(base, mem, addr),
        ),
    ensures
        scan_result(base, mem) == (if is_rev_2_signature(probe_at(base, mem, addr)) {
            hit_at(base, mem, addr, AnchorVer::Rev2)
        } else {
            hit_at(base, mem, addr, AnchorVer::Rev3)
        }),
{
    lemma_scan_skips_passed_prefix(base, mem, SMBIOS_ANCHOR_AREA_START as int, addr);
}

} // verus!
