use smbios::memory::{PhysicalMemory, ReadError};
use smbios::scan::{
    get_smbios_anchor, AnchorError, SMBIOS_ANCHOR_AREA_START, SMBIOS_ANCHOR_SCAN_LAST,
};

fn window_with(entries: &[(u64, &[u8])]) -> PhysicalMemory {
    let mut data = vec![0u8; 0x10000];
    for (address, bytes) in entries {
        let offset = (address - SMBIOS_ANCHOR_AREA_START) as usize;
        data[offset..offset + bytes.len()].copy_from_slice(bytes);
    }
    PhysicalMemory::new(SMBIOS_ANCHOR_AREA_START, data)
}

fn rev_2_region(major: u8, minor: u8) -> Vec<u8> {
    let mut b = vec![0u8; 32];
    b[0..4].copy_from_slice(b"_SM_");
    b[6] = major;
    b[7] = minor;
    b
}

fn rev_3_region(major: u8, minor: u8, doc_rev: u8) -> Vec<u8> {
    let mut b = vec![0u8; 24];
    b[0..4].copy_from_slice(b"_SM3");
    b[7] = major;
    b[8] = minor;
    b[9] = doc_rev;
    b
}

#[test]
fn get_anchor_test() {
    let mem = window_with(&[(0x000F_0400, &rev_2_region(2, 8)[..])]);
    let anchor = get_smbios_anchor(&mem);
    assert!(anchor.is_ok());
    let good_anchor = anchor.unwrap();
    assert_eq!(good_anchor.doc_rev, 0x00);
}

#[test]
fn scan_finds_rev_3_anchor() {
    let mem = window_with(&[(0x000F_0800, &rev_3_region(3, 0, 1)[..])]);
    let a = get_smbios_anchor(&mem).unwrap();
    assert_eq!(a.major_version, 3);
    assert_eq!(a.minor_version, 0);
    assert_eq!(a.doc_rev, 1);
}

#[test]
fn scan_accepts_lowercase_signature() {
    let mut region = rev_2_region(2, 4);
    region[0..4].copy_from_slice(b"_sm_");
    let mem = window_with(&[(0x000F_1000, &region[..])]);
    let a = get_smbios_anchor(&mem).unwrap();
    assert_eq!(a.major_version, 2);
    assert_eq!(a.minor_version, 4);
}

#[test]
fn scan_survives_non_ascii_probe() {
    // A probe of 0xFF bytes at the window's start is a negative match, not an
    // abort: the scan walks on and finds the anchor placed after it.
    let mem = window_with(&[
        (SMBIOS_ANCHOR_AREA_START, &[0xFFu8, 0xFF, 0xFF, 0xFF][..]),
        (0x000F_0200, &rev_2_region(2, 6)[..]),
    ]);
    let a = get_smbios_anchor(&mem).unwrap();
    assert_eq!(a.major_version, 2);
    assert_eq!(a.minor_version, 6);
}

#[test]
fn scan_exhausted_window_is_not_found() {
    let mem = window_with(&[]);
    assert_eq!(get_smbios_anchor(&mem), Err(AnchorError::NotFound));
}

#[test]
fn scan_first_match_wins_rev_3_first() {
    let mem = window_with(&[
        (0x000F_0100, &rev_3_region(3, 2, 1)[..]),
        (0x000F_0200, &rev_2_region(2, 8)[..]),
    ]);
    let a = get_smbios_anchor(&mem).unwrap();
    assert_eq!(a.major_version, 3);
    assert_eq!(a.doc_rev, 1);
}

#[test]
fn scan_first_match_wins_rev_2_first() {
    let mem = window_with(&[
        (0x000F_0100, &rev_2_region(2, 8)[..]),
        (0x000F_0200, &rev_3_region(3, 2, 1)[..]),
    ]);
    let a = get_smbios_anchor(&mem).unwrap();
    assert_eq!(a.major_version, 2);
    assert_eq!(a.doc_rev, 0);
}

#[test]
fn scan_same_window_twice_agrees() {
    let mem = window_with(&[(0x000F_0300, &rev_3_region(3, 1, 0)[..])]);
    let first = get_smbios_anchor(&mem);
    let second = get_smbios_anchor(&mem);
    assert_eq!(first, second);
    assert!(first.is_ok());
}

#[test]
fn scan_aborts_when_a_probe_fails() {
    // The window stops after 8 bytes, so the probe at its ninth candidate
    // address comes back short and the scan surfaces that failure.
    let mem = PhysicalMemory::new(SMBIOS_ANCHOR_AREA_START, vec![0u8; 8]);
    assert_eq!(
        get_smbios_anchor(&mem),
        Err(AnchorError::Read(ReadError::ShortRead))
    );
}

#[test]
fn scan_signature_at_window_edge_aborts_with_short_read() {
    // The signature probe at the last candidate address fits in the window,
    // but the full 32-byte entry point region does not.
    let mem = window_with(&[(SMBIOS_ANCHOR_SCAN_LAST, &b"_SM_"[..])]);
    assert_eq!(
        get_smbios_anchor(&mem),
        Err(AnchorError::Read(ReadError::ShortRead))
    );
}
