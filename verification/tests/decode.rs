use tzif::body::TTInfo;
use tzif::error::{Section, TzError};
use tzif::header::TzFileHeader;
use tzif::TzFile;

fn tz_bytes(
    version: u8,
    isutcnt: i32,
    isstdcnt: i32,
    leapcnt: i32,
    timecnt: i32,
    typecnt: i32,
    charcnt: i32,
    body: &[u8],
) -> Vec<u8> {
    let mut v = Vec::new();
    v.extend_from_slice(b"TZif");
    v.push(version);
    v.extend_from_slice(&[0u8; 15]);
    for c in [isutcnt, isstdcnt, leapcnt, timecnt, typecnt, charcnt] {
        v.extend_from_slice(&c.to_be_bytes());
    }
    v.extend_from_slice(body);
    v
}

#[test]
fn version_byte_is_preserved_verbatim() {
    for (byte, expected) in [
        (0u8, '\0'),
        (b'2', '2'),
        (b'3', '3'),
        (b'4', '4'),
        (b'X', 'X'),
    ] {
        let bytes = tz_bytes(byte, 0, 0, 0, 0, 0, 0, &[]);
        let f = TzFile::from_bytes(&bytes).unwrap();
        assert_eq!(f.header.version, expected);
    }
}

#[test]
fn short_buffer_fails_with_format_error() {
    for len in [0usize, 1, 4, 43] {
        let bytes = vec![0u8; len];
        assert_eq!(TzFile::from_bytes(&bytes), Err(TzError::FormatError));
        assert!(TzFileHeader::from_bytes(&bytes).is_err());
    }
}

#[test]
fn wrong_magic_fails_with_magic_mismatch() {
    let mut bytes = tz_bytes(b'2', 0, 0, 0, 0, 0, 0, &[]);
    bytes[0] = b't';
    assert_eq!(TzFile::from_bytes(&bytes), Err(TzError::MagicMismatch));
}

#[test]
fn any_negative_count_fails_with_negative_count() {
    // Each of the six count fields in turn.
    for field in 0..6 {
        let counts: Vec<i32> = (0..6).map(|k| if k == field { -1 } else { 0 }).collect();
        let bytes = tz_bytes(
            b'2', counts[0], counts[1], counts[2], counts[3], counts[4], counts[5], &[],
        );
        assert_eq!(TzFile::from_bytes(&bytes), Err(TzError::NegativeCount));
    }
}

#[test]
fn truncated_transition_times_cites_section_and_shortfall() {
    // timecnt = 2 declares an 8-byte transition-time section; no body bytes follow.
    let bytes = tz_bytes(b'2', 0, 0, 0, 2, 0, 0, &[]);
    assert_eq!(
        TzFile::from_bytes(&bytes),
        Err(TzError::TruncatedBody(Section::TransitionTimes, 8))
    );
}

#[test]
fn truncation_reports_the_first_short_section() {
    // Transition times fit (8 bytes), the 2-byte index section is missing one byte.
    let mut body = Vec::new();
    body.extend_from_slice(&100i32.to_be_bytes());
    body.extend_from_slice(&200i32.to_be_bytes());
    body.push(0);
    let bytes = tz_bytes(b'2', 0, 0, 0, 2, 0, 0, &body);
    assert_eq!(
        TzFile::from_bytes(&bytes),
        Err(TzError::TruncatedBody(Section::TransitionTypeIndices, 1))
    );
}

#[test]
fn all_sections_decode_at_their_offsets() {
    let mut body = Vec::new();
    // Two transition times.
    body.extend_from_slice(&100i32.to_be_bytes());
    body.extend_from_slice(&(-1i32).to_be_bytes());
    // Two type indices.
    body.extend_from_slice(&[0, 0]);
    // One local-time-type record: utoff = -4, DST, desigidx 0.
    body.extend_from_slice(&(-4i32).to_be_bytes());
    body.extend_from_slice(&[1, 0]);
    // Designations: "UTC\0".
    body.extend_from_slice(b"UTC\0");
    // One leap pair (50, 1).
    body.extend_from_slice(&50i32.to_be_bytes());
    body.extend_from_slice(&1i32.to_be_bytes());
    // One standard/wall indicator, byte 1 -> true.
    body.push(1);
    // Two UT/local indicators: byte 0 -> false, byte 2 -> false (permissive).
    body.extend_from_slice(&[0, 2]);
    let bytes = tz_bytes(0, 2, 1, 1, 2, 1, 4, &body);
    let f = TzFile::from_bytes(&bytes).unwrap();
    assert_eq!(f.header.tzh_timecnt, 2);
    assert_eq!(f.body.tt_trans, vec![100, -1]);
    assert_eq!(f.body.ttinfo_indices, vec![0, 0]);
    assert_eq!(
        f.body.ttinfo_entries,
        vec![TTInfo { tt_utoff: -4, tt_isdst: true, tt_desigidx: 0 }]
    );
    assert_eq!(f.body.tz_designations, b"UTC\0".to_vec());
    assert_eq!(f.body.leap_pairs, vec![(50, 1)]);
    assert_eq!(f.body.std_indicators, vec![true]);
    assert_eq!(f.body.ut_indicators, vec![false, false]);
    assert_eq!(f.body.designations_string(), "UTC\0");
}

#[test]
fn decoding_twice_yields_identical_results() {
    let mut body = Vec::new();
    body.extend_from_slice(&100i32.to_be_bytes());
    body.push(0);
    body.extend_from_slice(&3600i32.to_be_bytes());
    body.extend_from_slice(&[0, 0]);
    body.extend_from_slice(b"CET\0");
    let bytes = tz_bytes(b'3', 0, 0, 0, 1, 1, 4, &body);
    let first = TzFile::from_bytes(&bytes);
    let second = TzFile::from_bytes(&bytes);
    assert_eq!(first, second);
    assert_eq!(first.unwrap(), second.unwrap());
}

#[test]
fn ttinfo_from_bytes_decodes_six_bytes_exactly() {
    let r = TTInfo::from_bytes(&[0xFF, 0xFF, 0xFF, 0xFC, 1, 7]).unwrap();
    assert_eq!(r, TTInfo { tt_utoff: -4, tt_isdst: true, tt_desigidx: 7 });
    let r = TTInfo::from_bytes(&[0x00, 0x00, 0x0E, 0x10, 0, 3]).unwrap();
    assert_eq!(r, TTInfo { tt_utoff: 3600, tt_isdst: false, tt_desigidx: 3 });
    // The DST byte is permissive: only the value 1 means true.
    let r = TTInfo::from_bytes(&[0, 0, 0, 0, 2, 0]).unwrap();
    assert!(!r.tt_isdst);
    assert_eq!(TTInfo::from_bytes(&[0; 5]), Err(TzError::FormatError));
    assert_eq!(TTInfo::from_bytes(&[0; 7]), Err(TzError::FormatError));
}

#[test]
fn extreme_offsets_decode_big_endian() {
    let r = TTInfo::from_bytes(&[0x80, 0x00, 0x00, 0x00, 0, 0]).unwrap();
    assert_eq!(r.tt_utoff, i32::MIN);
    let r = TTInfo::from_bytes(&[0x7F, 0xFF, 0xFF, 0xFF, 0, 0]).unwrap();
    assert_eq!(r.tt_utoff, i32::MAX);
}

#[test]
fn empty_counts_give_empty_sections() {
    let bytes = tz_bytes(b'2', 0, 0, 0, 0, 0, 0, &[]);
    let f = TzFile::from_bytes(&bytes).unwrap();
    assert!(f.body.tt_trans.is_empty());
    assert!(f.body.ttinfo_indices.is_empty());
    assert!(f.body.ttinfo_entries.is_empty());
    assert!(f.body.tz_designations.is_empty());
    assert!(f.body.leap_pairs.is_empty());
    assert!(f.body.std_indicators.is_empty());
    assert!(f.body.ut_indicators.is_empty());
}

#[test]
fn trailing_bytes_after_sections_are_ignored() {
    let mut body = Vec::new();
    body.extend_from_slice(b"AB\0");
    body.extend_from_slice(&[9, 9, 9, 9]);
    let bytes = tz_bytes(b'2', 0, 0, 0, 0, 0, 3, &body);
    let f = TzFile::from_bytes(&bytes).unwrap();
    assert_eq!(f.body.tz_designations, b"AB\0".to_vec());
}
