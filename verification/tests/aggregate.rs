use tzif::aggregate::Timezone;
use tzif::body::{TTInfo, TzFileBody};
use tzif::error::TzError;

fn body_with(
    tt_trans: Vec<i32>,
    ttinfo_indices: Vec<u8>,
    ttinfo_entries: Vec<TTInfo>,
    tz_designations: Vec<u8>,
) -> TzFileBody {
    TzFileBody {
        tt_trans,
        ttinfo_indices,
        ttinfo_entries,
        tz_designations,
        leap_pairs: vec![],
        std_indicators: vec![],
        ut_indicators: vec![],
    }
}

#[test]
fn utc_round_trip_scenario() {
    // Header counts timecnt=2, typecnt=1, charcnt=4; designation blob "UTC\0";
    // one record {utoff=0, isdst=false, desigidx=0}; transitions [100, 200]
    // with indices [0, 0].  The second index is the excluded sentinel.
    let body = body_with(
        vec![100, 200],
        vec![0, 0],
        vec![TTInfo { tt_utoff: 0, tt_isdst: false, tt_desigidx: 0 }],
        b"UTC\0".to_vec(),
    );
    let recs = body.aggregate().unwrap();
    assert_eq!(recs.len(), 1);
    assert_eq!(recs[0].name, b"UTC".to_vec());
    assert_eq!(recs[0].name_string(), "UTC");
    assert_eq!(recs[0].ut_offset, 0);
    assert!(!recs[0].is_daylight_savings);
    assert_eq!(recs[0].transitions, vec![100]);
}

#[test]
fn transitions_group_under_first_seen_record() {
    // Two type records resolving to the same name: the first-seen offset and
    // DST flag win, later transitions only append.
    let body = body_with(
        vec![100, 200, 300],
        vec![0, 1, 0],
        vec![
            TTInfo { tt_utoff: 3600, tt_isdst: false, tt_desigidx: 0 },
            TTInfo { tt_utoff: 7200, tt_isdst: true, tt_desigidx: 0 },
        ],
        b"CET\0".to_vec(),
    );
    let recs = body.aggregate().unwrap();
    assert_eq!(recs.len(), 1);
    assert_eq!(recs[0].name, b"CET".to_vec());
    assert_eq!(recs[0].ut_offset, 3600);
    assert!(!recs[0].is_daylight_savings);
    assert_eq!(recs[0].transitions, vec![100, 200]);
}

#[test]
fn distinct_names_get_distinct_records() {
    let body = body_with(
        vec![100, 200, 300],
        vec![0, 1, 0],
        vec![
            TTInfo { tt_utoff: 0, tt_isdst: false, tt_desigidx: 0 },
            TTInfo { tt_utoff: 3600, tt_isdst: true, tt_desigidx: 3 },
        ],
        b"AB\0CD\0".to_vec(),
    );
    let recs = body.aggregate().unwrap();
    assert_eq!(recs.len(), 2);
    let ab = recs.iter().find(|r| r.name == b"AB".to_vec()).unwrap();
    let cd = recs.iter().find(|r| r.name == b"CD".to_vec()).unwrap();
    assert_eq!(ab.transitions, vec![100]);
    assert_eq!(ab.ut_offset, 0);
    assert_eq!(cd.transitions, vec![200]);
    assert_eq!(cd.ut_offset, 3600);
    assert!(cd.is_daylight_savings);
}

#[test]
fn no_transitions_or_only_sentinel_yield_no_records() {
    let body = body_with(vec![], vec![], vec![], vec![]);
    assert_eq!(body.aggregate().unwrap(), Vec::<Timezone>::new());
    let body = body_with(
        vec![100],
        vec![0],
        vec![TTInfo { tt_utoff: 0, tt_isdst: false, tt_desigidx: 0 }],
        b"X\0".to_vec(),
    );
    assert_eq!(body.aggregate().unwrap(), Vec::<Timezone>::new());
}

#[test]
fn type_index_past_records_fails_out_of_range() {
    let body = body_with(
        vec![100, 200],
        vec![1, 0],
        vec![TTInfo { tt_utoff: 0, tt_isdst: false, tt_desigidx: 0 }],
        b"UTC\0".to_vec(),
    );
    assert_eq!(body.aggregate(), Err(TzError::IndexOutOfRange));
}

#[test]
fn designation_index_one_past_blob_fails_out_of_range() {
    // desigidx equals the blob length: one past the blob.
    let body = body_with(
        vec![100, 200],
        vec![0, 0],
        vec![TTInfo { tt_utoff: 0, tt_isdst: false, tt_desigidx: 4 }],
        b"UTC\0".to_vec(),
    );
    assert_eq!(body.aggregate(), Err(TzError::IndexOutOfRange));
}

#[test]
fn in_bounds_index_without_nul_fails_unterminated() {
    let body = body_with(
        vec![100, 200],
        vec![0, 0],
        vec![TTInfo { tt_utoff: 0, tt_isdst: false, tt_desigidx: 0 }],
        b"UTC".to_vec(),
    );
    assert_eq!(body.aggregate(), Err(TzError::UnterminatedDesignation));
}

#[test]
fn name_starts_mid_blob_at_its_index() {
    let body = body_with(
        vec![100, 200],
        vec![0, 0],
        vec![TTInfo { tt_utoff: 60, tt_isdst: false, tt_desigidx: 4 }],
        b"UTC\0EST\0".to_vec(),
    );
    let recs = body.aggregate().unwrap();
    assert_eq!(recs.len(), 1);
    assert_eq!(recs[0].name, b"EST".to_vec());
}

#[test]
fn invalid_utf8_names_are_replaced_not_rejected() {
    // 0xFF can begin no UTF-8 sequence; lossy decoding must substitute the
    // replacement character and keep the valid tail.
    let body = body_with(
        vec![100, 200],
        vec![0, 0],
        vec![TTInfo { tt_utoff: 0, tt_isdst: false, tt_desigidx: 0 }],
        vec![0xFF, b'A', 0],
    );
    let recs = body.aggregate().unwrap();
    assert_eq!(recs[0].name, vec![0xFF, b'A']);
    assert_eq!(recs[0].name_string(), "\u{FFFD}A");
    assert_eq!(body.designations_string(), "\u{FFFD}A\0");
}
