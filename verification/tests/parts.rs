use fragment_collapse::calls::{
    call_count, calls_from, check_covers, first_calls, gap_padding, gap_symbol, GAP_SYMBOL,
};
use fragment_collapse::error::CollapseError;
use fragment_collapse::pair::{classify, resolve_mates, Overlap};
use fragment_collapse::record::{Record, FRAGMENT, MATE_ONE, MATE_TWO};

fn sample(chr: &str, start: u64, end: u64, mate: u8) -> Record {
    Record::new(
        chr.to_string(),
        start,
        end,
        "frag".to_string(),
        mate,
        1,
        "Z".repeat(end.saturating_sub(start) as usize),
        None,
    )
}

#[test]
fn record_fields_round_trip() {
    let r = Record::new(
        "chr7".to_string(),
        12,
        15,
        "read/9".to_string(),
        2,
        4,
        "zZh".to_string(),
        Some("Hxz".to_string()),
    );
    assert_eq!(r.get_chr(), "chr7");
    assert_eq!(*r.get_start(), 12);
    assert_eq!(*r.get_end(), 15);
    assert_eq!(r.get_name(), "read/9");
    assert_eq!(*r.get_read_number(), 2);
    assert_eq!(*r.get_bs_strand(), 4);
    assert_eq!(r.get_cpg(), "zZh");
    assert_eq!(*r.get_gpc(), Some("Hxz".to_string()));
}

#[test]
fn set_read_number_changes_one_field() {
    let mut r = sample("chr1", 5, 9, 1);
    let before = r.clone();
    r.set_read_number(0);
    assert_eq!(*r.get_read_number(), 0);
    assert_ne!(r, before);
    r.set_read_number(1);
    assert_eq!(r, before);
}

#[test]
fn records_compare_field_by_field() {
    let base = Record::new(
        "chr1".to_string(),
        1,
        4,
        "n".to_string(),
        1,
        0,
        "abc".to_string(),
        Some("def".to_string()),
    );
    assert_eq!(base, base.clone());
    let variants = [
        Record::new("chr2".to_string(), 1, 4, "n".to_string(), 1, 0, "abc".to_string(), Some("def".to_string())),
        Record::new("chr1".to_string(), 2, 4, "n".to_string(), 1, 0, "abc".to_string(), Some("def".to_string())),
        Record::new("chr1".to_string(), 1, 5, "n".to_string(), 1, 0, "abc".to_string(), Some("def".to_string())),
        Record::new("chr1".to_string(), 1, 4, "m".to_string(), 1, 0, "abc".to_string(), Some("def".to_string())),
        Record::new("chr1".to_string(), 1, 4, "n".to_string(), 2, 0, "abc".to_string(), Some("def".to_string())),
        Record::new("chr1".to_string(), 1, 4, "n".to_string(), 1, 1, "abc".to_string(), Some("def".to_string())),
        Record::new("chr1".to_string(), 1, 4, "n".to_string(), 1, 0, "abd".to_string(), Some("def".to_string())),
        Record::new("chr1".to_string(), 1, 4, "n".to_string(), 1, 0, "abc".to_string(), Some("deg".to_string())),
        Record::new("chr1".to_string(), 1, 4, "n".to_string(), 1, 0, "abc".to_string(), None),
    ];
    for other in variants {
        assert_ne!(base, other);
        assert_ne!(other, base);
    }
}

#[test]
fn mate_numbers() {
    assert_eq!(MATE_ONE, 1);
    assert_eq!(MATE_TWO, 2);
    assert_eq!(FRAGMENT, 0);
}

#[test]
fn gap_symbol_is_x() {
    assert_eq!(GAP_SYMBOL, 'x');
    assert_eq!(gap_symbol(), "x");
}

#[test]
fn padding_has_one_symbol_per_position() {
    assert_eq!(gap_padding(0), "");
    assert_eq!(gap_padding(1), "x");
    assert_eq!(gap_padding(10), "xxxxxxxxxx");
    assert_eq!(gap_padding(1000), "x".repeat(1000));
}

#[test]
fn counting_and_cutting_calls() {
    let calls = "zZhHx".to_string();
    assert_eq!(call_count(&calls), 5);
    assert_eq!(call_count(&String::new()), 0);
    assert_eq!(first_calls(&calls, 0), "");
    assert_eq!(first_calls(&calls, 2), "zZ");
    assert_eq!(first_calls(&calls, 5), "zZhHx");
    assert_eq!(calls_from(&calls, 0), "zZhHx");
    assert_eq!(calls_from(&calls, 2), "hHx");
    assert_eq!(calls_from(&calls, 5), "");
    let wide = "äöü".to_string();
    assert_eq!(call_count(&wide), 3);
    assert_eq!(first_calls(&wide, 1), "ä");
    assert_eq!(calls_from(&wide, 1), "öü");
}

#[test]
fn covering_an_interval() {
    let calls = "zZhHx".to_string();
    assert!(check_covers(10, 15, &calls));
    assert!(!check_covers(10, 14, &calls));
    assert!(!check_covers(10, 16, &calls));
    assert!(!check_covers(15, 10, &calls));
    assert!(check_covers(7, 7, &String::new()));
    assert!(!check_covers(8, 7, &String::new()));
    assert!(check_covers(u64::MAX - 5, u64::MAX, &calls));
}

#[test]
fn resolving_mates() {
    let one = sample("chr1", 5, 9, 1);
    let two = sample("chr1", 7, 12, 2);
    let (m1, m2) = resolve_mates(&vec![one.clone(), two.clone()]).unwrap();
    assert_eq!((&m1, &m2), (&one, &two));
    let (m1, m2) = resolve_mates(&vec![two.clone(), one.clone()]).unwrap();
    assert_eq!((&m1, &m2), (&one, &two));
    assert!(matches!(resolve_mates(&vec![one.clone()]), Err(CollapseError::NotAPair)));
    assert!(matches!(
        resolve_mates(&vec![one.clone(), two.clone(), one.clone()]),
        Err(CollapseError::NotAPair)
    ));
    assert!(matches!(
        resolve_mates(&vec![one.clone(), one.clone()]),
        Err(CollapseError::UnrecognizedMates)
    ));
    assert!(matches!(
        resolve_mates(&vec![two.clone(), two.clone()]),
        Err(CollapseError::UnrecognizedMates)
    ));
    let merged = sample("chr1", 5, 12, 0);
    assert!(matches!(
        resolve_mates(&vec![merged, two]),
        Err(CollapseError::UnrecognizedMates)
    ));
}

#[test]
fn classifying_pairs() {
    let m1 = sample("chr1", 100, 110, 1);
    assert_eq!(classify(&m1, &sample("chr2", 100, 110, 2)), Overlap::CrossChromosome);
    assert_eq!(classify(&m1, &sample("chr2", 90, 95, 2)), Overlap::CrossChromosome);
    assert_eq!(classify(&m1, &sample("chr1", 99, 105, 2)), Overlap::Dovetail);
    assert_eq!(classify(&m1, &sample("chr1", 99, 120, 2)), Overlap::Dovetail);
    assert_eq!(classify(&m1, &sample("chr1", 80, 90, 2)), Overlap::Dovetail);
    assert_eq!(classify(&m1, &sample("chr1", 100, 110, 2)), Overlap::Containment);
    assert_eq!(classify(&m1, &sample("chr1", 100, 105, 2)), Overlap::Containment);
    assert_eq!(classify(&m1, &sample("chr1", 105, 110, 2)), Overlap::Containment);
    assert_eq!(classify(&m1, &sample("chr1", 103, 107, 2)), Overlap::Containment);
    assert_eq!(classify(&m1, &sample("chr1", 100, 111, 2)), Overlap::Canonical);
    assert_eq!(classify(&m1, &sample("chr1", 105, 115, 2)), Overlap::Canonical);
    assert_eq!(classify(&m1, &sample("chr1", 110, 115, 2)), Overlap::Canonical);
    assert_eq!(classify(&m1, &sample("chr1", 200, 215, 2)), Overlap::Canonical);
}

#[test]
fn intact_and_damaged_records() {
    let make = |start: u64, end: u64, cpg: &str, gpc: Option<&str>| {
        Record::new(
            "chr1".to_string(),
            start,
            end,
            "frag".to_string(),
            1,
            0,
            cpg.to_string(),
            gpc.map(|g| g.to_string()),
        )
    };
    assert!(make(10, 13, "zZh", None).is_well_formed());
    assert!(make(10, 13, "zZh", Some("HxX")).is_well_formed());
    assert!(make(0, 1, "z", None).is_well_formed());
    assert!(!make(10, 10, "", None).is_well_formed());
    assert!(!make(13, 10, "zZh", None).is_well_formed());
    assert!(!make(10, 13, "zZ", None).is_well_formed());
    assert!(!make(10, 13, "zZhh", None).is_well_formed());
    assert!(!make(10, 13, "zZh", Some("Hx")).is_well_formed());
    assert!(!make(10, 13, "zZh", Some("")).is_well_formed());
    assert!(make(u64::MAX - 3, u64::MAX, "zZh", None).is_well_formed());
}
