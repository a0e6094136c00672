//! Requests for a segment count, and the plans and errors they lead to.

use loft_profiles::decimal::{parse_u64, to_decimal};
use loft_profiles::driver::{check_pair, plan_for, plan_loft, LoftError};
use loft_profiles::segments::{
    check_segments, is_valid_segments, read_segments, SegmentsError, DEFAULT_SEGMENTS,
};

#[test]
fn numerals_are_read() {
    assert_eq!(parse_u64(b"0"), Some(0));
    assert_eq!(parse_u64(b"4"), Some(4));
    assert_eq!(parse_u64(b"48"), Some(48));
    assert_eq!(parse_u64(b"+48"), Some(48));
    assert_eq!(parse_u64(b"0048"), Some(48));
    assert_eq!(parse_u64(b"18446744073709551615"), Some(u64::MAX));
}

#[test]
fn what_is_no_numeral_is_turned_down() {
    assert_eq!(parse_u64(b""), None);
    assert_eq!(parse_u64(b"+"), None);
    assert_eq!(parse_u64(b"-"), None);
    assert_eq!(parse_u64(b"-1"), None);
    assert_eq!(parse_u64(b"-0"), None);
    assert_eq!(parse_u64(b"++4"), None);
    assert_eq!(parse_u64(b"4+"), None);
    assert_eq!(parse_u64(b" 4"), None);
    assert_eq!(parse_u64(b"4 "), None);
    assert_eq!(parse_u64(b"4_000"), None);
    assert_eq!(parse_u64(b"4.0"), None);
    assert_eq!(parse_u64(b"0x10"), None);
    assert_eq!(parse_u64(b"four"), None);
    assert_eq!(parse_u64("\u{664}".as_bytes()), None);
    assert_eq!(parse_u64(b"18446744073709551616"), None);
    assert_eq!(parse_u64(b"99999999999999999999999"), None);
    assert_eq!(parse_u64(b"18446744073709551616x"), None);
}

#[test]
fn numerals_are_read_as_the_standard_library_reads_them() {
    let texts = [
        "", "+", "-", "0", "+0", "-0", "7", "+7", "-7", "007", "50", "48", " 48", "48 ", "4_8",
        "4.8", "1e3", "0x30", "abc", "18446744073709551615", "18446744073709551616",
        "+18446744073709551615", "184467440737095516150", "٤٨", "４８",
    ];
    for text in texts {
        assert_eq!(parse_u64(text.as_bytes()), text.parse::<u64>().ok(), "{text:?}");
    }
}

#[test]
fn numbers_are_written_in_decimal() {
    assert_eq!(to_decimal(0), "0");
    assert_eq!(to_decimal(7), "7");
    assert_eq!(to_decimal(10), "10");
    assert_eq!(to_decimal(48), "48");
    assert_eq!(to_decimal(1000), "1000");
    assert_eq!(to_decimal(u64::MAX), "18446744073709551615");
    for n in [0u64, 1, 9, 10, 11, 99, 100, 101, 12345, 4294967296, u64::MAX - 1] {
        assert_eq!(to_decimal(n), n.to_string());
        assert_eq!(parse_u64(to_decimal(n).as_bytes()), Some(n));
    }
}

#[test]
fn the_domain_is_the_multiples_of_four_from_four() {
    for n in [4u64, 8, 12, 48, 52, 1000, u64::MAX - 3] {
        assert!(is_valid_segments(n));
        assert_eq!(check_segments(n), Ok(n));
    }
    for n in [0u64, 1, 2, 3, 5, 6, 7, 9, 50, 51, u64::MAX] {
        assert!(!is_valid_segments(n));
        assert_eq!(check_segments(n), Err(SegmentsError::OutOfDomain));
    }
}

#[test]
fn requests_outside_the_domain_are_turned_down() {
    assert_eq!(read_segments(Some("3")), Err(SegmentsError::OutOfDomain));
    assert_eq!(read_segments(Some("5")), Err(SegmentsError::OutOfDomain));
    assert_eq!(read_segments(Some("0")), Err(SegmentsError::OutOfDomain));
    assert_eq!(read_segments(Some("-1")), Err(SegmentsError::NotANumber));
    assert_eq!(read_segments(Some("many")), Err(SegmentsError::NotANumber));
    assert_eq!(read_segments(Some("")), Err(SegmentsError::NotANumber));
    assert_eq!(read_segments(Some("4")), Ok(4));
    assert_eq!(read_segments(Some("48")), Ok(48));
}

#[test]
fn rejected_requests_lay_nothing_out() {
    for text in ["3", "5", "0"] {
        assert_eq!(plan_loft(Some(text)).err(), Some(LoftError::Domain));
    }
    for text in ["-1", "many", "", "4.0"] {
        assert_eq!(plan_loft(Some(text)).err(), Some(LoftError::Argument));
    }
}

#[test]
fn the_default_count_is_fifty_and_outside_the_domain() {
    assert_eq!(DEFAULT_SEGMENTS, 50);
    assert_eq!(read_segments(None), Err(SegmentsError::OutOfDomain));
    assert_eq!(read_segments(None), read_segments(Some("50")));
    assert_eq!(plan_loft(None).err(), Some(LoftError::Domain));
}

#[test]
fn a_plan_holds_both_profiles_of_its_count() {
    let plan = plan_loft(Some("48")).unwrap();
    assert_eq!(plan.segments, 48);
    assert_eq!(plan.square.len(), 48);
    assert_eq!(plan.circle.len(), 48);
    assert_eq!(check_pair(plan.square.len(), plan.circle.len()), Ok(()));
    assert_eq!(plan_for(48), Ok(plan));
    assert_eq!(plan_for(4).map(|p| p.square.len()), Ok(4));
    assert_eq!(plan_for(50), Err(LoftError::Domain));
    assert_eq!(plan_for(0), Err(LoftError::Domain));
}

#[test]
fn rejections_end_a_run_cleanly_and_failures_do_not() {
    assert!(!LoftError::Argument.is_fatal());
    assert!(!LoftError::Domain.is_fatal());
    assert!(LoftError::Loft("no".to_string()).is_fatal());
    assert!(LoftError::Io("disk full".to_string()).is_fatal());
    assert_eq!(LoftError::from_input(SegmentsError::NotANumber), LoftError::Argument);
    assert_eq!(LoftError::from_input(SegmentsError::OutOfDomain), LoftError::Domain);
}

#[test]
fn errors_say_what_went_wrong() {
    assert_eq!(LoftError::Argument.message(), "Expected segments to be a number");
    assert_eq!(LoftError::Domain.message(), "Segements must be >= 4 and a multiple of 4");
    assert_eq!(LoftError::Loft("no plane".to_string()).message(), "no plane");
    assert_eq!(LoftError::Io("disk full".to_string()).message(), "disk full");
}

#[test]
fn profiles_that_do_not_pair_up_cannot_be_joined() {
    assert_eq!(check_pair(4, 4), Ok(()));
    assert_eq!(check_pair(3, 3), Ok(()));
    assert_eq!(
        check_pair(4, 8),
        Err(LoftError::Loft("both profiles must have the same number of vertices".to_string()))
    );
    assert_eq!(
        check_pair(2, 2),
        Err(LoftError::Loft("a profile must have at least three vertices".to_string()))
    );
    assert_eq!(
        check_pair(0, 0),
        Err(LoftError::Loft("a profile must have at least three vertices".to_string()))
    );
    assert!(check_pair(0, 1).unwrap_err().is_fatal());
}
