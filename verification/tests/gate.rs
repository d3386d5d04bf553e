use dapp::gate::{is_fresh, verdict};
use dapp::{OracleFailure, OracleReply, VerificationRecord, FRESHNESS_WINDOW_MS};

fn reply(timestamp: u64, human: bool) -> OracleReply {
    OracleReply {
        last_correct_verification: Ok(VerificationRecord { timestamp }),
        is_human_user: Ok(human),
    }
}

#[test]
fn freshness_window_is_one_day_in_milliseconds() {
    assert_eq!(FRESHNESS_WINDOW_MS, 24 * 60 * 60 * 1000);
    assert_eq!(FRESHNESS_WINDOW_MS, 86_400_000);
}

#[test]
fn fresh_until_the_window_has_passed() {
    let verified = VerificationRecord { timestamp: 1_000 };
    assert!(is_fresh(1_000, &verified));
    assert!(is_fresh(2_000, &verified));
    assert!(is_fresh(1_000 + 86_399_999, &verified));
    assert!(!is_fresh(1_000 + 86_400_000, &verified));
    assert!(!is_fresh(1_000 + 86_400_001, &verified));
    assert!(!is_fresh(u64::MAX, &verified));
}

#[test]
fn timestamp_zero_goes_by_the_same_rule() {
    let verified = VerificationRecord { timestamp: 0 };
    assert!(is_fresh(0, &verified));
    assert!(is_fresh(86_399_999, &verified));
    assert!(!is_fresh(86_400_000, &verified));
}

#[test]
fn verification_later_than_now_counts_as_fresh() {
    let verified = VerificationRecord { timestamp: 5_000 };
    assert!(is_fresh(4_999, &verified));
    assert!(is_fresh(0, &VerificationRecord { timestamp: u64::MAX }));
}

#[test]
fn verdict_needs_both_human_and_fresh() {
    assert_eq!(verdict(5_000, &reply(4_000, true)), Ok(true));
    assert_eq!(verdict(5_000, &reply(4_000, false)), Ok(false));
    assert_eq!(verdict(100_000_000, &reply(10_000_000, true)), Ok(false));
    assert_eq!(verdict(100_000_000, &reply(10_000_000, false)), Ok(false));
}

#[test]
fn verdict_fails_where_an_answer_is_missing() {
    let no_record = OracleReply {
        last_correct_verification: Err(OracleFailure::Unreachable),
        is_human_user: Ok(true),
    };
    assert_eq!(verdict(5_000, &no_record), Err(OracleFailure::Unreachable));
    let no_answer = OracleReply {
        last_correct_verification: Ok(VerificationRecord { timestamp: 4_000 }),
        is_human_user: Err(OracleFailure::Reverted),
    };
    assert_eq!(verdict(5_000, &no_answer), Err(OracleFailure::Reverted));
    let no_answer_on_a_stale_record = OracleReply {
        last_correct_verification: Ok(VerificationRecord { timestamp: 0 }),
        is_human_user: Err(OracleFailure::Malformed),
    };
    assert_eq!(
        verdict(100_000_000, &no_answer_on_a_stale_record),
        Err(OracleFailure::Malformed)
    );
}

#[test]
fn verdict_reports_the_first_of_two_failures() {
    let nothing = OracleReply {
        last_correct_verification: Err(OracleFailure::Malformed),
        is_human_user: Err(OracleFailure::Reverted),
    };
    assert_eq!(verdict(5_000, &nothing), Err(OracleFailure::Malformed));
}
