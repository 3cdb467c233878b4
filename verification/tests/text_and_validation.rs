use kcm::failure::{
    auto_fix_applies, failure_exit_code, is_repairable_link_error, is_unavailable_link_error,
    retry_after_check, AccessFailure, Failure, FailureCause, RunFailure,
};
use kcm::prefs::LinkArgs;
use kcm::text::{decimal, decimal_usize, lower_equals, parse_usize, same_text, trim};
use kcm::validation::{
    ensure_validation_success, print_validation_report, validation_issue_kind, validation_json,
    validation_status, validations_need_fix, UnavailablePeer, ValidationCommandError,
    ValidationIssue, ValidationIssueKind, ValidationMatch, ValidationReport,
};

fn matched() -> ValidationMatch {
    ValidationMatch {
        linker_container_uid: "L".to_string(),
        linker_key: "lk".to_string(),
        target_container_uid: "T".to_string(),
        target_key: "tk".to_string(),
    }
}

fn issue(kind: ValidationIssueKind) -> ValidationIssue {
    ValidationIssue {
        kind,
        current_container_uid: "C".to_string(),
        current_key: "entry".to_string(),
        corresponding_container_uid: "P".to_string(),
        corresponding_container_path: Some("/peer".to_string()),
        linker_key: None,
        target_key: Some("t".to_string()),
        expected: Some("x".to_string()),
        actual: None,
    }
}

fn peer() -> UnavailablePeer {
    UnavailablePeer {
        container_uid: "U".to_string(),
        container_path: "/gone".to_string(),
        reason: "locked".to_string(),
    }
}

fn report(valid: usize, broken: usize, unavailable: usize) -> ValidationReport {
    ValidationReport {
        valid: (0..valid).map(|_| matched()).collect(),
        broken: (0..broken)
            .map(|_| issue(ValidationIssueKind::TargetEntryMissing))
            .collect(),
        unavailable: (0..unavailable).map(|_| peer()).collect(),
        ignored_current_records: 1,
        ignored_corresponding_records: 2,
        ignored_containers: 3,
        is_valid: broken == 0 && unavailable == 0,
    }
}

#[test]
fn prefer_relative_maps_flags_to_three_states() {
    let relative = LinkArgs { absolute: false, relative: true };
    let absolute = LinkArgs { absolute: true, relative: false };
    let neither = LinkArgs { absolute: false, relative: false };
    assert_eq!(relative.prefer_relative(), Some(true));
    assert_eq!(absolute.prefer_relative(), Some(false));
    assert_eq!(neither.prefer_relative(), None);
}

#[test]
fn decimal_renders_like_to_string() {
    for n in [0u64, 7, 10, 99, 100, 1234567890, u64::MAX] {
        assert_eq!(decimal(n), n.to_string());
    }
    assert_eq!(decimal_usize(42), "42");
}

#[test]
fn parse_usize_follows_from_str() {
    assert_eq!(parse_usize("42"), Some(42));
    assert_eq!(parse_usize("+7"), Some(7));
    assert_eq!(parse_usize("007"), Some(7));
    assert_eq!(parse_usize(""), None);
    assert_eq!(parse_usize("+"), None);
    assert_eq!(parse_usize("-1"), None);
    assert_eq!(parse_usize("12a"), None);
    assert_eq!(parse_usize(" 1"), None);
    let too_big = format!("{}0", usize::MAX);
    assert_eq!(parse_usize(&too_big), None);
    assert_eq!(parse_usize(&usize::MAX.to_string()), Some(usize::MAX));
    for s in ["42", "+7", "", "-0", "x", "99999999999999999999999"] {
        assert_eq!(parse_usize(s), s.parse::<usize>().ok(), "input {s:?}");
    }
}

#[test]
fn decimal_parses_back() {
    for n in [0usize, 1, 9, 10, 65535, usize::MAX] {
        assert_eq!(parse_usize(&decimal_usize(n)), Some(n));
    }
}

#[test]
fn trim_removes_unicode_whitespace() {
    assert_eq!(trim("  y \n"), "y");
    assert_eq!(trim(" \t\r\n "), "");
    assert_eq!(trim("\u{3000}x y\u{2028}"), "x y");
    for s in ["", "a", " a ", "\u{85}a\u{a0}", "\u{200b}a"] {
        assert_eq!(trim(s), s.trim());
    }
}

#[test]
fn text_equality_helpers() {
    assert!(same_text("link", "link"));
    assert!(!same_text("link", "links"));
    assert!(lower_equals("YeS", "yes"));
    assert!(!lower_equals("yes!", "yes"));
}

#[test]
fn validation_status_prioritizes_broken_then_unavailable() {
    assert_eq!(validation_status(&report(1, 1, 1)), "broken");
    assert_eq!(validation_status(&report(1, 0, 1)), "unavailable");
    assert_eq!(validation_status(&report(1, 0, 0)), "verified");
    assert_eq!(validation_status(&report(0, 0, 0)), "ignored");
}

#[test]
fn ensure_validation_success_sums_and_prioritizes() {
    let reports = vec![Some(report(0, 2, 1)), None, Some(report(1, 1, 4))];
    assert_eq!(
        ensure_validation_success(&reports),
        Err(ValidationCommandError::Broken(3))
    );
    let reports = vec![Some(report(0, 0, 1)), Some(report(0, 0, 2))];
    assert_eq!(
        ensure_validation_success(&reports),
        Err(ValidationCommandError::Unavailable(3))
    );
    assert_eq!(ensure_validation_success(&vec![Some(report(5, 0, 0)), None]), Ok(()));
    assert_eq!(ensure_validation_success(&vec![]), Ok(()));
}

#[test]
fn validation_errors_have_exit_codes_and_messages() {
    assert_eq!(ValidationCommandError::Broken(2).exit_code(), 1);
    assert_eq!(ValidationCommandError::Unavailable(1).exit_code(), 3);
    assert_eq!(
        ValidationCommandError::Broken(2).message(),
        "link validation found 2 broken relationship(s)"
    );
    assert_eq!(
        ValidationCommandError::Unavailable(1).message(),
        "link validation could not access 1 container(s)"
    );
}

#[test]
fn status_law_on_concrete_reports() {
    for (v, b, u) in [(0, 0, 0), (1, 0, 0), (0, 1, 0), (0, 0, 1), (2, 1, 1)] {
        let r = report(v, b, u);
        let status = validation_status(&r);
        let outcome = ensure_validation_success(&vec![Some(report(v, b, u))]);
        match status {
            "broken" => assert!(matches!(outcome, Err(ValidationCommandError::Broken(_)))),
            "unavailable" => {
                assert!(matches!(outcome, Err(ValidationCommandError::Unavailable(_))))
            }
            _ => assert_eq!(outcome, Ok(())),
        }
    }
}

#[test]
fn issue_kind_labels_are_snake_case() {
    assert_eq!(
        validation_issue_kind(ValidationIssueKind::MissingOutgoingRecord),
        "missing_outgoing_record"
    );
    assert_eq!(
        validation_issue_kind(ValidationIssueKind::ContainerPathUidMismatch),
        "container_path_uid_mismatch"
    );
    assert_eq!(
        validation_issue_kind(ValidationIssueKind::MaterializedSymlinkMismatch),
        "materialized_symlink_mismatch"
    );
}

#[test]
fn validation_report_lines() {
    let lines = print_validation_report(&report(1, 1, 1));
    assert_eq!(
        lines,
        vec![
            "validation:",
            "  valid: 1",
            "  broken: 1",
            "  unavailable: 1",
            "  ignored_current_records: 1",
            "  ignored_corresponding_records: 2",
            "  ignored_containers: 3",
            "  broken[target_entry_missing]: C key=entry corresponding=P expected=x actual=-",
            "  unavailable: locked (U) at /gone",
        ]
    );
}

#[test]
fn validation_document_keeps_every_field() {
    let doc = validation_json(&report(2, 1, 1));
    assert_eq!(doc.status, "broken");
    assert_eq!(doc.valid.len(), 2);
    assert_eq!(doc.broken.len(), 1);
    assert_eq!(doc.broken[0].kind, "target_entry_missing");
    assert_eq!(doc.broken[0].target_key.as_deref(), Some("t"));
    assert_eq!(doc.broken[0].corresponding_container_path.as_deref(), Some("/peer"));
    assert_eq!(doc.unavailable[0].reason, "locked");
    assert_eq!(
        (
            doc.ignored_current_records,
            doc.ignored_corresponding_records,
            doc.ignored_containers
        ),
        (1, 2, 3)
    );
}

#[test]
fn need_fix_looks_at_present_reports_only() {
    assert!(!validations_need_fix(&vec![None, Some(report(1, 0, 0))]));
    assert!(validations_need_fix(&vec![None, Some(report(0, 1, 0))]));
    assert!(!validations_need_fix(&vec![]));
}

fn failure(top: FailureCause, chain: Vec<FailureCause>) -> Failure {
    Failure { top, chain }
}

#[test]
fn exit_codes_follow_the_cli_contract() {
    let other = failure(FailureCause::Other, vec![FailureCause::Other]);
    assert_eq!(failure_exit_code(&other), 1);
    let broken = failure(FailureCause::Other, vec![FailureCause::Other, FailureCause::BrokenLink]);
    assert_eq!(failure_exit_code(&broken), 1);
    let invalid = failure(
        FailureCause::Other,
        vec![
            FailureCause::Other,
            FailureCause::ValidationRun(RunFailure::DuplicateContainerUid),
        ],
    );
    assert_eq!(failure_exit_code(&invalid), 2);
    let own = failure(
        FailureCause::Other,
        vec![FailureCause::ValidationRun(RunFailure::SelfValidation)],
    );
    assert_eq!(failure_exit_code(&own), 2);
    let run_other = failure(
        FailureCause::Other,
        vec![FailureCause::ValidationRun(RunFailure::Other)],
    );
    assert_eq!(failure_exit_code(&run_other), 1);
    let locked = failure(FailureCause::Other, vec![FailureCause::WriterLocked]);
    assert_eq!(failure_exit_code(&locked), 3);
    let unlink = failure(
        FailureCause::UnlinkAccess(AccessFailure::Unavailable),
        vec![FailureCause::UnlinkAccess(AccessFailure::Unavailable)],
    );
    assert_eq!(failure_exit_code(&unlink), 3);
    let both = failure(
        FailureCause::Other,
        vec![
            FailureCause::LinkUnavailable,
            FailureCause::ValidationRun(RunFailure::SelfValidation),
        ],
    );
    assert_eq!(failure_exit_code(&both), 3);
    let validation = failure(
        FailureCause::ValidationCommand(ValidationCommandError::Unavailable(2)),
        vec![FailureCause::ValidationCommand(
            ValidationCommandError::Unavailable(2),
        )],
    );
    assert_eq!(failure_exit_code(&validation), 3);
    let validation = failure(
        FailureCause::ValidationCommand(ValidationCommandError::Broken(2)),
        vec![FailureCause::LinkUnavailable],
    );
    assert_eq!(failure_exit_code(&validation), 1);
}

#[test]
fn repairable_and_unavailable_classification() {
    let broken_link = failure(FailureCause::Other, vec![FailureCause::Other, FailureCause::BrokenLink]);
    assert!(is_repairable_link_error(&broken_link));
    assert!(!is_unavailable_link_error(&broken_link));
    let link_broken = failure(
        FailureCause::LinkAccess(AccessFailure::Broken),
        vec![FailureCause::LinkAccess(AccessFailure::Broken)],
    );
    assert!(is_repairable_link_error(&link_broken));
    assert!(!is_unavailable_link_error(&link_broken));
    let locked = failure(FailureCause::Other, vec![FailureCause::WriterLocked]);
    assert!(!is_repairable_link_error(&locked));
    assert!(is_unavailable_link_error(&locked));
    let nested_access = failure(
        FailureCause::Other,
        vec![FailureCause::Other, FailureCause::UnlinkAccess(AccessFailure::Broken)],
    );
    assert!(!is_repairable_link_error(&nested_access));
    assert!(auto_fix_applies(true, &broken_link));
    assert!(!auto_fix_applies(false, &broken_link));
    assert!(!auto_fix_applies(true, &locked));
}

#[test]
fn retry_only_without_skipped_issues() {
    assert_eq!(retry_after_check(0), Ok(()));
    assert_eq!(
        retry_after_check(2),
        Err("link consistency still has 2 skipped issue(s); operation was not retried".to_string())
    );
}
