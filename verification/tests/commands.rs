use kcm::containers::{
    confirm_forced, forced_storage_applies, info_has_prefer_relative, info_json, initialize,
    link_capable_for, print_info, print_link_list, print_local_list, require_kind, warn_forced,
    ContainerKind, ContainerMetadata, ForcedWarning, LinkCapable, StorageClass,
};
use kcm::destination::{
    destination_info, destination_info_json, member_filter_parts, member_order, print_members, text_less, Member,
    MemberFilter, MemberWalk,
};
use kcm::dispatch::{destination_listing, run, ContainerOperation, DestinationOperation};
use kcm::fixtures::{broken_error_kind, print_broken_fixture, BrokenFixture, BrokenFixtureErrorKind, FixtureCase};
use kcm::interaction::{
    check, check_action, choose_action, confirm_local_only, describe_issue, selection_prompt,
    Applied, CheckRepairAction, CheckSession, CheckStep, Confirmation, LinkCheckIssue,
    LinkCheckKind, Selection,
};
use kcm::link_info::{link_info, link_info_needs_repair, LinkInfoJson, LinkInfoOutput};
use kcm::listing::{
    entry_json, entry_kind, entry_text, listing_needs_repair, render_entry_list, validate_entries,
    EntryInfo, EntryValidation, LinkInfo, Linker, ListOptions, ListOutput, ValidationMode,
};
use kcm::validation::{ValidationCommandError, ValidationIssueKind, ValidationReport};

fn options(verbose: u8, link_info: bool, json: bool) -> ListOptions {
    ListOptions { json, auto_fix: false, verbose, link_info, validate_with: vec![] }
}

fn linkers() -> Vec<Linker> {
    vec![
        Linker { linker_uid: "A".to_string(), linker_key: "a".to_string() },
        Linker { linker_uid: "B".to_string(), linker_key: "b".to_string() },
    ]
}

fn entry(key: &str, link: LinkInfo) -> EntryInfo {
    EntryInfo { key: key.to_string(), size: Some(12), filepath: format!("/c/{key}"), link }
}

fn link_to() -> LinkInfo {
    LinkInfo::LinkTo {
        target_key: "t".to_string(),
        container_uid: "U".to_string(),
        container_path: "/target".to_string(),
    }
}

fn empty_report(broken: bool) -> ValidationReport {
    ValidationReport {
        valid: vec![],
        broken: if broken {
            vec![kcm::validation::ValidationIssue {
                kind: ValidationIssueKind::MissingIncomingRecord,
                current_container_uid: "C".to_string(),
                current_key: "k".to_string(),
                corresponding_container_uid: "P".to_string(),
                corresponding_container_path: None,
                linker_key: None,
                target_key: None,
                expected: None,
                actual: None,
            }]
        } else {
            vec![]
        },
        unavailable: vec![],
        ignored_current_records: 0,
        ignored_corresponding_records: 0,
        ignored_containers: 0,
        is_valid: !broken,
    }
}

#[test]
fn entry_kinds_and_rows() {
    assert_eq!(entry_kind(&LinkInfo::Unlinked), "local");
    assert_eq!(entry_kind(&link_to()), "link-to");
    assert_eq!(entry_kind(&LinkInfo::LinkFrom { linkers: linkers() }), "local-linked-from");

    let plain = entry("a.txt", LinkInfo::Unlinked);
    assert_eq!(entry_text(&plain, &options(1, false, false), None), "a.txt\ttype=local\tsize=12");
    assert_eq!(
        entry_text(&plain, &options(0, true, false), None),
        "a.txt\ttype=local\tlink=none\tvalidation=unverified"
    );
    let out = entry("l", link_to());
    assert_eq!(
        entry_text(&out, &options(2, true, false), Some(&empty_report(false))),
        "l\ttype=link-to\ttarget=/target:t\tvalidation=ignored\tsize=12\tfilepath=/c/l\ttarget_uid=U"
    );
    let from = EntryInfo {
        key: "f".to_string(),
        size: None,
        filepath: "/c/f".to_string(),
        link: LinkInfo::LinkFrom { linkers: linkers() },
    };
    assert_eq!(
        entry_text(&from, &options(2, true, false), None),
        "f\ttype=local-linked-from\tsources=2\tvalidation=unverified\tsize=unknown\tfilepath=/c/f\tsource[0]=A:a\tsource[1]=B:b"
    );
}

#[test]
fn rows_grow_with_verbosity() {
    let from = entry("f", LinkInfo::LinkFrom { linkers: linkers() });
    for link_info_flag in [false, true] {
        let rows: Vec<String> = (0..4)
            .map(|v| entry_text(&from, &options(v, link_info_flag, false), None))
            .collect();
        assert!(rows[1].starts_with(&rows[0]));
        assert!(rows[2].starts_with(&rows[1]));
        assert_eq!(rows[2], rows[3]);
    }
}

#[test]
fn entry_documents_follow_detail() {
    let out = entry("l", link_to());
    let doc = entry_json(&out, &options(1, true, true), None);
    assert_eq!(doc.kind, "link-to");
    assert_eq!(doc.target_key.as_deref(), Some("t"));
    assert_eq!(doc.container_uid, None);
    assert_eq!(doc.size, Some(Some(12)));
    assert_eq!(doc.filepath, None);
    assert!(matches!(doc.validation, Some(EntryValidation::Unverified)));
    let doc = entry_json(&out, &options(2, false, true), None);
    assert_eq!(doc.target_key, None);
    assert_eq!(doc.filepath.as_deref(), Some("/c/l"));
    assert!(doc.validation.is_none());
    let from = entry("f", LinkInfo::LinkFrom { linkers: linkers() });
    let doc = entry_json(&from, &options(1, true, true), Some(&empty_report(true)));
    assert_eq!(doc.source_count, Some(2));
    assert!(doc.sources.is_none());
    match doc.validation {
        Some(EntryValidation::Report(report)) => assert_eq!(report.status, "broken"),
        _ => panic!("expected a report"),
    }
    let doc = entry_json(&from, &options(2, true, true), None);
    assert_eq!(doc.sources.map(|s| s.len()), Some(2));
    assert_eq!(doc.source_count, None);
}

#[test]
fn simple_listing_prints_keys_and_succeeds() {
    let entries = vec![entry("b", LinkInfo::Unlinked), entry("a", link_to())];
    let rendering = render_entry_list(&entries, &options(0, false, false), &vec![]);
    assert_eq!(rendering.status, Ok(()));
    match rendering.output {
        ListOutput::Lines(lines) => assert_eq!(lines, vec!["b", "a"]),
        _ => panic!("expected lines"),
    }
    let rendering = render_entry_list(&entries, &options(0, false, true), &vec![]);
    assert!(matches!(rendering.output, ListOutput::KeysJson(ref keys) if keys.len() == 2));
}

#[test]
fn detailed_listing_fails_on_broken_reports() {
    let entries = vec![entry("b", LinkInfo::Unlinked), entry("a", link_to())];
    let validations = vec![None, Some(empty_report(true))];
    let rendering = render_entry_list(&entries, &options(0, true, false), &validations);
    assert_eq!(rendering.status, Err(ValidationCommandError::Broken(1)));
    match rendering.output {
        ListOutput::Lines(lines) => {
            assert_eq!(lines[0], "b\ttype=local\tlink=none\tvalidation=unverified");
            assert_eq!(lines[1], "a\ttype=link-to\ttarget=/target:t\tvalidation=broken");
        }
        _ => panic!("expected lines"),
    }
    let rendering = render_entry_list(&entries, &options(1, false, true), &validations);
    assert!(matches!(rendering.output, ListOutput::EntriesJson(ref docs) if docs.len() == 2));
}

#[test]
fn validation_plan_of_listings() {
    let entries = vec![entry("b", LinkInfo::Unlinked), entry("a", link_to())];
    assert_eq!(
        validate_entries(&entries, &options(1, true, false)),
        Some(vec![ValidationMode::Skip, ValidationMode::Recorded])
    );
    let only_local = vec![entry("b", LinkInfo::Unlinked)];
    assert_eq!(validate_entries(&only_local, &options(1, true, false)), None);
    let mut peers = options(1, true, false);
    peers.validate_with = vec![":peer".to_string()];
    assert_eq!(
        validate_entries(&only_local, &peers),
        Some(vec![ValidationMode::Peers])
    );
    let mut fix = options(1, true, false);
    fix.auto_fix = true;
    assert!(listing_needs_repair(&fix, &vec![Some(empty_report(true))]));
    assert!(!listing_needs_repair(&options(1, true, false), &vec![Some(empty_report(true))]));
}

#[test]
fn link_info_renders_directions() {
    let rendering = link_info(&LinkInfo::Unlinked, &None, false);
    assert_eq!(rendering.status, Ok(()));
    match rendering.output {
        LinkInfoOutput::Lines(lines) => {
            assert_eq!(lines, vec!["not linked", "validation: unverified"])
        }
        _ => panic!("expected lines"),
    }
    let rendering = link_info(&LinkInfo::LinkFrom { linkers: linkers() }, &None, false);
    match rendering.output {
        LinkInfoOutput::Lines(lines) => assert_eq!(
            lines,
            vec![
                "direction: from",
                "source[0].container_uid: A",
                "source[0].linker_key: a",
                "source[1].container_uid: B",
                "source[1].linker_key: b",
                "validation: unverified",
            ]
        ),
        _ => panic!("expected lines"),
    }
    let rendering = link_info(&link_to(), &Some(empty_report(true)), true);
    assert_eq!(rendering.status, Err(ValidationCommandError::Broken(1)));
    match rendering.output {
        LinkInfoOutput::Json(doc) => {
            assert!(matches!(doc.link_info, LinkInfoJson::To { ref target_key, .. } if target_key == "t"));
            assert_eq!(doc.validation.map(|v| v.status), Some("broken".to_string()));
        }
        _ => panic!("expected a document"),
    }
    assert!(link_info_needs_repair(true, &Some(empty_report(true))));
    assert!(!link_info_needs_repair(true, &None));
    assert!(!link_info_needs_repair(false, &Some(empty_report(true))));
}

fn check_issue(id: &str, actions: Vec<CheckRepairAction>) -> LinkCheckIssue {
    LinkCheckIssue {
        id: id.to_string(),
        key: format!("key-{id}"),
        kind: LinkCheckKind::MissingSymlink,
        expected: Some("../t".to_string()),
        actual: None,
        corresponding_container_uid: None,
        corresponding_container_path: None,
        linker_key: None,
        actions,
    }
}

#[test]
fn check_session_skips_and_finishes() {
    let actions = vec![CheckRepairAction::CreateMissingSymlink, CheckRepairAction::Skip];
    let mut session = CheckSession::new();
    let step = session.issues_loaded(vec![check_issue("1", actions.clone()), check_issue("2", actions.clone())]);
    let presented = match step {
        CheckStep::Present { issue, lines } => {
            assert_eq!(lines[0], "found 2 link consistency issue(s)");
            assert_eq!(lines[1], "\nkey-1: metadata entry is missing its symlink");
            assert_eq!(lines[2], "  expected: ../t");
            assert_eq!(lines[3], "  1. create missing symlink 'key-1' -> '../t'");
            assert_eq!(lines[4], "  2. skip this issue without changing data");
            issue
        }
        _ => panic!("expected an issue"),
    };
    assert_eq!(presented.id, "1");
    match session.action_applied(&presented, CheckRepairAction::Skip, Ok("skipped".to_string())) {
        Applied::Done(lines) => assert_eq!(lines, vec!["  completed: skipped"]),
        _ => panic!("expected done"),
    }
    let step = session.issues_loaded(vec![check_issue("1", actions.clone()), check_issue("2", actions.clone())]);
    let presented = match step {
        CheckStep::Present { issue, lines } => {
            assert!(!lines[0].starts_with("found"));
            issue
        }
        _ => panic!("expected the second issue"),
    };
    assert_eq!(presented.id, "2");
    match session.action_applied(&presented, CheckRepairAction::CreateMissingSymlink, Err("denied".to_string())) {
        Applied::Retry(lines) => assert_eq!(lines, vec!["  action failed: denied", "  choose an action again"]),
        _ => panic!("expected retry"),
    }
    match session.issues_loaded(vec![check_issue("1", actions.clone())]) {
        CheckStep::Finished { message, skipped_issues } => {
            assert_eq!(message, "link consistency interaction complete");
            assert_eq!(skipped_issues, 1);
        }
        _ => panic!("expected the end"),
    }
    let mut fresh = CheckSession::new();
    match fresh.issues_loaded(vec![]) {
        CheckStep::Finished { message, skipped_issues } => {
            assert_eq!(message, "no link consistency issues found");
            assert_eq!(skipped_issues, 0);
        }
        _ => panic!("expected the end"),
    }
}

#[test]
fn selections_and_confirmations() {
    let issue = check_issue(
        "1",
        vec![CheckRepairAction::RemoveLocalOutgoingOnly, CheckRepairAction::Skip],
    );
    assert_eq!(selection_prompt(&issue), "  select action [1-2]: ");
    assert!(matches!(choose_action(&issue, Some(" 2\n")), Selection::Apply(CheckRepairAction::Skip)));
    assert!(matches!(
        choose_action(&issue, Some("1")),
        Selection::Confirm(CheckRepairAction::RemoveLocalOutgoingOnly)
    ));
    assert!(matches!(choose_action(&issue, Some("x")), Selection::Reprompt(ref m) if m == "  please enter an action number"));
    assert!(matches!(choose_action(&issue, Some("0")), Selection::Reprompt(ref m) if m == "  please enter an action number from the list"));
    assert!(matches!(choose_action(&issue, Some("3")), Selection::Reprompt(ref m) if m == "  please enter an action number from the list"));
    assert!(matches!(confirm_local_only(Some(" remove-local-only \n")), Confirmation::Accepted));
    assert!(matches!(
        confirm_local_only(Some("yes")),
        Confirmation::Mismatch(ref m) if m == "  confirmation did not match; no data changed"
    ));
    assert!(matches!(
        choose_action(&issue, None),
        Selection::Abort(ref m) if m == "standard input closed during link-check interaction"
    ));
    assert!(matches!(
        confirm_local_only(None),
        Confirmation::Abort(ref m) if m == "standard input closed during link-check confirmation"
    ));
}

#[test]
fn action_and_issue_descriptions() {
    let mut issue = check_issue("9", vec![]);
    assert_eq!(describe_issue(&issue), "metadata entry is missing its symlink");
    issue.kind = LinkCheckKind::Validation(ValidationIssueKind::LinkerKeyMismatch);
    assert_eq!(describe_issue(&issue), "linker_key_mismatch");
    assert_eq!(
        check_action(&issue, CheckRepairAction::AddMissingIncomingRecord),
        "add missing reciprocal incoming record for linker 'current:key-9'"
    );
    issue.corresponding_container_uid = Some("P".to_string());
    issue.linker_key = Some("lk".to_string());
    assert_eq!(
        check_action(&issue, CheckRepairAction::RemoveStaleIncomingRecord),
        "remove stale incoming record 'P:lk'"
    );
    assert_eq!(
        check_action(&issue, CheckRepairAction::RetryUnavailable),
        "retry unavailable container 'unknown'"
    );
    issue.expected = None;
    assert_eq!(
        check_action(&issue, CheckRepairAction::ReplaceIncorrectSymlink),
        "replace symlink 'key-9' with target 'recorded target'"
    );
}

#[test]
fn kinds_select_link_capable_handles() {
    assert_eq!(print_link_list("link"), Ok(LinkCapable::Link));
    assert_eq!(print_local_list("configurable"), Ok(LinkCapable::Configurable));
    assert_eq!(
        print_link_list("local"),
        Err("link-list requires a link or configurable container, found 'local'".to_string())
    );
    assert_eq!(
        print_local_list("local"),
        Err("local-list requires a link or configurable container, found 'local'".to_string())
    );
    assert_eq!(
        link_capable_for("local-*", "other"),
        Err("local-* requires a link or configurable container, found 'other'".to_string())
    );
    assert_eq!(require_kind("link", "/c", "link"), Ok(()));
    assert_eq!(
        require_kind("configurable", "/c", "local"),
        Err("operation requires a configurable container, but /c is 'local'".to_string())
    );
}

#[test]
fn init_and_info() {
    assert_eq!(initialize(ContainerKind::Local, true), ("local", None));
    assert_eq!(initialize(ContainerKind::Link, false), ("link", Some(true)));
    assert_eq!(initialize(ContainerKind::Configurable, true), ("configurable", Some(false)));
    assert!(info_has_prefer_relative("link"));
    assert!(!info_has_prefer_relative("local"));
    let metadata = ContainerMetadata {
        version: 1,
        uid: "U".to_string(),
        logical_name: "cache".to_string(),
        kind: "link".to_string(),
    };
    assert_eq!(
        print_info("/c", &metadata, Some(true)),
        vec!["path: /c", "version: 1", "uid: U", "name: cache", "kind: link", "prefer_relative: true"]
    );
    let local = ContainerMetadata {
        version: 2,
        uid: "V".to_string(),
        logical_name: "plain".to_string(),
        kind: "local".to_string(),
    };
    assert_eq!(print_info("/p", &local, None).len(), 5);
    let doc = info_json("/c", &metadata, Some(false));
    assert_eq!(
        (doc.path.as_str(), doc.version, doc.uid.as_str(), doc.logical_name.as_str(), doc.kind.as_str(), doc.prefer_relative),
        ("/c", 1, "U", "cache", "link", Some(false))
    );
    let doc = info_json("/p", &local, None);
    assert_eq!(doc.prefer_relative, None);
    assert_eq!(doc.kind, "local");
    let doc = destination_info_json("/game", 3, "minecraft");
    assert_eq!((doc.path.as_str(), doc.version, doc.kind.as_str()), ("/game", 3, "minecraft"));
}

#[test]
fn forced_storage_confirmation() {
    assert!(forced_storage_applies("configurable"));
    assert!(!forced_storage_applies("link"));
    let warning = Some(ForcedWarning {
        key: "mods/warned.jar".to_string(),
        forced: StorageClass::Local,
        automatic: StorageClass::Link,
    });
    let prompt = warn_forced(&warning, false).unwrap();
    assert!(prompt.contains("next ordinary write/update will use Link"));
    assert_eq!(
        prompt,
        "warning: 'mods/warned.jar' is forced to Local; its next ordinary write/update will use Link. Continue? [y/N]"
    );
    assert_eq!(warn_forced(&warning, true), None);
    assert_eq!(warn_forced(&None, false), None);
    assert_eq!(confirm_forced("y\n"), Ok(()));
    assert_eq!(confirm_forced(" YES "), Ok(()));
    assert_eq!(confirm_forced("n\n"), Err("operation cancelled".to_string()));
    assert_eq!(confirm_forced(""), Err("operation cancelled".to_string()));
}

#[test]
fn members_sort_stably_by_path() {
    let keys: Vec<String> = ["b", "a", "b", "ab", "A", ""].iter().map(|s| s.to_string()).collect();
    assert_eq!(member_order(&keys), vec![5, 4, 1, 3, 0, 2]);
    assert!(text_less("a", "b"));
    assert!(text_less("a", "ab"));
    assert!(!text_less("ab", "ab"));
    assert!(!text_less("b", "a"));
    let members = vec![
        Member::Subcontainer { logical_path: "group".to_string() },
        Member::Container {
            logical_path: "cache".to_string(),
            kind: "local".to_string(),
            initialized: true,
            filesystem_path: "/d/cache".to_string(),
        },
    ];
    let listing = print_members(&members, 0);
    assert_eq!(listing.order, vec![1, 0]);
    assert_eq!(listing.lines, vec!["cache\ttype=container", "group/\ttype=subcontainer"]);
    let listing = print_members(&members, 2);
    assert_eq!(listing.lines[0], "cache\ttype=container\tkind=local\tinitialized=true\tpath=/d/cache");
    let listing = print_members(&members, 1);
    assert_eq!(listing.lines[0], "cache\ttype=container\tkind=local");
    assert_eq!(member_filter_parts(MemberFilter::All), (true, true));
    assert_eq!(member_filter_parts(MemberFilter::Containers), (true, false));
    assert_eq!(member_filter_parts(MemberFilter::Subcontainers), (false, true));
    assert_eq!(
        destination_info("/game", 1, "minecraft"),
        vec!["path: /game", "version: 1", "kind: minecraft"]
    );
}

#[test]
fn fixture_summary_lists_distinct_error_types() {
    let case = |name: &str, errors: Vec<BrokenFixtureErrorKind>| FixtureCase {
        name: name.to_string(),
        current_container: format!("/f/{name}"),
        key: "k".to_string(),
        corresponding_containers: vec!["/f/peer".to_string()],
        errors,
    };
    let fixture = BrokenFixture {
        root: "/f".to_string(),
        containers: 3,
        cases: vec![
            case("one", vec![BrokenFixtureErrorKind::MissingSymlink, BrokenFixtureErrorKind::Validation(ValidationIssueKind::MetadataInvalid)]),
            case("two", vec![BrokenFixtureErrorKind::MissingSymlink]),
        ],
        uncovered_validation_kinds: vec![ValidationIssueKind::TargetKeyMismatch],
    };
    let lines = print_broken_fixture(&fixture);
    assert_eq!(
        lines,
        vec![
            "created: /f",
            "containers: 3",
            "cases: 2",
            "case: one",
            "  current: /f/one",
            "  key: k",
            "  corresponding: /f/peer",
            "  error: check.missing_symlink",
            "  error: validation.metadata_invalid",
            "case: two",
            "  current: /f/two",
            "  key: k",
            "  corresponding: /f/peer",
            "  error: check.missing_symlink",
            "covered error types: 2",
            "  check.missing_symlink",
            "  validation.metadata_invalid",
            "uncovered validation types: 1",
            "  validation.target_key_mismatch",
        ]
    );
    assert_eq!(broken_error_kind(BrokenFixtureErrorKind::Unavailable), "availability.unavailable");
}

#[test]
fn dispatch_plans_forced_storage() {
    let plan = run(&ContainerOperation::LocalAdd { entry: "mods/x.jar".to_string() });
    assert!(plan.resolves_locator);
    let forced = plan.forced.unwrap();
    assert_eq!(forced.key, "mods/x.jar");
    assert_eq!(forced.class, StorageClass::Local);
    let plan = run(&ContainerOperation::LinkRename { to: "n".to_string() });
    assert_eq!(plan.forced.unwrap().class, StorageClass::Link);
    let plan = run(&ContainerOperation::Add);
    assert!(plan.forced.is_none());
    assert!(!run(&ContainerOperation::Init).resolves_locator);
    assert!(!run(&ContainerOperation::Tests).resolves_locator);
    assert_eq!(destination_listing(DestinationOperation::List), Some(MemberFilter::All));
    assert_eq!(destination_listing(DestinationOperation::Info), None);
}

#[test]
fn failed_check_aborts_and_check_drops_the_count() {
    let mut session = CheckSession::new();
    let result: Result<CheckStep, String> = session.issues_checked(Err("locked".to_string()));
    assert!(matches!(result, Err(ref e) if e == "locked"));
    assert!(!session.announced);
    assert_eq!(check::<String>(Ok(3)), Ok(()));
    assert_eq!(check::<String>(Err("failed".to_string())), Err("failed".to_string()));
}

fn container_member(path: &str) -> Member {
    Member::Container {
        logical_path: path.to_string(),
        kind: "local".to_string(),
        initialized: true,
        filesystem_path: format!("/d/{path}"),
    }
}

fn sub_member(path: &str) -> Member {
    Member::Subcontainer { logical_path: path.to_string() }
}

#[test]
fn recursive_walk_collects_nested_members() {
    let mut walk = MemberWalk::new();
    let parts = walk.node_listed(
        vec![container_member("cache"), container_member("version"), container_member("manual-target")],
        vec![sub_member("group")],
        MemberFilter::All,
        true,
    );
    assert_eq!(parts, (true, true));
    assert_eq!(walk.next_node(), Some("group".to_string()));
    walk.node_listed(vec![container_member("group/nested")], vec![], MemberFilter::All, true);
    assert_eq!(walk.next_node(), None);
    assert_eq!(walk.collected.len(), 5);
    let listing = print_members(&walk.collected, 0);
    assert!(listing.lines.contains(&"group/nested\ttype=container".to_string()));

    let mut flat = MemberWalk::new();
    flat.node_listed(vec![container_member("cache")], vec![sub_member("group")], MemberFilter::All, false);
    assert_eq!(flat.next_node(), None);
    assert_eq!(flat.collected.len(), 2);

    let mut only_containers = MemberWalk::new();
    let parts = only_containers.node_listed(vec![container_member("a")], vec![sub_member("g")], MemberFilter::Containers, true);
    assert_eq!(parts, (true, false));
    assert_eq!(only_containers.collected.len(), 1);
    assert_eq!(only_containers.next_node(), Some("g".to_string()));
}
