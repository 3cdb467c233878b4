//! Reciprocal-link validation reports: status classification, structured documents,
//! human-readable summaries, and the exit-code contract of a failed validation.
use vstd::prelude::*;

use crate::text::{decimal_spec, decimal_usize};

verus! {

/// Persistent inconsistency categories that link validation reports.
#[derive(Clone, Copy, PartialEq, Eq, Structural, Debug)]
pub enum ValidationIssueKind {
    MissingOutgoingRecord,
    UnexpectedOutgoingRecord,
    MissingIncomingRecord,
    UnexpectedIncomingRecord,
    LinkerUidMismatch,
    TargetUidMismatch,
    LinkerKeyMismatch,
    TargetKeyMismatch,
    TargetEntryMissing,
    ContainerPathMissing,
    ContainerPathMismatch,
    ContainerPathUidMismatch,
    DuplicateIncomingRecord,
    DuplicateOutgoingRecord,
    MetadataInvalid,
    MaterializedSymlinkMissing,
    MaterializedSymlinkMismatch,
}

/// One reciprocal relationship whose two records agree.
pub struct ValidationMatch {
    pub linker_container_uid: String,
    pub linker_key: String,
    pub target_container_uid: String,
    pub target_key: String,
}

/// One persistent inconsistency with its comparison context.
pub struct ValidationIssue {
    pub kind: ValidationIssueKind,
    pub current_container_uid: String,
    pub current_key: String,
    pub corresponding_container_uid: String,
    pub corresponding_container_path: Option<String>,
    pub linker_key: Option<String>,
    pub target_key: Option<String>,
    pub expected: Option<String>,
    pub actual: Option<String>,
}

/// One peer container that could not be validated.
pub struct UnavailablePeer {
    pub container_uid: String,
    pub container_path: String,
    pub reason: String,
}

/// A link validation report as the container library produces it.
pub struct ValidationReport {
    pub valid: Vec<ValidationMatch>,
    pub broken: Vec<ValidationIssue>,
    pub unavailable: Vec<UnavailablePeer>,
    pub ignored_current_records: usize,
    pub ignored_corresponding_records: usize,
    pub ignored_containers: usize,
    /// The report's own verdict, as the container library's `is_valid` gives it.
    pub is_valid: bool,
}

/// Stable aggregate status label: `broken` before `unavailable` before `verified` before
/// `ignored`.
pub open spec fn status_spec(report: ValidationReport) -> Seq<char> {
    if report.broken@.len() > 0 {
        "broken"@
    } else if report.unavailable@.len() > 0 {
        "unavailable"@
    } else if report.valid@.len() > 0 {
        "verified"@
    } else {
        "ignored"@
    }
}

/// Selects the aggregate status label of a report.
pub fn validation_status(report: &ValidationReport) -> (res: &'static str)
    ensures
        res@ == status_spec(*report),
{
    if report.broken.len() > 0 {
        "broken"
    } else if report.unavailable.len() > 0 {
        "unavailable"
    } else if report.valid.len() > 0 {
        "verified"
    } else {
        "ignored"
    }
}

/// The stable snake-case label of an issue kind.
pub open spec fn issue_kind_spec(kind: ValidationIssueKind) -> Seq<char> {
    match kind {
        ValidationIssueKind::MissingOutgoingRecord => "missing_outgoing_record"@,
        ValidationIssueKind::UnexpectedOutgoingRecord => "unexpected_outgoing_record"@,
        ValidationIssueKind::MissingIncomingRecord => "missing_incoming_record"@,
        ValidationIssueKind::UnexpectedIncomingRecord => "unexpected_incoming_record"@,
        ValidationIssueKind::LinkerUidMismatch => "linker_uid_mismatch"@,
        ValidationIssueKind::TargetUidMismatch => "target_uid_mismatch"@,
        ValidationIssueKind::LinkerKeyMismatch => "linker_key_mismatch"@,
        ValidationIssueKind::TargetKeyMismatch => "target_key_mismatch"@,
        ValidationIssueKind::TargetEntryMissing => "target_entry_missing"@,
        ValidationIssueKind::ContainerPathMissing => "container_path_missing"@,
        ValidationIssueKind::ContainerPathMismatch => "container_path_mismatch"@,
        ValidationIssueKind::ContainerPathUidMismatch => "container_path_uid_mismatch"@,
        ValidationIssueKind::DuplicateIncomingRecord => "duplicate_incoming_record"@,
        ValidationIssueKind::DuplicateOutgoingRecord => "duplicate_outgoing_record"@,
        ValidationIssueKind::MetadataInvalid => "metadata_invalid"@,
        ValidationIssueKind::MaterializedSymlinkMissing => "materialized_symlink_missing"@,
        ValidationIssueKind::MaterializedSymlinkMismatch => "materialized_symlink_mismatch"@,
    }
}

/// Maps an issue kind to its stable snake-case label.
pub fn validation_issue_kind(kind: ValidationIssueKind) -> (res: &'static str)
    ensures
        res@ == issue_kind_spec(kind),
{
    match kind {
        ValidationIssueKind::MissingOutgoingRecord => "missing_outgoing_record",
        ValidationIssueKind::UnexpectedOutgoingRecord => "unexpected_outgoing_record",
        ValidationIssueKind::MissingIncomingRecord => "missing_incoming_record",
        ValidationIssueKind::UnexpectedIncomingRecord => "unexpected_incoming_record",
        ValidationIssueKind::LinkerUidMismatch => "linker_uid_mismatch",
        ValidationIssueKind::TargetUidMismatch => "target_uid_mismatch",
        ValidationIssueKind::LinkerKeyMismatch => "linker_key_mismatch",
        ValidationIssueKind::TargetKeyMismatch => "target_key_mismatch",
        ValidationIssueKind::TargetEntryMissing => "target_entry_missing",
        ValidationIssueKind::ContainerPathMissing => "container_path_missing",
        ValidationIssueKind::ContainerPathMismatch => "container_path_mismatch",
        ValidationIssueKind::ContainerPathUidMismatch => "container_path_uid_mismatch",
        ValidationIssueKind::DuplicateIncomingRecord => "duplicate_incoming_record",
        ValidationIssueKind::DuplicateOutgoingRecord => "duplicate_outgoing_record",
        ValidationIssueKind::MetadataInvalid => "metadata_invalid",
        ValidationIssueKind::MaterializedSymlinkMissing => "materialized_symlink_missing",
        ValidationIssueKind::MaterializedSymlinkMismatch => "materialized_symlink_mismatch",
    }
}

/// Validation outcome translated into the command's nonzero exit-code contract.
#[derive(Clone, Copy, PartialEq, Eq, Structural, Debug)]
pub enum ValidationCommandError {
    /// Persistent reciprocal-link inconsistencies; the payload is the issue count.
    Broken(usize),
    /// Peer containers that could not be validated; the payload is the container count.
    Unavailable(usize),
}

impl ValidationCommandError {
    /// The process status of a validation failure: `1` for broken, `3` for unavailable.
    pub open spec fn exit_code_spec(self) -> i32 {
        match self {
            ValidationCommandError::Broken(_) => 1,
            ValidationCommandError::Unavailable(_) => 3,
        }
    }

    /// The message that reports the failure.
    pub open spec fn message_spec(self) -> Seq<char> {
        match self {
            ValidationCommandError::Broken(count) => "link validation found "@ + decimal_spec(
                count as nat,
            ) + " broken relationship(s)"@,
            ValidationCommandError::Unavailable(count) => "link validation could not access "@
                + decimal_spec(count as nat) + " container(s)"@,
        }
    }

    /// Maps a validation outcome to its documented process status.
    pub fn exit_code(&self) -> (res: i32)
        ensures
            res == self.exit_code_spec(),
    {
        match self {
            ValidationCommandError::Broken(_) => 1,
            ValidationCommandError::Unavailable(_) => 3,
        }
    }

    /// Renders the message that reports the failure.
    pub fn message(&self) -> (res: String)
        ensures
            res@ == self.message_spec(),
    {
        let mut s = String::new();
        match self {
            ValidationCommandError::Broken(count) => {
                s.append("link validation found ");
                s.append(decimal_usize(*count).as_str());
                s.append(" broken relationship(s)");
            },
            ValidationCommandError::Unavailable(count) => {
                s.append("link validation could not access ");
                s.append(decimal_usize(*count).as_str());
                s.append(" container(s)");
            },
        }
        s
    }
}

/// Total broken items over the reports that are present.
pub open spec fn total_broken(reports: Seq<Option<ValidationReport>>) -> nat
    decreases reports.len(),
{
    if reports.len() == 0 {
        0
    } else {
        total_broken(reports.drop_last()) + match reports.last() {
            Some(r) => r.broken@.len(),
            None => 0,
        }
    }
}

/// Total unavailable items over the reports that are present.
pub open spec fn total_unavailable(reports: Seq<Option<ValidationReport>>) -> nat
    decreases reports.len(),
{
    if reports.len() == 0 {
        0
    } else {
        total_unavailable(reports.drop_last()) + match reports.last() {
            Some(r) => r.unavailable@.len(),
            None => 0,
        }
    }
}

/// What a set of reports makes of a command: broken counts take priority over unavailable ones.
pub open spec fn validation_outcome(reports: Seq<Option<ValidationReport>>) -> Result<
    (),
    ValidationCommandError,
> {
    if total_broken(reports) > 0 {
        Err(ValidationCommandError::Broken(total_broken(reports) as usize))
    } else if total_unavailable(reports) > 0 {
        Err(ValidationCommandError::Unavailable(total_unavailable(reports) as usize))
    } else {
        Ok(())
    }
}

proof fn lemma_totals_prefix(reports: Seq<Option<ValidationReport>>, i: int)
    requires
        0 <= i <= reports.len(),
    ensures
        total_broken(reports.take(i)) <= total_broken(reports),
        total_unavailable(reports.take(i)) <= total_unavailable(reports),
    decreases reports.len() - i,
{
    if i < reports.len() {
        lemma_totals_prefix(reports, i + 1);
        assert(reports.take(i + 1).drop_last() =~= reports.take(i));
    } else {
        assert(reports.take(i) =~= reports);
    }
}

/// Converts aggregate broken or unavailable counts into the command's typed failure: `Broken`
/// with the total broken count when nonzero, otherwise `Unavailable` with the total unavailable
/// count when nonzero, otherwise success. Absent reports count for nothing.
pub fn ensure_validation_success(reports: &Vec<Option<ValidationReport>>) -> (res: Result<
    (),
    ValidationCommandError,
>)
    requires
        total_broken(reports@) <= usize::MAX,
        total_unavailable(reports@) <= usize::MAX,
    ensures
        res == validation_outcome(reports@),
{
    let mut broken: usize = 0;
    let mut unavailable: usize = 0;
    let mut i: usize = 0;
    while i < reports.len()
        invariant
            i <= reports@.len(),
            total_broken(reports@) <= usize::MAX,
            total_unavailable(reports@) <= usize::MAX,
            broken as nat == total_broken(reports@.take(i as int)),
            unavailable as nat == total_unavailable(reports@.take(i as int)),
        decreases reports@.len() - i,
    {
        assert(reports@.take(i + 1).drop_last() =~= reports@.take(i as int));
        proof {
            lemma_totals_prefix(reports@, i + 1);
        }
        match &reports[i] {
            Some(report) => {
                broken = broken + report.broken.len();
                unavailable = unavailable + report.unavailable.len();
            },
            None => {},
        }
        i = i + 1;
    }
    assert(reports@.take(reports@.len() as int) =~= reports@);
    if broken > 0 {
        return Err(ValidationCommandError::Broken(broken));
    }
    if unavailable > 0 {
        return Err(ValidationCommandError::Unavailable(unavailable));
    }
    Ok(())
}

/// Whether a report slot holds a report judged invalid.
pub open spec fn slot_needs_fix(slot: Option<ValidationReport>) -> bool {
    match slot {
        Some(r) => !r.is_valid,
        None => false,
    }
}

/// Whether any present report is judged invalid and so calls for an interactive repair.
pub open spec fn need_fix_spec(reports: Seq<Option<ValidationReport>>) -> bool {
    exists|i: int| 0 <= i < reports.len() && #[trigger] slot_needs_fix(reports[i])
}

/// Whether any present report is invalid.
pub fn validations_need_fix(reports: &Vec<Option<ValidationReport>>) -> (res: bool)
    ensures
        res == need_fix_spec(reports@),
{
    let mut i: usize = 0;
    while i < reports.len()
        invariant
            i <= reports@.len(),
            forall|j: int| 0 <= j < i ==> !#[trigger] slot_needs_fix(reports@[j]),
        decreases reports@.len() - i,
    {
        match &reports[i] {
            Some(report) => {
                if !report.is_valid {
                    assert(slot_needs_fix(reports@[i as int]));
                    return true;
                }
            },
            None => {},
        }
        i = i + 1;
    }
    false
}

} // verus!

verus! {

/// The views of rendered lines.
pub open spec fn lines_view(lines: Seq<String>) -> Seq<Seq<char>> {
    lines.map_values(|l: String| l@)
}

/// An optional text, or `fallback` when it is absent.
pub open spec fn text_or(value: Option<String>, fallback: Seq<char>) -> Seq<char> {
    match value {
        Some(v) => v@,
        None => fallback,
    }
}

/// Copies an optional text.
pub fn copy_opt(value: &Option<String>) -> (res: Option<String>)
    ensures
        res == *value,
{
    match value {
        Some(v) => Some(v.clone()),
        None => None,
    }
}

/// Appends an optional text, or `fallback` when it is absent.
pub fn append_text_or(s: &mut String, value: &Option<String>, fallback: &str)
    ensures
        final(s)@ == old(s)@ + text_or(*value, fallback@),
{
    match value {
        Some(v) => s.append(v.as_str()),
        None => s.append(fallback),
    }
}

impl ValidationMatch {
    /// A field-by-field copy.
    pub fn duplicate(&self) -> (res: Self)
        ensures
            res == *self,
    {
        ValidationMatch {
            linker_container_uid: self.linker_container_uid.clone(),
            linker_key: self.linker_key.clone(),
            target_container_uid: self.target_container_uid.clone(),
            target_key: self.target_key.clone(),
        }
    }
}

impl UnavailablePeer {
    /// A field-by-field copy.
    pub fn duplicate(&self) -> (res: Self)
        ensures
            res == *self,
    {
        UnavailablePeer {
            container_uid: self.container_uid.clone(),
            container_path: self.container_path.clone(),
            reason: self.reason.clone(),
        }
    }
}

/// The structured form of one persistent inconsistency.
pub struct IssueDoc {
    pub kind: String,
    pub current_container_uid: String,
    pub current_key: String,
    pub corresponding_container_uid: String,
    pub corresponding_container_path: Option<String>,
    pub linker_key: Option<String>,
    pub target_key: Option<String>,
    pub expected: Option<String>,
    pub actual: Option<String>,
}

/// The structured form of a whole report, with its aggregate status.
pub struct ValidationDoc {
    pub status: String,
    pub valid: Vec<ValidationMatch>,
    pub broken: Vec<IssueDoc>,
    pub unavailable: Vec<UnavailablePeer>,
    pub ignored_current_records: usize,
    pub ignored_corresponding_records: usize,
    pub ignored_containers: usize,
}

/// `doc` encodes `issue`: its kind label and every context field unchanged.
pub open spec fn issue_doc_of(doc: IssueDoc, issue: ValidationIssue) -> bool {
    &&& doc.kind@ == issue_kind_spec(issue.kind)
    &&& doc.current_container_uid == issue.current_container_uid
    &&& doc.current_key == issue.current_key
    &&& doc.corresponding_container_uid == issue.corresponding_container_uid
    &&& doc.corresponding_container_path == issue.corresponding_container_path
    &&& doc.linker_key == issue.linker_key
    &&& doc.target_key == issue.target_key
    &&& doc.expected == issue.expected
    &&& doc.actual == issue.actual
}

/// `doc` encodes `report`: its status, every category in order, and the ignored counters.
pub open spec fn validation_doc_of(doc: ValidationDoc, report: ValidationReport) -> bool {
    &&& doc.status@ == status_spec(report)
    &&& doc.valid@ == report.valid@
    &&& doc.broken@.len() == report.broken@.len()
    &&& forall|i: int|
        0 <= i < doc.broken@.len() ==> issue_doc_of(#[trigger] doc.broken@[i], report.broken@[i])
    &&& doc.unavailable@ == report.unavailable@
    &&& doc.ignored_current_records == report.ignored_current_records
    &&& doc.ignored_corresponding_records == report.ignored_corresponding_records
    &&& doc.ignored_containers == report.ignored_containers
}

/// Encodes one persistent inconsistency with all optional context preserved.
pub fn validation_issue_json(issue: &ValidationIssue) -> (res: IssueDoc)
    ensures
        issue_doc_of(res, *issue),
{
    let mut kind = String::new();
    kind.append(validation_issue_kind(issue.kind));
    IssueDoc {
        kind,
        current_container_uid: issue.current_container_uid.clone(),
        current_key: issue.current_key.clone(),
        corresponding_container_uid: issue.corresponding_container_uid.clone(),
        corresponding_container_path: copy_opt(&issue.corresponding_container_path),
        linker_key: copy_opt(&issue.linker_key),
        target_key: copy_opt(&issue.target_key),
        expected: copy_opt(&issue.expected),
        actual: copy_opt(&issue.actual),
    }
}

/// Encodes every category and ignored counter of a report, with its aggregate status.
pub fn validation_json(report: &ValidationReport) -> (res: ValidationDoc)
    ensures
        validation_doc_of(res, *report),
{
    let mut status = String::new();
    status.append(validation_status(report));
    let mut valid: Vec<ValidationMatch> = Vec::new();
    let mut i: usize = 0;
    while i < report.valid.len()
        invariant
            i <= report.valid@.len(),
            valid@ == report.valid@.take(i as int),
        decreases report.valid@.len() - i,
    {
        valid.push(report.valid[i].duplicate());
        i = i + 1;
        assert(valid@ =~= report.valid@.take(i as int));
    }
    assert(report.valid@.take(i as int) =~= report.valid@);
    let mut broken: Vec<IssueDoc> = Vec::new();
    let mut j: usize = 0;
    while j < report.broken.len()
        invariant
            j <= report.broken@.len(),
            broken@.len() == j,
            forall|k: int| 0 <= k < j ==> issue_doc_of(#[trigger] broken@[k], report.broken@[k]),
        decreases report.broken@.len() - j,
    {
        broken.push(validation_issue_json(&report.broken[j]));
        j = j + 1;
    }
    let mut unavailable: Vec<UnavailablePeer> = Vec::new();
    let mut k: usize = 0;
    while k < report.unavailable.len()
        invariant
            k <= report.unavailable@.len(),
            unavailable@ == report.unavailable@.take(k as int),
        decreases report.unavailable@.len() - k,
    {
        unavailable.push(report.unavailable[k].duplicate());
        k = k + 1;
        assert(unavailable@ =~= report.unavailable@.take(k as int));
    }
    assert(report.unavailable@.take(k as int) =~= report.unavailable@);
    ValidationDoc {
        status,
        valid,
        broken,
        unavailable,
        ignored_current_records: report.ignored_current_records,
        ignored_corresponding_records: report.ignored_corresponding_records,
        ignored_containers: report.ignored_containers,
    }
}

/// The summary line of one persistent inconsistency.
pub open spec fn broken_line_spec(issue: ValidationIssue) -> Seq<char> {
    "  broken["@ + issue_kind_spec(issue.kind) + "]: "@ + issue.current_container_uid@ + " key="@
        + issue.current_key@ + " corresponding="@ + issue.corresponding_container_uid@
        + " expected="@ + text_or(issue.expected, "-"@) + " actual="@ + text_or(
        issue.actual,
        "-"@,
    )
}

/// The summary line of one unavailable peer.
pub open spec fn unavailable_line_spec(peer: UnavailablePeer) -> Seq<char> {
    "  unavailable: "@ + peer.reason@ + " ("@ + peer.container_uid@ + ") at "@
        + peer.container_path@
}

/// The human-readable summary of a report: category counts, ignored counters, then one line
/// per broken issue and per unavailable peer, in report order.
pub open spec fn report_lines_spec(report: ValidationReport) -> Seq<Seq<char>> {
    seq![
        "validation:"@,
        "  valid: "@ + decimal_spec(report.valid@.len()),
        "  broken: "@ + decimal_spec(report.broken@.len()),
        "  unavailable: "@ + decimal_spec(report.unavailable@.len()),
        "  ignored_current_records: "@ + decimal_spec(report.ignored_current_records as nat),
        "  ignored_corresponding_records: "@ + decimal_spec(
            report.ignored_corresponding_records as nat,
        ),
        "  ignored_containers: "@ + decimal_spec(report.ignored_containers as nat),
    ] + report.broken@.map_values(|issue: ValidationIssue| broken_line_spec(issue))
        + report.unavailable@.map_values(|peer: UnavailablePeer| unavailable_line_spec(peer))
}

/// Builds a line from a label and a count.
fn counted_line(label: &str, count: usize) -> (res: String)
    ensures
        res@ == label@ + decimal_spec(count as nat),
{
    let mut s = String::new();
    s.append(label);
    s.append(decimal_usize(count).as_str());
    s
}

/// Renders the complete human-readable summary of a report.
pub fn print_validation_report(report: &ValidationReport) -> (res: Vec<String>)
    ensures
        lines_view(res@) == report_lines_spec(*report),
{
    let mut lines: Vec<String> = Vec::new();
    let mut head = String::new();
    head.append("validation:");
    lines.push(head);
    lines.push(counted_line("  valid: ", report.valid.len()));
    lines.push(counted_line("  broken: ", report.broken.len()));
    lines.push(counted_line("  unavailable: ", report.unavailable.len()));
    lines.push(counted_line("  ignored_current_records: ", report.ignored_current_records));
    lines.push(
        counted_line("  ignored_corresponding_records: ", report.ignored_corresponding_records),
    );
    lines.push(counted_line("  ignored_containers: ", report.ignored_containers));
    let ghost head_lines = lines_view(lines@);
    let mut i: usize = 0;
    while i < report.broken.len()
        invariant
            i <= report.broken@.len(),
            head_lines.len() == 7,
            lines_view(lines@) == head_lines + report.broken@.take(i as int).map_values(
                |issue: ValidationIssue| broken_line_spec(issue),
            ),
        decreases report.broken@.len() - i,
    {
        let issue = &report.broken[i];
        let mut s = String::new();
        s.append("  broken[");
        s.append(validation_issue_kind(issue.kind));
        s.append("]: ");
        s.append(issue.current_container_uid.as_str());
        s.append(" key=");
        s.append(issue.current_key.as_str());
        s.append(" corresponding=");
        s.append(issue.corresponding_container_uid.as_str());
        s.append(" expected=");
        append_text_or(&mut s, &issue.expected, "-");
        s.append(" actual=");
        append_text_or(&mut s, &issue.actual, "-");
        assert(s@ == broken_line_spec(report.broken@[i as int]));
        let ghost before = lines_view(lines@);
        lines.push(s);
        assert(lines_view(lines@) =~= before.push(broken_line_spec(report.broken@[i as int])));
        i = i + 1;
        assert(lines_view(lines@) =~= head_lines + report.broken@.take(i as int).map_values(
            |issue: ValidationIssue| broken_line_spec(issue),
        ));
    }
    assert(report.broken@.take(i as int) =~= report.broken@);
    let ghost mid_lines = lines_view(lines@);
    let mut k: usize = 0;
    while k < report.unavailable.len()
        invariant
            k <= report.unavailable@.len(),
            lines_view(lines@) == mid_lines + report.unavailable@.take(k as int).map_values(
                |peer: UnavailablePeer| unavailable_line_spec(peer),
            ),
        decreases report.unavailable@.len() - k,
    {
        let peer = &report.unavailable[k];
        let mut s = String::new();
        s.append("  unavailable: ");
        s.append(peer.reason.as_str());
        s.append(" (");
        s.append(peer.container_uid.as_str());
        s.append(") at ");
        s.append(peer.container_path.as_str());
        assert(s@ == unavailable_line_spec(report.unavailable@[k as int]));
        let ghost before = lines_view(lines@);
        lines.push(s);
        assert(lines_view(lines@) =~= before.push(unavailable_line_spec(report.unavailable@[k as int])));
        k = k + 1;
        assert(lines_view(lines@) =~= mid_lines + report.unavailable@.take(k as int).map_values(
            |peer: UnavailablePeer| unavailable_line_spec(peer),
        ));
    }
    assert(report.unavailable@.take(k as int) =~= report.unavailable@);
    assert(lines_view(lines@) =~= report_lines_spec(*report));
    lines
}

} // verus!

verus! {

impl ValidationIssue {
    /// A field-by-field copy.
    pub fn duplicate(&self) -> (res: Self)
        ensures
            res == *self,
    {
        ValidationIssue {
            kind: self.kind,
            current_container_uid: self.current_container_uid.clone(),
            current_key: self.current_key.clone(),
            corresponding_container_uid: self.corresponding_container_uid.clone(),
            corresponding_container_path: copy_opt(&self.corresponding_container_path),
            linker_key: copy_opt(&self.linker_key),
            target_key: copy_opt(&self.target_key),
            expected: copy_opt(&self.expected),
            actual: copy_opt(&self.actual),
        }
    }
}

impl ValidationReport {
    /// A copy with equal fields.
    pub fn duplicate(&self) -> (res: Self)
        ensures
            res.valid@ == self.valid@,
            res.broken@ == self.broken@,
            res.unavailable@ == self.unavailable@,
            res.ignored_current_records == self.ignored_current_records,
            res.ignored_corresponding_records == self.ignored_corresponding_records,
            res.ignored_containers == self.ignored_containers,
            res.is_valid == self.is_valid,
    {
        let mut valid: Vec<ValidationMatch> = Vec::new();
        let mut i: usize = 0;
        while i < self.valid.len()
            invariant
                i <= self.valid@.len(),
                valid@ == self.valid@.take(i as int),
            decreases self.valid@.len() - i,
        {
            valid.push(self.valid[i].duplicate());
            i = i + 1;
            assert(valid@ =~= self.valid@.take(i as int));
        }
        assert(self.valid@.take(i as int) =~= self.valid@);
        let mut broken: Vec<ValidationIssue> = Vec::new();
        let mut j: usize = 0;
        while j < self.broken.len()
            invariant
                j <= self.broken@.len(),
                broken@ == self.broken@.take(j as int),
            decreases self.broken@.len() - j,
        {
            broken.push(self.broken[j].duplicate());
            j = j + 1;
            assert(broken@ =~= self.broken@.take(j as int));
        }
        assert(self.broken@.take(j as int) =~= self.broken@);
        let mut unavailable: Vec<UnavailablePeer> = Vec::new();
        let mut k: usize = 0;
        while k < self.unavailable.len()
            invariant
                k <= self.unavailable@.len(),
                unavailable@ == self.unavailable@.take(k as int),
            decreases self.unavailable@.len() - k,
        {
            unavailable.push(self.unavailable[k].duplicate());
            k = k + 1;
            assert(unavailable@ =~= self.unavailable@.take(k as int));
        }
        assert(self.unavailable@.take(k as int) =~= self.unavailable@);
        ValidationReport {
            valid,
            broken,
            unavailable,
            ignored_current_records: self.ignored_current_records,
            ignored_corresponding_records: self.ignored_corresponding_records,
            ignored_containers: self.ignored_containers,
            is_valid: self.is_valid,
        }
    }
}

} // verus!

verus! {

/// The status label of one report agrees with what the report makes of a command: `broken`
/// exactly when the command fails as broken, `unavailable` exactly when it fails as unavailable,
/// and `verified` or `ignored` exactly when it succeeds.
pub proof fn law_status_agrees_with_outcome(r: ValidationReport)
    ensures
        (status_spec(r) == "broken"@) <==> (validation_outcome(seq![Some(r)]) matches Err(
            ValidationCommandError::Broken(_),
        )),
        (status_spec(r) == "unavailable"@) <==> (validation_outcome(seq![Some(r)]) matches Err(
            ValidationCommandError::Unavailable(_),
        )),
        (status_spec(r) == "verified"@ || status_spec(r) == "ignored"@) <==> (validation_outcome(
            seq![Some(r)],
        ) is Ok),
{
    reveal_strlit("broken");
    reveal_strlit("unavailable");
    reveal_strlit("verified");
    reveal_strlit("ignored");
    let s = seq![Some(r)];
    assert(s.drop_last() =~= Seq::<Option<ValidationReport>>::empty());
    assert(s.last() == Some(r));
    assert(total_broken(Seq::<Option<ValidationReport>>::empty()) == 0);
    assert(total_unavailable(Seq::<Option<ValidationReport>>::empty()) == 0);
    assert(total_broken(s) == r.broken@.len());
    assert(total_unavailable(s) == r.unavailable@.len());
    assert("broken"@.len() == 6);
    assert("unavailable"@.len() == 11);
    assert("verified"@.len() == 8);
    assert("ignored"@.len() == 7);
    assert("broken"@ != "unavailable"@);
    assert("broken"@ != "verified"@);
    assert("broken"@ != "ignored"@);
    assert("unavailable"@ != "verified"@);
    assert("unavailable"@ != "ignored"@);
}

} // verus!

verus! {

/// Two different issue kinds never share a label, so a report never names an issue as another
/// kind.
pub proof fn law_issue_kind_labels_are_distinct(a: ValidationIssueKind, b: ValidationIssueKind)
    ensures
        issue_kind_spec(a) == issue_kind_spec(b) ==> a == b,
{
    reveal_strlit("missing_outgoing_record");
    reveal_strlit("unexpected_outgoing_record");
    reveal_strlit("missing_incoming_record");
    reveal_strlit("unexpected_incoming_record");
    reveal_strlit("linker_uid_mismatch");
    reveal_strlit("target_uid_mismatch");
    reveal_strlit("linker_key_mismatch");
    reveal_strlit("target_key_mismatch");
    reveal_strlit("target_entry_missing");
    reveal_strlit("container_path_missing");
    reveal_strlit("container_path_mismatch");
    reveal_strlit("container_path_uid_mismatch");
    reveal_strlit("duplicate_incoming_record");
    reveal_strlit("duplicate_outgoing_record");
    reveal_strlit("metadata_invalid");
    reveal_strlit("materialized_symlink_missing");
    reveal_strlit("materialized_symlink_mismatch");
    let x = issue_kind_spec(a);
    let y = issue_kind_spec(b);
    if x == y {
        assert(x.len() == y.len());
        assert(x[0] == y[0]);
        assert(x[1] == y[1]);
        assert(x[2] == y[2]);
        assert(x[3] == y[3]);
        assert(x[7] == y[7]);
        assert(x[10] == y[10]);
        assert(x[11] == y[11]);
        assert(x[12] == y[12]);
        assert(x[13] == y[13]);
    }
}


/// `label` begins with `prefix`.
pub open spec fn label_starts_with(label: Seq<char>, prefix: Seq<char>) -> bool {
    prefix.len() <= label.len() && label.subrange(0, prefix.len() as int) == prefix
}

/// `label` ends with `suffix`.
pub open spec fn label_ends_with(label: Seq<char>, suffix: Seq<char>) -> bool {
    suffix.len() <= label.len() && label.subrange(
        label.len() - suffix.len(),
        label.len() as int,
    ) == suffix
}

/// A label whose character at `j` differs from the prefix's does not begin with it.
proof fn lemma_prefix_differs(label: Seq<char>, prefix: Seq<char>, j: int)
    ensures
        0 <= j < prefix.len() && j < label.len() && label[j] != prefix[j] ==> !label_starts_with(
            label,
            prefix,
        ),
{
    if 0 <= j < prefix.len() && j < label.len() && label_starts_with(label, prefix) {
        assert(label.subrange(0, prefix.len() as int)[j] == label[j]);
    }
}

/// A label whose character at offset `j` of its last `suffix.len()` characters differs from
/// the suffix's does not end with it.
proof fn lemma_suffix_differs(label: Seq<char>, suffix: Seq<char>, j: int)
    ensures
        0 <= j < suffix.len() <= label.len() && label[label.len() - suffix.len() + j]
            != suffix[j] ==> !label_ends_with(label, suffix),
{
    if 0 <= j < suffix.len() <= label.len() && label_ends_with(label, suffix) {
        let start = label.len() - suffix.len();
        assert(label.subrange(start, label.len() as int)[j] == label[start + j]);
    }
}

/// An issue kind's label spells out its name: the record kinds name the direction of the
/// record they concern (`_outgoing_record` or `_incoming_record`) and what is wrong with it
/// (`missing_`, `unexpected_`, `duplicate_`); the mismatch kinds end in `_mismatch` and the
/// kinds of an absent thing in `_missing`.
pub proof fn law_issue_kind_labels_name_the_kind(k: ValidationIssueKind)
    ensures
        label_ends_with(issue_kind_spec(k), "_outgoing_record"@) <==> (k
            == ValidationIssueKind::MissingOutgoingRecord || k
            == ValidationIssueKind::UnexpectedOutgoingRecord || k
            == ValidationIssueKind::DuplicateOutgoingRecord),
        label_ends_with(issue_kind_spec(k), "_incoming_record"@) <==> (k
            == ValidationIssueKind::MissingIncomingRecord || k
            == ValidationIssueKind::UnexpectedIncomingRecord || k
            == ValidationIssueKind::DuplicateIncomingRecord),
        label_starts_with(issue_kind_spec(k), "missing_"@) <==> (k
            == ValidationIssueKind::MissingOutgoingRecord || k
            == ValidationIssueKind::MissingIncomingRecord),
        label_starts_with(issue_kind_spec(k), "unexpected_"@) <==> (k
            == ValidationIssueKind::UnexpectedOutgoingRecord || k
            == ValidationIssueKind::UnexpectedIncomingRecord),
        label_starts_with(issue_kind_spec(k), "duplicate_"@) <==> (k
            == ValidationIssueKind::DuplicateIncomingRecord || k
            == ValidationIssueKind::DuplicateOutgoingRecord),
        label_ends_with(issue_kind_spec(k), "_mismatch"@) <==> (k
            == ValidationIssueKind::LinkerUidMismatch || k
            == ValidationIssueKind::TargetUidMismatch || k
            == ValidationIssueKind::LinkerKeyMismatch || k
            == ValidationIssueKind::TargetKeyMismatch || k
            == ValidationIssueKind::ContainerPathMismatch || k
            == ValidationIssueKind::ContainerPathUidMismatch || k
            == ValidationIssueKind::MaterializedSymlinkMismatch),
        label_ends_with(issue_kind_spec(k), "_missing"@) <==> (k
            == ValidationIssueKind::TargetEntryMissing || k
            == ValidationIssueKind::ContainerPathMissing || k
            == ValidationIssueKind::MaterializedSymlinkMissing),
{
    reveal_strlit("missing_outgoing_record");
    reveal_strlit("unexpected_outgoing_record");
    reveal_strlit("missing_incoming_record");
    reveal_strlit("unexpected_incoming_record");
    reveal_strlit("linker_uid_mismatch");
    reveal_strlit("target_uid_mismatch");
    reveal_strlit("linker_key_mismatch");
    reveal_strlit("target_key_mismatch");
    reveal_strlit("target_entry_missing");
    reveal_strlit("container_path_missing");
    reveal_strlit("container_path_mismatch");
    reveal_strlit("container_path_uid_mismatch");
    reveal_strlit("duplicate_incoming_record");
    reveal_strlit("duplicate_outgoing_record");
    reveal_strlit("metadata_invalid");
    reveal_strlit("materialized_symlink_missing");
    reveal_strlit("materialized_symlink_mismatch");
    reveal_strlit("_outgoing_record");
    reveal_strlit("_incoming_record");
    reveal_strlit("missing_");
    reveal_strlit("unexpected_");
    reveal_strlit("duplicate_");
    reveal_strlit("_mismatch");
    reveal_strlit("_missing");
    let x = issue_kind_spec(k);
    let n = x.len() as int;
    let out = "_outgoing_record"@;
    let inc = "_incoming_record"@;
    let mis = "missing_"@;
    let une = "unexpected_"@;
    let dup = "duplicate_"@;
    let mm = "_mismatch"@;
    let mg = "_missing"@;
    lemma_prefix_differs(x, mis, 0);
    lemma_prefix_differs(x, mis, 1);
    lemma_prefix_differs(x, une, 0);
    lemma_prefix_differs(x, dup, 0);
    lemma_suffix_differs(x, out, 1);
    lemma_suffix_differs(x, out, 14);
    lemma_suffix_differs(x, out, 15);
    lemma_suffix_differs(x, inc, 1);
    lemma_suffix_differs(x, inc, 14);
    lemma_suffix_differs(x, inc, 15);
    lemma_suffix_differs(x, mm, 8);
    lemma_suffix_differs(x, mm, 7);
    lemma_suffix_differs(x, mg, 7);
    lemma_suffix_differs(x, mg, 6);
    match k {
        ValidationIssueKind::MissingOutgoingRecord => {
            assert(x.subrange(0, 8) =~= mis);
            assert(x.subrange(n - 16, n) =~= out);
        },
        ValidationIssueKind::UnexpectedOutgoingRecord => {
            assert(x.subrange(0, 11) =~= une);
            assert(x.subrange(n - 16, n) =~= out);
        },
        ValidationIssueKind::MissingIncomingRecord => {
            assert(x.subrange(0, 8) =~= mis);
            assert(x.subrange(n - 16, n) =~= inc);
        },
        ValidationIssueKind::UnexpectedIncomingRecord => {
            assert(x.subrange(0, 11) =~= une);
            assert(x.subrange(n - 16, n) =~= inc);
        },
        ValidationIssueKind::DuplicateIncomingRecord => {
            assert(x.subrange(0, 10) =~= dup);
            assert(x.subrange(n - 16, n) =~= inc);
        },
        ValidationIssueKind::DuplicateOutgoingRecord => {
            assert(x.subrange(0, 10) =~= dup);
            assert(x.subrange(n - 16, n) =~= out);
        },
        ValidationIssueKind::LinkerUidMismatch => assert(x.subrange(n - 9, n) =~= mm),
        ValidationIssueKind::TargetUidMismatch => assert(x.subrange(n - 9, n) =~= mm),
        ValidationIssueKind::LinkerKeyMismatch => assert(x.subrange(n - 9, n) =~= mm),
        ValidationIssueKind::TargetKeyMismatch => assert(x.subrange(n - 9, n) =~= mm),
        ValidationIssueKind::ContainerPathMismatch => assert(x.subrange(n - 9, n) =~= mm),
        ValidationIssueKind::ContainerPathUidMismatch => assert(x.subrange(n - 9, n) =~= mm),
        ValidationIssueKind::MaterializedSymlinkMismatch => assert(x.subrange(n - 9, n) =~= mm),
        ValidationIssueKind::TargetEntryMissing => assert(x.subrange(n - 8, n) =~= mg),
        ValidationIssueKind::ContainerPathMissing => assert(x.subrange(n - 8, n) =~= mg),
        ValidationIssueKind::MaterializedSymlinkMissing => assert(x.subrange(n - 8, n) =~= mg),
        ValidationIssueKind::MetadataInvalid => {},
    }
}

} // verus!
