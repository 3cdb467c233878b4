//! The interactive link-consistency check: which issue is presented next, how a typed answer
//! selects a repair action, and which issues stay skipped.
use vstd::prelude::*;

use crate::text::{decimal_spec, decimal_usize, parse_usize, parse_usize_spec, same_text, trim, trim_spec};
use crate::validation::{issue_kind_spec, lines_view, text_or, validation_issue_kind, ValidationIssueKind};

verus! {

/// The kinds of consistency issues that a link check finds.
#[derive(Clone, Copy, PartialEq, Eq, Structural, Debug)]
pub enum LinkCheckKind {
    MissingSymlink,
    IncorrectSymlink,
    UnrecordedSymlink,
    Validation(ValidationIssueKind),
    Unavailable,
}

/// Repairs that a link check offers for an issue.
#[derive(Clone, Copy, PartialEq, Eq, Structural, Debug)]
pub enum CheckRepairAction {
    CreateMissingSymlink,
    ReplaceIncorrectSymlink,
    DeleteUnrecordedSymlink,
    AddMissingIncomingRecord,
    RemoveStaleIncomingRecord,
    AddMissingOutgoingRecord,
    RemoveStaleOutgoingRecord,
    RemoveLocalOutgoingOnly,
    RetryUnavailable,
    Skip,
}

/// One consistency issue found by a link check, with the repairs offered for it.
pub struct LinkCheckIssue {
    pub id: String,
    pub key: String,
    pub kind: LinkCheckKind,
    pub expected: Option<String>,
    pub actual: Option<String>,
    pub corresponding_container_uid: Option<String>,
    pub corresponding_container_path: Option<String>,
    pub linker_key: Option<String>,
    pub actions: Vec<CheckRepairAction>,
}

/// A one-line description of an issue kind.
pub open spec fn describe_issue_spec(issue: LinkCheckIssue) -> Seq<char> {
    match issue.kind {
        LinkCheckKind::MissingSymlink => "metadata entry is missing its symlink"@,
        LinkCheckKind::IncorrectSymlink => "metadata entry has an incorrect symlink"@,
        LinkCheckKind::UnrecordedSymlink => "filesystem symlink is not recorded in metadata"@,
        LinkCheckKind::Validation(kind) => issue_kind_spec(kind),
        LinkCheckKind::Unavailable => "corresponding container is temporarily unavailable"@,
    }
}

/// Describes an issue.
pub fn describe_issue(issue: &LinkCheckIssue) -> (res: String)
    ensures
        res@ == describe_issue_spec(*issue),
{
    let mut s = String::new();
    match issue.kind {
        LinkCheckKind::MissingSymlink => s.append("metadata entry is missing its symlink"),
        LinkCheckKind::IncorrectSymlink => s.append("metadata entry has an incorrect symlink"),
        LinkCheckKind::UnrecordedSymlink => s.append(
            "filesystem symlink is not recorded in metadata",
        ),
        LinkCheckKind::Validation(kind) => s.append(validation_issue_kind(kind)),
        LinkCheckKind::Unavailable => s.append(
            "corresponding container is temporarily unavailable",
        ),
    }
    s
}

/// The menu text of one repair action for an issue.
pub open spec fn check_action_spec(issue: LinkCheckIssue, action: CheckRepairAction) -> Seq<
    char,
> {
    let key = issue.key@;
    match action {
        CheckRepairAction::CreateMissingSymlink => "create missing symlink '"@ + key + "' -> '"@
            + text_or(issue.expected, "recorded target"@) + "'"@,
        CheckRepairAction::ReplaceIncorrectSymlink => "replace symlink '"@ + key
            + "' with target '"@ + text_or(issue.expected, "recorded target"@) + "'"@,
        CheckRepairAction::DeleteUnrecordedSymlink => "delete unrecorded symlink '"@ + key + "'"@,
        CheckRepairAction::AddMissingIncomingRecord =>
            "add missing reciprocal incoming record for linker '"@ + text_or(
                issue.corresponding_container_uid,
                "current"@,
            ) + ":"@ + text_or(issue.linker_key, key) + "'"@,
        CheckRepairAction::RemoveStaleIncomingRecord => "remove stale incoming record '"@
            + text_or(issue.corresponding_container_uid, "unknown"@) + ":"@ + text_or(
            issue.linker_key,
            key,
        ) + "'"@,
        CheckRepairAction::AddMissingOutgoingRecord => "add missing outgoing record for '"@ + key
            + "'"@,
        CheckRepairAction::RemoveStaleOutgoingRecord => "remove stale outgoing record for '"@
            + key + "'"@,
        CheckRepairAction::RemoveLocalOutgoingOnly =>
            "DANGEROUS: remove only local outgoing record and symlink '"@ + key + "'"@,
        CheckRepairAction::RetryUnavailable => "retry unavailable container '"@ + text_or(
            issue.corresponding_container_path,
            "unknown"@,
        ) + "'"@,
        CheckRepairAction::Skip => "skip this issue without changing data"@,
    }
}

fn append_or(s: &mut String, value: &Option<String>, fallback: &str)
    ensures
        final(s)@ == old(s)@ + text_or(*value, fallback@),
{
    match value {
        Some(v) => s.append(v.as_str()),
        None => s.append(fallback),
    }
}

/// Describes one repair action for an issue.
pub fn check_action(issue: &LinkCheckIssue, action: CheckRepairAction) -> (res: String)
    ensures
        res@ == check_action_spec(*issue, action),
{
    let key = issue.key.as_str();
    let mut s = String::new();
    match action {
        CheckRepairAction::CreateMissingSymlink => {
            s.append("create missing symlink '");
            s.append(key);
            s.append("' -> '");
            append_or(&mut s, &issue.expected, "recorded target");
            s.append("'");
        },
        CheckRepairAction::ReplaceIncorrectSymlink => {
            s.append("replace symlink '");
            s.append(key);
            s.append("' with target '");
            append_or(&mut s, &issue.expected, "recorded target");
            s.append("'");
        },
        CheckRepairAction::DeleteUnrecordedSymlink => {
            s.append("delete unrecorded symlink '");
            s.append(key);
            s.append("'");
        },
        CheckRepairAction::AddMissingIncomingRecord => {
            s.append("add missing reciprocal incoming record for linker '");
            append_or(&mut s, &issue.corresponding_container_uid, "current");
            s.append(":");
            append_or(&mut s, &issue.linker_key, key);
            s.append("'");
        },
        CheckRepairAction::RemoveStaleIncomingRecord => {
            s.append("remove stale incoming record '");
            append_or(&mut s, &issue.corresponding_container_uid, "unknown");
            s.append(":");
            append_or(&mut s, &issue.linker_key, key);
            s.append("'");
        },
        CheckRepairAction::AddMissingOutgoingRecord => {
            s.append("add missing outgoing record for '");
            s.append(key);
            s.append("'");
        },
        CheckRepairAction::RemoveStaleOutgoingRecord => {
            s.append("remove stale outgoing record for '");
            s.append(key);
            s.append("'");
        },
        CheckRepairAction::RemoveLocalOutgoingOnly => {
            s.append("DANGEROUS: remove only local outgoing record and symlink '");
            s.append(key);
            s.append("'");
        },
        CheckRepairAction::RetryUnavailable => {
            s.append("retry unavailable container '");
            append_or(&mut s, &issue.corresponding_container_path, "unknown");
            s.append("'");
        },
        CheckRepairAction::Skip => {
            s.append("skip this issue without changing data");
        },
    }
    s
}

/// The views of a list of identifiers.
pub open spec fn ids_view(ids: Seq<String>) -> Seq<Seq<char>> {
    ids.map_values(|id: String| id@)
}

/// Whether an issue was skipped earlier in the session.
pub open spec fn is_skipped(issue: LinkCheckIssue, skipped: Seq<Seq<char>>) -> bool {
    skipped.contains(issue.id@)
}

/// How many of the issues were not skipped.
pub open spec fn unskipped_count(issues: Seq<LinkCheckIssue>, skipped: Seq<Seq<char>>) -> nat
    decreases issues.len(),
{
    if issues.len() == 0 {
        0
    } else {
        unskipped_count(issues.drop_last(), skipped) + if is_skipped(issues.last(), skipped) {
            0nat
        } else {
            1nat
        }
    }
}

/// Whether `i` is the position of the first issue that was not skipped.
pub open spec fn first_unskipped(issues: Seq<LinkCheckIssue>, skipped: Seq<Seq<char>>, i: int) -> bool {
    &&& 0 <= i < issues.len()
    &&& !is_skipped(issues[i], skipped)
    &&& forall|j: int| 0 <= j < i ==> #[trigger] is_skipped(issues[j], skipped)
}

/// The state of one interactive link check: which issues the user skipped, and whether the
/// issue count was announced.
pub struct CheckSession {
    pub skipped: Vec<String>,
    pub announced: bool,
}

/// What the session does with a freshly loaded list of issues.
pub enum CheckStep {
    /// No unskipped issue remains: the closing message and the number of skipped issues.
    Finished { message: String, skipped_issues: usize },
    /// The first unskipped issue is presented with these lines and awaits a selection.
    Present { issue: LinkCheckIssue, lines: Vec<String> },
}

/// What a typed selection leads to.
pub enum Selection {
    /// The answer selects no action; the message is shown and the prompt repeated.
    Reprompt(String),
    /// The dangerous one-sided cleanup was selected and awaits its typed confirmation.
    Confirm(CheckRepairAction),
    /// The action is applied.
    Apply(CheckRepairAction),
    /// Standard input closed: the interaction aborts with this error.
    Abort(String),
}

/// What a typed confirmation of the one-sided cleanup leads to.
pub enum Confirmation {
    /// The cleanup is applied.
    Accepted,
    /// The answer did not match; the message is shown and the selection prompt repeated.
    Mismatch(String),
    /// Standard input closed: the interaction aborts with this error.
    Abort(String),
}

/// What the session does once an action was applied or failed.
pub enum Applied {
    /// The issue is done; the issues are loaded again.
    Done(Vec<String>),
    /// The action failed; the selection prompt is repeated.
    Retry(Vec<String>),
}

/// The message shown when no issue was left.
pub open spec fn finish_message_spec(announced: bool) -> Seq<char> {
    if announced {
        "link consistency interaction complete"@
    } else {
        "no link consistency issues found"@
    }
}

/// The lines that present an issue: its key and description, expected and actual values when
/// known, then the numbered actions.
pub open spec fn issue_lines_spec(issue: LinkCheckIssue) -> Seq<Seq<char>> {
    seq!["\n"@ + issue.key@ + ": "@ + describe_issue_spec(issue)] + (match issue.expected {
        Some(e) => seq!["  expected: "@ + e@],
        None => Seq::<Seq<char>>::empty(),
    }) + (match issue.actual {
        Some(a) => seq!["  actual:   "@ + a@],
        None => Seq::<Seq<char>>::empty(),
    }) + Seq::new(
        issue.actions@.len(),
        |i: int|
            "  "@ + decimal_spec((i + 1) as nat) + ". "@ + check_action_spec(
                issue,
                issue.actions@[i],
            ),
    )
}

/// The selection prompt of an issue.
pub open spec fn selection_prompt_spec(issue: LinkCheckIssue) -> Seq<char> {
    "  select action [1-"@ + decimal_spec(issue.actions@.len()) + "]: "@
}

/// The outcome of a typed selection among an issue's actions.
pub open spec fn selection_spec(actions: Seq<CheckRepairAction>, answer: Seq<char>) -> (Option<
    CheckRepairAction,
>, Seq<char>) {
    match parse_usize_spec(trim_spec(answer)) {
        None => (None, "  please enter an action number"@),
        Some(n) => if 1 <= n && n <= actions.len() {
            (Some(actions[n - 1]), Seq::<char>::empty())
        } else {
            (None, "  please enter an action number from the list"@)
        },
    }
}

/// The result of the `check` command: the interaction's outcome without its count of skipped
/// issues; a failed interaction fails the command with the same error.
pub fn check<E>(outcome: Result<usize, E>) -> (res: Result<(), E>)
    ensures
        outcome is Ok <==> res is Ok,
        outcome matches Err(e) ==> res matches Err(r) && r == e,
{
    match outcome {
        Ok(_) => Ok(()),
        Err(e) => Err(e),
    }
}

fn contains_id(ids: &Vec<String>, id: &String) -> (res: bool)
    ensures
        res == ids_view(ids@).contains(id@),
{
    let mut i: usize = 0;
    while i < ids.len()
        invariant
            i <= ids@.len(),
            forall|j: int| 0 <= j < i ==> ids@[j]@ != id@,
        decreases ids@.len() - i,
    {
        if ids[i].eq(id) {
            assert(ids_view(ids@)[i as int] == id@);
            return true;
        }
        i = i + 1;
    }
    assert(!ids_view(ids@).contains(id@)) by {
        if ids_view(ids@).contains(id@) {
            let k = choose|k: int| 0 <= k < ids_view(ids@).len() && ids_view(ids@)[k] == id@;
            assert(ids@[k]@ == id@);
        }
    }
    false
}

/// Renders the selection prompt of an issue.
pub fn selection_prompt(issue: &LinkCheckIssue) -> (res: String)
    ensures
        res@ == selection_prompt_spec(*issue),
{
    let mut s = String::new();
    s.append("  select action [1-");
    s.append(decimal_usize(issue.actions.len()).as_str());
    s.append("]: ");
    s
}

/// Interprets a typed selection: the trimmed answer must be an action number of the list;
/// the dangerous one-sided cleanup needs a confirmation before it is applied.
pub fn choose_action(issue: &LinkCheckIssue, answer: Option<&str>) -> (res: Selection)
    ensures
        match answer {
            None => res matches Selection::Abort(m) && m@
                == "standard input closed during link-check interaction"@,
            Some(answer) => {
                let (picked, message) = selection_spec(issue.actions@, answer@);
                match res {
                    Selection::Reprompt(m) => picked is None && m@ == message,
                    Selection::Confirm(a) => picked == Some(a) && a
                        == CheckRepairAction::RemoveLocalOutgoingOnly,
                    Selection::Apply(a) => picked == Some(a) && a
                        != CheckRepairAction::RemoveLocalOutgoingOnly,
                    Selection::Abort(_) => false,
                }
            },
        },
{
    let answer = match answer {
        None => {
            let mut m = String::new();
            m.append("standard input closed during link-check interaction");
            return Selection::Abort(m);
        },
        Some(answer) => answer,
    };
    let trimmed = trim(answer);
    match parse_usize(trimmed) {
        None => {
            let mut m = String::new();
            m.append("  please enter an action number");
            Selection::Reprompt(m)
        },
        Some(n) => {
            if n >= 1 && n <= issue.actions.len() {
                let action = issue.actions[n - 1];
                if action == CheckRepairAction::RemoveLocalOutgoingOnly {
                    Selection::Confirm(action)
                } else {
                    Selection::Apply(action)
                }
            } else {
                let mut m = String::new();
                m.append("  please enter an action number from the list");
                Selection::Reprompt(m)
            }
        },
    }
}

/// The confirmation prompt of the dangerous one-sided cleanup.
pub fn confirmation_prompt() -> (res: String)
    ensures
        res@ == "  type 'remove-local-only' to confirm this one-sided cleanup: "@,
{
    let mut s = String::new();
    s.append("  type 'remove-local-only' to confirm this one-sided cleanup: ");
    s
}

/// Whether a typed confirmation accepts the one-sided cleanup: the trimmed answer must read
/// exactly `remove-local-only`. When it does not, the message to show.
pub fn confirm_local_only(answer: Option<&str>) -> (res: Confirmation)
    ensures
        match answer {
            None => res matches Confirmation::Abort(m) && m@
                == "standard input closed during link-check confirmation"@,
            Some(answer) => if trim_spec(answer@) == "remove-local-only"@ {
                res is Accepted
            } else {
                res matches Confirmation::Mismatch(m) && m@
                    == "  confirmation did not match; no data changed"@
            },
        },
{
    match answer {
        None => {
            let mut m = String::new();
            m.append("standard input closed during link-check confirmation");
            Confirmation::Abort(m)
        },
        Some(answer) => {
            if same_text(trim(answer), "remove-local-only") {
                Confirmation::Accepted
            } else {
                let mut m = String::new();
                m.append("  confirmation did not match; no data changed");
                Confirmation::Mismatch(m)
            }
        },
    }
}

/// What loading `issues` does in a session with `skipped` identifiers and announcement state
/// `announced`: finish with the closing message and skipped count when no unskipped issue is
/// left, otherwise present the first unskipped issue, announcing the unskipped count the first
/// time; `announced_after` is the announcement state afterwards.
pub open spec fn loaded_spec(
    skipped: Seq<Seq<char>>,
    announced: bool,
    issues: Seq<LinkCheckIssue>,
    step: CheckStep,
    announced_after: bool,
) -> bool {
    match step {
        CheckStep::Finished { message, skipped_issues } => {
            &&& unskipped_count(issues, skipped) == 0
            &&& message@ == finish_message_spec(announced)
            &&& skipped_issues == skipped.len()
            &&& announced_after == announced
        },
        CheckStep::Present { issue, lines } => {
            &&& unskipped_count(issues, skipped) > 0
            &&& presents(skipped, issues, issue)
            &&& !is_skipped(issue, skipped)
            &&& lines_view(lines@) == (if announced {
                Seq::<Seq<char>>::empty()
            } else {
                seq![
                    "found "@ + decimal_spec(unskipped_count(issues, skipped))
                        + " link consistency issue(s)"@,
                ]
            }) + issue_lines_spec(issue)
            &&& announced_after
        },
    }
}

/// Whether `issue` is the first issue of `issues` that was not skipped.
pub open spec fn presents(skipped: Seq<Seq<char>>, issues: Seq<LinkCheckIssue>, issue: LinkCheckIssue) -> bool {
    exists|i: int| #[trigger] first_unskipped(issues, skipped, i) && issue == issues[i]
}

impl CheckSession {
    /// Begins an interactive link-consistency check: nothing skipped yet and nothing announced.
    pub fn new() -> (res: CheckSession)
        ensures
            res.skipped@.len() == 0,
            !res.announced,
            res.wf(),
    {
        CheckSession { skipped: Vec::new(), announced: false }
    }

    /// Takes the result of one consistency check. A failed check aborts the interaction with
    /// the same error and leaves the session unchanged; a list of issues goes on as
    /// `issues_loaded` says.
    pub fn issues_checked<E>(&mut self, result: Result<Vec<LinkCheckIssue>, E>) -> (res: Result<
        CheckStep,
        E,
    >)
        requires
            old(self).wf(),
        ensures
            final(self).wf(),
            final(self).skipped@ == old(self).skipped@,
            match result {
                Err(e) => res matches Err(r) && r == e && final(self).announced == old(
                    self,
                ).announced,
                Ok(issues) => res matches Ok(step) && loaded_spec(
                    old(self).skipped_view(),
                    old(self).announced,
                    issues@,
                    step,
                    final(self).announced,
                ),
            },
    {
        match result {
            Err(e) => Err(e),
            Ok(issues) => Ok(self.issues_loaded(issues)),
        }
    }

    /// Well-formed: no identifier is skipped twice.
    pub open spec fn wf(self) -> bool {
        ids_view(self.skipped@).no_duplicates()
    }

    /// The identifiers skipped so far.
    pub open spec fn skipped_view(self) -> Seq<Seq<char>> {
        ids_view(self.skipped@)
    }

    /// Takes a freshly loaded list of issues. Skipped issues are passed over; when none is
    /// left the session finishes with the number of skipped issues, otherwise it presents the
    /// first unskipped issue, announcing the count of unskipped issues the first time.
    pub fn issues_loaded(&mut self, issues: Vec<LinkCheckIssue>) -> (res: CheckStep)
        requires
            old(self).wf(),
        ensures
            final(self).wf(),
            final(self).skipped@ == old(self).skipped@,
            loaded_spec(
                old(self).skipped_view(),
                old(self).announced,
                issues@,
                res,
                final(self).announced,
            ),
    {
        let ghost skipped = self.skipped_view();
        let mut issues = issues;
        let mut count: usize = 0;
        let mut first: usize = issues.len();
        let mut i: usize = 0;
        while i < issues.len()
            invariant
                i <= issues@.len(),
                skipped == self.skipped_view(),
                count as nat == unskipped_count(issues@.take(i as int), skipped),
                count <= i,
                first == issues@.len() ==> forall|j: int|
                    0 <= j < i ==> #[trigger] is_skipped(issues@[j], skipped),
                first < issues@.len() ==> first_unskipped(issues@, skipped, first as int) && first
                    < i,
                first <= issues@.len(),
            decreases issues@.len() - i,
        {
            assert(issues@.take(i + 1).drop_last() =~= issues@.take(i as int));
            let unskipped = !contains_id(&self.skipped, &issues[i].id);
            if unskipped {
                count = count + 1;
                if first == issues.len() {
                    first = i;
                }
            }
            i = i + 1;
        }
        assert(issues@.take(i as int) =~= issues@);
        if first == issues.len() {
            let mut message = String::new();
            if self.announced {
                message.append("link consistency interaction complete");
            } else {
                message.append("no link consistency issues found");
            }
            proof {
                lemma_no_unskipped(issues@, skipped);
            }
            assert(skipped.len() == self.skipped@.len());
            return CheckStep::Finished { message, skipped_issues: self.skipped.len() };
        }
        proof {
            lemma_some_unskipped(issues@, skipped, first as int);
        }
        let ghost all = issues@;
        let issue = issues.remove(first);
        assert(first_unskipped(all, skipped, first as int) && issue == all[first as int]);
        assert(presents(skipped, all, issue));
        let ghost was_announced = self.announced;
        let mut lines: Vec<String> = Vec::new();
        if !self.announced {
            let mut head = String::new();
            head.append("found ");
            head.append(decimal_usize(count).as_str());
            head.append(" link consistency issue(s)");
            lines.push(head);
            self.announced = true;
        }
        assert(count as nat == unskipped_count(all, skipped));
        assert(lines_view(lines@) =~= (if was_announced {
            Seq::<Seq<char>>::empty()
        } else {
            seq!["found "@ + decimal_spec(unskipped_count(all, skipped)) + " link consistency issue(s)"@]
        }));
        present_issue(&mut lines, &issue);
        CheckStep::Present { issue, lines }
    }

    /// Takes the result of applying `action` to `issue`. A success reports the action's
    /// description and, for `Skip`, records the issue as skipped; a failure reports the error and
    /// asks for a selection again.
    pub fn action_applied(
        &mut self,
        issue: &LinkCheckIssue,
        action: CheckRepairAction,
        outcome: Result<String, String>,
    ) -> (res: Applied)
        requires
            old(self).wf(),
        ensures
            final(self).wf(),
            final(self).announced == old(self).announced,
            match outcome {
                Ok(description) => {
                    &&& res matches Applied::Done(lines) && lines_view(lines@) == seq![
                        "  completed: "@ + description@,
                    ]
                    &&& final(self).skipped_view().to_set() == if action == CheckRepairAction::Skip {
                        old(self).skipped_view().to_set().insert(issue.id@)
                    } else {
                        old(self).skipped_view().to_set()
                    }
                    &&& action != CheckRepairAction::Skip ==> final(self).skipped@ == old(
                        self,
                    ).skipped@
                },
                Err(error) => {
                    &&& res matches Applied::Retry(lines) && lines_view(lines@) == seq![
                        "  action failed: "@ + error@,
                        "  choose an action again"@,
                    ]
                    &&& final(self).skipped@ == old(self).skipped@
                },
            },
    {
        match outcome {
            Ok(description) => {
                let mut line = String::new();
                line.append("  completed: ");
                line.append(description.as_str());
                if action == CheckRepairAction::Skip {
                    if !contains_id(&self.skipped, &issue.id) {
                        let ghost before = self.skipped_view();
                        self.skipped.push(issue.id.clone());
                        assert(self.skipped_view() =~= before.push(issue.id@));
                        proof {
                            lemma_push_no_dup(before, issue.id@);
                            before.lemma_push_to_set_commute(issue.id@);
                        }
                        assert(self.skipped_view().to_set() =~= before.to_set().insert(issue.id@));
                    } else {
                        assert(self.skipped_view().to_set() =~= self.skipped_view().to_set().insert(
                            issue.id@,
                        ));
                    }
                }
                let mut lines: Vec<String> = Vec::new();
                lines.push(line);
                assert(lines_view(lines@) =~= seq!["  completed: "@ + description@]);
                Applied::Done(lines)
            },
            Err(error) => {
                let mut first = String::new();
                first.append("  action failed: ");
                first.append(error.as_str());
                let mut second = String::new();
                second.append("  choose an action again");
                let mut lines: Vec<String> = Vec::new();
                lines.push(first);
                lines.push(second);
                assert(lines_view(lines@) =~= seq![
                    "  action failed: "@ + error@,
                    "  choose an action again"@,
                ]);
                Applied::Retry(lines)
            },
        }
    }
}

/// Appends the lines that present an issue.
pub fn present_issue(lines: &mut Vec<String>, issue: &LinkCheckIssue)
    ensures
        lines_view(final(lines)@) == lines_view(old(lines)@) + issue_lines_spec(*issue),
{
    let ghost start = lines_view(lines@);
    let mut head = String::new();
    head.append("\n");
    head.append(issue.key.as_str());
    head.append(": ");
    head.append(describe_issue(issue).as_str());
    lines.push(head);
    match &issue.expected {
        Some(e) => {
            let mut s = String::new();
            s.append("  expected: ");
            s.append(e.as_str());
            lines.push(s);
        },
        None => {},
    }
    match &issue.actual {
        Some(a) => {
            let mut s = String::new();
            s.append("  actual:   ");
            s.append(a.as_str());
            lines.push(s);
        },
        None => {},
    }
    let ghost prefix = lines_view(lines@);
    assert(prefix.subrange(0, start.len() as int) =~= start);
    let ghost menu = Seq::new(
        issue.actions@.len(),
        |i: int|
            "  "@ + decimal_spec((i + 1) as nat) + ". "@ + check_action_spec(
                *issue,
                issue.actions@[i],
            ),
    );
    assert(prefix.subrange(start.len() as int, prefix.len() as int) =~= seq!["\n"@ + issue.key@ + ": "@ + describe_issue_spec(*issue)] + (
    match issue.expected {
        Some(e) => seq!["  expected: "@ + e@],
        None => Seq::<Seq<char>>::empty(),
    }) + (match issue.actual {
        Some(a) => seq!["  actual:   "@ + a@],
        None => Seq::<Seq<char>>::empty(),
    }));
    let mut i: usize = 0;
    while i < issue.actions.len()
        invariant
            i <= issue.actions@.len(),
            lines_view(lines@) == prefix + menu.take(i as int),
            menu.len() == issue.actions@.len(),
            forall|k: int|
                0 <= k < menu.len() ==> #[trigger] menu[k] == "  "@ + decimal_spec((k + 1) as nat)
                    + ". "@ + check_action_spec(*issue, issue.actions@[k]),
        decreases issue.actions@.len() - i,
    {
        let mut s = String::new();
        s.append("  ");
        s.append(decimal_usize(i + 1).as_str());
        s.append(". ");
        s.append(check_action(issue, issue.actions[i]).as_str());
        assert(s@ == menu[i as int]);
        let ghost before = lines_view(lines@);
        lines.push(s);
        assert(lines_view(lines@) =~= before.push(menu[i as int]));
        assert(menu.take(i + 1) =~= menu.take(i as int).push(menu[i as int]));
        i = i + 1;
        assert(lines_view(lines@) =~= prefix + menu.take(i as int));
    }
    assert(menu.take(i as int) =~= menu);
    assert(lines_view(lines@) =~= start + issue_lines_spec(*issue));
}

proof fn lemma_no_unskipped(issues: Seq<LinkCheckIssue>, skipped: Seq<Seq<char>>)
    requires
        forall|j: int| 0 <= j < issues.len() ==> #[trigger] is_skipped(issues[j], skipped),
    ensures
        unskipped_count(issues, skipped) == 0,
    decreases issues.len(),
{
    if issues.len() > 0 {
        let d = issues.drop_last();
        assert forall|j: int| 0 <= j < d.len() implies #[trigger] is_skipped(d[j], skipped) by {
            assert(d[j] == issues[j]);
        }
        lemma_no_unskipped(d, skipped);
        assert(is_skipped(issues[issues.len() - 1], skipped));
    }
}

proof fn lemma_some_unskipped(issues: Seq<LinkCheckIssue>, skipped: Seq<Seq<char>>, i: int)
    requires
        0 <= i < issues.len(),
        !is_skipped(issues[i], skipped),
    ensures
        unskipped_count(issues, skipped) > 0,
    decreases issues.len(),
{
    if i < issues.len() - 1 {
        let d = issues.drop_last();
        assert(d[i] == issues[i]);
        lemma_some_unskipped(d, skipped, i);
    }
}

proof fn lemma_push_no_dup(s: Seq<Seq<char>>, x: Seq<char>)
    requires
        s.no_duplicates(),
        !s.contains(x),
    ensures
        s.push(x).no_duplicates(),
{
    let t = s.push(x);
    assert forall|i: int, j: int| 0 <= i < t.len() && 0 <= j < t.len() && i != j implies t[i]
        != t[j] by {
        if i < s.len() && j < s.len() {
            assert(t[i] == s[i] && t[j] == s[j]);
        } else if i == s.len() {
            assert(t[j] == s[j]);
        } else {
            assert(t[i] == s[i]);
        }
    }
}

} // verus!

verus! {

/// An issue skipped once is never presented again. `action_applied` with a successful `Skip`
/// adds the issue's identifier to the skipped set (`after_skip`); every later step keeps the
/// skipped set or grows it (`later`); and a load under `later`, as `issues_loaded` and
/// `issues_checked` describe it, never presents an issue with that identifier.
pub proof fn law_skipped_issue_never_presented_again(
    before_skip: Seq<Seq<char>>,
    after_skip: Seq<Seq<char>>,
    id: Seq<char>,
    later: Seq<Seq<char>>,
    issues: Seq<LinkCheckIssue>,
    announced: bool,
    step: CheckStep,
    announced_after: bool,
)
    requires
        after_skip.to_set() == before_skip.to_set().insert(id),
        after_skip.to_set().subset_of(later.to_set()),
        loaded_spec(later, announced, issues, step, announced_after),
    ensures
        step matches CheckStep::Present { issue, .. } ==> issue.id@ != id,
{
    assert(after_skip.to_set().contains(id));
    assert(later.to_set().contains(id));
    match step {
        CheckStep::Present { issue, .. } => {
            if issue.id@ == id {
                assert(later.contains(id));
                assert(is_skipped(issue, later));
            }
        },
        _ => {},
    }
}

} // verus!
