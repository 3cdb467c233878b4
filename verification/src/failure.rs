//! Classification of failed commands: which failures an interactive link check can repair,
//! which are temporary, and the process status of each failure.
use vstd::prelude::*;

use crate::text::decimal_spec;
use crate::text::decimal_usize;
use crate::validation::ValidationCommandError;

verus! {

/// How an access to a linked peer failed.
#[derive(Clone, Copy, PartialEq, Eq, Structural, Debug)]
pub enum AccessFailure {
    /// The relationship is persistently broken.
    Broken,
    /// The peer is temporarily unavailable.
    Unavailable,
}

/// Failures of a validation run that the command reports as invalid input.
#[derive(Clone, Copy, PartialEq, Eq, Structural, Debug)]
pub enum RunFailure {
    /// The current container was passed as its own peer.
    SelfValidation,
    /// Two peers share one container identity.
    DuplicateContainerUid,
    /// Any other validation-run failure.
    Other,
}

/// One error of a failure's cause chain, as far as the command tells errors apart.
#[derive(Clone, Copy, PartialEq, Eq, Structural, Debug)]
pub enum FailureCause {
    /// A validation outcome of a list or link-info command.
    ValidationCommand(ValidationCommandError),
    /// A broken outgoing link met while reading or resolving an entry.
    BrokenLink,
    /// A linked peer that was temporarily unavailable.
    LinkUnavailable,
    /// A container whose writer lock is held elsewhere.
    WriterLocked,
    /// A failed validation run.
    ValidationRun(RunFailure),
    /// A link removal that could not reach its peer.
    UnlinkAccess(AccessFailure),
    /// A link creation that could not reach its peer.
    LinkAccess(AccessFailure),
    /// Any other error.
    Other,
}

/// A failed command: the error it returned and that error's whole cause chain, outermost first.
pub struct Failure {
    /// What the returned error itself is.
    pub top: FailureCause,
    /// Every error of the chain, the returned one first.
    pub chain: Vec<FailureCause>,
}

/// Whether some error of the chain satisfies `p`.
pub open spec fn chain_has(chain: Seq<FailureCause>, p: spec_fn(FailureCause) -> bool) -> bool {
    exists|i: int| 0 <= i < chain.len() && #[trigger] p(chain[i])
}

/// Causes that mark a temporarily unavailable peer or container anywhere in the chain.
pub open spec fn unavailable_cause(c: FailureCause) -> bool {
    c == FailureCause::LinkUnavailable || c == FailureCause::WriterLocked
}

/// Causes that an interactive link check may repair anywhere in the chain.
pub open spec fn repairable_cause(c: FailureCause) -> bool {
    c == FailureCause::BrokenLink || c == FailureCause::LinkUnavailable
}

/// Causes that mark invalid validation input anywhere in the chain.
pub open spec fn invalid_input_cause(c: FailureCause) -> bool {
    c == FailureCause::ValidationRun(RunFailure::SelfValidation) || c
        == FailureCause::ValidationRun(RunFailure::DuplicateContainerUid)
}

/// A failure caused by temporary unavailability.
pub open spec fn is_unavailable_spec(f: Failure) -> bool {
    ||| chain_has(f.chain@, |c: FailureCause| unavailable_cause(c))
    ||| f.top == FailureCause::UnlinkAccess(AccessFailure::Unavailable)
    ||| f.top == FailureCause::LinkAccess(AccessFailure::Unavailable)
}

/// A failure that an interactive link check may repair.
pub open spec fn is_repairable_spec(f: Failure) -> bool {
    ||| chain_has(f.chain@, |c: FailureCause| repairable_cause(c))
    ||| f.top is UnlinkAccess
    ||| f.top is LinkAccess
}

/// The process status of a failed command: a validation outcome keeps its own status,
/// otherwise `3` for temporary unavailability, `2` for invalid validation input, `1` for
/// anything else.
pub open spec fn exit_status_spec(f: Failure) -> i32 {
    match f.top {
        FailureCause::ValidationCommand(e) => e.exit_code_spec(),
        _ => if is_unavailable_spec(f) {
            3
        } else if chain_has(f.chain@, |c: FailureCause| invalid_input_cause(c)) {
            2
        } else {
            1
        },
    }
}

fn is_unavailable_cause(c: FailureCause) -> (res: bool)
    ensures
        res == unavailable_cause(c),
{
    match c {
        FailureCause::LinkUnavailable => true,
        FailureCause::WriterLocked => true,
        _ => false,
    }
}

fn is_repairable_cause(c: FailureCause) -> (res: bool)
    ensures
        res == repairable_cause(c),
{
    match c {
        FailureCause::BrokenLink => true,
        FailureCause::LinkUnavailable => true,
        _ => false,
    }
}

fn is_invalid_input_cause(c: FailureCause) -> (res: bool)
    ensures
        res == invalid_input_cause(c),
{
    match c {
        FailureCause::ValidationRun(RunFailure::SelfValidation) => true,
        FailureCause::ValidationRun(RunFailure::DuplicateContainerUid) => true,
        _ => false,
    }
}

/// Whether a failure comes from a temporarily unavailable peer or a locked container.
pub fn is_unavailable_link_error(f: &Failure) -> (res: bool)
    ensures
        res == is_unavailable_spec(*f),
{
    let mut i: usize = 0;
    while i < f.chain.len()
        invariant
            i <= f.chain@.len(),
            forall|j: int| 0 <= j < i ==> !#[trigger] unavailable_cause(f.chain@[j]),
        decreases f.chain@.len() - i,
    {
        if is_unavailable_cause(f.chain[i]) {
            assert((|c: FailureCause| unavailable_cause(c))(f.chain@[i as int]));
            return true;
        }
        i = i + 1;
    }
    assert(!chain_has(f.chain@, |c: FailureCause| unavailable_cause(c)));
    match f.top {
        FailureCause::UnlinkAccess(AccessFailure::Unavailable) => true,
        FailureCause::LinkAccess(AccessFailure::Unavailable) => true,
        _ => false,
    }
}

/// Whether an interactive link check may repair the failure, so that an `--auto-fix` command
/// is worth retrying.
pub fn is_repairable_link_error(f: &Failure) -> (res: bool)
    ensures
        res == is_repairable_spec(*f),
{
    let mut i: usize = 0;
    while i < f.chain.len()
        invariant
            i <= f.chain@.len(),
            forall|j: int| 0 <= j < i ==> !#[trigger] repairable_cause(f.chain@[j]),
        decreases f.chain@.len() - i,
    {
        if is_repairable_cause(f.chain[i]) {
            assert((|c: FailureCause| repairable_cause(c))(f.chain@[i as int]));
            return true;
        }
        i = i + 1;
    }
    assert(!chain_has(f.chain@, |c: FailureCause| repairable_cause(c)));
    match f.top {
        FailureCause::UnlinkAccess(_) => true,
        FailureCause::LinkAccess(_) => true,
        _ => false,
    }
}

fn has_invalid_input(f: &Failure) -> (res: bool)
    ensures
        res == chain_has(f.chain@, |c: FailureCause| invalid_input_cause(c)),
{
    let mut i: usize = 0;
    while i < f.chain.len()
        invariant
            i <= f.chain@.len(),
            forall|j: int| 0 <= j < i ==> !#[trigger] invalid_input_cause(f.chain@[j]),
        decreases f.chain@.len() - i,
    {
        if is_invalid_input_cause(f.chain[i]) {
            assert((|c: FailureCause| invalid_input_cause(c))(f.chain@[i as int]));
            return true;
        }
        i = i + 1;
    }
    false
}

/// The process status of a failed command.
pub fn failure_exit_code(f: &Failure) -> (res: i32)
    ensures
        res == exit_status_spec(*f),
{
    match f.top {
        FailureCause::ValidationCommand(e) => e.exit_code(),
        _ => {
            if is_unavailable_link_error(f) {
                3
            } else if has_invalid_input(f) {
                2
            } else {
                1
            }
        },
    }
}

/// Whether an `--auto-fix` command that failed with `f` runs the interactive link check and
/// retries: only when auto-fix was asked for and the failure is repairable.
pub fn auto_fix_applies(auto_fix: bool, f: &Failure) -> (res: bool)
    ensures
        res == (auto_fix && is_repairable_spec(*f)),
{
    auto_fix && is_repairable_link_error(f)
}

/// The message that refuses a retry while skipped issues remain.
pub open spec fn skipped_refusal_spec(skipped: nat) -> Seq<char> {
    "link consistency still has "@ + decimal_spec(skipped)
        + " skipped issue(s); operation was not retried"@
}

/// Whether a failed `--auto-fix` command is retried after its interactive link check: only when
/// the check left no issue skipped; otherwise the refusal message.
pub fn retry_after_check(skipped_issues: usize) -> (res: Result<(), String>)
    ensures
        skipped_issues == 0 ==> res is Ok,
        skipped_issues != 0 ==> (res matches Err(m) && m@ == skipped_refusal_spec(
            skipped_issues as nat,
        )),
{
    if skipped_issues != 0 {
        let mut m = String::new();
        m.append("link consistency still has ");
        m.append(decimal_usize(skipped_issues).as_str());
        m.append(" skipped issue(s); operation was not retried");
        Err(m)
    } else {
        Ok(())
    }
}

} // verus!

verus! {

/// A listing or link-info command that fails its validation exits with status `1` when some
/// report holds broken relationships and with status `3` when the reports hold only unavailable
/// peers, whatever else its error chain holds.
pub proof fn law_validation_failure_status(
    reports: Seq<Option<crate::validation::ValidationReport>>,
    f: Failure,
)
    requires
        crate::validation::validation_outcome(reports) matches Err(e) && f.top
            == FailureCause::ValidationCommand(e),
    ensures
        exit_status_spec(f) == if crate::validation::total_broken(reports) > 0 {
            1i32
        } else {
            3i32
        },
{
}

} // verus!

verus! {

/// A failure whose returned error is a link creation or a link removal that could not reach a
/// temporarily unavailable peer is unavailable and exits with status 3, whatever the rest of
/// its chain holds.
pub proof fn law_unreachable_peer_exits_three(f: Failure)
    requires
        f.top == FailureCause::LinkAccess(AccessFailure::Unavailable) || f.top
            == FailureCause::UnlinkAccess(AccessFailure::Unavailable),
    ensures
        is_unavailable_spec(f),
        exit_status_spec(f) == 3,
        is_repairable_spec(f),
{
}

/// Link creation and link removal are treated alike: two failures with the same chain whose
/// returned errors are a creation and a removal failing in the same way get the same
/// classification and the same exit status.
pub proof fn law_link_and_unlink_alike(f: Failure, g: Failure, a: AccessFailure)
    requires
        f.top == FailureCause::LinkAccess(a),
        g.top == FailureCause::UnlinkAccess(a),
        f.chain@ == g.chain@,
    ensures
        is_unavailable_spec(f) == is_unavailable_spec(g),
        is_repairable_spec(f) == is_repairable_spec(g),
        exit_status_spec(f) == exit_status_spec(g),
        is_unavailable_spec(f) == (a == AccessFailure::Unavailable || chain_has(
            f.chain@,
            |c: FailureCause| unavailable_cause(c),
        )),
{
}

} // verus!
