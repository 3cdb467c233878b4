//! The summary of generated broken-container fixtures: per-case errors, the distinct error
//! types they cover, and the validation types left uncovered.
use vstd::prelude::*;

use crate::text::{decimal_spec, decimal_usize};
use crate::validation::{issue_kind_spec, lines_view, validation_issue_kind, ValidationIssueKind};

verus! {

/// An error that a fixture case reproduces.
#[derive(Clone, Copy, PartialEq, Eq, Structural, Debug)]
pub enum BrokenFixtureErrorKind {
    Validation(ValidationIssueKind),
    MissingSymlink,
    IncorrectSymlink,
    UnrecordedSymlink,
    Unavailable,
}

/// The dotted name of a fixture error.
pub open spec fn error_name_spec(kind: BrokenFixtureErrorKind) -> Seq<char> {
    match kind {
        BrokenFixtureErrorKind::Validation(k) => "validation."@ + issue_kind_spec(k),
        BrokenFixtureErrorKind::MissingSymlink => "check.missing_symlink"@,
        BrokenFixtureErrorKind::IncorrectSymlink => "check.incorrect_symlink"@,
        BrokenFixtureErrorKind::UnrecordedSymlink => "check.unrecorded_symlink"@,
        BrokenFixtureErrorKind::Unavailable => "availability.unavailable"@,
    }
}

/// Names one fixture error with its dotted identifier.
pub fn broken_error_kind(kind: BrokenFixtureErrorKind) -> (res: String)
    ensures
        res@ == error_name_spec(kind),
{
    let mut s = String::new();
    match kind {
        BrokenFixtureErrorKind::Validation(k) => {
            s.append("validation.");
            s.append(validation_issue_kind(k));
        },
        BrokenFixtureErrorKind::MissingSymlink => s.append("check.missing_symlink"),
        BrokenFixtureErrorKind::IncorrectSymlink => s.append("check.incorrect_symlink"),
        BrokenFixtureErrorKind::UnrecordedSymlink => s.append("check.unrecorded_symlink"),
        BrokenFixtureErrorKind::Unavailable => s.append("availability.unavailable"),
    }
    s
}

/// One generated scenario.
pub struct FixtureCase {
    pub name: String,
    pub current_container: String,
    pub key: String,
    pub corresponding_containers: Vec<String>,
    pub errors: Vec<BrokenFixtureErrorKind>,
}

/// A verified set of generated scenarios.
pub struct BrokenFixture {
    pub root: String,
    pub containers: usize,
    pub cases: Vec<FixtureCase>,
    pub uncovered_validation_kinds: Vec<ValidationIssueKind>,
}

/// The names of a list of errors.
pub open spec fn error_names(errors: Seq<BrokenFixtureErrorKind>) -> Seq<Seq<char>> {
    errors.map_values(|e: BrokenFixtureErrorKind| error_name_spec(e))
}

/// The names of every error of every case, in case order.
pub open spec fn all_error_names(cases: Seq<FixtureCase>) -> Seq<Seq<char>>
    decreases cases.len(),
{
    if cases.len() == 0 {
        Seq::empty()
    } else {
        all_error_names(cases.drop_last()) + error_names(cases.last().errors@)
    }
}

/// The distinct texts of a sequence, each at its first occurrence.
pub open spec fn distinct(s: Seq<Seq<char>>) -> Seq<Seq<char>>
    decreases s.len(),
{
    if s.len() == 0 {
        Seq::empty()
    } else {
        let d = distinct(s.drop_last());
        if d.contains(s.last()) {
            d
        } else {
            d.push(s.last())
        }
    }
}

/// The lines of one case.
pub open spec fn case_lines_spec(case: FixtureCase) -> Seq<Seq<char>> {
    seq![
        "case: "@ + case.name@,
        "  current: "@ + case.current_container@,
        "  key: "@ + case.key@,
    ] + case.corresponding_containers@.map_values(|p: String| "  corresponding: "@ + p@)
        + case.errors@.map_values(|e: BrokenFixtureErrorKind| "  error: "@ + error_name_spec(e))
}

/// The lines of every case, in order.
pub open spec fn cases_lines_spec(cases: Seq<FixtureCase>) -> Seq<Seq<char>>
    decreases cases.len(),
{
    if cases.len() == 0 {
        Seq::empty()
    } else {
        cases_lines_spec(cases.drop_last()) + case_lines_spec(cases.last())
    }
}

/// The whole summary: created root and counts, every case, the distinct covered error types,
/// and the uncovered validation types.
pub open spec fn fixture_lines_spec(f: BrokenFixture) -> Seq<Seq<char>> {
    let covered = distinct(all_error_names(f.cases@));
    seq![
        "created: "@ + f.root@,
        "containers: "@ + decimal_spec(f.containers as nat),
        "cases: "@ + decimal_spec(f.cases@.len()),
    ] + cases_lines_spec(f.cases@) + seq![
        "covered error types: "@ + decimal_spec(covered.len()),
    ] + covered.map_values(|n: Seq<char>| "  "@ + n) + seq![
        "uncovered validation types: "@ + decimal_spec(f.uncovered_validation_kinds@.len()),
    ] + f.uncovered_validation_kinds@.map_values(
        |k: ValidationIssueKind| "  validation."@ + issue_kind_spec(k),
    )
}

fn joined(a: &str, b: &str) -> (res: String)
    ensures
        res@ == a@ + b@,
{
    let mut s = String::new();
    s.append(a);
    s.append(b);
    s
}

fn push_line(lines: &mut Vec<String>, line: String)
    ensures
        lines_view(final(lines)@) == lines_view(old(lines)@).push(line@),
{
    let ghost before = lines_view(lines@);
    lines.push(line);
    assert(lines_view(lines@) =~= before.push(line@));
}

fn contains_text(names: &Vec<String>, name: &String) -> (res: bool)
    ensures
        res == lines_view(names@).contains(name@),
{
    let mut i: usize = 0;
    while i < names.len()
        invariant
            i <= names@.len(),
            forall|j: int| 0 <= j < i ==> names@[j]@ != name@,
        decreases names@.len() - i,
    {
        if names[i].eq(name) {
            assert(lines_view(names@)[i as int] == name@);
            return true;
        }
        i = i + 1;
    }
    assert(!lines_view(names@).contains(name@)) by {
        if lines_view(names@).contains(name@) {
            let k = choose|k: int| 0 <= k < lines_view(names@).len() && lines_view(names@)[k] == name@;
            assert(names@[k]@ == name@);
        }
    }
    false
}

fn push_case_lines(lines: &mut Vec<String>, covered: &mut Vec<String>, case: &FixtureCase)
    ensures
        lines_view(final(lines)@) == lines_view(old(lines)@) + case_lines_spec(*case),
        lines_view(final(covered)@) == distinct_from(lines_view(old(covered)@), error_names(case.errors@)),
{
    let ghost start = lines_view(lines@);
    push_line(lines, joined("case: ", case.name.as_str()));
    push_line(lines, joined("  current: ", case.current_container.as_str()));
    push_line(lines, joined("  key: ", case.key.as_str()));
    let ghost head = lines_view(lines@);
    assert(head =~= start + seq![
        "case: "@ + case.name@,
        "  current: "@ + case.current_container@,
        "  key: "@ + case.key@,
    ]);
    let ghost corr = case.corresponding_containers@.map_values(|p: String| "  corresponding: "@ + p@);
    let mut i: usize = 0;
    while i < case.corresponding_containers.len()
        invariant
            i <= case.corresponding_containers@.len(),
            corr == case.corresponding_containers@.map_values(|p: String| "  corresponding: "@ + p@),
            lines_view(lines@) == head + corr.take(i as int),
        decreases case.corresponding_containers@.len() - i,
    {
        push_line(lines, joined("  corresponding: ", case.corresponding_containers[i].as_str()));
        i = i + 1;
        assert(corr.take(i as int) =~= corr.take(i - 1).push(corr[i - 1]));
    }
    assert(corr.take(i as int) =~= corr);
    let ghost mid = lines_view(lines@);
    let ghost errs = case.errors@.map_values(|e: BrokenFixtureErrorKind| "  error: "@ + error_name_spec(e));
    let ghost names = error_names(case.errors@);
    let ghost covered_start = lines_view(covered@);
    let mut j: usize = 0;
    while j < case.errors.len()
        invariant
            j <= case.errors@.len(),
            errs == case.errors@.map_values(|e: BrokenFixtureErrorKind| "  error: "@ + error_name_spec(e)),
            names == error_names(case.errors@),
            lines_view(lines@) == mid + errs.take(j as int),
            lines_view(covered@) == distinct_from(covered_start, names.take(j as int)),
        decreases case.errors@.len() - j,
    {
        let name = broken_error_kind(case.errors[j]);
        push_line(lines, joined("  error: ", name.as_str()));
        assert(names.take(j + 1).drop_last() =~= names.take(j as int));
        assert(names.take(j + 1).last() == name@);
        if !contains_text(covered, &name) {
            push_line(covered, name);
        }
        j = j + 1;
        assert(errs.take(j as int) =~= errs.take(j - 1).push(errs[j - 1]));
    }
    assert(errs.take(j as int) =~= errs);
    assert(names.take(j as int) =~= names);
    assert(lines_view(lines@) =~= start + case_lines_spec(*case));
}

/// `distinct` continued from an already distinct prefix.
pub open spec fn distinct_from(d: Seq<Seq<char>>, s: Seq<Seq<char>>) -> Seq<Seq<char>>
    decreases s.len(),
{
    if s.len() == 0 {
        d
    } else {
        let e = distinct_from(d, s.drop_last());
        if e.contains(s.last()) {
            e
        } else {
            e.push(s.last())
        }
    }
}

proof fn lemma_distinct_from_concat(d: Seq<Seq<char>>, a: Seq<Seq<char>>, b: Seq<Seq<char>>)
    ensures
        distinct_from(d, a + b) == distinct_from(distinct_from(d, a), b),
    decreases b.len(),
{
    if b.len() == 0 {
        assert(a + b =~= a);
    } else {
        lemma_distinct_from_concat(d, a, b.drop_last());
        assert((a + b).drop_last() =~= a + b.drop_last());
        assert((a + b).last() == b.last());
    }
}

proof fn lemma_distinct_is_from_empty(s: Seq<Seq<char>>)
    ensures
        distinct(s) == distinct_from(Seq::empty(), s),
    decreases s.len(),
{
    if s.len() > 0 {
        lemma_distinct_is_from_empty(s.drop_last());
    }
}

/// Renders the summary of generated fixtures.
pub fn print_broken_fixture(f: &BrokenFixture) -> (res: Vec<String>)
    ensures
        lines_view(res@) == fixture_lines_spec(*f),
{
    let mut lines: Vec<String> = Vec::new();
    push_line(&mut lines, joined("created: ", f.root.as_str()));
    push_line(&mut lines, joined("containers: ", decimal_usize(f.containers).as_str()));
    push_line(&mut lines, joined("cases: ", decimal_usize(f.cases.len()).as_str()));
    let ghost head = lines_view(lines@);
    let mut covered: Vec<String> = Vec::new();
    let mut i: usize = 0;
    while i < f.cases.len()
        invariant
            i <= f.cases@.len(),
            lines_view(lines@) == head + cases_lines_spec(f.cases@.take(i as int)),
            lines_view(covered@) == distinct_from(Seq::empty(), all_error_names(f.cases@.take(i as int))),
        decreases f.cases@.len() - i,
    {
        let ghost t = f.cases@.take(i + 1);
        assert(t.drop_last() =~= f.cases@.take(i as int));
        assert(t.last() == f.cases@[i as int]);
        proof {
            lemma_distinct_from_concat(
                Seq::empty(),
                all_error_names(f.cases@.take(i as int)),
                error_names(f.cases@[i as int].errors@),
            );
        }
        push_case_lines(&mut lines, &mut covered, &f.cases[i]);
        i = i + 1;
        assert(lines_view(lines@) =~= head + cases_lines_spec(f.cases@.take(i as int)));
    }
    assert(f.cases@.take(i as int) =~= f.cases@);
    proof {
        lemma_distinct_is_from_empty(all_error_names(f.cases@));
    }
    let ghost cov = lines_view(covered@);
    push_line(&mut lines, joined("covered error types: ", decimal_usize(covered.len()).as_str()));
    let ghost mid = lines_view(lines@);
    let mut k: usize = 0;
    while k < covered.len()
        invariant
            k <= covered@.len(),
            cov == lines_view(covered@),
            lines_view(lines@) == mid + cov.take(k as int).map_values(|n: Seq<char>| "  "@ + n),
        decreases covered@.len() - k,
    {
        push_line(&mut lines, joined("  ", covered[k].as_str()));
        k = k + 1;
        assert(cov.take(k as int).map_values(|n: Seq<char>| "  "@ + n) =~= cov.take(k - 1).map_values(
            |n: Seq<char>| "  "@ + n,
        ).push("  "@ + cov[k - 1]));
    }
    assert(cov.take(k as int) =~= cov);
    push_line(
        &mut lines,
        joined("uncovered validation types: ", decimal_usize(f.uncovered_validation_kinds.len()).as_str()),
    );
    let ghost tail = lines_view(lines@);
    let ghost unc = f.uncovered_validation_kinds@.map_values(
        |k: ValidationIssueKind| "  validation."@ + issue_kind_spec(k),
    );
    let mut u: usize = 0;
    while u < f.uncovered_validation_kinds.len()
        invariant
            u <= f.uncovered_validation_kinds@.len(),
            unc == f.uncovered_validation_kinds@.map_values(
                |k: ValidationIssueKind| "  validation."@ + issue_kind_spec(k),
            ),
            lines_view(lines@) == tail + unc.take(u as int),
        decreases f.uncovered_validation_kinds@.len() - u,
    {
        push_line(
            &mut lines,
            joined("  validation.", validation_issue_kind(f.uncovered_validation_kinds[u])),
        );
        u = u + 1;
        assert(unc.take(u as int) =~= unc.take(u - 1).push(unc[u - 1]));
    }
    assert(unc.take(u as int) =~= unc);
    assert(lines_view(lines@) =~= fixture_lines_spec(*f));
    lines
}

/// The covered error types are the distinct error names of all cases: none is listed twice, and
/// every error of every case is listed.
pub proof fn law_covered_types_are_distinct(f: BrokenFixture)
    ensures
        distinct(all_error_names(f.cases@)).no_duplicates(),
        distinct(all_error_names(f.cases@)).to_set() == all_error_names(f.cases@).to_set(),
{
    lemma_distinct_props(all_error_names(f.cases@));
}

proof fn lemma_distinct_props(s: Seq<Seq<char>>)
    ensures
        distinct(s).no_duplicates(),
        distinct(s).to_set() == s.to_set(),
    decreases s.len(),
{
    if s.len() == 0 {
        assert(distinct(s).to_set() =~= s.to_set());
    } else {
        let p = s.drop_last();
        let x = s.last();
        lemma_distinct_props(p);
        let d = distinct(p);
        assert(s =~= p.push(x));
        p.lemma_push_to_set_commute(x);
        if d.contains(x) {
            assert(d.to_set().contains(x));
            assert(s.to_set() =~= p.to_set().insert(x));
            assert(d.to_set() =~= d.to_set().insert(x));
        } else {
            d.lemma_push_to_set_commute(x);
            assert forall|i: int, j: int|
                0 <= i < d.push(x).len() && 0 <= j < d.push(x).len() && i != j implies d.push(x)[i]
                != d.push(x)[j] by {
                if i < d.len() && j < d.len() {
                } else if i == d.len() {
                    assert(d.push(x)[j] == d[j]);
                } else {
                    assert(d.push(x)[i] == d[i]);
                }
            }
        }
    }
}

} // verus!
