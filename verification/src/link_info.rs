//! The `linkinfo` command: directional link metadata of one entry with its optional
//! reciprocal validation.
use vstd::prelude::*;

use crate::listing::{LinkInfo, Linker};
use crate::text::{decimal_spec, decimal_usize};
use crate::validation::{
    ensure_validation_success, lines_view, print_validation_report, report_lines_spec,
    total_broken, total_unavailable, validation_doc_of, validation_json, validation_outcome,
    ValidationCommandError, ValidationDoc, ValidationReport,
};

verus! {

/// The two lines of one incoming-link source, numbered from zero.
pub open spec fn source_lines_spec(linkers: Seq<Linker>) -> Seq<Seq<char>>
    decreases linkers.len(),
{
    if linkers.len() == 0 {
        Seq::empty()
    } else {
        let i = (linkers.len() - 1) as nat;
        source_lines_spec(linkers.drop_last()) + seq![
            "source["@ + decimal_spec(i) + "].container_uid: "@ + linkers.last().linker_uid@,
            "source["@ + decimal_spec(i) + "].linker_key: "@ + linkers.last().linker_key@,
        ]
    }
}

/// The human-readable lines of an entry's link metadata.
pub open spec fn info_lines_spec(info: LinkInfo) -> Seq<Seq<char>> {
    match info {
        LinkInfo::Unlinked => seq!["not linked"@],
        LinkInfo::LinkTo { target_key, container_uid, container_path } => seq![
            "direction: to"@,
            "container_uid: "@ + container_uid@,
            "container_path: "@ + container_path@,
            "target_key: "@ + target_key@,
        ],
        LinkInfo::LinkFrom { linkers } => seq!["direction: from"@] + source_lines_spec(linkers@),
    }
}

/// The human-readable output of `linkinfo`: the link metadata, then the validation summary or
/// `validation: unverified`.
pub open spec fn link_info_lines_spec(info: LinkInfo, validation: Option<ValidationReport>) -> Seq<
    Seq<char>,
> {
    info_lines_spec(info) + match validation {
        Some(r) => report_lines_spec(r),
        None => seq!["validation: unverified"@],
    }
}

fn line(a: &str) -> (res: String)
    ensures
        res@ == a@,
{
    let mut s = String::new();
    s.append(a);
    s
}

fn text_line(a: &str, b: &str) -> (res: String)
    ensures
        res@ == a@ + b@,
{
    let mut s = String::new();
    s.append(a);
    s.append(b);
    s
}

fn push_lines(lines: &mut Vec<String>, more: Vec<String>)
    ensures
        lines_view(final(lines)@) == lines_view(old(lines)@) + lines_view(more@),
{
    let ghost start = lines_view(lines@);
    let mut i: usize = 0;
    let mut more = more;
    let ghost all = lines_view(more@);
    while i < more.len()
        invariant
            i <= more@.len(),
            all == lines_view(more@),
            lines_view(lines@) == start + all.take(i as int),
        decreases more@.len() - i,
    {
        let line = more[i].clone();
        let ghost before = lines_view(lines@);
        lines.push(line);
        assert(lines_view(lines@) =~= before.push(all[i as int]));
        i = i + 1;
        assert(all.take(i as int) =~= all.take(i - 1).push(all[i - 1]));
    }
    assert(all.take(i as int) =~= all);
}

/// Renders the human-readable output of `linkinfo`.
pub fn link_info_lines(info: &LinkInfo, validation: &Option<ValidationReport>) -> (res: Vec<String>)
    ensures
        lines_view(res@) == link_info_lines_spec(*info, *validation),
{
    let mut lines: Vec<String> = Vec::new();
    match info {
        LinkInfo::Unlinked => {
            lines.push(line("not linked"));
        },
        LinkInfo::LinkTo { target_key, container_uid, container_path } => {
            lines.push(line("direction: to"));
            lines.push(text_line("container_uid: ", container_uid.as_str()));
            lines.push(text_line("container_path: ", container_path.as_str()));
            lines.push(text_line("target_key: ", target_key.as_str()));
        },
        LinkInfo::LinkFrom { linkers } => {
            lines.push(line("direction: from"));
            assert(lines_view(lines@) =~= seq!["direction: from"@]);
            let mut i: usize = 0;
            assert(linkers@.take(0) =~= Seq::<Linker>::empty());
            while i < linkers.len()
                invariant
                    i <= linkers@.len(),
                    lines_view(lines@) == seq!["direction: from"@] + source_lines_spec(
                        linkers@.take(i as int),
                    ),
                decreases linkers@.len() - i,
            {
                let ghost before = lines_view(lines@);
                let index = decimal_usize(i);
                let mut a = String::new();
                a.append("source[");
                a.append(index.as_str());
                a.append("].container_uid: ");
                a.append(linkers[i].linker_uid.as_str());
                let mut b = String::new();
                b.append("source[");
                b.append(index.as_str());
                b.append("].linker_key: ");
                b.append(linkers[i].linker_key.as_str());
                lines.push(a);
                lines.push(b);
                let ghost t = linkers@.take(i + 1);
                assert(t.drop_last() =~= linkers@.take(i as int));
                assert(lines_view(lines@) =~= before + seq![
                    "source["@ + decimal_spec(i as nat) + "].container_uid: "@ + linkers@[i as int].linker_uid@,
                    "source["@ + decimal_spec(i as nat) + "].linker_key: "@ + linkers@[i as int].linker_key@,
                ]);
                i = i + 1;
            }
            assert(linkers@.take(i as int) =~= linkers@);
        },
    }
    assert(lines_view(lines@) =~= info_lines_spec(*info));
    match validation {
        Some(report) => {
            push_lines(&mut lines, print_validation_report(report));
        },
        None => {
            let ghost before = lines_view(lines@);
            lines.push(line("validation: unverified"));
            assert(lines_view(lines@) =~= before.push("validation: unverified"@));
        },
    }
    assert(lines_view(lines@) =~= link_info_lines_spec(*info, *validation));
    lines
}

/// The structured form of an entry's link metadata, tagged by direction.
pub enum LinkInfoJson {
    Unlinked,
    To { target_key: String, container_uid: String, container_path: String },
    From { linkers: Vec<Linker> },
}

/// `doc` encodes `info` field by field, every linker in order.
pub open spec fn link_info_doc_of(doc: LinkInfoJson, info: LinkInfo) -> bool {
    match (doc, info) {
        (LinkInfoJson::Unlinked, LinkInfo::Unlinked) => true,
        (
            LinkInfoJson::To { target_key: a, container_uid: b, container_path: c },
            LinkInfo::LinkTo { target_key: x, container_uid: y, container_path: z },
        ) => a == x && b == y && c == z,
        (LinkInfoJson::From { linkers: a }, LinkInfo::LinkFrom { linkers: x }) => a@ == x@,
        _ => false,
    }
}

/// Encodes an entry's link metadata independently of validation.
pub fn link_info_json(info: &LinkInfo) -> (res: LinkInfoJson)
    ensures
        link_info_doc_of(res, *info),
{
    match info {
        LinkInfo::Unlinked => LinkInfoJson::Unlinked,
        LinkInfo::LinkTo { target_key, container_uid, container_path } => LinkInfoJson::To {
            target_key: target_key.clone(),
            container_uid: container_uid.clone(),
            container_path: container_path.clone(),
        },
        LinkInfo::LinkFrom { linkers } => {
            let mut out: Vec<Linker> = Vec::new();
            let mut i: usize = 0;
            while i < linkers.len()
                invariant
                    i <= linkers@.len(),
                    out@ == linkers@.take(i as int),
                decreases linkers@.len() - i,
            {
                out.push(linkers[i].duplicate());
                i = i + 1;
                assert(out@ =~= linkers@.take(i as int));
            }
            assert(linkers@.take(i as int) =~= linkers@);
            LinkInfoJson::From { linkers: out }
        },
    }
}

/// The document of `linkinfo --json`.
pub struct LinkInfoDoc {
    pub link_info: LinkInfoJson,
    pub validation: Option<ValidationDoc>,
}

/// What `linkinfo` prints.
pub enum LinkInfoOutput {
    Lines(Vec<String>),
    Json(LinkInfoDoc),
}

/// Rendered `linkinfo` output and whether the command succeeds.
pub struct LinkInfoRendering {
    pub output: LinkInfoOutput,
    pub status: Result<(), ValidationCommandError>,
}

/// Renders one entry's link metadata and optional validation, as a document with `--json` or
/// as lines otherwise; the command fails when the report holds broken or unavailable items.
pub fn link_info(info: &LinkInfo, validation: &Option<ValidationReport>, json: bool) -> (res: LinkInfoRendering)
    ensures
        res.status == validation_outcome(seq![*validation]),
        json ==> (res.output matches LinkInfoOutput::Json(doc) && link_info_doc_of(
            doc.link_info,
            *info,
        ) && match *validation {
            Some(r) => doc.validation matches Some(d) && validation_doc_of(d, r),
            None => doc.validation is None,
        }),
        !json ==> (res.output matches LinkInfoOutput::Lines(lines) && lines_view(lines@)
            == link_info_lines_spec(*info, *validation)),
{
    let output = if json {
        let doc = LinkInfoDoc {
            link_info: link_info_json(info),
            validation: match validation {
                Some(r) => Some(validation_json(r)),
                None => None,
            },
        };
        LinkInfoOutput::Json(doc)
    } else {
        LinkInfoOutput::Lines(link_info_lines(info, validation))
    };
    let slot = match validation {
        Some(r) => {
            assert(r.broken@.len() == r.broken.len() && r.unavailable@.len() == r.unavailable.len());
            Some(r.duplicate())
        },
        None => None,
    };
    let mut slots: Vec<Option<ValidationReport>> = Vec::new();
    slots.push(slot);
    proof {
        lemma_same_outcome(slot, *validation);
    }
    proof {
        lemma_single_totals(slot);
    }
    assert(slots@ =~= seq![slot]);
    let status = ensure_validation_success(&slots);
    LinkInfoRendering { output, status }
}

proof fn lemma_same_outcome(a: Option<ValidationReport>, b: Option<ValidationReport>)
    requires
        a is Some <==> b is Some,
        a is Some ==> a->0.broken@.len() == b->0.broken@.len() && a->0.unavailable@.len()
            == b->0.unavailable@.len(),
    ensures
        validation_outcome(seq![a]) == validation_outcome(seq![b]),
{
    assert(seq![a].drop_last() =~= Seq::<Option<ValidationReport>>::empty());
    assert(seq![b].drop_last() =~= Seq::<Option<ValidationReport>>::empty());
}

proof fn lemma_single_totals(v: Option<ValidationReport>)
    requires
        v matches Some(r) ==> r.broken@.len() <= usize::MAX && r.unavailable@.len() <= usize::MAX,
    ensures
        total_broken(seq![v]) <= usize::MAX,
        total_unavailable(seq![v]) <= usize::MAX,
{
    assert(seq![v].drop_last() =~= Seq::<Option<ValidationReport>>::empty());
    match v {
        Some(r) => {},
        None => {},
    }
    assert(seq![v].last() == v);
    assert(total_broken(Seq::<Option<ValidationReport>>::empty()) == 0);
    assert(total_unavailable(Seq::<Option<ValidationReport>>::empty()) == 0);
}

/// Whether `linkinfo --auto-fix` runs the interactive link check and reloads: only when a
/// report was made and judged invalid.
pub fn link_info_needs_repair(auto_fix: bool, validation: &Option<ValidationReport>) -> (res: bool)
    ensures
        res == (auto_fix && match *validation {
            Some(r) => !r.is_valid,
            None => false,
        }),
{
    auto_fix && match validation {
        Some(r) => !r.is_valid,
        None => false,
    }
}

} // verus!

verus! {

/// For an outgoing link the text output names the direction, then carries each identity under
/// the label of the same name: the `container_uid: ` line ends with the link's container uid,
/// the `container_path: ` line with its container path, and the `target_key: ` line with its
/// target key; whatever the validation, these are the first four lines.
pub proof fn law_link_to_lines_label_their_fields(
    info: LinkInfo,
    validation: Option<ValidationReport>,
)
    requires
        info is LinkTo,
    ensures
        ({
            let lines = link_info_lines_spec(info, validation);
            &&& lines.len() >= 5
            &&& lines[0] == "direction: to"@
            &&& lines[1] == "container_uid: "@ + info->container_uid@
            &&& lines[2] == "container_path: "@ + info->container_path@
            &&& lines[3] == "target_key: "@ + info->target_key@
            &&& lines[1].subrange(15, lines[1].len() as int) == info->container_uid@
            &&& lines[2].subrange(16, lines[2].len() as int) == info->container_path@
        }),
{
    reveal_strlit("container_uid: ");
    reveal_strlit("container_path: ");
    let lines = link_info_lines_spec(info, validation);
    let l1 = "container_uid: "@ + info->container_uid@;
    let l2 = "container_path: "@ + info->container_path@;
    assert(l1.subrange(15, l1.len() as int) =~= info->container_uid@);
    assert(l2.subrange(16, l2.len() as int) =~= info->container_path@);
    match validation {
        Some(r) => {
            assert(crate::validation::report_lines_spec(r).len() >= 1);
        },
        None => {},
    }
}

} // verus!
