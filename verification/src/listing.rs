//! Entry listings: per-entry rows and documents, whole-list rendering, and which entries a
//! detailed listing validates.
use vstd::prelude::*;

use crate::text::{decimal, decimal_spec, decimal_usize};
use crate::validation::{
    ensure_validation_success, lines_view, status_spec, total_broken, total_unavailable,
    validation_doc_of, validation_json, validation_outcome, validation_status,
    validations_need_fix, need_fix_spec, ValidationCommandError, ValidationDoc, ValidationReport,
};

verus! {

/// One incoming-link record: the linking container and the key that links.
pub struct Linker {
    pub linker_uid: String,
    pub linker_key: String,
}

impl Linker {
    /// A field-by-field copy.
    pub fn duplicate(&self) -> (res: Self)
        ensures
            res == *self,
    {
        Linker { linker_uid: self.linker_uid.clone(), linker_key: self.linker_key.clone() }
    }
}

/// The link classification of an entry.
pub enum LinkInfo {
    /// An ordinary entry that nothing links to.
    Unlinked,
    /// An outgoing link to an entry of another container.
    LinkTo { target_key: String, container_uid: String, container_path: String },
    /// An ordinary entry that other containers link to.
    LinkFrom { linkers: Vec<Linker> },
}

/// One listed entry: its key, size when known, filesystem path and link classification.
pub struct EntryInfo {
    pub key: String,
    pub size: Option<u64>,
    pub filepath: String,
    pub link: LinkInfo,
}

/// Detail, validation, repair and output controls of a list command.
pub struct ListOptions {
    pub json: bool,
    pub auto_fix: bool,
    pub verbose: u8,
    pub link_info: bool,
    /// Locators of the peers to validate against.
    pub validate_with: Vec<String>,
}

/// The stable type label of an entry.
pub open spec fn entry_kind_spec(link: LinkInfo) -> Seq<char> {
    match link {
        LinkInfo::Unlinked => "local"@,
        LinkInfo::LinkTo { .. } => "link-to"@,
        LinkInfo::LinkFrom { .. } => "local-linked-from"@,
    }
}

/// Maps link metadata to the stable type label of list output.
pub fn entry_kind(link: &LinkInfo) -> (res: &'static str)
    ensures
        res@ == entry_kind_spec(*link),
{
    match link {
        LinkInfo::Unlinked => "local",
        LinkInfo::LinkTo { .. } => "link-to",
        LinkInfo::LinkFrom { .. } => "local-linked-from",
    }
}

/// The first fields of a detailed row: key, type, and the link identity when asked for.
pub open spec fn summary_spec(entry: EntryInfo, link_info: bool) -> Seq<char> {
    let key = entry.key@;
    match entry.link {
        LinkInfo::Unlinked => if link_info {
            key + "\ttype=local\tlink=none"@
        } else {
            key + "\ttype=local"@
        },
        LinkInfo::LinkTo { target_key, container_path, .. } => if link_info {
            key + "\ttype=link-to\ttarget="@ + container_path@ + ":"@ + target_key@
        } else {
            key + "\ttype=link-to"@
        },
        LinkInfo::LinkFrom { linkers } => if link_info {
            key + "\ttype=local-linked-from\tsources="@ + decimal_spec(linkers@.len())
        } else {
            key + "\ttype=local-linked-from"@
        },
    }
}

/// The validation field of a detailed row.
pub open spec fn validation_field_spec(validation: Option<ValidationReport>) -> Seq<char> {
    match validation {
        Some(r) => status_spec(r),
        None => "unverified"@,
    }
}

/// The summary with its validation field when link information is asked for.
pub open spec fn head_spec(
    entry: EntryInfo,
    link_info: bool,
    validation: Option<ValidationReport>,
) -> Seq<char> {
    if link_info {
        summary_spec(entry, link_info) + "\tvalidation="@ + validation_field_spec(validation)
    } else {
        summary_spec(entry, link_info)
    }
}

/// The size field of a detailed row.
pub open spec fn size_field_spec(size: Option<u64>) -> Seq<char> {
    match size {
        Some(s) => decimal_spec(s as nat),
        None => "unknown"@,
    }
}

/// The source fields of an entry linked from other containers, numbered from zero.
pub open spec fn sources_spec(linkers: Seq<Linker>) -> Seq<char>
    decreases linkers.len(),
{
    if linkers.len() == 0 {
        Seq::empty()
    } else {
        sources_spec(linkers.drop_last()) + "\tsource["@ + decimal_spec(
            (linkers.len() - 1) as nat,
        ) + "]="@ + linkers.last().linker_uid@ + ":"@ + linkers.last().linker_key@
    }
}

/// The identity fields that a row shows at the highest detail with link information.
pub open spec fn identity_spec(entry: EntryInfo, link_info: bool) -> Seq<char> {
    if !link_info {
        Seq::empty()
    } else {
        match entry.link {
            LinkInfo::LinkTo { container_uid, .. } => "\ttarget_uid="@ + container_uid@,
            LinkInfo::LinkFrom { linkers } => sources_spec(linkers@),
            LinkInfo::Unlinked => Seq::empty(),
        }
    }
}

/// One detailed row: the summary (and validation when link information is asked for); at
/// verbosity one and above the size; at verbosity two and above the filesystem path and the
/// full target or source identities.
pub open spec fn entry_text_spec(
    entry: EntryInfo,
    verbose: u8,
    link_info: bool,
    validation: Option<ValidationReport>,
) -> Seq<char> {
    let head = head_spec(entry, link_info, validation);
    if verbose == 0 {
        head
    } else if verbose < 2 {
        head + "\tsize="@ + size_field_spec(entry.size)
    } else {
        head + "\tsize="@ + size_field_spec(entry.size) + "\tfilepath="@ + entry.filepath@
            + identity_spec(entry, link_info)
    }
}

fn append_sources(s: &mut String, linkers: &Vec<Linker>)
    ensures
        final(s)@ == old(s)@ + sources_spec(linkers@),
{
    let ghost start = s@;
    let mut i: usize = 0;
    assert(linkers@.take(0) =~= Seq::<Linker>::empty());
    while i < linkers.len()
        invariant
            i <= linkers@.len(),
            s@ == start + sources_spec(linkers@.take(i as int)),
        decreases linkers@.len() - i,
    {
        let ghost t = linkers@.take(i + 1);
        assert(t.drop_last() =~= linkers@.take(i as int));
        s.append("\tsource[");
        s.append(decimal_usize(i).as_str());
        s.append("]=");
        s.append(linkers[i].linker_uid.as_str());
        s.append(":");
        s.append(linkers[i].linker_key.as_str());
        i = i + 1;
    }
    assert(linkers@.take(i as int) =~= linkers@);
}

/// Formats one detailed list entry as a tab-separated row.
pub fn entry_text(entry: &EntryInfo, options: &ListOptions, validation: Option<&ValidationReport>) -> (res: String)
    ensures
        res@ == entry_text_spec(
            *entry,
            options.verbose,
            options.link_info,
            match validation {
                Some(r) => Some(*r),
                None => None,
            },
        ),
{
    let ghost v = match validation {
        Some(r) => Some(*r),
        None => None::<ValidationReport>,
    };
    let detail = options.verbose;
    let mut s = String::new();
    s.append(entry.key.as_str());
    match &entry.link {
        LinkInfo::Unlinked => {
            if options.link_info {
                s.append("\ttype=local\tlink=none");
            } else {
                s.append("\ttype=local");
            }
        },
        LinkInfo::LinkTo { target_key, container_path, .. } => {
            if options.link_info {
                s.append("\ttype=link-to\ttarget=");
                s.append(container_path.as_str());
                s.append(":");
                s.append(target_key.as_str());
            } else {
                s.append("\ttype=link-to");
            }
        },
        LinkInfo::LinkFrom { linkers } => {
            if options.link_info {
                s.append("\ttype=local-linked-from\tsources=");
                s.append(decimal_usize(linkers.len()).as_str());
            } else {
                s.append("\ttype=local-linked-from");
            }
        },
    }
    assert(s@ == summary_spec(*entry, options.link_info));
    if options.link_info {
        s.append("\tvalidation=");
        match validation {
            Some(r) => s.append(validation_status(r)),
            None => s.append("unverified"),
        }
    }
    assert(s@ == head_spec(*entry, options.link_info, v));
    if detail == 0 {
        return s;
    }
    s.append("\tsize=");
    match entry.size {
        Some(size) => s.append(decimal(size).as_str()),
        None => s.append("unknown"),
    }
    if detail < 2 {
        return s;
    }
    s.append("\tfilepath=");
    s.append(entry.filepath.as_str());
    if options.link_info {
        match &entry.link {
            LinkInfo::LinkTo { container_uid, .. } => {
                s.append("\ttarget_uid=");
                s.append(container_uid.as_str());
            },
            LinkInfo::LinkFrom { linkers } => {
                append_sources(&mut s, linkers);
            },
            LinkInfo::Unlinked => {},
        }
    }
    assert(s@ == entry_text_spec(*entry, options.verbose, options.link_info, v));
    s
}

/// Rows only grow with verbosity: the row at one verbosity starts with the row at any lower
/// verbosity, and every verbosity from two up gives the same row.
pub proof fn law_entry_text_grows_with_verbosity(
    entry: EntryInfo,
    low: u8,
    high: u8,
    link_info: bool,
    validation: Option<ValidationReport>,
)
    requires
        low <= high,
    ensures
        entry_text_spec(entry, high, link_info, validation).take(
            entry_text_spec(entry, low, link_info, validation).len() as int,
        ) == entry_text_spec(entry, low, link_info, validation),
        entry_text_spec(entry, low, link_info, validation).len() <= entry_text_spec(
            entry,
            high,
            link_info,
            validation,
        ).len(),
        low >= 2 ==> entry_text_spec(entry, low, link_info, validation) == entry_text_spec(
            entry,
            high,
            link_info,
            validation,
        ),
{
    let head = head_spec(entry, link_info, validation);
    let sized = head + "\tsize="@ + size_field_spec(entry.size);
    let full = sized + "\tfilepath="@ + entry.filepath@ + identity_spec(entry, link_info);
    assert(sized.take(head.len() as int) =~= head);
    assert(full.take(head.len() as int) =~= head);
    assert(full.take(sized.len() as int) =~= sized);
    assert(head.take(head.len() as int) =~= head);
    assert(sized.take(sized.len() as int) =~= sized);
    assert(full.take(full.len() as int) =~= full);
}

/// How one entry's validation is shown in a document.
pub enum EntryValidation {
    /// No report: the entry is marked `unverified`.
    Unverified,
    /// The entry's report.
    Report(ValidationDoc),
}

/// The structured form of one listed entry; absent fields are left out of the document.
pub struct EntryDoc {
    pub key: String,
    pub kind: String,
    pub target_key: Option<String>,
    pub container_path: Option<String>,
    pub container_uid: Option<String>,
    pub sources: Option<Vec<Linker>>,
    pub source_count: Option<usize>,
    /// Present from verbosity one; its value is the size when known.
    pub size: Option<Option<u64>>,
    pub filepath: Option<String>,
    pub validation: Option<EntryValidation>,
}

/// `doc` encodes `entry` at the given detail: key and type always; with link information the
/// target fields (the target identity from verbosity two) or, for an entry linked from other
/// containers, every source from verbosity two and their count below; the size from verbosity
/// one; the filesystem path from verbosity two; and with link information the validation.
pub open spec fn entry_doc_of(
    doc: EntryDoc,
    entry: EntryInfo,
    verbose: u8,
    link_info: bool,
    validation: Option<ValidationReport>,
) -> bool {
    &&& doc.key == entry.key
    &&& doc.kind@ == entry_kind_spec(entry.link)
    &&& match (entry.link, link_info) {
        (LinkInfo::LinkTo { target_key, container_path, container_uid }, true) => {
            &&& doc.target_key == Some(target_key)
            &&& doc.container_path == Some(container_path)
            &&& doc.container_uid == (if verbose >= 2 {
                Some(container_uid)
            } else {
                None
            })
            &&& doc.sources is None
            &&& doc.source_count is None
        },
        (LinkInfo::LinkFrom { linkers }, true) => {
            &&& doc.target_key is None
            &&& doc.container_path is None
            &&& doc.container_uid is None
            &&& if verbose >= 2 {
                &&& doc.sources matches Some(s) && s@ == linkers@
                &&& doc.source_count is None
            } else {
                &&& doc.sources is None
                &&& doc.source_count == Some(linkers@.len() as usize)
            }
        },
        _ => {
            &&& doc.target_key is None
            &&& doc.container_path is None
            &&& doc.container_uid is None
            &&& doc.sources is None
            &&& doc.source_count is None
        },
    }
    &&& doc.size == (if verbose >= 1 {
        Some(entry.size)
    } else {
        None
    })
    &&& doc.filepath == (if verbose >= 2 {
        Some(entry.filepath)
    } else {
        None
    })
    &&& if link_info {
        match validation {
            Some(r) => doc.validation matches Some(EntryValidation::Report(d))
                && validation_doc_of(d, r),
            None => doc.validation matches Some(EntryValidation::Unverified),
        }
    } else {
        doc.validation is None
    }
}

fn copy_linkers(linkers: &Vec<Linker>) -> (res: Vec<Linker>)
    ensures
        res@ == linkers@,
{
    let mut out: Vec<Linker> = Vec::new();
    let mut i: usize = 0;
    while i < linkers.len()
        invariant
            i <= linkers@.len(),
            out@ == linkers@.take(i as int),
        decreases linkers@.len() - i,
    {
        out.push(linkers[i].duplicate());
        i = i + 1;
        assert(out@ =~= linkers@.take(i as int));
    }
    assert(linkers@.take(i as int) =~= linkers@);
    out
}

/// Encodes one list entry according to verbosity and link-info controls.
pub fn entry_json(entry: &EntryInfo, options: &ListOptions, validation: Option<&ValidationReport>) -> (res: EntryDoc)
    ensures
        entry_doc_of(
            res,
            *entry,
            options.verbose,
            options.link_info,
            match validation {
                Some(r) => Some(*r),
                None => None,
            },
        ),
{
    let detail = options.verbose;
    let mut kind = String::new();
    kind.append(entry_kind(&entry.link));
    let mut doc = EntryDoc {
        key: entry.key.clone(),
        kind,
        target_key: None,
        container_path: None,
        container_uid: None,
        sources: None,
        source_count: None,
        size: None,
        filepath: None,
        validation: None,
    };
    if options.link_info {
        match &entry.link {
            LinkInfo::LinkTo { target_key, container_path, container_uid } => {
                doc.target_key = Some(target_key.clone());
                doc.container_path = Some(container_path.clone());
                if detail >= 2 {
                    doc.container_uid = Some(container_uid.clone());
                }
            },
            LinkInfo::LinkFrom { linkers } => {
                if detail >= 2 {
                    doc.sources = Some(copy_linkers(linkers));
                } else {
                    doc.source_count = Some(linkers.len());
                }
            },
            LinkInfo::Unlinked => {},
        }
    }
    if detail >= 1 {
        doc.size = Some(entry.size);
    }
    if detail >= 2 {
        doc.filepath = Some(entry.filepath.clone());
    }
    if options.link_info {
        doc.validation = match validation {
            Some(r) => Some(EntryValidation::Report(validation_json(r))),
            None => Some(EntryValidation::Unverified),
        };
    }
    doc
}

} // verus!

verus! {

/// What a listing prints.
pub enum ListOutput {
    /// A JSON array of the entry keys.
    KeysJson(Vec<String>),
    /// Text lines.
    Lines(Vec<String>),
    /// A JSON array of entry documents.
    EntriesJson(Vec<EntryDoc>),
}

/// A rendered listing and whether the command succeeds.
pub struct ListRendering {
    pub output: ListOutput,
    pub status: Result<(), ValidationCommandError>,
}

/// A listing without detail or link information prints keys only.
pub open spec fn is_simple_listing(options: ListOptions) -> bool {
    options.verbose == 0 && !options.link_info
}

/// The keys of the entries.
pub open spec fn keys_view(entries: Seq<EntryInfo>) -> Seq<Seq<char>> {
    entries.map_values(|e: EntryInfo| e.key@)
}

/// Renders preloaded entries as plain keys, detailed rows, or entry documents. A simple listing
/// prints the keys (a JSON array with `--json`, one per line otherwise) and succeeds. A detailed
/// listing pairs each entry with its validation slot, prints one document or row per pair, and
/// succeeds unless the reports hold broken or unavailable items.
pub fn render_entry_list(
    entries: &Vec<EntryInfo>,
    options: &ListOptions,
    validations: &Vec<Option<ValidationReport>>,
) -> (res: ListRendering)
    requires
        total_broken(validations@) <= usize::MAX,
        total_unavailable(validations@) <= usize::MAX,
    ensures
        is_simple_listing(*options) ==> {
            &&& res.status is Ok
            &&& if options.json {
                res.output matches ListOutput::KeysJson(keys) && lines_view(keys@) == keys_view(
                    entries@,
                )
            } else {
                res.output matches ListOutput::Lines(keys) && lines_view(keys@) == keys_view(
                    entries@,
                )
            }
        },
        !is_simple_listing(*options) ==> {
            let n = if entries@.len() <= validations@.len() {
                entries@.len()
            } else {
                validations@.len()
            };
            &&& res.status == validation_outcome(validations@)
            &&& if options.json {
                res.output matches ListOutput::EntriesJson(docs) && docs@.len() == n && forall|
                    i: int,
                |
                    0 <= i < n ==> entry_doc_of(
                        #[trigger] docs@[i],
                        entries@[i],
                        options.verbose,
                        options.link_info,
                        validations@[i],
                    )
            } else {
                res.output matches ListOutput::Lines(lines) && lines_view(lines@) == Seq::new(
                    n,
                    |i: int|
                        entry_text_spec(
                            entries@[i],
                            options.verbose,
                            options.link_info,
                            validations@[i],
                        ),
                )
            }
        },
{
    if options.verbose == 0 && !options.link_info {
        let mut keys: Vec<String> = Vec::new();
        let mut i: usize = 0;
        while i < entries.len()
            invariant
                i <= entries@.len(),
                lines_view(keys@) == keys_view(entries@.take(i as int)),
            decreases entries@.len() - i,
        {
            let ghost before = lines_view(keys@);
            keys.push(entries[i].key.clone());
            assert(lines_view(keys@) =~= before.push(entries@[i as int].key@));
            i = i + 1;
            assert(lines_view(keys@) =~= keys_view(entries@.take(i as int)));
        }
        assert(entries@.take(i as int) =~= entries@);
        let output = if options.json {
            ListOutput::KeysJson(keys)
        } else {
            ListOutput::Lines(keys)
        };
        return ListRendering { output, status: Ok(()) };
    }
    let n = if entries.len() <= validations.len() {
        entries.len()
    } else {
        validations.len()
    };
    let output = if options.json {
        let mut docs: Vec<EntryDoc> = Vec::new();
        let mut i: usize = 0;
        while i < n
            invariant
                i <= n,
                n <= entries@.len(),
                n <= validations@.len(),
                docs@.len() == i,
                forall|k: int|
                    0 <= k < i ==> entry_doc_of(
                        #[trigger] docs@[k],
                        entries@[k],
                        options.verbose,
                        options.link_info,
                        validations@[k],
                    ),
            decreases n - i,
        {
            let slot = match &validations[i] {
                Some(r) => Some(r),
                None => None,
            };
            docs.push(entry_json(&entries[i], options, slot));
            i = i + 1;
        }
        ListOutput::EntriesJson(docs)
    } else {
        let ghost rows = Seq::new(
            n as nat,
            |i: int|
                entry_text_spec(entries@[i], options.verbose, options.link_info, validations@[i]),
        );
        let mut lines: Vec<String> = Vec::new();
        let mut i: usize = 0;
        while i < n
            invariant
                i <= n,
                n <= entries@.len(),
                n <= validations@.len(),
                rows.len() == n,
                forall|k: int|
                    0 <= k < n ==> #[trigger] rows[k] == entry_text_spec(
                        entries@[k],
                        options.verbose,
                        options.link_info,
                        validations@[k],
                    ),
                lines_view(lines@) == rows.take(i as int),
            decreases n - i,
        {
            let slot = match &validations[i] {
                Some(r) => Some(r),
                None => None,
            };
            let row = entry_text(&entries[i], options, slot);
            assert(row@ == rows[i as int]);
            let ghost before = lines_view(lines@);
            lines.push(row);
            assert(lines_view(lines@) =~= before.push(rows[i as int]));
            i = i + 1;
            assert(rows.take(i as int) =~= rows.take(i - 1).push(rows[i - 1]));
        }
        assert(rows.take(n as int) =~= rows);
        ListOutput::Lines(lines)
    };
    let status = ensure_validation_success(validations);
    ListRendering { output, status }
}

/// How one listed entry is validated.
#[derive(Clone, Copy, PartialEq, Eq, Structural, Debug)]
pub enum ValidationMode {
    /// Not validated; its slot stays empty.
    Skip,
    /// Validated against the targets its own outgoing record names.
    Recorded,
    /// Validated against every peer given on the command line.
    Peers,
}

/// Whether an entry is an outgoing link.
pub open spec fn is_link_to(entry: EntryInfo) -> bool {
    entry.link is LinkTo
}

/// How a detailed listing validates its entries. With peers, every entry is checked against
/// all of them. Without peers, outgoing links are checked against their recorded targets and
/// other entries are skipped; when no entry is an outgoing link the current container is not
/// opened at all (`None`).
pub open spec fn validation_plan_spec(entries: Seq<EntryInfo>, has_peers: bool) -> Option<
    Seq<ValidationMode>,
> {
    if has_peers {
        Some(Seq::new(entries.len(), |i: int| ValidationMode::Peers))
    } else if exists|i: int| 0 <= i < entries.len() && #[trigger] is_link_to(entries[i]) {
        Some(
            Seq::new(
                entries.len(),
                |i: int|
                    if is_link_to(entries[i]) {
                        ValidationMode::Recorded
                    } else {
                        ValidationMode::Skip
                    },
            ),
        )
    } else {
        None
    }
}

/// Decides how a detailed listing validates each entry; `None` means that every slot stays
/// empty and no container is opened.
pub fn validate_entries(entries: &Vec<EntryInfo>, options: &ListOptions) -> (res: Option<
    Vec<ValidationMode>,
>)
    ensures
        match (res, validation_plan_spec(entries@, options.validate_with@.len() > 0)) {
            (Some(v), Some(s)) => v@ == s,
            (None, None) => true,
            _ => false,
        },
{
    let has_peers = options.validate_with.len() > 0;
    let ghost plan = validation_plan_spec(entries@, has_peers);
    let mut any_link = false;
    let mut modes: Vec<ValidationMode> = Vec::new();
    let mut i: usize = 0;
    while i < entries.len()
        invariant
            i <= entries@.len(),
            modes@.len() == i,
            any_link == exists|k: int| 0 <= k < i && #[trigger] is_link_to(entries@[k]),
            forall|k: int|
                0 <= k < i ==> #[trigger] modes@[k] == (if has_peers {
                    ValidationMode::Peers
                } else if is_link_to(entries@[k]) {
                    ValidationMode::Recorded
                } else {
                    ValidationMode::Skip
                }),
        decreases entries@.len() - i,
    {
        let link = match &entries[i].link {
            LinkInfo::LinkTo { .. } => true,
            _ => false,
        };
        assert(link == is_link_to(entries@[i as int]));
        if link {
            any_link = true;
        }
        let mode = if has_peers {
            ValidationMode::Peers
        } else if link {
            ValidationMode::Recorded
        } else {
            ValidationMode::Skip
        };
        modes.push(mode);
        i = i + 1;
    }
    if !has_peers && !any_link {
        return None;
    }
    proof {
        match plan {
            Some(s) => {
                assert(modes@ =~= s);
            },
            None => {},
        }
    }
    Some(modes)
}

/// Whether a detailed listing runs the interactive link check before rendering: only with
/// `--auto-fix` and some invalid report.
pub fn listing_needs_repair(options: &ListOptions, validations: &Vec<Option<ValidationReport>>) -> (res: bool)
    ensures
        res == (options.auto_fix && need_fix_spec(validations@)),
{
    options.auto_fix && validations_need_fix(validations)
}

} // verus!

verus! {

/// With at least one peer given, every entry is validated against the peers, whatever its link
/// kind. Without peers, exactly the outgoing links are validated against their recorded targets
/// and the other entries are skipped, and the container is left unopened exactly when no entry
/// is an outgoing link.
pub proof fn law_validation_plan_modes(entries: Seq<EntryInfo>)
    ensures
        (validation_plan_spec(entries, true) matches Some(m) && m.len() == entries.len() && (
        forall|i: int| 0 <= i < entries.len() ==> #[trigger] m[i] == ValidationMode::Peers)),
        (validation_plan_spec(entries, false) is None) == (forall|i: int|
            0 <= i < entries.len() ==> !(#[trigger] entries[i].link is LinkTo)),
        (validation_plan_spec(entries, false) matches Some(m) ==> m.len() == entries.len() && (
        forall|i: int|
            0 <= i < entries.len() ==> (#[trigger] m[i] == ValidationMode::Recorded) == (
            entries[i].link is LinkTo) && (m[i] == ValidationMode::Skip) == !(
            entries[i].link is LinkTo))),
{
    if exists|i: int| 0 <= i < entries.len() && #[trigger] is_link_to(entries[i]) {
        let i = choose|i: int| 0 <= i < entries.len() && #[trigger] is_link_to(entries[i]);
        assert(entries[i].link is LinkTo);
    } else {
        assert forall|i: int| 0 <= i < entries.len() implies !(#[trigger] entries[i].link is LinkTo) by {
            assert(!is_link_to(entries[i]));
        }
    }
}

} // verus!
