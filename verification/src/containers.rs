//! Container kinds: which commands a kind supports, initialization choices, metadata
//! rendering, and the confirmation of forced storage.
use vstd::prelude::*;

use crate::text::{ascii_lower_spec, decimal, decimal_spec, lower_equals, same_text, trim, trim_spec};
use crate::validation::lines_view;

verus! {

/// The two concrete kinds that hold outgoing links.
#[derive(Clone, Copy, PartialEq, Eq, Structural, Debug)]
pub enum LinkCapable {
    Link,
    Configurable,
}

/// The link-capable kind named by a metadata kind, if any.
pub open spec fn link_capable_spec(kind: Seq<char>) -> Option<LinkCapable> {
    if kind == "link"@ {
        Some(LinkCapable::Link)
    } else if kind == "configurable"@ {
        Some(LinkCapable::Configurable)
    } else {
        None
    }
}

/// The refusal of a command that needs a link-capable container.
pub open spec fn kind_refusal_spec(command: Seq<char>, kind: Seq<char>) -> Seq<char> {
    command + " requires a link or configurable container, found '"@ + kind + "'"@
}

/// Selects the link-capable kind that `command` works on, or the refusal naming the kind found.
pub fn link_capable_for(command: &str, kind: &str) -> (res: Result<LinkCapable, String>)
    ensures
        match link_capable_spec(kind@) {
            Some(k) => res == Ok::<LinkCapable, String>(k),
            None => res matches Err(m) && m@ == kind_refusal_spec(command@, kind@),
        },
{
    if same_text(kind, "link") {
        Ok(LinkCapable::Link)
    } else if same_text(kind, "configurable") {
        Ok(LinkCapable::Configurable)
    } else {
        let mut m = String::new();
        m.append(command);
        m.append(" requires a link or configurable container, found '");
        m.append(kind);
        m.append("'");
        Err(m)
    }
}

/// Selects what `link-list` lists from: the outgoing links of a link or configurable
/// container; any other kind is refused.
pub fn print_link_list(kind: &str) -> (res: Result<LinkCapable, String>)
    ensures
        match link_capable_spec(kind@) {
            Some(k) => res == Ok::<LinkCapable, String>(k),
            None => res matches Err(m) && m@ == kind_refusal_spec("link-list"@, kind@),
        },
{
    link_capable_for("link-list", kind)
}

/// Selects what `local-list` lists from: the ordinary entries of a link or configurable
/// container; any other kind is refused.
pub fn print_local_list(kind: &str) -> (res: Result<LinkCapable, String>)
    ensures
        match link_capable_spec(kind@) {
            Some(k) => res == Ok::<LinkCapable, String>(k),
            None => res matches Err(m) && m@ == kind_refusal_spec("local-list"@, kind@),
        },
{
    link_capable_for("local-list", kind)
}

/// The refusal to open a container as a kind it does not declare.
pub open spec fn open_refusal_spec(wanted: Seq<char>, path: Seq<char>, kind: Seq<char>) -> Seq<
    char,
> {
    "operation requires a "@ + wanted + " container, but "@ + path + " is '"@ + kind + "'"@
}

/// Checks that the container at `path` declares kind `wanted` before it is opened as such.
pub fn require_kind(wanted: &str, path: &str, kind: &str) -> (res: Result<(), String>)
    ensures
        kind@ == wanted@ ==> res is Ok,
        kind@ != wanted@ ==> (res matches Err(m) && m@ == open_refusal_spec(wanted@, path@, kind@)),
{
    if same_text(kind, wanted) {
        Ok(())
    } else {
        let mut m = String::new();
        m.append("operation requires a ");
        m.append(wanted);
        m.append(" container, but ");
        m.append(path);
        m.append(" is '");
        m.append(kind);
        m.append("'");
        Err(m)
    }
}

/// The concrete kind that `container init` creates.
#[derive(Clone, Copy, PartialEq, Eq, Structural, Debug)]
pub enum ContainerKind {
    Local,
    Link,
    Configurable,
}

/// The metadata kind of a concrete kind.
pub open spec fn kind_name_spec(kind: ContainerKind) -> Seq<char> {
    match kind {
        ContainerKind::Local => "local"@,
        ContainerKind::Link => "link"@,
        ContainerKind::Configurable => "configurable"@,
    }
}

/// What `container init` does: the metadata kind it initializes, and the path policy it then
/// stores for a link-capable kind (relative unless `--absolute`).
pub fn initialize(kind: ContainerKind, absolute: bool) -> (res: (&'static str, Option<bool>))
    ensures
        res.0@ == kind_name_spec(kind),
        res.1 == (if kind == ContainerKind::Local {
            None
        } else {
            Some(!absolute)
        }),
{
    match kind {
        ContainerKind::Local => ("local", None),
        ContainerKind::Link => ("link", Some(!absolute)),
        ContainerKind::Configurable => ("configurable", Some(!absolute)),
    }
}

/// Common container metadata.
pub struct ContainerMetadata {
    pub version: u64,
    pub uid: String,
    pub logical_name: String,
    pub kind: String,
}

/// Whether `info` reports a path policy: only link-capable kinds store one.
pub fn info_has_prefer_relative(kind: &str) -> (res: bool)
    ensures
        res == (link_capable_spec(kind@) is Some),
{
    same_text(kind, "link") || same_text(kind, "configurable")
}

/// The text of a boolean.
pub open spec fn bool_text(b: bool) -> Seq<char> {
    if b {
        "true"@
    } else {
        "false"@
    }
}

/// The labeled lines of `info`: path, version, uid, name and kind, then the path policy when
/// the kind has one.
pub open spec fn info_lines_spec(
    path: Seq<char>,
    metadata: ContainerMetadata,
    prefer_relative: Option<bool>,
) -> Seq<Seq<char>> {
    seq![
        "path: "@ + path,
        "version: "@ + decimal_spec(metadata.version as nat),
        "uid: "@ + metadata.uid@,
        "name: "@ + metadata.logical_name@,
        "kind: "@ + metadata.kind@,
    ] + match prefer_relative {
        Some(b) => seq!["prefer_relative: "@ + bool_text(b)],
        None => Seq::<Seq<char>>::empty(),
    }
}

fn labeled(label: &str, value: &str) -> (res: String)
    ensures
        res@ == label@ + value@,
{
    let mut s = String::new();
    s.append(label);
    s.append(value);
    s
}

/// Renders container metadata as labeled lines. The path policy is known exactly for the
/// link-capable kinds, which store one.
pub fn print_info(path: &str, metadata: &ContainerMetadata, prefer_relative: Option<bool>) -> (res: Vec<String>)
    requires
        (prefer_relative is Some) == (link_capable_spec(metadata.kind@) is Some),
    ensures
        (lines_view(res@).len() == 6) == (link_capable_spec(metadata.kind@) is Some),
        lines_view(res@) == info_lines_spec(path@, *metadata, prefer_relative),
{
    let mut lines: Vec<String> = Vec::new();
    lines.push(labeled("path: ", path));
    lines.push(labeled("version: ", decimal(metadata.version).as_str()));
    lines.push(labeled("uid: ", metadata.uid.as_str()));
    lines.push(labeled("name: ", metadata.logical_name.as_str()));
    lines.push(labeled("kind: ", metadata.kind.as_str()));
    match prefer_relative {
        Some(b) => {
            lines.push(labeled("prefer_relative: ", if b { "true" } else { "false" }));
        },
        None => {},
    }
    assert(lines_view(lines@) =~= info_lines_spec(path@, *metadata, prefer_relative));
    lines
}

/// The document of `info --json`; the path policy is `null` for kinds that store none.
pub struct ContainerInfoDoc {
    pub path: String,
    pub version: u64,
    pub uid: String,
    pub logical_name: String,
    pub kind: String,
    pub prefer_relative: Option<bool>,
}

/// Builds the document of `info --json`: path, version, uid, logical name and kind as given,
/// and the path policy, which is a boolean exactly for link-capable kinds.
pub fn info_json(path: &str, metadata: &ContainerMetadata, prefer_relative: Option<bool>) -> (res: ContainerInfoDoc)
    requires
        (prefer_relative is Some) == (link_capable_spec(metadata.kind@) is Some),
    ensures
        res.path@ == path@,
        res.version == metadata.version,
        res.uid == metadata.uid,
        res.logical_name == metadata.logical_name,
        res.kind == metadata.kind,
        res.prefer_relative == prefer_relative,
        (res.prefer_relative is Some) == (link_capable_spec(res.kind@) is Some),
{
    let mut p = String::new();
    p.append(path);
    ContainerInfoDoc {
        path: p,
        version: metadata.version,
        uid: metadata.uid.clone(),
        logical_name: metadata.logical_name.clone(),
        kind: metadata.kind.clone(),
        prefer_relative,
    }
}

/// A storage class of a configurable container.
#[derive(Clone, Copy, PartialEq, Eq, Structural, Debug)]
pub enum StorageClass {
    Local,
    Link,
}

/// The debug name of a storage class.
pub open spec fn storage_name_spec(class: StorageClass) -> Seq<char> {
    match class {
        StorageClass::Local => "Local"@,
        StorageClass::Link => "Link"@,
    }
}

/// A key forced into one storage class although its rules pick another.
pub struct ForcedWarning {
    pub key: String,
    pub forced: StorageClass,
    pub automatic: StorageClass,
}

/// Whether a forced local or link command consults the storage rules: only a configurable
/// container has any.
pub fn forced_storage_applies(kind: &str) -> (res: bool)
    ensures
        res == (kind@ == "configurable"@),
{
    same_text(kind, "configurable")
}

/// The question asked before forcing a key against its rules.
pub open spec fn warning_prompt_spec(w: ForcedWarning) -> Seq<char> {
    "warning: '"@ + w.key@ + "' is forced to "@ + storage_name_spec(w.forced)
        + "; its next ordinary write/update will use "@ + storage_name_spec(w.automatic)
        + ". Continue? [y/N]"@
}

fn storage_name(class: StorageClass) -> (res: &'static str)
    ensures
        res@ == storage_name_spec(class),
{
    match class {
        StorageClass::Local => "Local",
        StorageClass::Link => "Link",
    }
}

/// Whether forcing a key asks the user first: never without a warning or with `--yes`;
/// otherwise the question to ask.
pub fn warn_forced(warning: &Option<ForcedWarning>, yes: bool) -> (res: Option<String>)
    ensures
        match (warning, yes) {
            (Some(w), false) => res matches Some(q) && q@ == warning_prompt_spec(*w),
            _ => res is None,
        },
{
    match warning {
        Some(w) => {
            if yes {
                None
            } else {
                let mut q = String::new();
                q.append("warning: '");
                q.append(w.key.as_str());
                q.append("' is forced to ");
                q.append(storage_name(w.forced));
                q.append("; its next ordinary write/update will use ");
                q.append(storage_name(w.automatic));
                q.append(". Continue? [y/N]");
                Some(q)
            }
        },
        None => None,
    }
}

/// Whether an answer accepts: `y` or `yes` in any ASCII case, surrounded by any whitespace.
pub open spec fn accepts_spec(answer: Seq<char>) -> bool {
    let a = ascii_lower_spec(trim_spec(answer));
    a == "y"@ || a == "yes"@
}

/// Reads the answer to a forced-storage question: accepted, or cancelled.
pub fn confirm_forced(answer: &str) -> (res: Result<(), String>)
    ensures
        accepts_spec(answer@) == (res is Ok),
        res matches Err(m) ==> m@ == "operation cancelled"@,
{
    let t = trim(answer);
    if lower_equals(t, "y") || lower_equals(t, "yes") {
        Ok(())
    } else {
        let mut m = String::new();
        m.append("operation cancelled");
        Err(m)
    }
}

} // verus!
