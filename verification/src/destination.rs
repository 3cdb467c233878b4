//! Destination catalogs: member selection, the stable order of members by logical path, and
//! member and metadata rendering.
use vstd::prelude::*;

use crate::containers::bool_text;
use crate::text::{decimal, decimal_spec};
use crate::validation::lines_view;

verus! {

/// Lexicographic order on texts, character by character, as `str` orders them (UTF-8 byte order
/// is code-point order).
pub open spec fn text_le(a: Seq<char>, b: Seq<char>) -> bool
    decreases a.len(),
{
    if a.len() == 0 {
        true
    } else if b.len() == 0 {
        false
    } else if a[0] < b[0] {
        true
    } else if a[0] > b[0] {
        false
    } else {
        text_le(a.drop_first(), b.drop_first())
    }
}

/// Strict lexicographic order on texts.
pub open spec fn text_lt(a: Seq<char>, b: Seq<char>) -> bool {
    !text_le(b, a)
}

pub proof fn lemma_text_le_total(a: Seq<char>, b: Seq<char>)
    ensures
        text_le(a, b) || text_le(b, a),
    decreases a.len(),
{
    if a.len() > 0 && b.len() > 0 && a[0] == b[0] {
        lemma_text_le_total(a.drop_first(), b.drop_first());
    }
}

pub proof fn lemma_text_le_antisymmetric(a: Seq<char>, b: Seq<char>)
    requires
        text_le(a, b),
        text_le(b, a),
    ensures
        a == b,
    decreases a.len(),
{
    if a.len() > 0 {
        lemma_text_le_antisymmetric(a.drop_first(), b.drop_first());
        assert(a =~= seq![a[0]] + a.drop_first());
        assert(b =~= seq![b[0]] + b.drop_first());
    } else {
        assert(b.len() == 0);
        assert(a =~= b);
    }
}

pub proof fn lemma_text_le_transitive(a: Seq<char>, b: Seq<char>, c: Seq<char>)
    requires
        text_le(a, b),
        text_le(b, c),
    ensures
        text_le(a, c),
    decreases a.len(),
{
    if a.len() > 0 && b.len() > 0 && c.len() > 0 && a[0] == b[0] && b[0] == c[0] {
        lemma_text_le_transitive(a.drop_first(), b.drop_first(), c.drop_first());
    }
}

pub proof fn lemma_text_le_reflexive(a: Seq<char>)
    ensures
        text_le(a, a),
    decreases a.len(),
{
    if a.len() > 0 {
        lemma_text_le_reflexive(a.drop_first());
    }
}

/// Whether `a` sorts strictly before `b`.
pub fn text_less(a: &str, b: &str) -> (res: bool)
    ensures
        res == text_lt(a@, b@),
{
    let na = a.unicode_len();
    let nb = b.unicode_len();
    let mut i: usize = 0;
    assert(a@.skip(0) =~= a@);
    assert(b@.skip(0) =~= b@);
    while i < na && i < nb
        invariant
            na == a@.len(),
            nb == b@.len(),
            i <= na,
            i <= nb,
            text_le(b@, a@) == text_le(b@.skip(i as int), a@.skip(i as int)),
        decreases na - i,
    {
        let ca = a.get_char(i);
        let cb = b.get_char(i);
        assert(a@.skip(i as int)[0] == ca);
        assert(b@.skip(i as int)[0] == cb);
        if ca < cb {
            return true;
        }
        if ca > cb {
            return false;
        }
        assert(a@.skip(i as int).drop_first() =~= a@.skip(i + 1));
        assert(b@.skip(i as int).drop_first() =~= b@.skip(i + 1));
        i = i + 1;
    }
    // one of the texts is exhausted: `a` sorts first exactly when only `a` is
    i < nb
}

/// Whether index `x` comes before index `y` in a stable sort of `keys`: a smaller key first,
/// and equal keys in their original order.
pub open spec fn sorts_before(keys: Seq<Seq<char>>, x: int, y: int) -> bool {
    text_lt(keys[x], keys[y]) || (keys[x] == keys[y] && x < y)
}

/// `order` lists every index of `keys` exactly once, in stable sorted order.
pub open spec fn stable_sorted_order(keys: Seq<Seq<char>>, order: Seq<usize>) -> bool {
    &&& order.len() == keys.len()
    &&& forall|i: int| 0 <= i < order.len() ==> #[trigger] order[i] < keys.len()
    &&& order.no_duplicates()
    &&& forall|i: int, j: int|
        0 <= i < j < order.len() ==> sorts_before(keys, #[trigger] order[i] as int, #[trigger] order[j] as int)
}

} // verus!

verus! {

proof fn lemma_before_le(keys: Seq<Seq<char>>, x: int, y: int)
    requires
        sorts_before(keys, x, y),
    ensures
        text_le(keys[x], keys[y]),
{
    if keys[x] == keys[y] {
        lemma_text_le_reflexive(keys[x]);
    } else {
        lemma_text_le_total(keys[x], keys[y]);
    }
}

proof fn lemma_lt_le_lt(a: Seq<char>, b: Seq<char>, c: Seq<char>)
    requires
        text_lt(a, b),
        text_le(b, c),
    ensures
        text_lt(a, c),
{
    if text_le(c, a) {
        lemma_text_le_transitive(b, c, a);
    }
}

/// Pairwise sortedness of an index order.
pub open spec fn pairwise_sorted(keys: Seq<Seq<char>>, order: Seq<usize>) -> bool {
    forall|i: int, j: int|
        0 <= i < j < order.len() ==> sorts_before(keys, #[trigger] order[i] as int, #[trigger] order[j] as int)
}

proof fn lemma_insert_sorted(keys: Seq<Seq<char>>, order: Seq<usize>, m: usize, p: int)
    requires
        m < keys.len(),
        forall|i: int| 0 <= i < order.len() ==> #[trigger] order[i] < m,
        order.no_duplicates(),
        pairwise_sorted(keys, order),
        0 <= p <= order.len(),
        forall|q: int| 0 <= q < p ==> text_le(keys[#[trigger] order[q] as int], keys[m as int]),
        p < order.len() ==> text_lt(keys[m as int], keys[order[p] as int]),
    ensures
        pairwise_sorted(keys, order.insert(p, m)),
        order.insert(p, m).no_duplicates(),
        forall|i: int| 0 <= i < order.insert(p, m).len() ==> #[trigger] order.insert(p, m)[i] <= m,
{
    let o2 = order.insert(p, m);
    assert forall|q: int| p < q < order.len() implies text_lt(keys[m as int], keys[#[trigger] order[q] as int]) by {
        lemma_before_le(keys, order[p] as int, order[q] as int);
        lemma_lt_le_lt(keys[m as int], keys[order[p] as int], keys[order[q] as int]);
    }
    assert forall|i: int, j: int| 0 <= i < j < o2.len() implies sorts_before(keys, #[trigger] o2[i] as int, #[trigger] o2[j] as int) by {
        if j < p {
            assert(o2[i] == order[i] && o2[j] == order[j]);
        } else if j == p {
            assert(o2[i] == order[i]);
            let x = order[i] as int;
            assert(text_le(keys[x], keys[m as int]));
            if keys[x] != keys[m as int] {
                if text_le(keys[m as int], keys[x]) {
                    lemma_text_le_antisymmetric(keys[x], keys[m as int]);
                }
            }
        } else if i == p {
            assert(o2[j] == order[j - 1]);
            if j - 1 == p {
            } else {
            }
            assert(text_lt(keys[m as int], keys[order[j - 1] as int]));
        } else if i < p {
            assert(o2[i] == order[i] && o2[j] == order[j - 1]);
        } else {
            assert(o2[i] == order[i - 1] && o2[j] == order[j - 1]);
        }
    }
    assert forall|i: int, j: int| 0 <= i < o2.len() && 0 <= j < o2.len() && i != j implies o2[i] != o2[j] by {
        if i < p && j < p {
            assert(o2[i] == order[i] && o2[j] == order[j]);
        } else if i == p {
            if j < p {
                assert(o2[j] == order[j]);
            } else {
                assert(o2[j] == order[j - 1]);
            }
        } else if j == p {
            if i < p {
                assert(o2[i] == order[i]);
            } else {
                assert(o2[i] == order[i - 1]);
            }
        } else if i < p {
            assert(o2[i] == order[i] && o2[j] == order[j - 1]);
        } else if j < p {
            assert(o2[i] == order[i - 1] && o2[j] == order[j]);
        } else {
            assert(o2[i] == order[i - 1] && o2[j] == order[j - 1]);
        }
    }
    assert forall|i: int| 0 <= i < o2.len() implies #[trigger] o2[i] <= m by {
        if i < p {
            assert(o2[i] == order[i]);
        } else if i > p {
            assert(o2[i] == order[i - 1]);
        }
    }
}

/// The stable order of member indices by logical path: a smaller path first, equal paths in
/// their original order.
pub fn member_order(keys: &Vec<String>) -> (order: Vec<usize>)
    ensures
        stable_sorted_order(lines_view(keys@), order@),
{
    let ghost k = lines_view(keys@);
    let mut order: Vec<usize> = Vec::new();
    let mut m: usize = 0;
    while m < keys.len()
        invariant
            m <= keys@.len(),
            k == lines_view(keys@),
            order@.len() == m,
            forall|i: int| 0 <= i < order@.len() ==> #[trigger] order@[i] < m,
            order@.no_duplicates(),
            pairwise_sorted(k, order@),
        decreases keys@.len() - m,
    {
        let mut p: usize = 0;
        while p < order.len() && !text_less(keys[m].as_str(), keys[order[p]].as_str())
            invariant
                p <= order@.len(),
                m < keys@.len(),
                k == lines_view(keys@),
                forall|i: int| 0 <= i < order@.len() ==> #[trigger] order@[i] < m,
                forall|q: int| 0 <= q < p ==> text_le(k[#[trigger] order@[q] as int], k[m as int]),
            decreases order@.len() - p,
        {
            assert(k[order@[p as int] as int] == keys@[order@[p as int] as int]@);
            p = p + 1;
        }
        proof {
            if p < order@.len() {
                assert(k[order@[p as int] as int] == keys@[order@[p as int] as int]@);
            }
            lemma_insert_sorted(k, order@, m, p as int);
        }
        order.insert(p, m);
        assert forall|i: int| 0 <= i < order@.len() implies #[trigger] order@[i] < m + 1 by {
            assert(order@[i] <= m);
        }
        m = m + 1;
    }
    order
}

} // verus!

verus! {

/// One direct member of a destination catalog node.
pub enum Member {
    Container { logical_path: String, kind: String, initialized: bool, filesystem_path: String },
    Subcontainer { logical_path: String },
}

/// The logical path by which members are ordered.
pub open spec fn member_path_spec(m: Member) -> Seq<char> {
    match m {
        Member::Container { logical_path, .. } => logical_path@,
        Member::Subcontainer { logical_path } => logical_path@,
    }
}

/// Returns a member's logical path.
pub fn member_path(m: &Member) -> (res: &String)
    ensures
        res@ == member_path_spec(*m),
{
    match m {
        Member::Container { logical_path, .. } => logical_path,
        Member::Subcontainer { logical_path } => logical_path,
    }
}

/// The member subset that a destination list command selects.
#[derive(Clone, Copy, PartialEq, Eq, Structural, Debug)]
pub enum MemberFilter {
    All,
    Containers,
    Subcontainers,
}

/// Which descriptors a filter takes: (containers, subcontainers). Containers come first.
pub fn member_filter_parts(filter: MemberFilter) -> (res: (bool, bool))
    ensures
        res.0 == (filter != MemberFilter::Subcontainers),
        res.1 == (filter != MemberFilter::Containers),
{
    match filter {
        MemberFilter::All => (true, true),
        MemberFilter::Containers => (true, false),
        MemberFilter::Subcontainers => (false, true),
    }
}

/// The text row of one member at a verbosity.
pub open spec fn member_line_spec(m: Member, verbose: u8) -> Seq<char> {
    match m {
        Member::Container { logical_path, kind, initialized, filesystem_path } => if verbose
            >= 2 {
            logical_path@ + "\ttype=container\tkind="@ + kind@ + "\tinitialized="@ + bool_text(
                initialized,
            ) + "\tpath="@ + filesystem_path@
        } else if verbose >= 1 {
            logical_path@ + "\ttype=container\tkind="@ + kind@
        } else {
            logical_path@ + "\ttype=container"@
        },
        Member::Subcontainer { logical_path } => logical_path@ + "/\ttype=subcontainer"@,
    }
}

/// The logical paths of members.
pub open spec fn member_paths(members: Seq<Member>) -> Seq<Seq<char>> {
    members.map_values(|m: Member| member_path_spec(m))
}

/// A destination listing: the order in which members are printed, and their text rows in that
/// order.
pub struct MemberListing {
    pub order: Vec<usize>,
    pub lines: Vec<String>,
}

fn member_line(m: &Member, verbose: u8) -> (res: String)
    ensures
        res@ == member_line_spec(*m, verbose),
{
    let mut s = String::new();
    match m {
        Member::Container { logical_path, kind, initialized, filesystem_path } => {
            s.append(logical_path.as_str());
            if verbose >= 2 {
                s.append("\ttype=container\tkind=");
                s.append(kind.as_str());
                s.append("\tinitialized=");
                s.append(if *initialized { "true" } else { "false" });
                s.append("\tpath=");
                s.append(filesystem_path.as_str());
            } else if verbose >= 1 {
                s.append("\ttype=container\tkind=");
                s.append(kind.as_str());
            } else {
                s.append("\ttype=container");
            }
        },
        Member::Subcontainer { logical_path } => {
            s.append(logical_path.as_str());
            s.append("/\ttype=subcontainer");
        },
    }
    s
}

/// Orders members stably by logical path and renders one row per member in that order.
pub fn print_members(members: &Vec<Member>, verbose: u8) -> (res: MemberListing)
    ensures
        stable_sorted_order(member_paths(members@), res.order@),
        lines_view(res.lines@) == res.order@.map_values(
            |i: usize| member_line_spec(members@[i as int], verbose),
        ),
{
    let mut paths: Vec<String> = Vec::new();
    let mut i: usize = 0;
    while i < members.len()
        invariant
            i <= members@.len(),
            lines_view(paths@) == member_paths(members@.take(i as int)),
        decreases members@.len() - i,
    {
        let ghost before = lines_view(paths@);
        paths.push(member_path(&members[i]).clone());
        assert(lines_view(paths@) =~= before.push(member_path_spec(members@[i as int])));
        i = i + 1;
        assert(member_paths(members@.take(i as int)) =~= member_paths(members@.take(i - 1)).push(
            member_path_spec(members@[i - 1]),
        ));
    }
    assert(members@.take(i as int) =~= members@);
    let order = member_order(&paths);
    let ghost rows = order@.map_values(|i: usize| member_line_spec(members@[i as int], verbose));
    let mut lines: Vec<String> = Vec::new();
    let mut j: usize = 0;
    while j < order.len()
        invariant
            j <= order@.len(),
            order@.len() == members@.len(),
            forall|q: int| 0 <= q < order@.len() ==> #[trigger] order@[q] < members@.len(),
            rows == order@.map_values(|i: usize| member_line_spec(members@[i as int], verbose)),
            lines_view(lines@) == rows.take(j as int),
        decreases order@.len() - j,
    {
        let row = member_line(&members[order[j]], verbose);
        let ghost before = lines_view(lines@);
        lines.push(row);
        assert(lines_view(lines@) =~= before.push(rows[j as int]));
        j = j + 1;
        assert(rows.take(j as int) =~= rows.take(j - 1).push(rows[j - 1]));
    }
    assert(rows.take(j as int) =~= rows);
    MemberListing { order, lines }
}

/// The labeled lines of destination metadata.
pub open spec fn destination_info_spec(path: Seq<char>, version: u64, kind: Seq<char>) -> Seq<
    Seq<char>,
> {
    seq!["path: "@ + path, "version: "@ + decimal_spec(version as nat), "kind: "@ + kind]
}

/// Renders destination metadata as labeled lines.
pub fn destination_info(path: &str, version: u64, kind: &str) -> (res: Vec<String>)
    ensures
        lines_view(res@) == destination_info_spec(path@, version, kind@),
{
    let mut a = String::new();
    a.append("path: ");
    a.append(path);
    let mut b = String::new();
    b.append("version: ");
    b.append(decimal(version).as_str());
    let mut c = String::new();
    c.append("kind: ");
    c.append(kind);
    let mut lines: Vec<String> = Vec::new();
    lines.push(a);
    lines.push(b);
    lines.push(c);
    assert(lines_view(lines@) =~= destination_info_spec(path@, version, kind@));
    lines
}

} // verus!

verus! {

/// A listing of a destination catalog that may descend into subcontainers: the members
/// collected so far and the subcontainer paths still to visit.
pub struct MemberWalk {
    pub collected: Vec<Member>,
    pub pending: Vec<String>,
}

impl MemberWalk {
    /// Begins a listing: nothing collected, nothing to visit.
    pub fn new() -> (res: MemberWalk)
        ensures
            res.collected@.len() == 0,
            res.pending@.len() == 0,
    {
        MemberWalk { collected: Vec::new(), pending: Vec::new() }
    }

    /// Takes the direct members of one visited node. The members that `filter` selects are
    /// collected, containers first; a recursive listing also queues every subcontainer for a
    /// visit, whatever the filter. Returns which groups were collected: (containers,
    /// subcontainers).
    pub fn node_listed(
        &mut self,
        containers: Vec<Member>,
        subcontainers: Vec<Member>,
        filter: MemberFilter,
        recursive: bool,
    ) -> (res: (bool, bool))
        ensures
            res.0 == (filter != MemberFilter::Subcontainers),
            res.1 == (filter != MemberFilter::Containers),
            final(self).collected@ == old(self).collected@ + (if res.0 {
                containers@
            } else {
                Seq::<Member>::empty()
            }) + (if res.1 {
                subcontainers@
            } else {
                Seq::<Member>::empty()
            }),
            lines_view(final(self).pending@) == lines_view(old(self).pending@) + (if recursive {
                member_paths(subcontainers@)
            } else {
                Seq::<Seq<char>>::empty()
            }),
    {
        let ghost start = lines_view(self.pending@);
        let ghost subs = subcontainers@;
        if recursive {
            let mut i: usize = 0;
            while i < subcontainers.len()
                invariant
                    i <= subcontainers@.len(),
                    lines_view(self.pending@) == start + member_paths(subcontainers@.take(i as int)),
                    self.collected@ == old(self).collected@,
                decreases subcontainers@.len() - i,
            {
                let ghost before = lines_view(self.pending@);
                self.pending.push(member_path(&subcontainers[i]).clone());
                assert(lines_view(self.pending@) =~= before.push(member_path_spec(subcontainers@[i as int])));
                i = i + 1;
                assert(member_paths(subcontainers@.take(i as int)) =~= member_paths(
                    subcontainers@.take(i - 1),
                ).push(member_path_spec(subcontainers@[i - 1])));
            }
            assert(subcontainers@.take(i as int) =~= subcontainers@);
        } else {
            assert(lines_view(self.pending@) =~= start + Seq::<Seq<char>>::empty());
        }
        let parts = member_filter_parts(filter);
        let ghost before = self.collected@;
        let ghost cons = containers@;
        let mut containers = containers;
        let mut subcontainers = subcontainers;
        if parts.0 {
            self.collected.append(&mut containers);
        }
        assert(self.collected@ =~= before + (if parts.0 {
            cons
        } else {
            Seq::<Member>::empty()
        }));
        let ghost middle = self.collected@;
        if parts.1 {
            self.collected.append(&mut subcontainers);
        }
        assert(self.collected@ =~= middle + (if parts.1 {
            subs
        } else {
            Seq::<Member>::empty()
        }));
        parts
    }
}

} // verus!

verus! {

impl MemberWalk {
    /// The next subcontainer to visit, most recently queued first; `None` when every queued
    /// subcontainer was visited. The collected members stay as they are.
    pub fn next_node(&mut self) -> (res: Option<String>)
        ensures
            final(self).collected@ == old(self).collected@,
            old(self).pending@.len() == 0 ==> res is None && final(self).pending@ == old(
                self,
            ).pending@,
            old(self).pending@.len() > 0 ==> res == Some(old(self).pending@.last())
                && final(self).pending@ == old(self).pending@.drop_last(),
    {
        self.pending.pop()
    }
}

} // verus!

verus! {

/// The document of destination `info --json`.
pub struct DestinationInfoDoc {
    pub path: String,
    pub version: u64,
    pub kind: String,
}

/// Builds the document of destination `info --json`: path, version and kind as given.
pub fn destination_info_json(path: &str, version: u64, kind: &str) -> (res: DestinationInfoDoc)
    ensures
        res.path@ == path@,
        res.version == version,
        res.kind@ == kind@,
{
    let mut p = String::new();
    p.append(path);
    let mut k = String::new();
    k.append(kind);
    DestinationInfoDoc { path: p, version, kind: k }
}

} // verus!
