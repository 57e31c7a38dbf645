//! Target elicitation at a workspace root: the documentation-package
//! candidates of `vp doc`, the package rows of a bare app command, their
//! order, and what is printed when the terminal is not interactive.

use vstd::prelude::*;
use vstd::string::*;

use crate::detect::{answers, detect_providers_by, select_by};
use crate::json::{JsonValue, entries_get};
use crate::order::{insert_sorted, insertion_sort, lemma_insert_at, str_lt, text_lt};
use crate::providers::{PROVIDER_COUNT, ProviderView, builtin_providers, provider_views};
use crate::resolve::{ids_of, provider_ids};
use crate::target::{FieldValue, MemberFacts, WorkspaceShape, at_invocation_root, member_looks_runnable,
    member_runnable};
use crate::text::{seq_join, str_eq, strings_view};

verus! {

/// The exit status after a non-interactive listing or a `defaultPackage`
/// error.
pub const ELICITATION_FAILED: u8 = 1;

/// The exit status when the picker is cancelled.
pub const PICKER_CANCELLED: u8 = 130;

/// What the invocation directory holds for classifying a `vp doc`
/// invocation.
#[derive(Debug)]
pub struct DocRootFacts {
    /// The workspace lookup; `None` when it failed.
    pub workspace: Option<WorkspaceShape>,
    /// `defaultPackage` as the invocation directory's config declares it.
    pub default_package: Option<FieldValue>,
    /// The workspace root's own manifest declares a documentation marker.
    pub root_declares_marker: bool,
}

/// A workspace member as the package graph records it.
#[derive(Debug)]
pub struct DocMember {
    pub name: String,
    /// The member's path relative to the workspace root; empty for the
    /// root itself.
    pub path: String,
    pub absolute: std::path::PathBuf,
    /// The names in the member's `dependencies`.
    pub dependencies: Vec<String>,
    /// The names in the member's `devDependencies`.
    pub dev_dependencies: Vec<String>,
}

/// A workspace package that declares a documentation provider marker.
#[derive(Debug)]
pub struct DocCandidateRow {
    pub name: String,
    pub path: String,
    pub absolute: std::path::PathBuf,
    /// The detected provider ids, joined with `, `.
    pub providers: String,
}

pub struct CandidateView {
    pub name: Seq<char>,
    pub path: Seq<char>,
    pub absolute: std::path::PathBuf,
    pub providers: Seq<char>,
}

impl View for DocCandidateRow {
    type V = CandidateView;

    open spec fn view(&self) -> CandidateView {
        CandidateView {
            name: self.name@,
            path: self.path@,
            absolute: self.absolute,
            providers: self.providers@,
        }
    }
}

/// The doc-specific classification of an invocation directory.
#[derive(Debug)]
pub enum DocClassification {
    /// No redirect and no candidates: the command runs in place.
    RunInPlace,
    /// The `doc` entry of `defaultPackage` applies (possibly invalid or
    /// non-static; the redirect reports it).
    Redirect(FieldValue),
    /// Marker-declaring members at a workspace root without a root marker.
    Elicit(Vec<DocCandidateRow>),
}

pub enum DocClassView {
    RunInPlace,
    Redirect(FieldValue),
    Elicit(Seq<CandidateView>),
}

pub open spec fn candidate_views(rows: Seq<DocCandidateRow>) -> Seq<CandidateView> {
    rows.map_values(|r: DocCandidateRow| r@)
}

impl View for DocClassification {
    type V = DocClassView;

    open spec fn view(&self) -> DocClassView {
        match self {
            DocClassification::RunInPlace => DocClassView::RunInPlace,
            DocClassification::Redirect(v) => DocClassView::Redirect(*v),
            DocClassification::Elicit(rows) => DocClassView::Elicit(candidate_views(rows@)),
        }
    }
}

impl DocClassification {
    /// Whether resolution would do anything other than run in place.
    pub fn elicits(&self) -> (r: bool)
        ensures
            r == !(self@ is RunInPlace),
    {
        !matches!(self, DocClassification::RunInPlace)
    }

    /// The classification as one doc subcommand applies it: the redirect
    /// applies to every subcommand, the picker or listing only where the
    /// subcommand `elicit`s (the actions; `init` and `info` run in place).
    pub fn for_subcommand(self, elicit: bool) -> (r: DocClassification)
        ensures
            r@ == (if !elicit && self@ is Elicit {
                DocClassView::RunInPlace
            } else {
                self@
            }),
    {
        match self {
            DocClassification::Elicit(rows) => if elicit {
                DocClassification::Elicit(rows)
            } else {
                DocClassification::RunInPlace
            },
            other => other,
        }
    }
}

/// The `doc` entry of `defaultPackage` redirects every doc subcommand.
/// Only the object form carries it; the string form covers the app
/// commands and never `doc`; any other declared shape passes through so
/// the redirect reports it.
pub open spec fn doc_redirect(declared: Option<FieldValue>) -> Option<FieldValue> {
    match declared {
        Some(FieldValue::Json(JsonValue::Object(entries))) => match entries_get(entries@, "doc"@) {
            Some(v) => Some(FieldValue::Json(v)),
            None => None,
        },
        Some(FieldValue::Json(JsonValue::String(_))) => None,
        Some(other) => Some(other),
        None => None,
    }
}

/// The classification decided before the workspace members are listed;
/// `None` when the members decide it.
pub open spec fn doc_root_outcome(facts: DocRootFacts) -> Option<DocClassView> {
    if !at_invocation_root(facts.workspace) {
        Some(DocClassView::RunInPlace)
    } else {
        match doc_redirect(facts.default_package) {
            Some(v) => Some(DocClassView::Redirect(v)),
            None => match facts.workspace {
                None => Some(DocClassView::RunInPlace),
                Some(shape) => if !shape.is_workspace || facts.root_declares_marker {
                    Some(DocClassView::RunInPlace)
                } else {
                    None
                },
            },
        }
    }
}

/// Classify a `vp doc` invocation directory up to the member listing:
/// `None` asks the caller to list the workspace members for
/// [`classify_doc_members`]. A member directory never elicits, and a root
/// that declares its own marker is its own documentation site.
pub fn classify_doc_root(facts: DocRootFacts) -> (r: Option<DocClassification>)
    ensures
        match r {
            Some(c) => doc_root_outcome(facts) == Some(c@),
            None => doc_root_outcome(facts) is None,
        },
{
    let DocRootFacts { workspace, default_package, root_declares_marker } = facts;
    let at_root = match workspace {
        Some(shape) => shape.at_root,
        None => true,
    };
    if !at_root {
        return Some(DocClassification::RunInPlace);
    }
    match default_package {
        Some(FieldValue::Json(JsonValue::Object(entries))) => {
            if let Some(v) = take_doc_entry(entries) {
                return Some(DocClassification::Redirect(FieldValue::Json(v)));
            }
        },
        Some(FieldValue::Json(JsonValue::String(_))) => {},
        Some(other) => return Some(DocClassification::Redirect(other)),
        None => {},
    }
    match workspace {
        None => Some(DocClassification::RunInPlace),
        Some(shape) => {
            if !shape.is_workspace || root_declares_marker {
                Some(DocClassification::RunInPlace)
            } else {
                None
            }
        },
    }
}

fn take_doc_entry(source: Vec<(String, JsonValue)>) -> (r: Option<JsonValue>)
    ensures
        r == entries_get(source@, "doc"@),
{
    let mut entries = source;
    let ghost all = entries@;
    let mut i: usize = 0;
    proof {
        assert(all.skip(0) =~= all);
    }
    while i < entries.len()
        invariant
            entries@ == all,
            all == source@,
            i <= all.len(),
            entries_get(all, "doc"@) == entries_get(all.skip(i as int), "doc"@),
        decreases all.len() - i,
    {
        proof {
            assert(all.skip(i as int).drop_first() =~= all.skip(i + 1));
            assert(all.skip(i as int)[0] == all[i as int]);
        }
        if str_eq(entries[i].0.as_str(), "doc") {
            assert(entries_get(all.skip(i as int), "doc"@) == Some(all[i as int].1));
            let removed = entries.swap_remove(i);
            assert(removed == all[i as int]);
            return Some(removed.1);
        }
        i += 1;
    }
    None
}

/// Some name in `names` is `marker`.
pub open spec fn names_contain(names: Seq<String>, marker: Seq<char>) -> bool {
    exists|i: int| 0 <= i < names.len() && names[i]@ == marker
}

/// A member declares a marker in `dependencies` or `devDependencies`;
/// `peerDependencies` stays excluded, as in detection from a manifest.
pub open spec fn declares_marker(m: DocMember, marker: Seq<char>) -> bool {
    names_contain(m.dependencies@, marker) || names_contain(m.dev_dependencies@, marker)
}

fn contains_name(declared: &Vec<String>, marker: &str) -> (r: bool)
    ensures
        r == names_contain(declared@, marker@),
{
    let mut i: usize = 0;
    while i < declared.len()
        invariant
            i <= declared@.len(),
            forall|j: int| 0 <= j < i ==> declared@[j]@ != marker@,
        decreases declared@.len() - i,
    {
        if str_eq(declared[i].as_str(), marker) {
            assert(declared@[i as int]@ == marker@);
            return true;
        }
        i += 1;
    }
    false
}

/// The flags of the built-in providers whose marker a member declares.
pub open spec fn member_flags(m: DocMember) -> Seq<bool> {
    Seq::new(PROVIDER_COUNT as nat, |i: int| declares_marker(m, builtin_providers()[i].marker))
}

/// The built-in providers a member declares, in definition order.
pub open spec fn member_providers(m: DocMember) -> Seq<ProviderView> {
    select_by(builtin_providers(), member_flags(m))
}

/// The candidate row of a member: a non-root member that declares at
/// least one provider marker.
pub open spec fn candidate_of(m: DocMember) -> Option<CandidateView> {
    let ps = member_providers(m);
    if m.path@.len() == 0 || ps.len() == 0 {
        None
    } else {
        Some(
            CandidateView {
                name: m.name@,
                path: m.path@,
                absolute: m.absolute,
                providers: seq_join(ids_of(ps), ", "@),
            },
        )
    }
}

/// The candidate rows of the members, in member order.
pub open spec fn candidates(members: Seq<DocMember>) -> Seq<CandidateView>
    decreases members.len(),
{
    if members.len() == 0 {
        Seq::empty()
    } else {
        let rest = candidates(members.drop_last());
        match candidate_of(members.last()) {
            Some(c) => rest.push(c),
            None => rest,
        }
    }
}

/// Candidates sort by path.
pub open spec fn by_path() -> spec_fn(CandidateView, CandidateView) -> bool {
    |a: CandidateView, b: CandidateView| text_lt(a.path, b.path)
}

/// The classification the members decide: the candidates sorted by path
/// (stably), or running in place when there is none.
pub open spec fn doc_members_outcome(members: Seq<DocMember>) -> DocClassView {
    let c = candidates(members);
    if c.len() == 0 {
        DocClassView::RunInPlace
    } else {
        DocClassView::Elicit(insertion_sort(c, by_path()))
    }
}

fn candidate_row(m: DocMember) -> (r: Option<DocCandidateRow>)
    ensures
        match r {
            Some(row) => candidate_of(m) == Some(row@),
            None => candidate_of(m) is None,
        },
{
    let ps = {
        let member = &m;
        let lookup = |marker: &str| -> (b: bool)
            ensures
                b == declares_marker(*member, marker@),
            {
                contains_name(&member.dependencies, marker) || contains_name(
                    &member.dev_dependencies,
                    marker,
                )
            };
        let ps = detect_providers_by(lookup);
        proof {
            let keep = choose|keep: Seq<bool>|
                {
                    &&& keep.len() == PROVIDER_COUNT
                    &&& forall|i: int|
                        0 <= i < PROVIDER_COUNT ==> answers(
                            lookup,
                            builtin_providers()[i].marker,
                            #[trigger] keep[i],
                        )
                    &&& provider_views(ps@) == select_by(builtin_providers(), keep)
                };
            assert forall|i: int| 0 <= i < PROVIDER_COUNT implies keep[i] == member_flags(m)[i] by {
                assert(answers(lookup, builtin_providers()[i].marker, keep[i]));
                let s = choose|s: &str|
                    s@ == builtin_providers()[i].marker && call_ensures(lookup, (s,), keep[i]);
                assert(keep[i] == declares_marker(m, s@));
            }
            assert(keep =~= member_flags(m));
        }
        ps
    };
    let DocMember { name, path, absolute, dependencies: _, dev_dependencies: _ } = m;
    if path.unicode_len() == 0 || ps.len() == 0 {
        return None;
    }
    let providers = provider_ids(&ps, ", ");
    Some(DocCandidateRow { name, path, absolute, providers })
}

/// Insert a row before the first row it sorts strictly before.
fn insert_candidate(rows: &mut Vec<DocCandidateRow>, row: DocCandidateRow)
    ensures
        candidate_views(final(rows)@) == insert_sorted(candidate_views(old(rows)@), row@, by_path()),
{
    let ghost before = candidate_views(rows@);
    let mut j: usize = 0;
    while j < rows.len()
        invariant
            j <= rows@.len(),
            before == candidate_views(rows@),
            forall|k: int| 0 <= k < j ==> !(by_path())(row@, #[trigger] before[k]),
        ensures
            j <= rows@.len(),
            before == candidate_views(rows@),
            forall|k: int| 0 <= k < j ==> !(by_path())(row@, #[trigger] before[k]),
            j == rows@.len() || (by_path())(row@, before[j as int]),
        decreases rows@.len() - j,
    {
        if str_lt(row.path.as_str(), rows[j].path.as_str()) {
            assert(before[j as int] == rows@[j as int]@);
            break;
        }
        j += 1;
    }
    proof {
        lemma_insert_at(before, row@, by_path(), j as int);
    }
    let ghost v = row@;
    rows.insert(j, row);
    proof {
        assert(candidate_views(rows@) =~= before.take(j as int).push(v) + before.skip(j as int));
    }
}

/// Classify from the workspace members: the marker-declaring members (the
/// root excluded), sorted by path, or running in place without any.
pub fn classify_doc_members(members: Vec<DocMember>) -> (r: DocClassification)
    ensures
        r@ == doc_members_outcome(members@),
{
    let mut members = members;
    let ghost all = members@;
    let n = members.len();
    let mut rows: Vec<DocCandidateRow> = Vec::new();
    let mut k: usize = 0;
    proof {
        assert(all.take(0) =~= Seq::<DocMember>::empty());
        assert(candidate_views(rows@) =~= Seq::<CandidateView>::empty());
    }
    while members.len() > 0
        invariant
            k <= all.len(),
            all.len() == n,
            members@ == all.skip(k as int),
            candidate_views(rows@) == insertion_sort(candidates(all.take(k as int)), by_path()),
            candidates(all.take(k as int)).len() == 0 <==> rows@.len() == 0,
        decreases members@.len(),
    {
        let m = members.remove(0);
        proof {
            assert(m == all[k as int]);
            assert(all.take(k + 1).drop_last() =~= all.take(k as int));
            assert(all.skip(k as int).remove(0) =~= all.skip(k + 1));
        }
        let ghost sorted = candidate_views(rows@);
        match candidate_row(m) {
            Some(row) => {
                let ghost c = row@;
                insert_candidate(&mut rows, row);
                proof {
                    let s = candidates(all.take(k as int)).push(c);
                    assert(s.drop_last() =~= candidates(all.take(k as int)));
                    assert(candidates(all.take(k + 1)) == s);
                    assert(insertion_sort(s, by_path()) == insert_sorted(sorted, c, by_path()));
                    assert(candidate_views(rows@).len() == rows@.len());
                    assert(rows@.len() > 0) by {
                        crate::elicit::lemma_insert_nonempty(sorted, c, by_path());
                    }
                }
            },
            None => {},
        }
        k += 1;
    }
    proof {
        assert(all.take(k as int) =~= all);
    }
    if rows.len() == 0 {
        DocClassification::RunInPlace
    } else {
        DocClassification::Elicit(rows)
    }
}

proof fn lemma_insert_nonempty<T>(s: Seq<T>, x: T, lt: spec_fn(T, T) -> bool)
    ensures
        insert_sorted(s, x, lt).len() == s.len() + 1,
    decreases s.len(),
{
    if s.len() > 0 && !lt(x, s[0]) {
        lemma_insert_nonempty(s.drop_first(), x, lt);
    }
}

/// A workspace member for the package picker of a bare app command.
#[derive(Debug)]
pub struct PackageMember {
    pub name: String,
    /// The member's path relative to the workspace root; empty for the
    /// root itself.
    pub path: String,
    pub absolute: std::path::PathBuf,
    pub facts: MemberFacts,
}

/// A row of the package picker or listing.
#[derive(Debug)]
pub struct PackageRow {
    pub name: String,
    pub path: String,
    pub absolute: std::path::PathBuf,
    /// The member looks runnable for the command.
    pub runnable: bool,
}

pub struct RowView {
    pub name: Seq<char>,
    pub path: Seq<char>,
    pub absolute: std::path::PathBuf,
    pub runnable: bool,
}

impl View for PackageRow {
    type V = RowView;

    open spec fn view(&self) -> RowView {
        RowView {
            name: self.name@,
            path: self.path@,
            absolute: self.absolute,
            runnable: self.runnable,
        }
    }
}

pub open spec fn row_views(rows: Seq<PackageRow>) -> Seq<RowView> {
    rows.map_values(|r: PackageRow| r@)
}

/// The row of a member: every member but the root, which runs in place
/// whenever it looks runnable.
pub open spec fn row_of(m: PackageMember, command: Seq<char>) -> Option<RowView> {
    if m.path@.len() == 0 {
        None
    } else {
        Some(
            RowView {
                name: m.name@,
                path: m.path@,
                absolute: m.absolute,
                runnable: member_runnable(m.facts, command),
            },
        )
    }
}

/// The rows of the members, in member order.
pub open spec fn rows_of(members: Seq<PackageMember>, command: Seq<char>) -> Seq<RowView>
    decreases members.len(),
{
    if members.len() == 0 {
        Seq::empty()
    } else {
        let rest = rows_of(members.drop_last(), command);
        match row_of(members.last(), command) {
            Some(r) => rest.push(r),
            None => rest,
        }
    }
}

/// Likely-runnable rows first, then by path.
pub open spec fn by_rank() -> spec_fn(RowView, RowView) -> bool {
    |a: RowView, b: RowView|
        (a.runnable && !b.runnable) || (a.runnable == b.runnable && text_lt(a.path, b.path))
}

fn insert_row(rows: &mut Vec<PackageRow>, row: PackageRow)
    ensures
        row_views(final(rows)@) == insert_sorted(row_views(old(rows)@), row@, by_rank()),
{
    let ghost before = row_views(rows@);
    let mut j: usize = 0;
    while j < rows.len()
        invariant
            j <= rows@.len(),
            before == row_views(rows@),
            forall|k: int| 0 <= k < j ==> !(by_rank())(row@, #[trigger] before[k]),
        ensures
            j <= rows@.len(),
            before == row_views(rows@),
            forall|k: int| 0 <= k < j ==> !(by_rank())(row@, #[trigger] before[k]),
            j == rows@.len() || (by_rank())(row@, before[j as int]),
        decreases rows@.len() - j,
    {
        let other = &rows[j];
        let precedes = (row.runnable && !other.runnable) || (row.runnable == other.runnable
            && str_lt(row.path.as_str(), other.path.as_str()));
        if precedes {
            assert(before[j as int] == rows@[j as int]@);
            break;
        }
        assert(before[j as int] == rows@[j as int]@);
        j += 1;
    }
    proof {
        lemma_insert_at(before, row@, by_rank(), j as int);
    }
    let ghost v = row@;
    rows.insert(j, row);
    proof {
        assert(row_views(rows@) =~= before.take(j as int).push(v) + before.skip(j as int));
    }
}

/// The package rows for a bare `command` at a workspace root: every member
/// but the root, likely-runnable ones first, each group by path (stably).
pub fn package_rows(members: Vec<PackageMember>, command: &str) -> (r: Vec<PackageRow>)
    ensures
        row_views(r@) == insertion_sort(rows_of(members@, command@), by_rank()),
{
    let mut members = members;
    let ghost all = members@;
    let n = members.len();
    let mut rows: Vec<PackageRow> = Vec::new();
    let mut k: usize = 0;
    proof {
        assert(all.take(0) =~= Seq::<PackageMember>::empty());
        assert(row_views(rows@) =~= Seq::<RowView>::empty());
    }
    while members.len() > 0
        invariant
            k <= all.len(),
            all.len() == n,
            members@ == all.skip(k as int),
            row_views(rows@) == insertion_sort(rows_of(all.take(k as int), command@), by_rank()),
        decreases members@.len(),
    {
        let m = members.remove(0);
        proof {
            assert(m == all[k as int]);
            assert(all.take(k + 1).drop_last() =~= all.take(k as int));
            assert(all.skip(k as int).remove(0) =~= all.skip(k + 1));
        }
        let ghost sorted = row_views(rows@);
        if m.path.unicode_len() > 0 {
            let runnable = member_looks_runnable(&m.facts, command);
            let PackageMember { name, path, absolute, facts: _ } = m;
            let row = PackageRow { name, path, absolute, runnable };
            let ghost c = row@;
            insert_row(&mut rows, row);
            proof {
                let s = rows_of(all.take(k as int), command@).push(c);
                assert(s.drop_last() =~= rows_of(all.take(k as int), command@));
                assert(rows_of(all.take(k + 1), command@) == s);
            }
        }
        k += 1;
    }
    proof {
        assert(all.take(k as int) =~= all);
    }
    rows
}

/// Exactly one likely-runnable package (rows are sorted runnable first)
/// auto-selects without a menu.
pub fn single_runnable(rows: &Vec<PackageRow>) -> (r: bool)
    requires
        rows@.len() > 0,
    ensures
        r == (rows@[0].runnable && (rows@.len() == 1 || !rows@[1].runnable)),
{
    rows[0].runnable && (rows.len() == 1 || !rows[1].runnable)
}

/// The number of bytes of a character's UTF-8 encoding.
pub open spec fn char_utf8_len(c: char) -> nat {
    if (c as u32) < 0x80 {
        1
    } else if (c as u32) < 0x800 {
        2
    } else if (c as u32) < 0x10000 {
        3
    } else {
        4
    }
}

/// The number of bytes of a text's UTF-8 encoding.
pub open spec fn utf8_len(s: Seq<char>) -> nat
    decreases s.len(),
{
    if s.len() == 0 {
        0
    } else {
        utf8_len(s.drop_last()) + char_utf8_len(s.last())
    }
}

/// Calls `str::len`, which std documents as the length in bytes of the
/// string's UTF-8 encoding.
#[verifier::external_body]
fn byte_len(s: &str) -> (r: usize)
    ensures
        r == utf8_len(s@),
{
    s.len()
}

/// The largest UTF-8 length of the texts; 0 for none.
pub open spec fn max_width(texts: Seq<Seq<char>>) -> nat
    decreases texts.len(),
{
    if texts.len() == 0 {
        0
    } else {
        let rest = max_width(texts.drop_last());
        let last = utf8_len(texts.last());
        if last > rest {
            last
        } else {
            rest
        }
    }
}

/// `s` padded with spaces to `width` characters, as a `{:<width$}` format
/// argument renders it.
pub open spec fn pad_right(s: Seq<char>, width: nat) -> Seq<char> {
    if s.len() < width {
        s + Seq::new((width - s.len()) as nat, |i: int| ' ')
    } else {
        s
    }
}

fn push_padded(line: &mut String, s: &str, width: usize)
    ensures
        final(line)@ == old(line)@ + pad_right(s@, width as nat),
{
    let ghost start = line@;
    line.append(s);
    let n = s.unicode_len();
    let mut count = n;
    proof {
        assert(line@ =~= start + s@ + Seq::new((count - n) as nat, |i: int| ' '));
    }
    while count < width
        invariant
            n == s@.len(),
            n <= count,
            count <= width || count == n,
            line@ == start + s@ + Seq::new((count - n) as nat, |i: int| ' '),
        decreases width - count,
    {
        let ghost prev = line@;
        line.append(" ");
        proof {
            reveal_strlit(" ");
            assert(line@ =~= start + s@ + Seq::new((count + 1 - n) as nat, |i: int| ' '));
        }
        count += 1;
    }
    proof {
        if n < width {
            assert(count == width);
        } else {
            assert(line@ =~= start + s@);
        }
    }
}

/// The largest byte length of `texts`.
fn widest(texts: &Vec<String>) -> (r: usize)
    ensures
        r == max_width(strings_view(texts@)),
{
    let ghost views = strings_view(texts@);
    let mut w: usize = 0;
    let mut i: usize = 0;
    while i < texts.len()
        invariant
            i <= texts@.len(),
            views == strings_view(texts@),
            w == max_width(views.take(i as int)),
        decreases texts@.len() - i,
    {
        let b = byte_len(texts[i].as_str());
        proof {
            assert(views.take(i + 1).drop_last() =~= views.take(i as int));
            assert(views.take(i + 1).last() == texts@[i as int]@);
        }
        if b > w {
            w = b;
        }
        i += 1;
    }
    proof {
        assert(views.take(texts@.len() as int) =~= views);
    }
    w
}

/// What is printed when the terminal is not interactive: an error line
/// and the lines that follow it.
#[derive(Debug)]
pub struct Listing {
    pub error: String,
    pub lines: Vec<String>,
}

pub open spec fn package_listing_error(command: Seq<char>) -> Seq<char> {
    "`vp "@ + command + "` at the workspace root needs a target package."@
}

pub open spec fn package_line(row: RowView, width: nat) -> Seq<char> {
    "    "@ + pad_right(row.name, width) + "  "@ + row.path
}

pub open spec fn row_names(rows: Seq<RowView>) -> Seq<Seq<char>> {
    Seq::new(rows.len(), |i: int| rows[i].name)
}

pub open spec fn package_lines(rows: Seq<RowView>, width: nat) -> Seq<Seq<char>> {
    Seq::new(rows.len(), |i: int| package_line(rows[i], width))
}

/// The package listing: the rows with their names aligned, an example
/// `-C` invocation for the first row, and the recursive-run alternative.
pub open spec fn package_listing_lines(rows: Seq<RowView>, command: Seq<char>) -> Seq<Seq<char>> {
    let width = max_width(row_names(rows));
    seq![""@, "  Packages in this workspace:"@] + package_lines(rows, width) + seq![
        ""@,
        "  Pass a directory:  vp -C "@ + rows[0].path + " "@ + command,
        "  Or run every package's "@ + command + " script:  vp run -r "@ + command,
    ]
}

fn owned(s: &str) -> (r: String)
    ensures
        r@ == s@,
{
    String::from_str(s)
}

/// The listing for a bare app command at a workspace root.
pub fn package_listing(rows: &Vec<PackageRow>, command: &str) -> (r: Listing)
    requires
        rows@.len() > 0,
    ensures
        r.error@ == package_listing_error(command@),
        strings_view(r.lines@) == package_listing_lines(row_views(rows@), command@),
{
    let mut error = owned("`vp ");
    error.append(command);
    error.append("` at the workspace root needs a target package.");

    let mut names: Vec<String> = Vec::new();
    let mut i: usize = 0;
    while i < rows.len()
        invariant
            i <= rows@.len(),
            strings_view(names@) == row_names(row_views(rows@).take(i as int)),
        decreases rows@.len() - i,
    {
        let ghost prev = names@;
        names.push(rows[i].name.clone());
        proof {
            assert(strings_view(names@) =~= strings_view(prev).push(rows@[i as int].name@));
            assert(row_names(row_views(rows@).take(i + 1)) =~= row_names(
                row_views(rows@).take(i as int),
            ).push(rows@[i as int].name@));
        }
        i += 1;
    }
    proof {
        assert(row_views(rows@).take(rows@.len() as int) =~= row_views(rows@));
    }
    let width = widest(&names);
    let ghost w = width as nat;

    let mut lines: Vec<String> = Vec::new();
    lines.push(owned(""));
    lines.push(owned("  Packages in this workspace:"));
    let ghost head = seq![""@, "  Packages in this workspace:"@];
    proof {
        assert(strings_view(lines@) =~= head);
    }
    let mut i: usize = 0;
    while i < rows.len()
        invariant
            i <= rows@.len(),
            width == max_width(row_names(row_views(rows@))),
            w == width as nat,
            strings_view(lines@) == head + package_lines(row_views(rows@).take(i as int), w),
        decreases rows@.len() - i,
    {
        let mut line = owned("    ");
        push_padded(&mut line, rows[i].name.as_str(), width);
        line.append("  ");
        line.append(rows[i].path.as_str());
        let ghost prev = lines@;
        lines.push(line);
        proof {
            assert(line@ == package_line(row_views(rows@)[i as int], w));
            assert(strings_view(lines@) =~= strings_view(prev).push(line@));
            assert(package_lines(row_views(rows@).take(i + 1), w) =~= package_lines(
                row_views(rows@).take(i as int),
                w,
            ).push(package_line(row_views(rows@)[i as int], w)));
        }
        i += 1;
    }
    proof {
        assert(row_views(rows@).take(rows@.len() as int) =~= row_views(rows@));
    }
    let ghost body = strings_view(lines@);
    lines.push(owned(""));
    let mut example = owned("  Pass a directory:  vp -C ");
    example.append(rows[0].path.as_str());
    example.append(" ");
    example.append(command);
    lines.push(example);
    let mut recursive = owned("  Or run every package's ");
    recursive.append(command);
    recursive.append(" script:  vp run -r ");
    recursive.append(command);
    lines.push(recursive);
    proof {
        assert(strings_view(lines@) =~= body + seq![
            ""@,
            "  Pass a directory:  vp -C "@ + rows@[0].path@ + " "@ + command@,
            "  Or run every package's "@ + command@ + " script:  vp run -r "@ + command@,
        ]);
    }
    Listing { error, lines }
}

pub open spec fn doc_listing_error(count: nat) -> Seq<char> {
    if count == 1 {
        "a workspace package declares a documentation provider"@
    } else {
        "several workspace packages declare a documentation provider"@
    }
}

pub open spec fn invocation_text(path: Seq<char>, command: Seq<char>) -> Seq<char> {
    "vp -C "@ + path + " "@ + command
}

pub open spec fn doc_line(row: CandidateView, command: Seq<char>, width: nat) -> Seq<char> {
    "  "@ + pad_right(invocation_text(row.path, command), width) + "  ("@ + row.providers + ")"@
}

pub open spec fn invocations_of(rows: Seq<CandidateView>, command: Seq<char>) -> Seq<Seq<char>> {
    Seq::new(rows.len(), |i: int| invocation_text(rows[i].path, command))
}

pub open spec fn doc_lines(rows: Seq<CandidateView>, command: Seq<char>, width: nat) -> Seq<
    Seq<char>,
> {
    Seq::new(rows.len(), |i: int| doc_line(rows[i], command, width))
}

/// The candidate listing: the `-C` invocation of each candidate, aligned,
/// followed by its providers.
pub open spec fn doc_listing_lines(rows: Seq<CandidateView>, command: Seq<char>) -> Seq<Seq<char>> {
    let width = max_width(invocations_of(rows, command));
    seq![""@] + doc_lines(rows, command, width)
}

/// The non-interactive listing of the documentation-package candidates;
/// `command` is the invocation to echo (`doc`, `doc build`, ...).
pub fn doc_listing(rows: &Vec<DocCandidateRow>, command: &str) -> (r: Listing)
    ensures
        r.error@ == doc_listing_error(rows@.len()),
        strings_view(r.lines@) == doc_listing_lines(candidate_views(rows@), command@),
{
    let error = if rows.len() == 1 {
        owned("a workspace package declares a documentation provider")
    } else {
        owned("several workspace packages declare a documentation provider")
    };
    let ghost views = candidate_views(rows@);
    let mut invocations: Vec<String> = Vec::new();
    let mut i: usize = 0;
    while i < rows.len()
        invariant
            i <= rows@.len(),
            views == candidate_views(rows@),
            strings_view(invocations@) == invocations_of(views.take(i as int), command@),
        decreases rows@.len() - i,
    {
        let mut invocation = owned("vp -C ");
        invocation.append(rows[i].path.as_str());
        invocation.append(" ");
        invocation.append(command);
        let ghost prev = invocations@;
        invocations.push(invocation);
        proof {
            assert(strings_view(invocations@) =~= strings_view(prev).push(
                invocation_text(views[i as int].path, command@),
            ));
            assert(invocations_of(views.take(i + 1), command@) =~= invocations_of(
                views.take(i as int),
                command@,
            ).push(invocation_text(views[i as int].path, command@)));
        }
        i += 1;
    }
    proof {
        assert(views.take(rows@.len() as int) =~= views);
    }
    let width = widest(&invocations);
    let ghost w = width as nat;
    let mut lines: Vec<String> = Vec::new();
    lines.push(owned(""));
    proof {
        assert(strings_view(lines@) =~= seq![""@]);
    }
    let mut i: usize = 0;
    while i < rows.len()
        invariant
            i <= rows@.len(),
            views == candidate_views(rows@),
            invocations@.len() == rows@.len(),
            width == max_width(invocations_of(views, command@)),
            w == width as nat,
            strings_view(invocations@) == invocations_of(views, command@),
            strings_view(lines@) == seq![""@] + doc_lines(views.take(i as int), command@, w),
        decreases rows@.len() - i,
    {
        let mut line = owned("  ");
        proof {
            assert(strings_view(invocations@)[i as int] == invocations@[i as int]@);
            assert(invocations@[i as int]@ == invocation_text(views[i as int].path, command@));
        }
        push_padded(&mut line, invocations[i].as_str(), width);
        line.append("  (");
        line.append(rows[i].providers.as_str());
        line.append(")");
        let ghost prev = lines@;
        lines.push(line);
        proof {
            assert(strings_view(lines@) =~= strings_view(prev).push(
                doc_line(views[i as int], command@, w),
            ));
            assert(doc_lines(views.take(i + 1), command@, w) =~= doc_lines(
                views.take(i as int),
                command@,
                w,
            ).push(doc_line(views[i as int], command@, w)));
        }
        i += 1;
    }
    proof {
        assert(views.take(rows@.len() as int) =~= views);
    }
    Listing { error, lines }
}

pub open spec fn doc_picker_prompt_text() -> Seq<char> {
    "Select a documentation package (\u{2191}/\u{2193}, Enter to run, type to search):"@
}

/// The prompt of the documentation-package picker.
pub fn doc_picker_prompt() -> (r: &'static str)
    ensures
        r@ == doc_picker_prompt_text(),
{
    "Select a documentation package (\u{2191}/\u{2193}, Enter to run, type to search):"
}

pub open spec fn package_picker_prompt_text(command: Seq<char>) -> Seq<char> {
    "Select a package to "@ + command + " (\u{2191}/\u{2193}, Enter to run, type to search):"@
}

/// The prompt of the package picker.
pub fn package_picker_prompt(command: &str) -> (r: String)
    ensures
        r@ == package_picker_prompt_text(command@),
{
    let mut prompt = owned("Select a package to ");
    prompt.append(command);
    prompt.append(" (\u{2191}/\u{2193}, Enter to run, type to search):");
    prompt
}

/// A picker item's search label: the name, a space, the path.
pub fn picker_label(name: &str, path: &str) -> (r: String)
    ensures
        r@ == name@ + " "@ + path@,
{
    let mut label = owned(name);
    label.append(" ");
    label.append(path);
    label
}

pub open spec fn selected_text(name: Seq<char>, path: Seq<char>) -> Seq<char> {
    "Selected package: "@ + name + " ("@ + path + ")"@
}

pub open spec fn tip_text(path: Seq<char>, command: Seq<char>) -> Seq<char> {
    "Tip: run this directly with `vp -C "@ + path + " "@ + command + "`"@
}

/// The picker epilogue on stdout: the selection and the direct `-C` form.
pub fn announcement(name: &str, path: &str, command: &str) -> (r: (String, String))
    ensures
        r.0@ == selected_text(name@, path@),
        r.1@ == tip_text(path@, command@),
{
    let mut selected = owned("Selected package: ");
    selected.append(name);
    selected.append(" (");
    selected.append(path);
    selected.append(")");
    let mut tip = owned("Tip: run this directly with `vp -C ");
    tip.append(path);
    tip.append(" ");
    tip.append(command);
    tip.append("`");
    (selected, tip)
}

} // verus!
