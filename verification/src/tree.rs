//! Construction of the owned syntax tree from a raw cursor snapshot.
//!
//! The analyzer's visitor offers, for every cursor, its readings and its
//! children in document order; a [`RawNode`] records exactly that, plus
//! whether the cursor's location lies in a system header. [`get_ast`]
//! projects a snapshot of the translation unit's top-level cursors into
//! an [`Entry`] tree rooted at the sentinel `Root` kind, classifying each
//! surviving node and excluding every subtree whose root lies in a system
//! header — the exclusion is decided on entry to a subtree, so nothing
//! below an excluded node is ever looked at.

use vstd::prelude::*;

use crate::cursor::CursorInfo;
use crate::cursor::CursorInfoView;
use crate::cursor::CursorKind;
use crate::cursor::CursorKindView;
use crate::cursor::cursor_kind_of;

verus! {

/// Raw snapshot of one cursor: its readings, the system-header flag of
/// its location, and the snapshots of its children in document order.
#[derive(Debug, PartialEq, Eq)]
pub struct RawNode {
    pub info: CursorInfo,
    pub in_system_header: bool,
    pub children: Vec<RawNode>,
}

/// Mathematical image of a [`RawNode`].
#[verifier::ext_equal]
pub struct RawNodeView {
    pub info: CursorInfoView,
    pub in_system_header: bool,
    pub children: Seq<RawNodeView>,
}

/// Image of one raw node.
pub open spec fn raw_view(n: RawNode) -> RawNodeView
    decreases n,
{
    RawNodeView {
        info: n.info@,
        in_system_header: n.in_system_header,
        children: raw_seq_view(n.children@),
    }
}

/// Images of a sequence of raw nodes, in order.
pub open spec fn raw_seq_view(s: Seq<RawNode>) -> Seq<RawNodeView>
    decreases s,
{
    if s.len() == 0 {
        Seq::empty()
    } else {
        seq![raw_view(s[0])] + raw_seq_view(s.drop_first())
    }
}

impl View for RawNode {
    type V = RawNodeView;

    open spec fn view(&self) -> RawNodeView {
        raw_view(*self)
    }
}

pub proof fn lemma_raw_seq_view_index(s: Seq<RawNode>)
    ensures
        raw_seq_view(s).len() == s.len(),
        forall|i: int| 0 <= i < s.len() ==> raw_seq_view(s)[i] == raw_view(s[i]),
    decreases s,
{
    if s.len() > 0 {
        lemma_raw_seq_view_index(s.drop_first());
    }
}

/// One node of the projected tree: its classified kind and its projected
/// children, in document order. A completed tree is a pure value with no
/// tie to any analyzer resource.
#[derive(Debug, PartialEq, Eq)]
pub struct Entry {
    pub current_kind: CursorKind,
    pub children: Vec<Entry>,
}

/// Mathematical image of an [`Entry`].
#[verifier::ext_equal]
pub struct EntryView {
    pub current_kind: CursorKindView,
    pub children: Seq<EntryView>,
}

/// Image of one entry.
pub open spec fn entry_view(e: Entry) -> EntryView
    decreases e,
{
    EntryView { current_kind: e.current_kind@, children: entry_seq_view(e.children@) }
}

/// Images of a sequence of entries, in order.
pub open spec fn entry_seq_view(s: Seq<Entry>) -> Seq<EntryView>
    decreases s,
{
    if s.len() == 0 {
        Seq::empty()
    } else {
        seq![entry_view(s[0])] + entry_seq_view(s.drop_first())
    }
}

impl View for Entry {
    type V = EntryView;

    open spec fn view(&self) -> EntryView {
        entry_view(*self)
    }
}

/// The entry one surviving raw node projects to: its readings classified,
/// its children projected in order.
pub open spec fn project_node(n: RawNodeView) -> EntryView
    decreases n,
{
    EntryView { current_kind: cursor_kind_of(n.info), children: project_forest(n.children) }
}

/// The entries one level of raw nodes projects to, in document order:
/// a node whose location lies in a system header is skipped together
/// with its whole subtree, every other node is kept.
pub open spec fn project_forest(f: Seq<RawNodeView>) -> Seq<EntryView>
    decreases f,
{
    if f.len() == 0 {
        Seq::empty()
    } else if f[0].in_system_header {
        project_forest(f.drop_first())
    } else {
        seq![project_node(f[0])] + project_forest(f.drop_first())
    }
}

/// The tree a snapshot of the translation unit's top-level cursors
/// projects to: the sentinel root above the projected forest.
pub open spec fn ast_of(f: Seq<RawNodeView>) -> EntryView {
    EntryView { current_kind: CursorKindView::Root, children: project_forest(f) }
}

/// The readings of the nodes the projection keeps, in pre-order: a node
/// in a system header contributes nothing, not even its descendants.
pub open spec fn kept_infos(f: Seq<RawNodeView>) -> Seq<CursorInfoView>
    decreases f,
{
    if f.len() == 0 {
        Seq::empty()
    } else if f[0].in_system_header {
        kept_infos(f.drop_first())
    } else {
        seq![f[0].info] + kept_infos(f[0].children) + kept_infos(f.drop_first())
    }
}

/// The kinds of a projected forest, in pre-order.
pub open spec fn tree_kinds(t: Seq<EntryView>) -> Seq<CursorKindView>
    decreases t,
{
    if t.len() == 0 {
        Seq::empty()
    } else {
        seq![t[0].current_kind] + tree_kinds(t[0].children) + tree_kinds(t.drop_first())
    }
}

/// Every raw node of the snapshot, at any depth, whose span starts in
/// `file` carries the system-header flag.
pub open spec fn all_flagged(f: Seq<RawNodeView>, file: Seq<char>) -> bool
    decreases f,
{
    if f.len() == 0 {
        true
    } else {
        &&& (f[0].info.span.start_pos.file_name == file ==> f[0].in_system_header)
        &&& all_flagged(f[0].children, file)
        &&& all_flagged(f.drop_first(), file)
    }
}

proof fn lemma_map_values_concat<A, B>(a: Seq<A>, b: Seq<A>, m: spec_fn(A) -> B)
    ensures
        (a + b).map_values(m) == a.map_values(m) + b.map_values(m),
{
    assert((a + b).map_values(m) =~= a.map_values(m) + b.map_values(m));
}

/// Law: the projection keeps exactly the raw nodes outside system-header
/// subtrees, in document pre-order, and classifies each kept node's
/// readings — the kinds of the projected forest are the classified kept
/// readings, nothing more, nothing less, nothing reordered.
pub proof fn lemma_projection_faithful(f: Seq<RawNodeView>)
    ensures
        tree_kinds(project_forest(f)) == kept_infos(f).map_values(
            |i: CursorInfoView| cursor_kind_of(i),
        ),
    decreases f,
{
    let m = |i: CursorInfoView| cursor_kind_of(i);
    if f.len() == 0 {
        assert(tree_kinds(project_forest(f)) =~= kept_infos(f).map_values(m));
    } else if f[0].in_system_header {
        lemma_projection_faithful(f.drop_first());
    } else {
        lemma_projection_faithful(f[0].children);
        lemma_projection_faithful(f.drop_first());
        let head = project_node(f[0]);
        let rest = project_forest(f.drop_first());
        assert((seq![head] + rest).drop_first() =~= rest);
        assert((seq![head] + rest)[0] == head);
        lemma_map_values_concat(
            seq![f[0].info] + kept_infos(f[0].children),
            kept_infos(f.drop_first()),
            m,
        );
        lemma_map_values_concat(seq![f[0].info], kept_infos(f[0].children), m);
        assert(seq![f[0].info].map_values(m) =~= seq![cursor_kind_of(f[0].info)]);
        assert(tree_kinds(project_forest(f)) =~= kept_infos(f).map_values(m));
    }
}

/// Law: system-header exclusion is subtree pruning. If every raw node of
/// the snapshot whose span starts in `file` is flagged as lying in a
/// system header, then no kept reading — and with
/// [`lemma_projection_faithful`], no entry of the projected tree — has a
/// span starting in `file`; descendants of flagged nodes are excluded
/// with them, whatever file they lie in.
pub proof fn lemma_system_header_exclusion(f: Seq<RawNodeView>, file: Seq<char>)
    requires
        all_flagged(f, file),
    ensures
        forall|i: int|
            0 <= i < kept_infos(f).len() ==> kept_infos(f)[i].span.start_pos.file_name != file,
    decreases f,
{
    if f.len() == 0 {
    } else if f[0].in_system_header {
        lemma_system_header_exclusion(f.drop_first(), file);
        assert(kept_infos(f) == kept_infos(f.drop_first()));
    } else {
        lemma_system_header_exclusion(f[0].children, file);
        lemma_system_header_exclusion(f.drop_first(), file);
        let b = kept_infos(f[0].children);
        let c = kept_infos(f.drop_first());
        let k = kept_infos(f);
        assert(k == seq![f[0].info] + b + c);
        assert forall|i: int| 0 <= i < k.len() implies k[i].span.start_pos.file_name
            != file by {
            if i == 0 {
                assert(k[i] == f[0].info);
            } else if i < 1 + b.len() {
                assert(k[i] == b[i - 1]);
            } else {
                assert(k[i] == c[i - 1 - b.len()]);
            }
        }
    }
}

/// Law: the projection is a function of the raw readings alone — two
/// snapshots with equal readings project to structurally equal trees, so
/// parsing the same file with the same arguments twice yields equal
/// trees whenever the analyzer reports the same readings.
pub proof fn lemma_projection_deterministic(a: Seq<RawNodeView>, b: Seq<RawNodeView>)
    requires
        a == b,
    ensures
        ast_of(a) == ast_of(b),
{
}

/// Builds the entry for one surviving raw node.
fn build_node(n: &RawNode) -> (e: Entry)
    ensures
        e@ == project_node(n@),
    decreases *n, 0int,
{
    let children = build_forest(&n.children, 0);
    proof {
        assert(n.children@.skip(0) =~= n.children@);
    }
    Entry { current_kind: CursorKind::from_info(n.info.duplicate()), children }
}

/// Builds the entries for the raw nodes from position `start` on,
/// skipping every subtree rooted in a system header.
fn build_forest(nodes: &Vec<RawNode>, start: usize) -> (r: Vec<Entry>)
    requires
        start <= nodes@.len(),
    ensures
        entry_seq_view(r@) == project_forest(raw_seq_view(nodes@.skip(start as int))),
    decreases *nodes, nodes@.len() - start,
{
    let ghost tail = nodes@.skip(start as int);
    if start == nodes.len() {
        let r: Vec<Entry> = Vec::new();
        proof {
            assert(raw_seq_view(tail) =~= Seq::<RawNodeView>::empty());
            assert(entry_seq_view(r@) =~= Seq::<EntryView>::empty());
        }
        r
    } else {
        proof {
            lemma_raw_seq_view_index(tail);
            assert(tail[0] == nodes@[start as int]);
            assert(raw_seq_view(tail).drop_first() =~= raw_seq_view(tail.drop_first()))
                by {
                lemma_raw_seq_view_index(tail.drop_first());
            }
            assert(tail.drop_first() =~= nodes@.skip(start as int + 1));
        }
        let mut rest = build_forest(nodes, start + 1);
        if nodes[start].in_system_header {
            rest
        } else {
            let head = build_node(&nodes[start]);
            let ghost rest0 = rest@;
            let mut r: Vec<Entry> = Vec::new();
            r.push(head);
            r.append(&mut rest);
            proof {
                assert(r@ =~= seq![head] + rest0);
                assert((seq![head] + rest0).drop_first() =~= rest0);
                assert((seq![head] + rest0)[0] == head);
            }
            r
        }
    }
}

/// Projects a snapshot of the translation unit's top-level cursors into
/// the owned tree: the root carries the sentinel `Root` kind, and its
/// children are the classified, recursively expanded survivors of the
/// system-header exclusion, in document order.
pub fn get_ast(top_level: &Vec<RawNode>) -> (r: Entry)
    ensures
        r@ == ast_of(raw_seq_view(top_level@)),
{
    let children = build_forest(top_level, 0);
    proof {
        assert(top_level@.skip(0) =~= top_level@);
    }
    Entry { current_kind: CursorKind::Root, children }
}

} // verus!
