use vstd::prelude::*;
use crate::attrs::{style, style_of, AttrEntry, StyleMeta};

verus! {

/// One fragment of a text container's native diff. `Replace` combines an
/// insertion and a deletion at the same position.
#[derive(Debug)]
pub enum TextDiffItem {
    Retain { len: usize, attr: StyleMeta },
    Replace { value: String, attr: StyleMeta, delete: usize },
}

/// One operation of the external delta format.
#[derive(Debug)]
pub enum HulyTextDiffItem {
    Retain { retain: usize, attributes: Option<Vec<AttrEntry>> },
    Insert { insert: String, attributes: Option<Vec<AttrEntry>> },
    Delete { delete: usize },
}

/// The mathematical form of an external delta operation.
pub ghost enum HulyOp {
    Retain { retain: nat, attributes: Option<Seq<AttrEntry>> },
    Insert { insert: Seq<char>, attributes: Option<Seq<AttrEntry>> },
    Delete { delete: nat },
}

pub open spec fn attrs_view(a: Option<Vec<AttrEntry>>) -> Option<Seq<AttrEntry>> {
    match a {
        Some(v) => Some(v@),
        None => None,
    }
}

impl View for HulyTextDiffItem {
    type V = HulyOp;

    open spec fn view(&self) -> HulyOp {
        match self {
            HulyTextDiffItem::Retain { retain, attributes } => HulyOp::Retain {
                retain: *retain as nat,
                attributes: attrs_view(*attributes),
            },
            HulyTextDiffItem::Insert { insert, attributes } => HulyOp::Insert {
                insert: insert@,
                attributes: attrs_view(*attributes),
            },
            HulyTextDiffItem::Delete { delete } => HulyOp::Delete { delete: *delete as nat },
        }
    }
}

/// The views of a list of external operations.
pub open spec fn ops_view(v: Seq<HulyTextDiffItem>) -> Seq<HulyOp> {
    v.map_values(|o: HulyTextDiffItem| o@)
}

/// The external operations for one native fragment: a retain maps to one
/// retain; a replace maps to an insert (if it inserts anything) followed by a
/// delete (if it deletes anything).
pub open spec fn translate_item(d: TextDiffItem) -> Seq<HulyOp> {
    match d {
        TextDiffItem::Retain { len, attr } => seq![
            HulyOp::Retain { retain: len as nat, attributes: style_of(attr.entries@) },
        ],
        TextDiffItem::Replace { value, attr, delete } => {
            let ins = if value@.len() > 0 {
                seq![HulyOp::Insert { insert: value@, attributes: style_of(attr.entries@) }]
            } else {
                Seq::empty()
            };
            let del = if delete > 0 {
                seq![HulyOp::Delete { delete: delete as nat }]
            } else {
                Seq::empty()
            };
            ins + del
        },
    }
}

/// The external operations for a sequence of native fragments: each
/// fragment's translation, concatenated in order.
pub open spec fn translate_items(s: Seq<TextDiffItem>) -> Seq<HulyOp>
    decreases s.len(),
{
    if s.len() == 0 {
        Seq::empty()
    } else {
        translate_items(s.drop_last()) + translate_item(s.last())
    }
}

/// Translates one native fragment into zero, one or two external operations.
pub fn hulyize_text_diff_item(value: &TextDiffItem) -> (r: Vec<HulyTextDiffItem>)
    ensures
        ops_view(r@) == translate_item(*value),
{
    match value {
        TextDiffItem::Retain { len, attr } => {
            let r = vec![HulyTextDiffItem::Retain { retain: *len, attributes: style(attr) }];
            assert(ops_view(r@) =~= translate_item(*value));
            r
        },
        TextDiffItem::Replace { value: text, attr, delete } => {
            let mut result: Vec<HulyTextDiffItem> = Vec::with_capacity(2);
            if !text.as_str().is_empty() {
                result.push(HulyTextDiffItem::Insert { insert: text.clone(), attributes: style(attr) });
            }
            if *delete > 0 {
                result.push(HulyTextDiffItem::Delete { delete: *delete });
            }
            assert(ops_view(result@) =~= translate_item(*value));
            result
        },
    }
}

/// Translates a sequence of native fragments, flattening the results in order.
pub fn hulyize_text_diff(items: &Vec<TextDiffItem>) -> (r: Vec<HulyTextDiffItem>)
    ensures
        ops_view(r@) == translate_items(items@),
{
    let mut out: Vec<HulyTextDiffItem> = Vec::new();
    let mut i: usize = 0;
    while i < items.len()
        invariant
            i <= items@.len(),
            ops_view(out@) == translate_items(items@.subrange(0, i as int)),
        decreases items@.len() - i,
    {
        let mut part = hulyize_text_diff_item(&items[i]);
        let ghost before = out@;
        out.append(&mut part);
        proof {
            let s = items@.subrange(0, i + 1);
            assert(s.drop_last() =~= items@.subrange(0, i as int));
            assert(s.last() == items@[i as int]);
            assert(ops_view(out@) =~= ops_view(before) + translate_item(items@[i as int]));
        }
        i = i + 1;
    }
    assert(items@.subrange(0, items@.len() as int) =~= items@);
    out
}

/// The kinds of container a document can hold.
#[derive(Debug, Clone, Copy, PartialEq, Eq, Structural)]
pub enum ContainerType {
    Text,
    LoroMap,
    List,
    MovableList,
    Tree,
    Counter,
    Unknown,
}

/// A root container's identifier: its name and its kind.
#[derive(Debug)]
pub struct ContainerId {
    pub name: String,
    pub kind: ContainerType,
}

/// The diff of one container. Only a text diff carries content here; the
/// other kinds are told apart and nothing more.
#[derive(Debug)]
pub enum Diff {
    Text(Vec<TextDiffItem>),
    LoroMap,
    List,
    Tree,
    Counter,
    Unknown,
}

/// The diff of one container, with that container's identifier.
#[derive(Debug)]
pub struct ContainerDiff {
    pub id: ContainerId,
    pub diff: Diff,
}

/// A diff of a whole document, tagged with the origin of the commit.
#[derive(Debug)]
pub struct DocDiff {
    pub origin: String,
    pub diff: Vec<ContainerDiff>,
}

/// The external form of one container's diff.
#[derive(Debug)]
pub struct HulyContainerDiff {
    pub id: String,
    pub kind: String,
    pub diff: Vec<HulyTextDiffItem>,
}

/// The external payload for a document diff.
#[derive(Debug)]
pub struct HulyDocDiff {
    pub origin: String,
    pub doc_id: String,
    pub diff: Vec<HulyContainerDiff>,
}

/// A container diff that the translator handles: a text container with a
/// text diff.
pub open spec fn is_text_diff(c: ContainerDiff) -> bool {
    c.id.kind == ContainerType::Text && c.diff is Text
}

/// The kind tag that the external format gives a text container.
pub open spec fn text_kind() -> Seq<char> {
    seq!['t', 'e', 'x', 't']
}

/// `h` is the external form of the text container diff `c`.
pub open spec fn translates_container(c: ContainerDiff, h: HulyContainerDiff) -> bool {
    &&& c.diff is Text
    &&& h.id@ == c.id.name@
    &&& h.kind@ == text_kind()
    &&& ops_view(h.diff@) == translate_items(c.diff->Text_0@)
}

/// Whether the translator handles `value`: a text container with a text diff.
pub fn is_text_container_diff(value: &ContainerDiff) -> (r: bool)
    ensures
        r == is_text_diff(*value),
{
    match value.id.kind {
        ContainerType::Text => match &value.diff {
            Diff::Text(_) => true,
            _ => false,
        },
        _ => false,
    }
}

/// Whether the translator handles every container diff of `doc_diff`.
pub fn is_text_doc_diff(doc_diff: &DocDiff) -> (r: bool)
    ensures
        r == forall|i: int| 0 <= i < doc_diff.diff@.len() ==> is_text_diff(#[trigger] doc_diff.diff@[i]),
{
    let mut i: usize = 0;
    while i < doc_diff.diff.len()
        invariant
            i <= doc_diff.diff@.len(),
            forall|j: int| 0 <= j < i ==> is_text_diff(#[trigger] doc_diff.diff@[j]),
        decreases doc_diff.diff@.len() - i,
    {
        if !is_text_container_diff(&doc_diff.diff[i]) {
            return false;
        }
        i = i + 1;
    }
    true
}

/// Translates one text container's diff. Only text containers are created,
/// so a diff of any other kind is a broken invariant, excluded by `requires`.
pub fn hulyize_container_diff(value: &ContainerDiff) -> (r: HulyContainerDiff)
    requires
        is_text_diff(*value),
    ensures
        translates_container(*value, r),
{
    match &value.diff {
        Diff::Text(text_diff) => {
            let kind = "text".to_owned();
            proof {
                reveal_strlit("text");
                assert(kind@ =~= text_kind());
            }
            HulyContainerDiff { id: value.id.name.clone(), kind, diff: hulyize_text_diff(text_diff) }
        },
        _ => {
            proof {
                assert(false);
            }
            HulyContainerDiff { id: String::new(), kind: String::new(), diff: Vec::new() }
        },
    }
}

/// Translates a whole document diff: the origin is copied verbatim and every
/// container diff is translated, in order.
pub fn hulyize_doc_diff(doc_id: String, doc_diff: &DocDiff) -> (r: HulyDocDiff)
    requires
        forall|i: int| 0 <= i < doc_diff.diff@.len() ==> is_text_diff(#[trigger] doc_diff.diff@[i]),
    ensures
        r.doc_id == doc_id,
        r.origin@ == doc_diff.origin@,
        r.diff@.len() == doc_diff.diff@.len(),
        forall|i: int| 0 <= i < r.diff@.len() ==> translates_container(#[trigger] doc_diff.diff@[i], r.diff@[i]),
{
    let mut out: Vec<HulyContainerDiff> = Vec::new();
    let mut i: usize = 0;
    while i < doc_diff.diff.len()
        invariant
            i <= doc_diff.diff@.len(),
            out@.len() == i,
            forall|j: int| 0 <= j < doc_diff.diff@.len() ==> is_text_diff(#[trigger] doc_diff.diff@[j]),
            forall|j: int| 0 <= j < i ==> translates_container(#[trigger] doc_diff.diff@[j], out@[j]),
        decreases doc_diff.diff@.len() - i,
    {
        let h = hulyize_container_diff(&doc_diff.diff[i]);
        out.push(h);
        i = i + 1;
    }
    HulyDocDiff { origin: doc_diff.origin.clone(), doc_id, diff: out }
}

/// A replace fragment that both inserts and deletes translates to exactly an
/// insert followed by a delete, never the other way round.
pub proof fn lemma_replace_insert_then_delete(value: String, attr: StyleMeta, delete: usize)
    requires
        value@.len() > 0,
        delete > 0,
    ensures
        ({
            let ops = translate_item(TextDiffItem::Replace { value, attr, delete });
            &&& ops.len() == 2
            &&& ops[0] == HulyOp::Insert { insert: value@, attributes: style_of(attr.entries@) }
            &&& ops[1] == HulyOp::Delete { delete: delete as nat }
        }),
{
}

/// A replace fragment that neither inserts nor deletes translates to no
/// operation at all.
pub proof fn lemma_empty_replace_elided(value: String, attr: StyleMeta)
    requires
        value@.len() == 0,
    ensures
        translate_item(TextDiffItem::Replace { value, attr, delete: 0 }).len() == 0,
{
}

/// Translating two fragment sequences one after the other gives, in order,
/// the translation of their concatenation.
pub proof fn lemma_translate_concat(a: Seq<TextDiffItem>, b: Seq<TextDiffItem>)
    ensures
        translate_items(a + b) == translate_items(a) + translate_items(b),
    decreases b.len(),
{
    if b.len() == 0 {
        assert(a + b =~= a);
        assert(translate_items(a) + translate_items(b) =~= translate_items(a));
    } else {
        lemma_translate_concat(a, b.drop_last());
        assert((a + b).drop_last() =~= a + b.drop_last());
        assert((a + b).last() == b.last());
        assert(translate_items(a + b) =~= translate_items(a) + translate_items(b));
    }
}

/// The translation of a fragment sequence is the concatenation, in order, of
/// each fragment's own translation.
pub proof fn lemma_translate_is_flatten(s: Seq<TextDiffItem>)
    ensures
        translate_items(s) == s.map_values(|d: TextDiffItem| translate_item(d)).flatten(),
    decreases s.len(),
{
    if s.len() > 0 {
        lemma_translate_is_flatten(s.drop_last());
        let m = s.map_values(|d: TextDiffItem| translate_item(d));
        assert(m.drop_last() =~= s.drop_last().map_values(|d: TextDiffItem| translate_item(d)));
        m.drop_last().lemma_flatten_push(m.last());
        assert(m.drop_last().push(m.last()) =~= m);
    }
}

} // verus!
