use vstd::prelude::*;

verus! {

/// A value of a formatting attribute, as the host reads it.
#[derive(Debug)]
pub enum AttrValue {
    Null,
    Bool(bool),
    Int(i64),
    Str(String),
    /// Any other value, carried through unread as its JSON text.
    Raw(String),
}

impl AttrValue {
    /// A copy equal to `self`.
    pub fn copy(&self) -> (r: AttrValue)
        ensures
            r == *self,
    {
        match self {
            AttrValue::Null => AttrValue::Null,
            AttrValue::Bool(b) => AttrValue::Bool(*b),
            AttrValue::Int(i) => AttrValue::Int(*i),
            AttrValue::Str(s) => AttrValue::Str(s.clone()),
            AttrValue::Raw(s) => AttrValue::Raw(s.clone()),
        }
    }
}

/// One style name and its value.
pub type AttrEntry = (String, AttrValue);

/// The formatting attributes attached to a run of text: style names with
/// their values. An empty set means "no attribute change".
#[derive(Debug)]
pub struct StyleMeta {
    pub entries: Vec<AttrEntry>,
}

/// The external form of an attribute set: absent when the set is empty,
/// otherwise every entry, in order.
pub open spec fn style_of(entries: Seq<AttrEntry>) -> Option<Seq<AttrEntry>> {
    if entries.len() == 0 {
        None
    } else {
        Some(entries)
    }
}

impl StyleMeta {
    pub fn new() -> (r: StyleMeta)
        ensures
            r.entries@.len() == 0,
    {
        StyleMeta { entries: Vec::new() }
    }

    /// Adds one style and its value at the end.
    pub fn push(&mut self, key: String, value: AttrValue)
        ensures
            final(self).entries@ == old(self).entries@.push((key, value)),
    {
        self.entries.push((key, value));
    }

    pub fn is_empty(&self) -> (r: bool)
        ensures
            r == (self.entries@.len() == 0),
    {
        self.entries.len() == 0
    }
}

/// A copy of a list of attribute entries, equal to it element by element.
pub fn copy_entries(entries: &Vec<AttrEntry>) -> (r: Vec<AttrEntry>)
    ensures
        r@ == entries@,
{
    let mut out: Vec<AttrEntry> = Vec::new();
    let mut i: usize = 0;
    while i < entries.len()
        invariant
            i <= entries@.len(),
            out@ == entries@.subrange(0, i as int),
        decreases entries@.len() - i,
    {
        let (k, v) = &entries[i];
        out.push((k.clone(), v.copy()));
        assert(out@ =~= entries@.subrange(0, i + 1));
        i = i + 1;
    }
    assert(out@ =~= entries@);
    out
}

/// Converts an attribute set to its external form: `None` when it is empty,
/// otherwise all of its entries.
pub fn style(attr: &StyleMeta) -> (r: Option<Vec<AttrEntry>>)
    ensures
        r is None <==> attr.entries@.len() == 0,
        r matches Some(v) ==> v@ == attr.entries@,
        r matches Some(v) ==> style_of(attr.entries@) == Some(v@),
{
    if attr.is_empty() {
        None
    } else {
        Some(copy_entries(&attr.entries))
    }
}

} // verus!
