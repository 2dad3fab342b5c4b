use vstd::prelude::*;
use crate::translate::{translate_item, translate_items, HulyOp, TextDiffItem};

verus! {

/// The first `n` characters of `s`, or all of them if it is shorter.
pub open spec fn take_at_most(s: Seq<char>, n: nat) -> Seq<char> {
    if n <= s.len() { s.take(n as int) } else { s }
}

/// `s` without its first `n` characters, or nothing if it is shorter.
pub open spec fn skip_at_most(s: Seq<char>, n: nat) -> Seq<char> {
    if n <= s.len() { s.skip(n as int) } else { Seq::empty() }
}

/// The text that external operations make of `rest`, read from its start:
/// a retain keeps characters, an insert adds its text, a delete drops
/// characters; what no operation reaches is kept.
pub open spec fn replay_ops(rest: Seq<char>, ops: Seq<HulyOp>) -> Seq<char>
    decreases ops.len(),
{
    if ops.len() == 0 {
        rest
    } else {
        match ops[0] {
            HulyOp::Retain { retain, .. } => take_at_most(rest, retain)
                + replay_ops(skip_at_most(rest, retain), ops.drop_first()),
            HulyOp::Insert { insert, .. } => insert + replay_ops(rest, ops.drop_first()),
            HulyOp::Delete { delete } => replay_ops(skip_at_most(rest, delete), ops.drop_first()),
        }
    }
}

/// The text that native fragments make of `rest`, read from its start: a
/// replace inserts its text where it deletes.
pub open spec fn replay_native(rest: Seq<char>, items: Seq<TextDiffItem>) -> Seq<char>
    decreases items.len(),
{
    if items.len() == 0 {
        rest
    } else {
        match items[0] {
            TextDiffItem::Retain { len, .. } => take_at_most(rest, len as nat)
                + replay_native(skip_at_most(rest, len as nat), items.drop_first()),
            TextDiffItem::Replace { value, delete, .. } => value@
                + replay_native(skip_at_most(rest, delete as nat), items.drop_first()),
        }
    }
}

proof fn lemma_translate_first(s: Seq<TextDiffItem>)
    requires
        s.len() > 0,
    ensures
        translate_items(s) == translate_item(s[0]) + translate_items(s.drop_first()),
{
    crate::translate::lemma_translate_concat(seq![s[0]], s.drop_first());
    assert(seq![s[0]] + s.drop_first() =~= s);
    let one = seq![s[0]];
    assert(one.drop_last() =~= Seq::<TextDiffItem>::empty());
    assert(one.last() == s[0]);
    assert(translate_items(one.drop_last()) == Seq::<HulyOp>::empty());
    assert(translate_items(one) == translate_items(one.drop_last()) + translate_item(one.last()));
    assert(translate_items(one) =~= translate_item(s[0]));
}

proof fn lemma_replay_item(rest: Seq<char>, d: TextDiffItem, tail: Seq<HulyOp>)
    ensures
        replay_ops(rest, translate_item(d) + tail) == match d {
            TextDiffItem::Retain { len, .. } => take_at_most(rest, len as nat)
                + replay_ops(skip_at_most(rest, len as nat), tail),
            TextDiffItem::Replace { value, delete, .. } => value@
                + replay_ops(skip_at_most(rest, delete as nat), tail),
        },
{
    let ops = translate_item(d) + tail;
    match d {
        TextDiffItem::Retain { len, .. } => {
            assert(ops.drop_first() =~= tail);
        },
        TextDiffItem::Replace { value, delete, .. } => {
            let del_ops: Seq<HulyOp> = if delete > 0 {
                seq![HulyOp::Delete { delete: delete as nat }]
            } else {
                Seq::empty()
            };
            let after = skip_at_most(rest, delete as nat);
            if delete > 0 {
                assert((del_ops + tail)[0] == HulyOp::Delete { delete: delete as nat });
                assert((del_ops + tail).drop_first() =~= tail);
            } else {
                assert(del_ops + tail =~= tail);
                assert(after =~= rest);
            }
            assert(replay_ops(rest, del_ops + tail) == replay_ops(after, tail));
            if value@.len() > 0 {
                assert(ops[0] == HulyOp::Insert {
                    insert: value@,
                    attributes: crate::attrs::style_of(d->Replace_attr.entries@),
                });
                assert(ops.drop_first() =~= del_ops + tail);
            } else {
                assert(ops =~= del_ops + tail);
                assert(value@ + replay_ops(after, tail) =~= replay_ops(after, tail));
            }
        },
    }
}

/// Replaying the translated external operations on a text gives the same
/// text content as replaying the native fragments they came from: the
/// translation keeps every edit, in order.
pub proof fn lemma_replay_preserved(rest: Seq<char>, items: Seq<TextDiffItem>)
    ensures
        replay_ops(rest, translate_items(items)) == replay_native(rest, items),
    decreases items.len(),
{
    if items.len() > 0 {
        lemma_translate_first(items);
        let tail = translate_items(items.drop_first());
        lemma_replay_item(rest, items[0], tail);
        match items[0] {
            TextDiffItem::Retain { len, .. } => {
                lemma_replay_preserved(skip_at_most(rest, len as nat), items.drop_first());
            },
            TextDiffItem::Replace { delete, .. } => {
                lemma_replay_preserved(skip_at_most(rest, delete as nat), items.drop_first());
            },
        }
    }
}

} // verus!
