use vstd::prelude::*;

verus! {

/// How a style spreads to text typed at the edge of a styled run.
#[derive(Debug, Clone, Copy, PartialEq, Eq, Structural)]
pub enum ExpandType {
    Before,
    After,
    Both,
    NoExpand,
}

/// The style names that the editor configures, in order.
pub open spec fn configured_styles() -> Seq<Seq<char>> {
    seq![
        seq!['b', 'o', 'l', 'd'],
        seq!['i', 't', 'a', 'l', 'i', 'c'],
        seq!['l', 'i', 's', 't'],
        seq!['i', 'n', 'd', 'e', 'n', 't'],
        seq!['l', 'i', 'n', 'k'],
    ]
}

/// The text-style configuration of every document: bold, italic, list, indent
/// and link, each expanding after a styled run.
pub fn config_text_style() -> (r: Vec<(String, ExpandType)>)
    ensures
        r@.len() == configured_styles().len(),
        forall|i: int| 0 <= i < r@.len() ==> {
            &&& #[trigger] r@[i].0@ == configured_styles()[i]
            &&& r@[i].1 == ExpandType::After
        },
{
    let mut style_config: Vec<(String, ExpandType)> = Vec::new();
    style_config.push(("bold".to_owned(), ExpandType::After));
    style_config.push(("italic".to_owned(), ExpandType::After));
    style_config.push(("list".to_owned(), ExpandType::After));
    style_config.push(("indent".to_owned(), ExpandType::After));
    style_config.push(("link".to_owned(), ExpandType::After));
    proof {
        reveal_strlit("bold");
        reveal_strlit("italic");
        reveal_strlit("list");
        reveal_strlit("indent");
        reveal_strlit("link");
        assert(style_config@[0].0@ =~= configured_styles()[0]);
        assert(style_config@[1].0@ =~= configured_styles()[1]);
        assert(style_config@[2].0@ =~= configured_styles()[2]);
        assert(style_config@[3].0@ =~= configured_styles()[3]);
        assert(style_config@[4].0@ =~= configured_styles()[4]);
    }
    style_config
}

/// No configured style name holds a ':'.
pub proof fn lemma_configured_styles_are_keys()
    ensures
        forall|j: int| 0 <= j < configured_styles().len() ==> #[trigger] crate::commands::is_style_key(configured_styles()[j]),
{
    assert forall|j: int| 0 <= j < configured_styles().len() implies #[trigger] crate::commands::is_style_key(configured_styles()[j]) by {
        let s = configured_styles()[j];
        assert forall|i: int| 0 <= i < s.len() implies s[i] != ':' by {
            if j == 0 { assert(s == seq!['b', 'o', 'l', 'd']); }
            else if j == 1 { assert(s == seq!['i', 't', 'a', 'l', 'i', 'c']); }
            else if j == 2 { assert(s == seq!['l', 'i', 's', 't']); }
            else if j == 3 { assert(s == seq!['i', 'n', 'd', 'e', 'n', 't']); }
            else { assert(s == seq!['l', 'i', 'n', 'k']); }
        }
    }
}

} // verus!
