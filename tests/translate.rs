use huly_loro::attrs::{style, AttrValue, StyleMeta};
use huly_loro::translate::{
    hulyize_container_diff, hulyize_doc_diff, hulyize_text_diff, hulyize_text_diff_item,
    is_text_container_diff, is_text_doc_diff, ContainerDiff, ContainerId, ContainerType, Diff,
    DocDiff, HulyTextDiffItem, TextDiffItem,
};

fn bold() -> StyleMeta {
    let mut m = StyleMeta::new();
    m.push("bold".to_string(), AttrValue::Bool(true));
    m
}

fn insert(s: &str) -> TextDiffItem {
    TextDiffItem::Replace { value: s.to_string(), attr: StyleMeta::new(), delete: 0 }
}

fn text_diff(name: &str, items: Vec<TextDiffItem>) -> ContainerDiff {
    ContainerDiff {
        id: ContainerId { name: name.to_string(), kind: ContainerType::Text },
        diff: Diff::Text(items),
    }
}

#[test]
fn style_of_empty_set_is_absent() {
    assert!(style(&StyleMeta::new()).is_none());
}

#[test]
fn style_keeps_every_entry() {
    let mut m = bold();
    m.push("link".to_string(), AttrValue::Str("https://example.com".to_string()));
    m.push("indent".to_string(), AttrValue::Int(2));
    let r = style(&m).unwrap();
    assert_eq!(r.len(), 3);
    assert_eq!(r[0].0, "bold");
    assert!(matches!(r[0].1, AttrValue::Bool(true)));
    assert_eq!(r[1].0, "link");
    assert!(matches!(&r[1].1, AttrValue::Str(s) if s == "https://example.com"));
    assert_eq!(r[2].0, "indent");
    assert!(matches!(r[2].1, AttrValue::Int(2)));
}

#[test]
fn retain_maps_to_one_retain() {
    let r = hulyize_text_diff_item(&TextDiffItem::Retain { len: 7, attr: bold() });
    assert_eq!(r.len(), 1);
    match &r[0] {
        HulyTextDiffItem::Retain { retain, attributes } => {
            assert_eq!(*retain, 7);
            let a = attributes.as_ref().unwrap();
            assert_eq!(a.len(), 1);
            assert_eq!(a[0].0, "bold");
        }
        _ => panic!("expected a retain"),
    }
}

#[test]
fn zero_retain_is_kept() {
    let r = hulyize_text_diff_item(&TextDiffItem::Retain { len: 0, attr: StyleMeta::new() });
    assert_eq!(r.len(), 1);
    assert!(matches!(r[0], HulyTextDiffItem::Retain { retain: 0, attributes: None }));
}

#[test]
fn replace_splits_insert_before_delete() {
    let r = hulyize_text_diff_item(&TextDiffItem::Replace {
        value: "ab".to_string(),
        attr: bold(),
        delete: 3,
    });
    assert_eq!(r.len(), 2);
    match &r[0] {
        HulyTextDiffItem::Insert { insert, attributes } => {
            assert_eq!(insert, "ab");
            assert!(attributes.is_some());
        }
        _ => panic!("expected an insert first"),
    }
    assert!(matches!(r[1], HulyTextDiffItem::Delete { delete: 3 }));
}

#[test]
fn replace_with_delete_only() {
    let r = hulyize_text_diff_item(&TextDiffItem::Replace {
        value: String::new(),
        attr: StyleMeta::new(),
        delete: 4,
    });
    assert_eq!(r.len(), 1);
    assert!(matches!(r[0], HulyTextDiffItem::Delete { delete: 4 }));
}

#[test]
fn empty_replace_yields_nothing() {
    let r = hulyize_text_diff_item(&TextDiffItem::Replace {
        value: String::new(),
        attr: bold(),
        delete: 0,
    });
    assert!(r.is_empty());
}

#[test]
fn fragments_flatten_in_order() {
    let items = vec![
        TextDiffItem::Retain { len: 2, attr: StyleMeta::new() },
        TextDiffItem::Replace { value: "x".to_string(), attr: StyleMeta::new(), delete: 1 },
        TextDiffItem::Replace { value: String::new(), attr: StyleMeta::new(), delete: 0 },
        TextDiffItem::Replace { value: "yz".to_string(), attr: bold(), delete: 0 },
    ];
    let whole = hulyize_text_diff(&items);
    let mut parts = Vec::new();
    for it in &items {
        parts.extend(hulyize_text_diff_item(it));
    }
    assert_eq!(whole.len(), 4);
    assert_eq!(format!("{:?}", whole), format!("{:?}", parts));
    assert!(matches!(whole[0], HulyTextDiffItem::Retain { retain: 2, attributes: None }));
    assert!(matches!(&whole[1], HulyTextDiffItem::Insert { insert, attributes: None } if insert == "x"));
    assert!(matches!(whole[2], HulyTextDiffItem::Delete { delete: 1 }));
    assert!(matches!(&whole[3], HulyTextDiffItem::Insert { insert, attributes: Some(_) } if insert == "yz"));
}

#[test]
fn non_text_container_is_recognised() {
    let c = ContainerDiff {
        id: ContainerId { name: "m".to_string(), kind: ContainerType::LoroMap },
        diff: Diff::LoroMap,
    };
    assert!(!is_text_container_diff(&c));
    let mismatched = ContainerDiff {
        id: ContainerId { name: "t".to_string(), kind: ContainerType::Text },
        diff: Diff::List,
    };
    assert!(!is_text_container_diff(&mismatched));
    let text = text_diff("body", vec![]);
    assert!(is_text_container_diff(&text));
    let doc = DocDiff { origin: "o".to_string(), diff: vec![text_diff("body", vec![]), c] };
    assert!(!is_text_doc_diff(&doc));
    let ok = DocDiff { origin: "o".to_string(), diff: vec![text_diff("body", vec![])] };
    assert!(is_text_doc_diff(&ok));
}

#[test]
fn container_diff_keeps_id_and_kind() {
    let h = hulyize_container_diff(&text_diff("notes", vec![insert("a")]));
    assert_eq!(h.id, "notes");
    assert_eq!(h.kind, "text");
    assert_eq!(h.diff.len(), 1);
}

#[test]
fn hello_world_example() {
    let first = DocDiff { origin: "userA".to_string(), diff: vec![text_diff("body", vec![insert("Hello")])] };
    let h = hulyize_doc_diff("doc1".to_string(), &first);
    assert_eq!(h.origin, "userA");
    assert_eq!(h.doc_id, "doc1");
    assert_eq!(h.diff.len(), 1);
    assert_eq!(h.diff[0].id, "body");
    assert_eq!(h.diff[0].kind, "text");
    assert_eq!(h.diff[0].diff.len(), 1);
    assert!(matches!(&h.diff[0].diff[0], HulyTextDiffItem::Insert { insert, attributes: None } if insert == "Hello"));

    let second = DocDiff {
        origin: "userA".to_string(),
        diff: vec![text_diff(
            "body",
            vec![TextDiffItem::Retain { len: 5, attr: StyleMeta::new() }, insert(" World")],
        )],
    };
    let h = hulyize_doc_diff("doc1".to_string(), &second);
    let ops = &h.diff[0].diff;
    assert_eq!(ops.len(), 2);
    assert!(matches!(ops[0], HulyTextDiffItem::Retain { retain: 5, attributes: None }));
    assert!(matches!(&ops[1], HulyTextDiffItem::Insert { insert, attributes: None } if insert == " World"));
}

#[test]
fn origin_is_copied_verbatim() {
    let d = DocDiff { origin: "checkout".to_string(), diff: vec![] };
    let h = hulyize_doc_diff("d".to_string(), &d);
    assert_eq!(h.origin, "checkout");
    assert!(h.diff.is_empty());
}

fn replay_ops(text: &str, ops: &[HulyTextDiffItem]) -> String {
    let chars: Vec<char> = text.chars().collect();
    let mut pos = 0;
    let mut out = String::new();
    for op in ops {
        match op {
            HulyTextDiffItem::Retain { retain, .. } => {
                let end = (pos + retain).min(chars.len());
                out.extend(&chars[pos..end]);
                pos = end;
            }
            HulyTextDiffItem::Insert { insert, .. } => out.push_str(insert),
            HulyTextDiffItem::Delete { delete } => pos = (pos + delete).min(chars.len()),
        }
    }
    out.extend(&chars[pos..]);
    out
}

#[test]
fn replaying_translation_reproduces_the_edit() {
    // "abcdef": keep "ab", replace "cd" with "XY", keep "e", delete "f".
    let items = vec![
        TextDiffItem::Retain { len: 2, attr: StyleMeta::new() },
        TextDiffItem::Replace { value: "XY".to_string(), attr: bold(), delete: 2 },
        TextDiffItem::Retain { len: 1, attr: StyleMeta::new() },
        TextDiffItem::Replace { value: String::new(), attr: StyleMeta::new(), delete: 1 },
    ];
    let ops = hulyize_text_diff(&items);
    assert_eq!(ops.len(), 5);
    assert_eq!(replay_ops("abcdef", &ops), "abXYe");
}
