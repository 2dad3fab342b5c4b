use huly_loro::registry::DocRegistry;
use huly_loro::style_config::{config_text_style, ExpandType};

#[test]
fn get_or_create_creates_once() {
    let mut reg: DocRegistry<u32> = DocRegistry::new();
    assert!(reg.get("doc1").is_none());
    let mut made = 0;
    assert!(reg.get_or_insert_with("doc1", || { made += 1; 10 }));
    assert!(!reg.get_or_insert_with("doc1", || { made += 1; 20 }));
    assert_eq!(made, 1);
    assert_eq!(reg.get("doc1"), Some(&10));
}

#[test]
fn distinct_ids_get_distinct_documents() {
    let mut reg: DocRegistry<u32> = DocRegistry::new();
    assert!(reg.get_or_insert_with("a", || 1));
    assert!(reg.get_or_insert_with("b", || 2));
    assert_eq!(reg.get("a"), Some(&1));
    assert_eq!(reg.get("b"), Some(&2));
    assert!(reg.get("c").is_none());
}

#[test]
fn every_style_expands_after() {
    let c = config_text_style();
    let names: Vec<&str> = c.iter().map(|(n, _)| n.as_str()).collect();
    assert_eq!(names, vec!["bold", "italic", "list", "indent", "link"]);
    assert!(c.iter().all(|(_, e)| *e == ExpandType::After));
}
