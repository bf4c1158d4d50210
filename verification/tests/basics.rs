use kampus_core::git::ChangeKind;
use kampus_core::index::FullIndexConfig;
use kampus_core::index::IncrementalConfig;
use kampus_core::pool::ParserPool;
use kampus_core::Language;

#[test]
fn test_language_detection() {
    assert_eq!(Language::from_extension("py"), Some(Language::Python));
    assert_eq!(Language::from_extension("rs"), Some(Language::Rust));
    assert_eq!(Language::from_extension("js"), Some(Language::JavaScript));
    assert_eq!(Language::from_extension("ts"), Some(Language::TypeScript));
    assert_eq!(Language::from_extension("go"), Some(Language::Go));
    assert_eq!(Language::from_extension("cpp"), Some(Language::Cpp));
    assert_eq!(Language::from_extension("txt"), None);
}

#[test]
fn test_change_kind() {
    assert_eq!(ChangeKind::Added, ChangeKind::Added);
    assert_ne!(ChangeKind::Added, ChangeKind::Modified);
}

#[test]
fn test_full_index_config_default() {
    let config = FullIndexConfig::default();
    assert!(config.clear_existing);
    assert!(config.languages.is_none());
}

#[test]
fn test_incremental_config_default() {
    let config = IncrementalConfig::default();
    assert!(!config.dry_run);
    assert!(config.since.is_none());
}

#[test]
fn test_parse_python() {
    let source = b"def hello(): pass";
    let tree = ParserPool::parse(Language::Python, source).unwrap();
    assert!(tree.root_node().child_count() > 0);
}

#[test]
fn test_parse_rust() {
    let source = b"fn main() {}";
    let tree = ParserPool::parse(Language::Rust, source).unwrap();
    assert!(tree.root_node().child_count() > 0);
}

#[test]
fn test_parse_javascript() {
    let source = b"function hello() {}";
    let tree = ParserPool::parse(Language::JavaScript, source).unwrap();
    assert!(tree.root_node().child_count() > 0);
}
