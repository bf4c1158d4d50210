use kampus_core::extractor::SymbolExtractor;
use kampus_core::pool::ParserPool;
use kampus_core::FileSymbols;
use kampus_core::Language;
use kampus_core::SymbolKind;
use kampus_core::Visibility;

fn index(language: Language, source: &str, path: &str) -> FileSymbols {
    let tree = ParserPool::parse(language, source.as_bytes()).unwrap();
    let syntax = ParserPool::syntax_tree(&tree).unwrap();
    SymbolExtractor::extract(&syntax, source.as_bytes(), path, language).unwrap()
}

fn describe(file: &FileSymbols) -> String {
    let mut out = String::new();
    for s in &file.symbols {
        out.push_str(&format!(
            "SYM {} {:?} {}..{} {:?} async={} sig={:?} doc={:?} parent={:?} id={}\n",
            s.name, s.kind, s.start_line, s.end_line, s.visibility, s.is_async, s.signature,
            s.docstring, s.parent_id, s.id
        ));
    }
    for i in &file.imports {
        out.push_str(&format!("IMP {} alias={:?} items={:?} line={}\n", i.target, i.alias, i.items, i.line));
    }
    for c in &file.calls {
        out.push_str(&format!("CALL {} -> {} @{}\n", c.caller_id, c.callee_name, c.call_site_line));
    }
    for h in &file.inheritance {
        out.push_str(&format!("INH {} : {}\n", h.child_id, h.parent_name));
    }
    out
}

#[test]
fn python_class_with_method() {
    let file = index(Language::Python, "class A:\n    def m(self): pass\n", "a.py");
    assert_eq!(file.symbols.len(), 2, "{}", describe(&file));
    let a = &file.symbols[0];
    assert_eq!(a.name, "A");
    assert_eq!(a.kind, SymbolKind::Class);
    assert_eq!(a.start_line, 1);
    assert_eq!(a.visibility, Visibility::Public);
    assert_eq!(a.id, "a.py:A:1");
    let m = &file.symbols[1];
    assert_eq!(m.name, "m");
    assert_eq!(m.kind, SymbolKind::Method);
    assert_eq!(m.start_line, 2);
    assert_eq!(m.parent_id.as_deref(), Some("a.py:A:1"));
    assert_eq!(m.visibility, Visibility::Public);
    assert_eq!(m.signature.as_deref(), Some("def m(self): pass"));
}

#[test]
fn rust_trait_impl() {
    let file = index(Language::Rust, "struct S;\nimpl T for S { fn f(&self) {} }\n", "s.rs");
    let s = file.symbols.iter().find(|s| s.kind == SymbolKind::Struct && s.name == "S").expect("struct S");
    let f = file.symbols.iter().find(|s| s.kind == SymbolKind::Method && s.name == "f").expect("method f");
    assert_eq!(f.parent_id.as_deref(), Some(s.id.as_str()));
    assert!(file.inheritance.iter().any(|h| h.child_id == s.id && h.parent_name == "T"), "{}", describe(&file));
}

#[test]
fn go_exported_and_unexported() {
    let file = index(Language::Go, "package p\nfunc Foo() {}\nfunc bar() {}\n", "p.go");
    let foo = file.symbols.iter().find(|s| s.name == "Foo").expect("Foo");
    let bar = file.symbols.iter().find(|s| s.name == "bar").expect("bar");
    assert_eq!(foo.visibility, Visibility::Public);
    assert_eq!(bar.visibility, Visibility::Private);
    assert!(!foo.is_async);
}

#[test]
fn javascript_import_and_require() {
    let file = index(Language::JavaScript, "import {a,b} from 'x'\nconst c = require('y')\n", "m.js");
    assert_eq!(file.imports.len(), 2, "{}", describe(&file));
    assert_eq!(file.imports[0].target, "x");
    assert_eq!(file.imports[0].items, vec!["a".to_string(), "b".to_string()]);
    assert_eq!(file.imports[1].target, "y");
    assert!(file.imports[1].items.is_empty());
}

#[test]
fn cpp_access_specifiers() {
    let file = index(Language::Cpp, "class C { int a; public: void f(); private: void g(); };", "c.cpp");
    let f = file.symbols.iter().find(|s| s.name == "f").expect("f");
    let g = file.symbols.iter().find(|s| s.name == "g").expect("g");
    assert_eq!(f.kind, SymbolKind::Method);
    assert_eq!(f.visibility, Visibility::Public);
    assert_eq!(g.kind, SymbolKind::Method);
    assert_eq!(g.visibility, Visibility::Private);
    assert!(file.symbols.iter().all(|s| s.name != "a"), "{}", describe(&file));
}

