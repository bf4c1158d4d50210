use kampus_core::extractor::extract_calls;
use kampus_core::extractor::LanguageExtractor;
use kampus_core::extractor::SymbolExtractor;
use kampus_core::index::index_source;
use kampus_core::index::IndexError;
use kampus_core::languages::CppExtractor;
use kampus_core::languages::GoExtractor;
use kampus_core::languages::JavaScriptExtractor;
use kampus_core::languages::PythonExtractor;
use kampus_core::languages::RustExtractor;
use kampus_core::languages::TypeScriptExtractor;
use kampus_core::pool::ParserError;
use kampus_core::pool::ParserPool;
use kampus_core::syntax::extract_docstring;
use kampus_core::syntax::SyntaxNode;
use kampus_core::syntax::SyntaxTree;
use kampus_core::FileSymbols;
use kampus_core::Language;
use kampus_core::Symbol;
use kampus_core::SymbolKind;
use kampus_core::Visibility;

fn index(language: Language, source: &str, path: &str) -> FileSymbols {
    index_source(language, source.as_bytes(), path).unwrap()
}

fn find<'a>(file: &'a FileSymbols, kind: SymbolKind, name: &str) -> &'a Symbol {
    file.symbols.iter().find(|s| s.kind == kind && s.name == name).unwrap()
}

fn names(file: &FileSymbols) -> Vec<String> {
    file.symbols.iter().map(|s| format!("{:?} {}", s.kind, s.name)).collect()
}

fn node(kind: &str, depth: usize, bytes: (usize, usize), rows: (usize, usize)) -> SyntaxNode {
    SyntaxNode { kind: kind.to_string(), depth, start_byte: bytes.0, end_byte: bytes.1, start_row: rows.0, end_row: rows.1 }
}

const EMPTY_SHA256: &str = "e3b0c44298fc1c149afbf4c8996fb92427ae41e4649b934ca495991b7852b855";

#[test]
fn content_hash_is_sha256_in_lower_case_hex() {
    assert_eq!(SymbolExtractor::compute_hash(b""), EMPTY_SHA256);
    assert_eq!(
        SymbolExtractor::compute_hash(b"abc"),
        "ba7816bf8f01cfea414140de5dae2223b00361a396177a9cb410ff61f20015ad"
    );
}

#[test]
fn line_count_is_newlines_plus_one() {
    assert_eq!(SymbolExtractor::count_lines(b""), Some(1));
    assert_eq!(SymbolExtractor::count_lines(b"a"), Some(1));
    assert_eq!(SymbolExtractor::count_lines(b"a\n"), Some(2));
    assert_eq!(SymbolExtractor::count_lines(b"\n\n\r\n"), Some(4));
}

#[test]
fn empty_file_has_no_symbols() {
    for language in [Language::Python, Language::Rust, Language::JavaScript, Language::TypeScript, Language::Go, Language::Cpp] {
        let file = index(language, "", "empty");
        assert!(file.symbols.is_empty());
        assert!(file.imports.is_empty());
        assert!(file.calls.is_empty());
        assert!(file.inheritance.is_empty());
        assert_eq!(file.line_count, 1);
        assert_eq!(file.content_hash, EMPTY_SHA256);
        assert_eq!(file.language, Some(language));
        assert_eq!(file.file_path, "empty");
    }
}

#[test]
fn file_with_only_comments_has_no_symbols() {
    assert!(index(Language::Python, "# one\n# two\n", "c.py").symbols.is_empty());
    assert!(index(Language::Rust, "// one\n/* two */\n/// three\n", "c.rs").symbols.is_empty());
    assert!(index(Language::JavaScript, "// one\n/* two */\n", "c.js").symbols.is_empty());
    assert!(index(Language::TypeScript, "// one\n", "c.ts").symbols.is_empty());
    assert!(index(Language::Go, "// one\n", "c.go").symbols.is_empty());
    assert!(index(Language::Cpp, "// one\n/* two */\n", "c.cpp").symbols.is_empty());
}

#[test]
fn record_carries_hash_and_line_count_of_the_source() {
    let source = "def f():\n    pass\n\n";
    let file = index(Language::Python, source, "f.py");
    assert_eq!(file.line_count, 4);
    assert_eq!(file.content_hash, SymbolExtractor::compute_hash(source.as_bytes()));
    assert_eq!(file.content_hash.len(), 64);
    assert!(file.content_hash.chars().all(|c| c.is_ascii_digit() || ('a'..='f').contains(&c)));
}

#[test]
fn every_symbol_has_ordered_lines_and_a_derived_id() {
    let sources = [
        (Language::Python, "class A:\n    def m(self):\n        pass\n\ndef f():\n    pass\n", "a.py"),
        (Language::Rust, "pub struct S;\nenum E { A }\ntrait T {}\nimpl S {\n    fn f(&self) {}\n}\nfn g() {}\n", "a.rs"),
        (Language::JavaScript, "function f() {}\nconst g = () => {\n  return 1\n}\nclass K { m() {} }\n", "a.js"),
        (Language::TypeScript, "interface I {}\ntype T = number\nclass K { m(): void {} }\n", "a.ts"),
        (Language::Go, "package p\ntype S struct {}\nfunc (s S) M() {}\nfunc F() {\n}\n", "a.go"),
        (Language::Cpp, "class C {\npublic:\n  void f();\n  void g() {}\n};\nvoid h() {\n}\nenum E { A };\n", "a.cpp"),
    ];
    for (language, source, path) in sources {
        let file = index(language, source, path);
        assert!(!file.symbols.is_empty());
        for s in &file.symbols {
            assert!(1 <= s.start_line && s.start_line <= s.end_line, "{:?}", s);
            assert_eq!(s.id, format!("{}:{}:{}", s.file_path, s.name, s.start_line));
            assert_eq!(s.file_path, path);
            assert_eq!(s.language, language);
            assert!(s.summary.is_none());
        }
    }
}

#[test]
fn methods_of_class_languages_have_emitted_parents() {
    let sources = [
        (Language::Python, "class A:\n    def m(self): pass\n    def n(self): pass\nclass B:\n    def m(self): pass\n", "a.py"),
        (Language::JavaScript, "class K { m() {} n() {} }\nclass L extends K { m() {} }\n", "a.js"),
        (Language::TypeScript, "class K { m(): void {} }\n", "a.ts"),
        (Language::Cpp, "class C { void f(); void g() {} };\nstruct S { void h(); };\n", "a.cpp"),
    ];
    for (language, source, path) in sources {
        let file = index(language, source, path);
        let methods: Vec<&Symbol> = file.symbols.iter().filter(|s| s.kind == SymbolKind::Method).collect();
        assert!(methods.len() >= 1);
        for m in methods {
            let parent = m.parent_id.as_ref().expect("parent");
            assert!(file.symbols.iter().any(|s| &s.id == parent
                && (s.kind == SymbolKind::Class || s.kind == SymbolKind::Struct)));
        }
    }
}

#[test]
fn python_symbols_in_detail() {
    let source = "class _Hidden(Base, pkg.Mixin):\n    \"\"\"Doc of class.\"\"\"\n    def __init__(self):\n        '''init doc'''\n        self.setup(1)\n    def __private(self): pass\n    def _protected(self): pass\n    async def run(self):\n        helper()\n\ndef helper():\n    def inner(): pass\n";
    let file = index(Language::Python, source, "pkg/m.py");
    assert_eq!(
        names(&file),
        vec!["Class _Hidden", "Method __init__", "Method __private", "Method _protected", "Method run", "Function helper", "Function inner"]
    );
    let class = find(&file, SymbolKind::Class, "_Hidden");
    assert_eq!(class.visibility, Visibility::Protected);
    assert_eq!(class.signature.as_deref(), Some("class _Hidden(Base, pkg.Mixin)"));
    assert_eq!(class.docstring.as_deref(), Some("Doc of class."));
    assert_eq!((class.start_line, class.end_line), (1, 9));
    assert_eq!(class.id, "pkg/m.py:_Hidden:1");
    let init = find(&file, SymbolKind::Method, "__init__");
    assert_eq!(init.visibility, Visibility::Public);
    assert_eq!(init.docstring.as_deref(), Some("init doc"));
    assert_eq!(init.parent_id.as_deref(), Some("pkg/m.py:_Hidden:1"));
    assert_eq!(init.signature.as_deref(), Some("def __init__(self)"));
    assert_eq!(find(&file, SymbolKind::Method, "__private").visibility, Visibility::Private);
    assert_eq!(find(&file, SymbolKind::Method, "_protected").visibility, Visibility::Protected);
    let run = find(&file, SymbolKind::Method, "run");
    assert!(run.is_async);
    assert!(!init.is_async);
    let helper = find(&file, SymbolKind::Function, "helper");
    assert_eq!(helper.visibility, Visibility::Public);
    assert!(helper.parent_id.is_none());
    assert!(helper.docstring.is_none());
    assert!(find(&file, SymbolKind::Function, "inner").parent_id.is_none());

    let calls: Vec<(String, String, u32)> =
        file.calls.iter().map(|c| (c.caller_id.clone(), c.callee_name.clone(), c.call_site_line)).collect();
    assert_eq!(
        calls,
        vec![
            ("pkg/m.py:__init__:3".to_string(), "setup".to_string(), 5),
            ("pkg/m.py:run:8".to_string(), "helper".to_string(), 9),
        ]
    );
    let bases: Vec<(String, String)> =
        file.inheritance.iter().map(|h| (h.child_id.clone(), h.parent_name.clone())).collect();
    assert_eq!(
        bases,
        vec![
            ("pkg/m.py:_Hidden:1".to_string(), "Base".to_string()),
            ("pkg/m.py:_Hidden:1".to_string(), "pkg.Mixin".to_string()),
        ]
    );
}

#[test]
fn python_imports() {
    let file = index(Language::Python, "import os\nimport a.b as c, d\nfrom . import x\nfrom m.n import p, q as r\n", "i.py");
    let got: Vec<(String, Option<String>, Vec<String>, u32)> =
        file.imports.iter().map(|i| (i.target.clone(), i.alias.clone(), i.items.clone(), i.line)).collect();
    assert_eq!(
        got,
        vec![
            ("os".to_string(), None, vec![], 1),
            ("a.b".to_string(), Some("c".to_string()), vec![], 2),
            ("d".to_string(), None, vec![], 2),
            (".".to_string(), None, vec!["x".to_string()], 3),
            ("m.n".to_string(), None, vec!["p".to_string(), "q".to_string()], 4),
        ]
    );
    for i in &file.imports {
        assert_eq!(i.source_file, "i.py");
        assert!(!i.target.is_empty());
        assert!(i.line >= 1);
    }
}

#[test]
fn rust_symbols_in_detail() {
    let source = "/// A point.\npub struct Point { x: i32 }\nenum Shape { Dot }\npub trait Area { fn area(&self) -> i32; }\nimpl Area for Point {\n    fn area(&self) -> i32 { helper(); self.x.abs(); std::mem::drop(1); 0 }\n}\nimpl Shape { pub async fn make() -> Shape { Shape::Dot } }\n//! module doc\nfn helper() {}\n";
    let file = index(Language::Rust, source, "g.rs");
    let point = find(&file, SymbolKind::Struct, "Point");
    assert_eq!(point.visibility, Visibility::Public);
    assert_eq!(point.signature.as_deref(), Some("pub struct Point { x: i32 }"));
    assert_eq!(point.docstring.as_deref(), Some("A point."));
    let shape = find(&file, SymbolKind::Enum, "Shape");
    assert_eq!(shape.visibility, Visibility::Private);
    let area_trait = find(&file, SymbolKind::Trait, "Area");
    assert_eq!(area_trait.visibility, Visibility::Public);
    let area = find(&file, SymbolKind::Method, "area");
    assert_eq!(area.parent_id.as_deref(), Some(point.id.as_str()));
    assert_eq!(area.signature.as_deref(), Some("fn area(&self) -> i32"));
    assert!(!area.is_async);
    let make = find(&file, SymbolKind::Method, "make");
    assert_eq!(make.parent_id.as_deref(), Some(shape.id.as_str()));
    assert!(make.is_async);
    assert_eq!(make.visibility, Visibility::Public);
    assert_eq!(make.signature.as_deref(), Some("pub async fn make() -> Shape"));
    let helper = find(&file, SymbolKind::Function, "helper");
    assert_eq!(helper.visibility, Visibility::Private);
    assert_eq!(helper.docstring.as_deref(), Some("module doc"));
    assert!(file.symbols.iter().any(|s| s.kind == SymbolKind::Function && s.name == "area"));

    let callees: Vec<&str> = file
        .calls
        .iter()
        .filter(|c| c.caller_id == area.id)
        .map(|c| c.callee_name.as_str())
        .collect();
    assert!(callees.contains(&"helper"));
    assert!(callees.contains(&"abs"));
    assert!(callees.contains(&"std::mem::drop"));
    assert!(file.inheritance.iter().any(|h| h.child_id == point.id && h.parent_name == "Area"));
    assert_eq!(file.inheritance.len(), 1);
}

#[test]
fn rust_method_of_a_type_declared_later_finds_its_parent() {
    let file = index(Language::Rust, "impl S { fn f(&self) {} }\nstruct S;\n", "l.rs");
    let s = find(&file, SymbolKind::Struct, "S");
    assert_eq!(find(&file, SymbolKind::Method, "f").parent_id.as_deref(), Some(s.id.as_str()));
    let other = index(Language::Rust, "impl Other { fn f(&self) {} }\n", "o.rs");
    assert!(find(&other, SymbolKind::Method, "f").parent_id.is_none());
}

#[test]
fn rust_imports() {
    let file = index(Language::Rust, "use a::b;\nuse a::{b, c::d};\nuse a::*;\nuse a as z;\npub use q::r;\nuse single;\nextern crate q;\n", "u.rs");
    let got: Vec<(String, Vec<String>, u32)> =
        file.imports.iter().map(|i| (i.target.clone(), i.items.clone(), i.line)).collect();
    assert_eq!(
        got,
        vec![
            ("a::b".to_string(), vec![], 1),
            ("a".to_string(), vec!["b".to_string(), "c::d".to_string()], 2),
            ("a::*".to_string(), vec![], 3),
            ("a".to_string(), vec![], 4),
            ("q::r".to_string(), vec![], 5),
            ("single".to_string(), vec![], 6),
            ("q".to_string(), vec![], 7),
        ]
    );
    assert!(file.imports.iter().all(|i| i.alias.is_none()));
}

#[test]
fn javascript_symbols_in_detail() {
    let source = "// adds\nasync function add(a, b) { return plus(a, b) }\nconst twice = (x) => add(x, x)\nlet lazy = async () => {\n  return 1\n}\nvar n = 3\nclass Shape extends Base {\n  _secret() { this.area() }\n  async area() {}\n}\nconst o = { m() {} }\n";
    let file = index(Language::JavaScript, source, "s.js");
    assert_eq!(
        names(&file),
        vec!["Function add", "Function twice", "Function lazy", "Class Shape", "Method _secret", "Method area"]
    );
    let add = find(&file, SymbolKind::Function, "add");
    assert!(add.is_async);
    assert_eq!(add.signature.as_deref(), Some("async function add(a, b)"));
    assert_eq!(add.docstring.as_deref(), Some("// adds"));
    assert_eq!(add.visibility, Visibility::Public);
    let twice = find(&file, SymbolKind::Function, "twice");
    assert_eq!(twice.signature.as_deref(), Some("const twice = (x) =>"));
    assert!(!twice.is_async);
    assert!(twice.docstring.is_none());
    let lazy = find(&file, SymbolKind::Function, "lazy");
    assert!(lazy.is_async);
    assert_eq!((lazy.start_line, lazy.end_line), (4, 6));
    assert_eq!(lazy.signature.as_deref(), Some("const lazy = async () =>"));
    let shape = find(&file, SymbolKind::Class, "Shape");
    assert_eq!(shape.signature.as_deref(), Some("class Shape extends Base"));
    let secret = find(&file, SymbolKind::Method, "_secret");
    assert_eq!(secret.visibility, Visibility::Private);
    assert_eq!(secret.parent_id.as_deref(), Some(shape.id.as_str()));
    assert_eq!(secret.signature.as_deref(), Some("_secret()"));
    let area = find(&file, SymbolKind::Method, "area");
    assert_eq!(area.visibility, Visibility::Public);
    assert!(area.is_async);
    let calls: Vec<(String, String)> =
        file.calls.iter().map(|c| (c.caller_id.clone(), c.callee_name.clone())).collect();
    assert_eq!(
        calls,
        vec![
            (add.id.clone(), "plus".to_string()),
            (twice.id.clone(), "add".to_string()),
            (secret.id.clone(), "area".to_string()),
        ]
    );
    assert_eq!(file.inheritance.len(), 1);
    assert_eq!(file.inheritance[0].child_id, shape.id);
    assert_eq!(file.inheritance[0].parent_name, "Base");
    assert!(file.symbols.iter().all(|s| s.language == Language::JavaScript));
}

#[test]
fn javascript_imports_come_before_requires() {
    let source = "const fs = require(\"fs\")\nimport def, { a as b, c } from \"mod\"\nimport 'side'\nfunction f() { require('late'); g() }\n";
    let file = index(Language::JavaScript, source, "i.js");
    let got: Vec<(String, Vec<String>, u32)> =
        file.imports.iter().map(|i| (i.target.clone(), i.items.clone(), i.line)).collect();
    assert_eq!(
        got,
        vec![
            ("mod".to_string(), vec!["a".to_string(), "c".to_string(), "def".to_string()], 2),
            ("side".to_string(), vec![], 3),
            ("fs".to_string(), vec![], 1),
            ("late".to_string(), vec![], 4),
        ]
    );
    let callees: Vec<&str> = file.calls.iter().map(|c| c.callee_name.as_str()).collect();
    assert_eq!(callees, vec!["g"]);
}

#[test]
fn typescript_adds_interfaces_and_aliases() {
    let source = "/* shape */\ninterface Shape { area(): number }\ntype Id = string\nclass Box extends Base implements Shape { area(): number { return 1 } }\nfunction f(): void {}\n";
    let file = index(Language::TypeScript, source, "t.ts");
    assert_eq!(names(&file), vec!["Interface Shape", "Interface Id", "Class Box", "Method area", "Function f"]);
    let shape = find(&file, SymbolKind::Interface, "Shape");
    assert_eq!(shape.signature.as_deref(), Some("interface Shape"));
    assert_eq!(shape.docstring.as_deref(), Some("/* shape */"));
    assert_eq!(find(&file, SymbolKind::Interface, "Id").signature.as_deref(), Some("type Id = string"));
    let class = find(&file, SymbolKind::Class, "Box");
    assert_eq!(find(&file, SymbolKind::Method, "area").parent_id.as_deref(), Some(class.id.as_str()));
    assert!(file.symbols.iter().all(|s| s.language == Language::TypeScript));
    assert_eq!(file.inheritance.len(), 1);
    assert_eq!(file.inheritance[0].parent_name, "Base");
    let js = index(Language::JavaScript, "function f() {}\n", "t.js");
    assert_eq!(js.symbols[0].language, Language::JavaScript);
}

#[test]
fn go_symbols_in_detail() {
    let source = "package shapes\n\nimport \"fmt\"\nimport (\n\tm \"math\"\n\t_ \"embed\"\n\t. \"strings\"\n\t\"os\"\n)\n\n// Shape is a shape.\ntype Shape interface {\n\tfmt.Stringer\n\tNamed\n\tArea() float64\n}\n\ntype base struct{ id int }\n\ntype Circle struct {\n\tbase\n\tR float64\n}\n\ntype Id int\n\n// Area of the circle.\nfunc (c *Circle) Area() float64 { return m.Pi * square(c.R) }\n\nfunc (b base) name() string { return fmt.Sprint(b.id) }\n\nfunc square(x float64) float64 { return x * x }\n";
    let file = index(Language::Go, source, "s.go");
    let shape = find(&file, SymbolKind::Interface, "Shape");
    assert_eq!(shape.visibility, Visibility::Public);
    assert_eq!(shape.signature.as_deref(), Some("Shape interface {"));
    let base = find(&file, SymbolKind::Struct, "base");
    assert_eq!(base.visibility, Visibility::Private);
    let circle = find(&file, SymbolKind::Struct, "Circle");
    assert_eq!(find(&file, SymbolKind::Interface, "Id").visibility, Visibility::Public);
    let area = find(&file, SymbolKind::Method, "Area");
    assert_eq!(area.parent_id.as_deref(), Some(circle.id.as_str()));
    assert_eq!(area.visibility, Visibility::Public);
    assert_eq!(area.signature.as_deref(), Some("func (c *Circle) Area() float64"));
    assert_eq!(area.docstring.as_deref(), Some("// Area of the circle."));
    assert!(!area.is_async);
    let name = find(&file, SymbolKind::Method, "name");
    assert_eq!(name.parent_id.as_deref(), Some(base.id.as_str()));
    assert_eq!(name.visibility, Visibility::Private);
    assert_eq!(find(&file, SymbolKind::Function, "square").visibility, Visibility::Private);

    let imports: Vec<(String, Option<String>, u32)> =
        file.imports.iter().map(|i| (i.target.clone(), i.alias.clone(), i.line)).collect();
    assert_eq!(
        imports,
        vec![
            ("fmt".to_string(), None, 3),
            ("math".to_string(), Some("m".to_string()), 5),
            ("embed".to_string(), Some("_".to_string()), 6),
            ("strings".to_string(), Some(".".to_string()), 7),
            ("os".to_string(), None, 8),
        ]
    );
    let calls: Vec<(String, String)> =
        file.calls.iter().map(|c| (c.caller_id.clone(), c.callee_name.clone())).collect();
    assert_eq!(
        calls,
        vec![(area.id.clone(), "square".to_string()), (name.id.clone(), "Sprint".to_string())]
    );
    let bases: Vec<(String, String)> =
        file.inheritance.iter().map(|h| (h.child_id.clone(), h.parent_name.clone())).collect();
    assert_eq!(
        bases,
        vec![(shape.id.clone(), "Named".to_string()), (circle.id.clone(), "base".to_string())]
    );
}

#[test]
fn go_visibility_looks_at_the_first_character() {
    let file = index(Language::Go, "package p\nfunc Ärger() {}\nfunc ärger() {}\nfunc _x() {}\nfunc 世界() {}\nfunc Δx() {}\n", "u.go");
    assert_eq!(find(&file, SymbolKind::Function, "Ärger").visibility, Visibility::Public);
    assert_eq!(find(&file, SymbolKind::Function, "ärger").visibility, Visibility::Private);
    assert_eq!(find(&file, SymbolKind::Function, "_x").visibility, Visibility::Private);
    assert_eq!(find(&file, SymbolKind::Function, "世界").visibility, Visibility::Private);
    assert_eq!(find(&file, SymbolKind::Function, "Δx").visibility, Visibility::Public);
}

#[test]
fn unicode_identifiers_are_kept_verbatim() {
    let py = index(Language::Python, "def größe(): pass\nclass Ñandú: pass\n", "ü.py");
    assert_eq!(names(&py), vec!["Function größe", "Class Ñandú"]);
    assert_eq!(py.symbols[0].id, "ü.py:größe:1");
    let rs = index(Language::Rust, "fn привет() {}\n", "u.rs");
    assert_eq!(rs.symbols[0].name, "привет");
    let js = index(Language::JavaScript, "function 名前() {}\n", "u.js");
    assert_eq!(js.symbols[0].name, "名前");
}

#[test]
fn cpp_symbols_in_detail() {
    let source = "#include <vector>\n#include \"shape.h\"\nusing namespace std;\nusing geo::Point;\n\n// A shape.\nclass Shape : public Base, protected geo::Named {\n  int id;\n  void hidden();\npublic:\n  Shape();\n  virtual double area() { return helper(id); }\nprotected:\n  void touch();\nprivate:\n  ~Shape();\n};\n\nstruct Pod {\n  int x;\n  void reset() { x = 0; }\nprivate:\n  void secret();\n};\n\nenum Color { Red };\n\nint helper(int v) { std::abs(v); obj.call(); make<int>(); return v; }\n\nvoid Shape::touch() {}\n\nint *pointer() { return 0; }\n";
    let file = index(Language::Cpp, source, "s.cpp");
    let shape = find(&file, SymbolKind::Class, "Shape");
    assert_eq!(shape.docstring.as_deref(), Some("// A shape."));
    assert_eq!(shape.signature.as_deref(), Some("class Shape : public Base, protected geo::Named {"));
    assert_eq!(shape.visibility, Visibility::Public);
    let hidden = find(&file, SymbolKind::Method, "hidden");
    assert_eq!(hidden.visibility, Visibility::Private);
    assert_eq!(hidden.parent_id.as_deref(), Some(shape.id.as_str()));
    assert_eq!(hidden.signature.as_deref(), Some("void hidden();"));
    assert_eq!(hidden.start_line, 9);
    assert_eq!(find(&file, SymbolKind::Method, "Shape").visibility, Visibility::Public);
    let area = find(&file, SymbolKind::Method, "area");
    assert_eq!(area.visibility, Visibility::Public);
    assert_eq!(area.signature.as_deref(), Some("virtual double area()"));
    assert_eq!(find(&file, SymbolKind::Method, "touch").visibility, Visibility::Protected);
    assert_eq!(find(&file, SymbolKind::Method, "~Shape").visibility, Visibility::Private);
    let pod = find(&file, SymbolKind::Struct, "Pod");
    let reset = find(&file, SymbolKind::Method, "reset");
    assert_eq!(reset.visibility, Visibility::Public);
    assert_eq!(reset.parent_id.as_deref(), Some(pod.id.as_str()));
    assert_eq!(find(&file, SymbolKind::Method, "secret").visibility, Visibility::Private);
    assert_eq!(find(&file, SymbolKind::Enum, "Color").signature.as_deref(), Some("enum Color { Red }"));
    let helper = find(&file, SymbolKind::Function, "helper");
    assert_eq!(helper.signature.as_deref(), Some("int helper(int v)"));
    assert!(helper.parent_id.is_none());
    assert_eq!(find(&file, SymbolKind::Function, "Shape::touch").visibility, Visibility::Public);
    assert!(file.symbols.iter().any(|s| s.kind == SymbolKind::Function && s.name == "pointer"));
    assert!(file.symbols.iter().all(|s| s.name != "id" && s.name != "x"));
    assert!(file.symbols.iter().all(|s| !s.is_async));

    let imports: Vec<(String, u32)> = file.imports.iter().map(|i| (i.target.clone(), i.line)).collect();
    assert_eq!(
        imports,
        vec![
            ("vector".to_string(), 1),
            ("shape.h".to_string(), 2),
            ("namespace std".to_string(), 3),
            ("geo::Point".to_string(), 4),
        ]
    );
    let callees: Vec<(String, String)> =
        file.calls.iter().map(|c| (c.caller_id.clone(), c.callee_name.clone())).collect();
    assert_eq!(
        callees,
        vec![
            (area.id.clone(), "helper".to_string()),
            (helper.id.clone(), "std::abs".to_string()),
            (helper.id.clone(), "call".to_string()),
            (helper.id.clone(), "make".to_string()),
        ]
    );
    let bases: Vec<(String, String)> =
        file.inheritance.iter().map(|h| (h.child_id.clone(), h.parent_name.clone())).collect();
    assert_eq!(
        bases,
        vec![(shape.id.clone(), "Base".to_string()), (shape.id.clone(), "geo::Named".to_string())]
    );
}

#[test]
fn calls_are_attributed_to_every_enclosing_function() {
    let file = index(Language::Python, "def outer():\n    def inner():\n        f()\n    g()\n", "n.py");
    let calls: Vec<(String, String, u32)> =
        file.calls.iter().map(|c| (c.caller_id.clone(), c.callee_name.clone(), c.call_site_line)).collect();
    assert_eq!(
        calls,
        vec![
            ("n.py:outer:1".to_string(), "f".to_string(), 3),
            ("n.py:inner:2".to_string(), "f".to_string(), 3),
            ("n.py:outer:1".to_string(), "g".to_string(), 4),
        ]
    );
}

#[test]
fn calls_and_inheritance_depend_on_the_symbols_given() {
    let source = "class A(B):\n    def m(self): f()\n";
    let tree = ParserPool::parse(Language::Python, source.as_bytes()).unwrap();
    let syntax = ParserPool::syntax_tree(&tree).unwrap();
    let none: Vec<Symbol> = Vec::new();
    assert!(extract_calls(Language::Python, &syntax, source.as_bytes(), &none).is_empty());
    let extractor = PythonExtractor;
    assert!(extractor.extract_inheritance(&syntax, source.as_bytes(), &none).is_empty());
    let symbols = extractor.extract_symbols(&syntax, source.as_bytes(), "a.py");
    assert_eq!(extractor.extract_calls(&syntax, source.as_bytes(), &symbols).len(), 1);
    assert_eq!(extractor.extract_inheritance(&syntax, source.as_bytes(), &symbols).len(), 1);
    assert!(extractor.extract_imports(&syntax, source.as_bytes(), "a.py").is_empty());
}

#[test]
fn every_extractor_follows_its_language() {
    let check = |language: Language, source: &str, symbols: Vec<Symbol>| {
        let expected = index(language, source, "x");
        let got: Vec<String> = symbols.iter().map(|s| s.id.clone()).collect();
        let want: Vec<String> = expected.symbols.iter().map(|s| s.id.clone()).collect();
        assert_eq!(got, want);
        assert!(!got.is_empty());
    };
    let parse = |language: Language, source: &str| {
        let tree = ParserPool::parse(language, source.as_bytes()).unwrap();
        ParserPool::syntax_tree(&tree).unwrap()
    };
    let py = "def f(): pass\n";
    check(Language::Python, py, PythonExtractor.extract_symbols(&parse(Language::Python, py), py.as_bytes(), "x"));
    let rs = "fn f() {}\n";
    check(Language::Rust, rs, RustExtractor.extract_symbols(&parse(Language::Rust, rs), rs.as_bytes(), "x"));
    let js = "function f() {}\n";
    check(Language::JavaScript, js, JavaScriptExtractor.extract_symbols(&parse(Language::JavaScript, js), js.as_bytes(), "x"));
    let ts = "interface I {}\n";
    check(Language::TypeScript, ts, TypeScriptExtractor.extract_symbols(&parse(Language::TypeScript, ts), ts.as_bytes(), "x"));
    let go = "package p\nfunc F() {}\n";
    check(Language::Go, go, GoExtractor.extract_symbols(&parse(Language::Go, go), go.as_bytes(), "x"));
    let cpp = "void f() {}\n";
    check(Language::Cpp, cpp, CppExtractor.extract_symbols(&parse(Language::Cpp, cpp), cpp.as_bytes(), "x"));
}

#[test]
fn parser_reads_every_node_of_the_tree() {
    let source = "def f(): pass\n";
    let tree = ParserPool::parse(Language::Python, source.as_bytes()).unwrap();
    let syntax = ParserPool::syntax_tree(&tree).unwrap();
    assert_eq!(syntax.len(), tree.root_node().descendant_count());
    assert_eq!(syntax.node(0).kind, "module");
    assert_eq!(syntax.node(0).depth, 0);
    assert_eq!(syntax.node(1).kind, "function_definition");
    assert_eq!(syntax.node(1).depth, 1);
    assert_eq!((syntax.node(1).start_byte, syntax.node(1).end_byte), (0, 13));
    assert_eq!(syntax.children(0), vec![1]);
    assert_eq!(syntax.parent(1), Some(0));
    assert_eq!(syntax.parent(0), None);
    assert_eq!(syntax.lines(1), (1, 1));
    let name = syntax.find_child(1, "identifier").unwrap();
    assert_eq!(syntax.text(source.as_bytes(), name), vec!['f']);
    assert_eq!(syntax.prev_sibling(name).map(|p| syntax.node(p).kind.clone()), Some("def".to_string()));
    assert!(ParserPool::get_parser(Language::Go).is_ok());
    assert!(!matches!(ParserPool::parse(Language::Cpp, b"int x;"), Err(ParserError::SetLanguage(_))));
}

#[test]
fn hand_made_trees() {
    let source = "ab cd";
    let nodes = vec![
        node("root", 0, (0, 5), (0, 0)),
        node("word", 1, (0, 2), (0, 0)),
        node("letter", 2, (0, 1), (0, 0)),
        node("letter", 2, (1, 2), (0, 0)),
        node("word", 1, (3, 5), (0, 0)),
        node("odd", 1, (4, 9), (0, 0)),
    ];
    let tree = SyntaxTree::from_nodes(nodes).unwrap();
    assert_eq!(tree.len(), 6);
    assert_eq!(tree.children(0), vec![1, 4, 5]);
    assert_eq!(tree.children(1), vec![2, 3]);
    assert_eq!(tree.children(3), Vec::<usize>::new());
    assert_eq!(tree.find_child(0, "word"), Some(1));
    assert_eq!(tree.find_last_child(0, "word"), Some(4));
    assert_eq!(tree.find_children(0, "word"), vec![1, 4]);
    assert_eq!(tree.find_child(0, "letter"), None);
    assert_eq!(tree.find_child_of(0, "odd", "word"), Some(1));
    assert_eq!(tree.find_next_child(0, 1), Some(4));
    assert_eq!(tree.find_next_child_of(0, "word", "odd", 4), Some(5));
    assert_eq!(tree.child(0, 2), Some(5));
    assert_eq!(tree.child(0, 3), None);
    assert_eq!(tree.parent(3), Some(1));
    assert_eq!(tree.parent(4), Some(0));
    assert_eq!(tree.prev_sibling(4), Some(1));
    assert_eq!(tree.prev_sibling(3), Some(2));
    assert_eq!(tree.prev_sibling(2), None);
    assert_eq!(tree.prev_sibling(0), None);
    assert!(tree.parent_is(2, "word"));
    assert!(!tree.parent_is(0, "root"));
    assert!(tree.kind_is(5, "odd"));
    assert_eq!(tree.text(source.as_bytes(), 4), vec!['c', 'd']);
    assert_eq!(tree.slice(source.as_bytes(), 5), None);
    assert_eq!(tree.text(source.as_bytes(), 5), Vec::<char>::new());
    assert_eq!(tree.comment_before(source.as_bytes(), 4, "word", "x"), Some(vec!['a', 'b']));
    assert_eq!(tree.comment_before(source.as_bytes(), 4, "x", "y"), None);

    assert!(SyntaxTree::from_nodes(vec![node("bad", 0, (0, 0), (2, 1))]).is_none());
    assert!(SyntaxTree::from_nodes(vec![node("far", 0, (0, 0), (0, u32::MAX as usize))]).is_none());
    assert!(SyntaxTree::from_nodes(Vec::new()).is_some());
}

#[test]
fn text_that_is_not_utf8_reads_as_empty() {
    let source: Vec<u8> = vec![b'd', b'e', b'f', b' ', 0xff, b'(', b')', b':', b' ', b'p', b'a', b's', b's', b'\n'];
    match index_source(Language::Python, &source, "bad.py") {
        Ok(file) => {
            for s in &file.symbols {
                assert!(s.signature.is_none(), "{:?}", s);
            }
            assert_eq!(file.line_count, 2);
        }
        Err(IndexError::Parser(_)) => {}
        Err(e) => panic!("{}", e.to_string()),
    }
}


#[test]
fn imports_without_a_target_are_dropped() {
    let file = index(Language::Cpp, "#include \"\"\n#include <>\n#include <ok.h>\nusing ;\n", "e.cpp");
    let targets: Vec<&str> = file.imports.iter().map(|i| i.target.as_str()).collect();
    assert_eq!(targets, vec!["ok.h"]);
    let sources = [
        (Language::Python, "import os\nfrom . import x\n"),
        (Language::Rust, "use a::b;\nextern crate c;\n"),
        (Language::JavaScript, "import 'x'\nconst y = require('')\nconst z = require(\"z\")\n"),
        (Language::Go, "package p\nimport \"\"\nimport \"fmt\"\n"),
    ];
    for (language, source) in sources {
        let file = index(language, source, "i");
        assert!(!file.imports.is_empty());
        for i in &file.imports {
            assert!(!i.target.is_empty(), "{:?}", i);
            assert!(i.line >= 1);
        }
    }
}

#[test]
fn every_call_has_an_enclosing_caller() {
    let sources = [
        (Language::Python, "def f():\n    g()\n    h.i()\nclass A:\n    def m(self):\n        f()\nf()\n"),
        (Language::Rust, "fn f() { g(); a::b(); }\nstruct S;\nimpl S { fn m(&self) { f() } }\n"),
        (Language::JavaScript, "function f() { g() }\nclass K { m() { f() } }\nf()\n"),
        (Language::Go, "package p\nfunc f() { g() }\nvar x = f()\n"),
        (Language::Cpp, "void f() { g(); }\nint x = f();\n"),
    ];
    for (language, source) in sources {
        let file = index(language, source, "c");
        assert!(!file.calls.is_empty());
        for call in &file.calls {
            assert!(!call.callee_name.is_empty());
            assert!(file.symbols.iter().any(|s| s.id == call.caller_id
                && (s.kind == SymbolKind::Function || s.kind == SymbolKind::Method)
                && s.start_line <= call.call_site_line
                && call.call_site_line <= s.end_line));
        }
    }
    let top = index(Language::Python, "f()\n", "t.py");
    assert!(top.calls.is_empty());
}

#[test]
fn every_inheritance_has_a_type_as_its_child() {
    let sources = [
        (Language::Python, "class A(B, C): pass\n"),
        (Language::Rust, "struct S;\nenum E { A }\nimpl T for S {}\nimpl U for E {}\n"),
        (Language::JavaScript, "class K extends L {}\n"),
        (Language::TypeScript, "class K extends L {}\n"),
        (Language::Go, "package p\ntype S struct { T }\ntype I interface { J }\n"),
        (Language::Cpp, "class C : public B {};\nstruct S : B {};\n"),
    ];
    for (language, source) in sources {
        let file = index(language, source, "h");
        assert!(!file.inheritance.is_empty());
        for h in &file.inheritance {
            assert!(file.symbols.iter().any(|s| s.id == h.child_id
                && matches!(
                    s.kind,
                    SymbolKind::Class | SymbolKind::Struct | SymbolKind::Interface | SymbolKind::Trait | SymbolKind::Enum
                )));
        }
    }
    let function = index(Language::Rust, "fn S() {}\nimpl T for S {}\n", "f.rs");
    assert!(function.inheritance.is_empty());
    let unknown = index(Language::Python, "class A(B): pass\n", "u.py");
    assert_eq!(unknown.inheritance.len(), 1);
}

#[test]
fn python_visibility_follows_the_underscores() {
    let file = index(
        Language::Python,
        "def __repr__(self): pass\ndef __x(): pass\ndef _x(): pass\ndef x(): pass\ndef __(): pass\nclass __Y: pass\nclass __Z__: pass\nclass _W: pass\n",
        "v.py",
    );
    let of = |kind: SymbolKind, name: &str| find(&file, kind, name).visibility;
    assert_eq!(of(SymbolKind::Function, "__repr__"), Visibility::Public);
    assert_eq!(of(SymbolKind::Function, "__x"), Visibility::Private);
    assert_eq!(of(SymbolKind::Function, "_x"), Visibility::Protected);
    assert_eq!(of(SymbolKind::Function, "x"), Visibility::Public);
    assert_eq!(of(SymbolKind::Function, "__"), Visibility::Public);
    assert_eq!(of(SymbolKind::Class, "__Y"), Visibility::Private);
    assert_eq!(of(SymbolKind::Class, "__Z__"), Visibility::Public);
    assert_eq!(of(SymbolKind::Class, "_W"), Visibility::Protected);
    assert_eq!(find(&file, SymbolKind::Function, "__repr__").name, "__repr__");
}

#[test]
fn rust_async_is_read_off_the_signature() {
    let file = index(Language::Rust, "fn f() { g(\"async fn\"); }\n", "a.rs");
    let f = find(&file, SymbolKind::Function, "f");
    assert_eq!(f.signature.as_deref(), Some("fn f()"));
    assert_eq!(f.visibility, Visibility::Private);
    assert!(!f.is_async);
    let marked = index(Language::Rust, "pub async fn g() { h() }\nasync fn k();\n", "b.rs");
    assert!(find(&marked, SymbolKind::Function, "g").is_async);
}

#[test]
fn rust_docs_lose_either_marker() {
    let file = index(Language::Rust, "//! about S\nstruct S;\n/// about E\nenum E { A }\n/// about f\nfn f() {}\n", "d.rs");
    assert_eq!(find(&file, SymbolKind::Struct, "S").docstring.as_deref(), Some("about S"));
    assert_eq!(find(&file, SymbolKind::Enum, "E").docstring.as_deref(), Some("about E"));
    assert_eq!(find(&file, SymbolKind::Function, "f").docstring.as_deref(), Some("about f"));
}

#[test]
fn cpp_declared_methods_have_their_first_line_as_signature() {
    let file = index(Language::Cpp, "class C {\npublic:\n  int f(int a,\n        int b);\n  ~C();\n};\n", "c.cpp");
    let f = find(&file, SymbolKind::Method, "f");
    assert_eq!(f.signature.as_deref(), Some("int f(int a,"));
    assert_eq!((f.start_line, f.end_line), (3, 4));
    assert_eq!(find(&file, SymbolKind::Method, "~C").signature.as_deref(), Some("~C();"));
}

#[test]
fn docstrings_by_a_list_of_comment_kinds() {
    let source = "// one\nfn f() {}\nfn g() {}\n";
    let tree = ParserPool::parse(Language::Rust, source.as_bytes()).unwrap();
    let syntax = ParserPool::syntax_tree(&tree).unwrap();
    let items = syntax.find_children(0, "function_item");
    assert_eq!(items.len(), 2);
    let bytes = source.as_bytes();
    assert_eq!(
        extract_docstring(&syntax, bytes, items[0], &["line_comment", "block_comment"]),
        Some("// one".to_string())
    );
    assert_eq!(extract_docstring(&syntax, bytes, items[0], &["block_comment"]), None);
    assert_eq!(extract_docstring(&syntax, bytes, items[0], &[]), None);
    assert_eq!(extract_docstring(&syntax, bytes, items[1], &["line_comment", "function_item"]), Some("fn f() {}".to_string()));
    assert_eq!(extract_docstring(&syntax, bytes, 0, &["line_comment"]), None);
    let comment = syntax.find_child(0, "line_comment").unwrap();
    assert_eq!(extract_docstring(&syntax, bytes, comment, &["line_comment"]), None);
    assert_eq!(
        syntax.comment_before(bytes, items[0], "line_comment", "block_comment").map(|t| t.iter().collect::<String>()),
        extract_docstring(&syntax, bytes, items[0], &["line_comment", "block_comment"])
    );
    let only = "# a\n# b\n";
    let tree = ParserPool::parse(Language::Python, only.as_bytes()).unwrap();
    let syntax = ParserPool::syntax_tree(&tree).unwrap();
    for i in 0..syntax.len() {
        let doc = extract_docstring(&syntax, only.as_bytes(), i, &["comment"]);
        let expected = syntax
            .prev_sibling(i)
            .filter(|p| syntax.node(*p).kind == "comment")
            .map(|p| syntax.text(only.as_bytes(), p).iter().collect::<String>());
        assert_eq!(doc, expected);
    }
}

#[test]
fn content_hash_has_sixty_four_digits() {
    for source in ["", "a", "def f(): pass\n"] {
        assert_eq!(SymbolExtractor::compute_hash(source.as_bytes()).chars().count(), 64);
    }
}
