//! JavaScript language extractor, and the rules that TypeScript adds to it.

use crate::language::Language;
use crate::languages::common::all_valid;
use crate::languages::common::brace_signature;
use crate::languages::common::build_symbol;
use crate::languages::common::find_symbol_id;
use crate::languages::common::id_of_named;
use crate::languages::common::line_signature;
use crate::languages::common::new_symbol;
use crate::languages::common::one;
use crate::languages::common::opt_chars;
use crate::languages::common::opt_symbol;
use crate::languages::common::push_one;
use crate::languages::common::signature_line;
use crate::languages::common::symbol_fits;
use crate::languages::common::signature_to_brace;
use crate::languages::common::KindFilter;
use crate::model::texts;
use crate::model::Import;
use crate::model::ImportView;
use crate::model::Inheritance;
use crate::model::InheritanceView;
use crate::model::Symbol;
use crate::model::SymbolKind;
use crate::model::SymbolView;
use crate::model::Visibility;
use crate::syntax::child_at;
use crate::syntax::child_of_kind;
use crate::syntax::children_of;
use crate::syntax::ints;
use crate::syntax::line_of;
use crate::syntax::node_slice;
use crate::syntax::node_text;
use crate::syntax::parent_of;
use crate::syntax::preceding_comment;
use crate::syntax::NodeView;
use crate::syntax::SyntaxTree;
use crate::text::chars_of;
use crate::text::copy_range;
use crate::text::find;
use crate::text::find_sub;
use crate::text::first_line;
use crate::text::first_line_of;
use crate::text::has_prefix;
use crate::text::push_all;
use crate::text::push_str;
use crate::text::starts_with;
use crate::text::string_of;
use crate::text::strip_surrounding;
use crate::text::strip_trailing;
use crate::text::trim;
use crate::text::trim_start;
use crate::text::trimmed;
use crate::text::trimmed_start;
use crate::text::without_surrounding;
use crate::text::without_trailing;
use vstd::prelude::*;

verus! {

pub struct JavaScriptExtractor;

// ---------------------------------------------------------------------------
// Specification
// ---------------------------------------------------------------------------
/// The language tag of the symbols: TypeScript or JavaScript.
pub open spec fn tag(typescript: bool) -> Language {
    if typescript {
        Language::TypeScript
    } else {
        Language::JavaScript
    }
}

/// A declaration is async iff its text begins with `async`, leading white
/// space aside.
pub open spec fn is_async(nodes: Seq<NodeView>, source: Seq<u8>, i: int) -> bool {
    has_prefix(trimmed_start(node_text(nodes, source, i)), "async"@)
}

/// The comment that directly precedes node `i`.
pub open spec fn doc(nodes: Seq<NodeView>, source: Seq<u8>, i: int) -> Option<Seq<char>> {
    preceding_comment(nodes, source, i, "comment"@, "comment"@)
}

/// The symbol of the function declaration at node `i`.
pub open spec fn function(
    nodes: Seq<NodeView>,
    source: Seq<u8>,
    path: Seq<char>,
    typescript: bool,
    i: int,
) -> Option<SymbolView> {
    match child_of_kind(nodes, i, "identifier"@) {
        Some(n) => Some(
            new_symbol(
                path,
                node_text(nodes, source, n),
                SymbolKind::Function,
                (line_of(nodes[i].start_row), line_of(nodes[i].end_row)),
                brace_signature(node_slice(nodes, source, i)),
                Visibility::Public,
                is_async(nodes, source, i),
                doc(nodes, source, i),
                tag(typescript),
                None,
            ),
        ),
        None => None,
    }
}

/// The head of an arrow function: its text up to and with the arrow,
/// trimmed; without an arrow its first line; empty if it cannot be read.
pub open spec fn arrow_head(text: Option<Seq<char>>) -> Seq<char> {
    match text {
        Some(s) => {
            let arrow = find(s, "=>"@);
            if arrow >= 0 {
                trimmed(s.subrange(0, arrow + 2))
            } else {
                match first_line_of(s) {
                    Some(line) => line,
                    None => Seq::empty(),
                }
            }
        },
        None => Seq::empty(),
    }
}

/// The signature of an arrow function bound to a name.
pub open spec fn arrow_signature(name: Seq<char>, text: Option<Seq<char>>) -> Seq<char> {
    "const "@ + name + " = "@ + arrow_head(text)
}

/// Whether node `i` is a declarator of a `const`, `let` or `var`
/// declaration.
pub open spec fn is_declarator(nodes: Seq<NodeView>, i: int) -> bool {
    nodes[i].kind == "variable_declarator"@ && parent_of(nodes, i) is Some && (nodes[parent_of(
        nodes,
        i,
    )->0].kind == "lexical_declaration"@ || nodes[parent_of(nodes, i)->0].kind
        == "variable_declaration"@)
}

/// The symbol of the arrow function that the declarator at node `i` binds to
/// a name: it starts on the line of the name and ends with the function.
pub open spec fn arrow_function(
    nodes: Seq<NodeView>,
    source: Seq<u8>,
    path: Seq<char>,
    typescript: bool,
    i: int,
) -> Option<SymbolView> {
    match child_of_kind(nodes, i, "arrow_function"@) {
        Some(f) => match child_of_kind(nodes, i, "identifier"@) {
            Some(n) => if nodes[n].start_row <= nodes[f].end_row {
                Some(
                    new_symbol(
                        path,
                        node_text(nodes, source, n),
                        SymbolKind::Function,
                        (line_of(nodes[n].start_row), line_of(nodes[f].end_row)),
                        Some(
                            arrow_signature(
                                node_text(nodes, source, n),
                                node_slice(nodes, source, f),
                            ),
                        ),
                        Visibility::Public,
                        is_async(nodes, source, f),
                        None,
                        tag(typescript),
                        None,
                    ),
                )
            } else {
                None
            },
            None => None,
        },
        None => None,
    }
}

/// The node that names the class at node `i`: its identifier, or its type
/// identifier.
pub open spec fn class_name_node(nodes: Seq<NodeView>, i: int) -> Option<int> {
    match child_of_kind(nodes, i, "identifier"@) {
        Some(n) => Some(n),
        None => child_of_kind(nodes, i, "type_identifier"@),
    }
}

/// The signature of a class: its first line without the braces at its end,
/// trimmed.
pub open spec fn class_signature(text: Option<Seq<char>>) -> Option<Seq<char>> {
    match line_signature(text) {
        Some(line) => Some(trimmed(without_trailing(line, '{'))),
        None => None,
    }
}

/// The symbol of the class declaration at node `i`.
pub open spec fn class(
    nodes: Seq<NodeView>,
    source: Seq<u8>,
    path: Seq<char>,
    typescript: bool,
    i: int,
) -> Option<SymbolView> {
    match class_name_node(nodes, i) {
        Some(n) => Some(
            new_symbol(
                path,
                node_text(nodes, source, n),
                SymbolKind::Class,
                (line_of(nodes[i].start_row), line_of(nodes[i].end_row)),
                class_signature(node_slice(nodes, source, i)),
                Visibility::Public,
                false,
                doc(nodes, source, i),
                tag(typescript),
                None,
            ),
        ),
        None => None,
    }
}

/// The symbol of the interface or type alias at node `i`; an interface's
/// signature ends before its body, an alias's is its first line.
pub open spec fn interface(
    nodes: Seq<NodeView>,
    source: Seq<u8>,
    path: Seq<char>,
    alias: bool,
    i: int,
) -> Option<SymbolView> {
    match child_of_kind(nodes, i, "type_identifier"@) {
        Some(n) => Some(
            new_symbol(
                path,
                node_text(nodes, source, n),
                SymbolKind::Interface,
                (line_of(nodes[i].start_row), line_of(nodes[i].end_row)),
                if alias {
                    line_signature(node_slice(nodes, source, i))
                } else {
                    brace_signature(node_slice(nodes, source, i))
                },
                Visibility::Public,
                false,
                doc(nodes, source, i),
                Language::TypeScript,
                None,
            ),
        ),
        None => None,
    }
}

/// A method is private iff its name starts with an underscore.
pub open spec fn method_visibility(name: Seq<char>) -> Visibility {
    if has_prefix(name, "_"@) {
        Visibility::Private
    } else {
        Visibility::Public
    }
}

/// The symbol of the method definition at node `i` of the class `parent`.
pub open spec fn method(
    nodes: Seq<NodeView>,
    source: Seq<u8>,
    path: Seq<char>,
    typescript: bool,
    i: int,
    parent: Seq<char>,
) -> Option<SymbolView> {
    match child_of_kind(nodes, i, "property_identifier"@) {
        Some(n) => Some(
            new_symbol(
                path,
                node_text(nodes, source, n),
                SymbolKind::Method,
                (line_of(nodes[i].start_row), line_of(nodes[i].end_row)),
                brace_signature(node_slice(nodes, source, i)),
                method_visibility(node_text(nodes, source, n)),
                is_async(nodes, source, i),
                None,
                tag(typescript),
                Some(parent),
            ),
        ),
        None => None,
    }
}

/// The node of the class in whose body node `i` directly stands.
pub open spec fn owner(nodes: Seq<NodeView>, i: int) -> Option<int> {
    match parent_of(nodes, i) {
        Some(body) => if nodes[body].kind == "class_body"@ {
            match parent_of(nodes, body) {
                Some(c) => if nodes[c].kind == "class_declaration"@ {
                    Some(c)
                } else {
                    None
                },
                None => None,
            }
        } else {
            None
        },
        None => None,
    }
}

/// The class symbol that owns the method at node `i`.
pub open spec fn owning_class(
    nodes: Seq<NodeView>,
    source: Seq<u8>,
    path: Seq<char>,
    typescript: bool,
    i: int,
) -> Option<SymbolView> {
    match owner(nodes, i) {
        Some(c) => class(nodes, source, path, typescript, c),
        None => None,
    }
}

/// The symbols that node `i` contributes: a function for a function
/// declaration and for an arrow function bound to a name, a class for a
/// class declaration, a method for a method definition that stands directly
/// in the body of a class; in TypeScript also an interface for an interface
/// declaration and for a type alias.
pub open spec fn symbols_at(
    nodes: Seq<NodeView>,
    source: Seq<u8>,
    path: Seq<char>,
    typescript: bool,
    i: int,
) -> Seq<SymbolView> {
    if nodes[i].kind == "function_declaration"@ {
        one(function(nodes, source, path, typescript, i))
    } else if is_declarator(nodes, i) {
        one(arrow_function(nodes, source, path, typescript, i))
    } else if nodes[i].kind == "class_declaration"@ {
        one(class(nodes, source, path, typescript, i))
    } else if nodes[i].kind == "method_definition"@ {
        match owning_class(nodes, source, path, typescript, i) {
            Some(c) => one(method(nodes, source, path, typescript, i, c.id)),
            None => Seq::empty(),
        }
    } else if typescript && nodes[i].kind == "interface_declaration"@ {
        one(interface(nodes, source, path, false, i))
    } else if typescript && nodes[i].kind == "type_alias_declaration"@ {
        one(interface(nodes, source, path, true, i))
    } else {
        Seq::empty()
    }
}

/// A string literal without the quotes around it.
pub open spec fn unquoted(text: Seq<char>) -> Seq<char> {
    without_surrounding(without_surrounding(text, '"'), '\'')
}

/// The names that the first `k` nodes of a list of named imports bring in.
pub open spec fn named_upto(nodes: Seq<NodeView>, source: Seq<u8>, list: Seq<int>, k: int) -> Seq<
    Seq<char>,
>
    decreases k,
{
    if k <= 0 || k > list.len() {
        Seq::empty()
    } else {
        named_upto(nodes, source, list, k - 1) + if nodes[list[k - 1]].kind == "import_specifier"@ {
            match child_of_kind(nodes, list[k - 1], "identifier"@) {
                Some(n) => seq![node_text(nodes, source, n)],
                None => Seq::empty(),
            }
        } else {
            Seq::empty()
        }
    }
}

/// The items of an import clause: its named imports, then its default
/// import.
pub open spec fn clause_items(nodes: Seq<NodeView>, source: Seq<u8>, clause: int) -> Seq<Seq<char>> {
    let named = match child_of_kind(nodes, clause, "named_imports"@) {
        Some(named) => named_upto(
            nodes,
            source,
            children_of(nodes, named),
            children_of(nodes, named).len() as int,
        ),
        None => Seq::empty(),
    };
    let default = match child_of_kind(nodes, clause, "identifier"@) {
        Some(d) => seq![node_text(nodes, source, d)],
        None => Seq::empty(),
    };
    named + default
}

/// The import of the import statement at node `i`.
pub open spec fn module_import(nodes: Seq<NodeView>, source: Seq<u8>, path: Seq<char>, i: int)
    -> ImportView {
    ImportView {
        source_file: path,
        target: match child_of_kind(nodes, i, "string"@) {
            Some(s) => unquoted(node_text(nodes, source, s)),
            None => Seq::empty(),
        },
        alias: None,
        items: match child_of_kind(nodes, i, "import_clause"@) {
            Some(clause) => clause_items(nodes, source, clause),
            None => Seq::empty(),
        },
        line: line_of(nodes[i].start_row),
    }
}

/// The argument of the `require` call at node `i`.
pub open spec fn required(nodes: Seq<NodeView>, source: Seq<u8>, i: int) -> Option<int> {
    if nodes[i].kind == "call_expression"@ {
        match child_at(nodes, i, 0) {
            Some(f) => if node_text(nodes, source, f) == "require"@ {
                match child_of_kind(nodes, i, "arguments"@) {
                    Some(args) => child_at(nodes, args, 1),
                    None => None,
                }
            } else {
                None
            },
            None => None,
        }
    } else {
        None
    }
}

/// The imports that node `i` contributes in a pass: import statements in
/// pass 0, `require` calls in pass 1.
pub open spec fn imports_at(
    nodes: Seq<NodeView>,
    source: Seq<u8>,
    path: Seq<char>,
    pass: int,
    i: int,
) -> Seq<ImportView> {
    if pass == 0 && nodes[i].kind == "import_statement"@ {
        seq![module_import(nodes, source, path, i)]
    } else if pass == 1 {
        match required(nodes, source, i) {
            Some(arg) => seq![
                ImportView {
                    source_file: path,
                    target: unquoted(node_text(nodes, source, arg)),
                    alias: None,
                    items: Seq::empty(),
                    line: line_of(nodes[i].start_row),
                },
            ],
            None => Seq::empty(),
        }
    } else {
        Seq::empty()
    }
}

/// The name that the call at node `i` calls: an identifier, or the property
/// of a member expression; `require` is no callee.
pub open spec fn callee_at(nodes: Seq<NodeView>, source: Seq<u8>, i: int) -> Option<Seq<char>> {
    if nodes[i].kind == "call_expression"@ {
        match child_at(nodes, i, 0) {
            Some(f) => {
                let name = if nodes[f].kind == "identifier"@ {
                    Some(node_text(nodes, source, f))
                } else if nodes[f].kind == "member_expression"@ {
                    match child_of_kind(nodes, f, "property_identifier"@) {
                        Some(n) => Some(node_text(nodes, source, n)),
                        None => None,
                    }
                } else {
                    None
                };
                if name == Some("require"@) {
                    None
                } else {
                    name
                }
            },
            None => None,
        }
    } else {
        None
    }
}

/// The class that the heritage at node `h` extends: its identifier, or the
/// identifier of its extends clause.
pub open spec fn extended(nodes: Seq<NodeView>, h: int) -> Option<int> {
    match child_of_kind(nodes, h, "identifier"@) {
        Some(n) => Some(n),
        None => match child_of_kind(nodes, h, "extends_clause"@) {
            Some(e) => child_of_kind(nodes, e, "identifier"@),
            None => None,
        },
    }
}

/// The inheritance records that node `i` contributes: for a class
/// declaration that extends a class and whose class symbol is among
/// `symbols`, one from the symbol to the extended class.
pub open spec fn inheritance_at(
    nodes: Seq<NodeView>,
    source: Seq<u8>,
    symbols: Seq<SymbolView>,
    i: int,
) -> Seq<InheritanceView> {
    if nodes[i].kind == "class_declaration"@ {
        match child_of_kind(nodes, i, "class_heritage"@) {
            Some(h) => match extended(nodes, h) {
                Some(base) => match id_of_named(
                    symbols,
                    match class_name_node(nodes, i) {
                        Some(n) => node_text(nodes, source, n),
                        None => Seq::empty(),
                    },
                    KindFilter::One(SymbolKind::Class),
                ) {
                    Some(id) => seq![
                        InheritanceView {
                            child_id: id,
                            parent_name: node_text(nodes, source, base),
                        },
                    ],
                    None => Seq::empty(),
                },
                None => Seq::empty(),
            },
            None => Seq::empty(),
        }
    } else {
        Seq::empty()
    }
}

// ---------------------------------------------------------------------------
// Implementation
// ---------------------------------------------------------------------------
fn language_tag(typescript: bool) -> (r: Language)
    ensures
        r == tag(typescript),
{
    if typescript {
        Language::TypeScript
    } else {
        Language::JavaScript
    }
}

fn read_is_async(tree: &SyntaxTree, source: &[u8], i: usize) -> (r: bool)
    requires
        i < tree@.len(),
    ensures
        r == is_async(tree@, source@, i as int),
{
    let text = tree.text(source, i);
    let head = trim_start(text.as_slice());
    starts_with(head.as_slice(), chars_of("async").as_slice())
}

fn read_function(tree: &SyntaxTree, source: &[u8], path: &str, typescript: bool, i: usize) -> (r:
    Option<Symbol>)
    requires
        i < tree@.len(),
    ensures
        opt_symbol(r) == function(tree@, source@, path@, typescript, i as int),
        r is Some ==> symbol_fits(r->0@, path@),
{
    match tree.find_child(i, "identifier") {
        Some(n) => {
            let name = tree.text(source, n);
            let sig = signature_to_brace(&tree.slice(source, i));
            let doc = tree.comment_before(source, i, "comment", "comment");
            Some(
                build_symbol(
                    path,
                    &name,
                    SymbolKind::Function,
                    tree.lines(i),
                    &sig,
                    Visibility::Public,
                    read_is_async(tree, source, i),
                    &doc,
                    language_tag(typescript),
                    None,
                ),
            )
        },
        None => None,
    }
}

fn read_arrow_head(text: &Option<Vec<char>>) -> (r: Vec<char>)
    ensures
        r@ == arrow_head(opt_chars(*text)),
{
    match text {
        Some(s) => match find_sub(s.as_slice(), chars_of("=>").as_slice()) {
            Some(arrow) => {
                proof {
                    reveal_strlit("=>");
                }
                let head = copy_range(s.as_slice(), 0, arrow + 2);
                trim(head.as_slice())
            },
            None => match first_line(s.as_slice()) {
                Some(line) => line,
                None => Vec::new(),
            },
        },
        None => Vec::new(),
    }
}

fn read_arrow_signature(name: &Vec<char>, text: &Option<Vec<char>>) -> (r: Vec<char>)
    ensures
        r@ == arrow_signature(name@, opt_chars(*text)),
{
    let mut sig = chars_of("const ");
    push_all(&mut sig, name.as_slice());
    push_str(&mut sig, " = ");
    push_all(&mut sig, read_arrow_head(text).as_slice());
    sig
}

fn check_declarator(tree: &SyntaxTree, i: usize) -> (r: bool)
    requires
        i < tree@.len(),
    ensures
        r == is_declarator(tree@, i as int),
{
    if tree.kind_is(i, "variable_declarator") {
        match tree.parent(i) {
            Some(p) => tree.kind_is(p, "lexical_declaration") || tree.kind_is(
                p,
                "variable_declaration",
            ),
            None => false,
        }
    } else {
        false
    }
}

fn read_arrow_function(
    tree: &SyntaxTree,
    source: &[u8],
    path: &str,
    typescript: bool,
    i: usize,
) -> (r: Option<Symbol>)
    requires
        i < tree@.len(),
    ensures
        opt_symbol(r) == arrow_function(tree@, source@, path@, typescript, i as int),
        r is Some ==> symbol_fits(r->0@, path@),
{
    match tree.find_child(i, "arrow_function") {
        Some(f) => match tree.find_child(i, "identifier") {
            Some(n) => {
                let first = tree.lines(n).0;
                let last = tree.lines(f).1;
                if tree.node(n).start_row <= tree.node(f).end_row {
                    tree.use_invariant();
                    let name = tree.text(source, n);
                    let sig = Some(read_arrow_signature(&name, &tree.slice(source, f)));
                    Some(
                        build_symbol(
                            path,
                            &name,
                            SymbolKind::Function,
                            (first, last),
                            &sig,
                            Visibility::Public,
                            read_is_async(tree, source, f),
                            &None,
                            language_tag(typescript),
                            None,
                        ),
                    )
                } else {
                    None
                }
            },
            None => None,
        },
        None => None,
    }
}

fn find_class_name(tree: &SyntaxTree, i: usize) -> (r: Option<usize>)
    requires
        i < tree@.len(),
    ensures
        match r {
            Some(n) => class_name_node(tree@, i as int) == Some(n as int) && n < tree@.len(),
            None => class_name_node(tree@, i as int) is None,
        },
{
    match tree.find_child(i, "identifier") {
        Some(n) => Some(n),
        None => tree.find_child(i, "type_identifier"),
    }
}

fn read_class_signature(text: &Option<Vec<char>>) -> (r: Option<Vec<char>>)
    ensures
        opt_chars(r) == class_signature(opt_chars(*text)),
{
    match signature_line(text) {
        Some(line) => {
            let head = strip_trailing(line.as_slice(), '{');
            Some(trim(head.as_slice()))
        },
        None => None,
    }
}

fn read_class(tree: &SyntaxTree, source: &[u8], path: &str, typescript: bool, i: usize) -> (r:
    Option<Symbol>)
    requires
        i < tree@.len(),
    ensures
        opt_symbol(r) == class(tree@, source@, path@, typescript, i as int),
        r is Some ==> symbol_fits(r->0@, path@),
{
    match find_class_name(tree, i) {
        Some(n) => {
            let name = tree.text(source, n);
            let sig = read_class_signature(&tree.slice(source, i));
            let doc = tree.comment_before(source, i, "comment", "comment");
            Some(
                build_symbol(
                    path,
                    &name,
                    SymbolKind::Class,
                    tree.lines(i),
                    &sig,
                    Visibility::Public,
                    false,
                    &doc,
                    language_tag(typescript),
                    None,
                ),
            )
        },
        None => None,
    }
}

fn read_interface(tree: &SyntaxTree, source: &[u8], path: &str, alias: bool, i: usize) -> (r:
    Option<Symbol>)
    requires
        i < tree@.len(),
    ensures
        opt_symbol(r) == interface(tree@, source@, path@, alias, i as int),
        r is Some ==> symbol_fits(r->0@, path@),
{
    match tree.find_child(i, "type_identifier") {
        Some(n) => {
            let name = tree.text(source, n);
            let text = tree.slice(source, i);
            let sig = if alias {
                signature_line(&text)
            } else {
                signature_to_brace(&text)
            };
            let doc = tree.comment_before(source, i, "comment", "comment");
            Some(
                build_symbol(
                    path,
                    &name,
                    SymbolKind::Interface,
                    tree.lines(i),
                    &sig,
                    Visibility::Public,
                    false,
                    &doc,
                    Language::TypeScript,
                    None,
                ),
            )
        },
        None => None,
    }
}

fn read_method(
    tree: &SyntaxTree,
    source: &[u8],
    path: &str,
    typescript: bool,
    i: usize,
    parent: String,
) -> (r: Option<Symbol>)
    requires
        i < tree@.len(),
    ensures
        opt_symbol(r) == method(tree@, source@, path@, typescript, i as int, parent@),
        r is Some ==> symbol_fits(r->0@, path@),
{
    match tree.find_child(i, "property_identifier") {
        Some(n) => {
            let name = tree.text(source, n);
            let sig = signature_to_brace(&tree.slice(source, i));
            let visibility = if starts_with(name.as_slice(), chars_of("_").as_slice()) {
                Visibility::Private
            } else {
                Visibility::Public
            };
            Some(
                build_symbol(
                    path,
                    &name,
                    SymbolKind::Method,
                    tree.lines(i),
                    &sig,
                    visibility,
                    read_is_async(tree, source, i),
                    &None,
                    language_tag(typescript),
                    Some(parent),
                ),
            )
        },
        None => None,
    }
}

fn find_owner(tree: &SyntaxTree, i: usize) -> (r: Option<usize>)
    requires
        i < tree@.len(),
    ensures
        match r {
            Some(c) => owner(tree@, i as int) == Some(c as int) && c < tree@.len(),
            None => owner(tree@, i as int) is None,
        },
{
    match tree.parent(i) {
        Some(body) => {
            if tree.kind_is(body, "class_body") {
                match tree.parent(body) {
                    Some(c) => if tree.kind_is(c, "class_declaration") {
                        Some(c)
                    } else {
                        None
                    },
                    None => None,
                }
            } else {
                None
            }
        },
        None => None,
    }
}

/// Appends the symbols that node `i` contributes.
pub fn emit_symbols(
    tree: &SyntaxTree,
    source: &[u8],
    path: &str,
    typescript: bool,
    i: usize,
    out: &mut Vec<Symbol>,
)
    requires
        i < tree@.len(),
    ensures
        final(out).deep_view() == old(out).deep_view() + symbols_at(
            tree@,
            source@,
            path@,
            typescript,
            i as int,
        ),
        all_valid(old(out).deep_view(), path@) ==> all_valid(final(out).deep_view(), path@),
{
    let ghost before = out.deep_view();
    if tree.kind_is(i, "function_declaration") {
        push_one(out, read_function(tree, source, path, typescript, i), Ghost(path@));
    } else if check_declarator(tree, i) {
        push_one(out, read_arrow_function(tree, source, path, typescript, i), Ghost(path@));
    } else if tree.kind_is(i, "class_declaration") {
        push_one(out, read_class(tree, source, path, typescript, i), Ghost(path@));
    } else if tree.kind_is(i, "method_definition") {
        let class_symbol = match find_owner(tree, i) {
            Some(c) => read_class(tree, source, path, typescript, c),
            None => None,
        };
        match class_symbol {
            Some(c) => {
                push_one(out, read_method(tree, source, path, typescript, i, c.id), Ghost(path@));
            },
            None => {
                assert(out.deep_view() == before + Seq::<SymbolView>::empty());
            },
        }
    } else if typescript && tree.kind_is(i, "interface_declaration") {
        push_one(out, read_interface(tree, source, path, false, i), Ghost(path@));
    } else if typescript && tree.kind_is(i, "type_alias_declaration") {
        push_one(out, read_interface(tree, source, path, true, i), Ghost(path@));
    } else {
        assert(out.deep_view() == before + Seq::<SymbolView>::empty());
    }
}

fn unquote(text: &Vec<char>) -> (r: String)
    ensures
        r@ == unquoted(text@),
{
    let a = strip_surrounding(text.as_slice(), '"');
    let b = strip_surrounding(a.as_slice(), '\'');
    string_of(b.as_slice())
}

fn read_clause_items(tree: &SyntaxTree, source: &[u8], clause: usize) -> (r: Vec<String>)
    requires
        clause < tree@.len(),
    ensures
        texts(r@) == clause_items(tree@, source@, clause as int),
{
    let mut items: Vec<String> = Vec::new();
    assert(texts(items@) == Seq::<Seq<char>>::empty());
    match tree.find_child(clause, "named_imports") {
        Some(named) => {
            let list = tree.children(named);
            let ghost idx = ints(list@);
            assert(idx.len() == list.len());
            let mut k: usize = 0;
            while k < list.len()
                invariant
                    k <= list.len(),
                    idx == ints(list@),
                    forall|j: int| 0 <= j < list.len() ==> (#[trigger] list[j]) < tree@.len(),
                    texts(items@) == named_upto(tree@, source@, idx, k as int),
                decreases list.len() - k,
            {
                let c = list[k];
                assert(idx[k as int] == c);
                let ghost so_far = named_upto(tree@, source@, idx, k as int);
                let found = if tree.kind_is(c, "import_specifier") {
                    tree.find_child(c, "identifier")
                } else {
                    None
                };
                match found {
                    Some(n) => {
                        let item = string_of(tree.text(source, n).as_slice());
                        proof {
                            assert(texts(items@.push(item)) == so_far + seq![item@]);
                        }
                        items.push(item);
                    },
                    None => {
                        assert(texts(items@) == so_far + Seq::<Seq<char>>::empty());
                    },
                }
                k += 1;
            }
        },
        None => {},
    }
    let ghost named_part = texts(items@);
    match tree.find_child(clause, "identifier") {
        Some(d) => {
            let item = string_of(tree.text(source, d).as_slice());
            proof {
                assert(texts(items@.push(item)) == named_part + seq![item@]);
            }
            items.push(item);
        },
        None => {
            assert(texts(items@) == named_part + Seq::<Seq<char>>::empty());
        },
    }
    items
}

fn read_module_import(tree: &SyntaxTree, source: &[u8], path: &str, i: usize) -> (r: Import)
    requires
        i < tree@.len(),
    ensures
        r@ == module_import(tree@, source@, path@, i as int),
{
    let target = match tree.find_child(i, "string") {
        Some(s) => unquote(&tree.text(source, s)),
        None => String::new(),
    };
    let items = match tree.find_child(i, "import_clause") {
        Some(clause) => read_clause_items(tree, source, clause),
        None => {
            let items: Vec<String> = Vec::new();
            assert(texts(items@) == Seq::<Seq<char>>::empty());
            items
        },
    };
    Import {
        source_file: string_of(chars_of(path).as_slice()),
        target,
        alias: None,
        items,
        line: tree.lines(i).0,
    }
}

fn find_required(tree: &SyntaxTree, source: &[u8], i: usize) -> (r: Option<usize>)
    requires
        i < tree@.len(),
    ensures
        match r {
            Some(arg) => required(tree@, source@, i as int) == Some(arg as int) && arg
                < tree@.len(),
            None => required(tree@, source@, i as int) is None,
        },
{
    if tree.kind_is(i, "call_expression") {
        match tree.child(i, 0) {
            Some(f) => {
                let name = string_of(tree.text(source, f).as_slice());
                if crate::text::str_eq(name.as_str(), "require") {
                    match tree.find_child(i, "arguments") {
                        Some(args) => tree.child(args, 1),
                        None => None,
                    }
                } else {
                    None
                }
            },
            None => None,
        }
    } else {
        None
    }
}

/// Appends the imports that node `i` contributes in a pass.
pub fn emit_imports(
    tree: &SyntaxTree,
    source: &[u8],
    path: &str,
    pass: u8,
    i: usize,
    out: &mut Vec<Import>,
)
    requires
        i < tree@.len(),
    ensures
        final(out).deep_view() == old(out).deep_view() + imports_at(
            tree@,
            source@,
            path@,
            pass as int,
            i as int,
        ),
{
    let ghost before = out.deep_view();
    if pass == 0 && tree.kind_is(i, "import_statement") {
        let import = read_module_import(tree, source, path, i);
        proof {
            assert(out.deep_view().push(import@) == before + seq![import@]);
        }
        out.push(import);
        assert(out.deep_view() == before + seq![import@]);
        return ;
    } else if pass == 1 {
        match find_required(tree, source, i) {
            Some(arg) => {
                let import = Import {
                    source_file: string_of(chars_of(path).as_slice()),
                    target: unquote(&tree.text(source, arg)),
                    alias: None,
                    items: Vec::new(),
                    line: tree.lines(i).0,
                };
                assert(texts(import.items@) == Seq::<Seq<char>>::empty());
                proof {
                    assert(out.deep_view().push(import@) == before + seq![import@]);
                }
                out.push(import);
                assert(out.deep_view() == before + seq![import@]);
                return ;
            },
            None => {},
        }
    }
    assert(out.deep_view() == before + Seq::<ImportView>::empty());
}

/// The name that the call at node `i` calls.
pub fn callee(tree: &SyntaxTree, source: &[u8], i: usize) -> (r: Option<Vec<char>>)
    requires
        i < tree@.len(),
    ensures
        opt_chars(r) == callee_at(tree@, source@, i as int),
{
    if tree.kind_is(i, "call_expression") {
        match tree.child(i, 0) {
            Some(f) => {
                let name = if tree.kind_is(f, "identifier") {
                    Some(tree.text(source, f))
                } else if tree.kind_is(f, "member_expression") {
                    match tree.find_child(f, "property_identifier") {
                        Some(n) => Some(tree.text(source, n)),
                        None => None,
                    }
                } else {
                    None
                };
                match name {
                    Some(name) => {
                        let s = string_of(name.as_slice());
                        if crate::text::str_eq(s.as_str(), "require") {
                            None
                        } else {
                            Some(name)
                        }
                    },
                    None => None,
                }
            },
            None => None,
        }
    } else {
        None
    }
}

fn find_extended(tree: &SyntaxTree, h: usize) -> (r: Option<usize>)
    requires
        h < tree@.len(),
    ensures
        match r {
            Some(n) => extended(tree@, h as int) == Some(n as int) && n < tree@.len(),
            None => extended(tree@, h as int) is None,
        },
{
    match tree.find_child(h, "identifier") {
        Some(n) => Some(n),
        None => match tree.find_child(h, "extends_clause") {
            Some(e) => tree.find_child(e, "identifier"),
            None => None,
        },
    }
}

/// Appends the inheritance records that node `i` contributes.
pub fn emit_inheritance(
    tree: &SyntaxTree,
    source: &[u8],
    symbols: &Vec<Symbol>,
    i: usize,
    out: &mut Vec<Inheritance>,
)
    requires
        i < tree@.len(),
    ensures
        final(out).deep_view() == old(out).deep_view() + inheritance_at(
            tree@,
            source@,
            symbols.deep_view(),
            i as int,
        ),
{
    let ghost before = out.deep_view();
    if tree.kind_is(i, "class_declaration") {
        match tree.find_child(i, "class_heritage") {
            Some(h) => match find_extended(tree, h) {
                Some(base) => {
                    let name = match find_class_name(tree, i) {
                        Some(n) => tree.text(source, n),
                        None => Vec::new(),
                    };
                    match find_symbol_id(symbols, &name, KindFilter::One(SymbolKind::Class)) {
                        Some(id) => {
                            let record = Inheritance {
                                child_id: id,
                                parent_name: string_of(tree.text(source, base).as_slice()),
                            };
                            proof {
                                assert(out.deep_view().push(record@) == before + seq![record@]);
                            }
                            out.push(record);
                            assert(out.deep_view() == before + seq![record@]);
                            return ;
                        },
                        None => {},
                    }
                },
                None => {},
            },
            None => {},
        }
    }
    assert(out.deep_view() == before + Seq::<InheritanceView>::empty());
}

} // verus!
