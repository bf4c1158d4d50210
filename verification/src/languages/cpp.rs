//! C++ language extractor.

use crate::language::Language;
use crate::languages::common::all_valid;
use crate::languages::common::bases;
use crate::languages::common::brace_signature;
use crate::languages::common::build_symbol;
use crate::languages::common::find_symbol_id;
use crate::languages::common::id_of_named;
use crate::languages::common::line_signature;
use crate::languages::common::new_symbol;
use crate::languages::common::one;
use crate::languages::common::opt_chars;
use crate::languages::common::opt_symbol;
use crate::languages::common::push_bases;
use crate::languages::common::push_one;
use crate::languages::common::signature_line;
use crate::languages::common::symbol_fits;
use crate::languages::common::signature_to_brace;
use crate::languages::common::KindFilter;
use crate::model::texts;
use crate::model::Import;
use crate::model::ImportView;
use crate::model::Inheritance;
use crate::model::InheritanceView;
use crate::model::Symbol;
use crate::model::SymbolKind;
use crate::model::SymbolView;
use crate::model::Visibility;
use crate::syntax::child_at;
use crate::syntax::child_of_kind;
use crate::syntax::children_of;
use crate::syntax::ints;
use crate::syntax::line_of;
use crate::syntax::node_slice;
use crate::syntax::node_text;
use crate::syntax::parent_of;
use crate::syntax::preceding_comment;
use crate::syntax::NodeView;
use crate::syntax::SyntaxTree;
use crate::text::chars_of;
use crate::text::contains;
use crate::text::has_infix;
use crate::text::lowercase;
use crate::text::string_of;
use crate::text::strip_prefixes;
use crate::text::strip_surrounding;
use crate::text::strip_trailing;
use crate::text::trim;
use crate::text::trimmed;
use crate::text::unicode_lowercase;
use crate::text::without_prefixes;
use crate::text::without_surrounding;
use crate::text::without_trailing;
use vstd::prelude::*;

verus! {

pub struct CppExtractor;

// ---------------------------------------------------------------------------
// Specification
// ---------------------------------------------------------------------------
/// The comment that directly precedes node `i`.
pub open spec fn doc(nodes: Seq<NodeView>, source: Seq<u8>, i: int) -> Option<Seq<char>> {
    preceding_comment(nodes, source, i, "comment"@, "comment"@)
}

/// The node that names the declarator at node `d`, if it names one itself:
/// its identifier, its field identifier, its qualified identifier or its
/// destructor name.
pub open spec fn own_name(nodes: Seq<NodeView>, d: int) -> Option<int> {
    match child_of_kind(nodes, d, "identifier"@) {
        Some(n) => Some(n),
        None => match child_of_kind(nodes, d, "field_identifier"@) {
            Some(n) => Some(n),
            None => match child_of_kind(nodes, d, "qualified_identifier"@) {
                Some(n) => Some(n),
                None => child_of_kind(nodes, d, "destructor_name"@),
            },
        },
    }
}

/// The node that names the function declared at node `d`, through the
/// layers of nested function declarators.
pub open spec fn name_node(nodes: Seq<NodeView>, d: int) -> Option<int>
    decreases nodes.len() - d,
{
    match own_name(nodes, d) {
        Some(n) => Some(n),
        None => match child_of_kind(nodes, d, "function_declarator"@) {
            Some(inner) => if d < inner < nodes.len() {
                name_node(nodes, inner)
            } else {
                None
            },
            None => None,
        },
    }
}

/// The declarator of the function definition at node `i`.
pub open spec fn declarator(nodes: Seq<NodeView>, i: int) -> Option<int> {
    match child_of_kind(nodes, i, "function_declarator"@) {
        Some(d) => Some(d),
        None => child_of_kind(nodes, i, "pointer_declarator"@),
    }
}

/// The node that names the function defined at node `i`.
pub open spec fn function_name(nodes: Seq<NodeView>, i: int) -> Option<int> {
    match declarator(nodes, i) {
        Some(d) => name_node(nodes, d),
        None => None,
    }
}

/// The symbol of the function definition at node `i`: a method with the
/// given visibility if it has a parent, else a public function.
pub open spec fn function(
    nodes: Seq<NodeView>,
    source: Seq<u8>,
    path: Seq<char>,
    i: int,
    parent: Option<Seq<char>>,
    visibility: Visibility,
) -> Option<SymbolView> {
    match function_name(nodes, i) {
        Some(n) => Some(
            new_symbol(
                path,
                node_text(nodes, source, n),
                if parent is Some {
                    SymbolKind::Method
                } else {
                    SymbolKind::Function
                },
                (line_of(nodes[i].start_row), line_of(nodes[i].end_row)),
                brace_signature(node_slice(nodes, source, i)),
                visibility,
                false,
                doc(nodes, source, i),
                Language::Cpp,
                parent,
            ),
        ),
        None => None,
    }
}

/// The symbol of the method that the member declaration at node `i`
/// declares without a body; its lines are those of its declarator and its
/// signature is the first line of the declaration.
pub open spec fn declared_method(
    nodes: Seq<NodeView>,
    source: Seq<u8>,
    path: Seq<char>,
    i: int,
    parent: Seq<char>,
    visibility: Visibility,
) -> Option<SymbolView> {
    match child_of_kind(nodes, i, "function_declarator"@) {
        Some(d) => match name_node(nodes, d) {
            Some(n) => Some(
                new_symbol(
                    path,
                    node_text(nodes, source, n),
                    SymbolKind::Method,
                    (line_of(nodes[d].start_row), line_of(nodes[d].end_row)),
                    line_signature(node_slice(nodes, source, i)),
                    visibility,
                    false,
                    None,
                    Language::Cpp,
                    Some(parent),
                ),
            ),
            None => None,
        },
        None => None,
    }
}

/// The symbol of the class or struct specifier at node `i`.
pub open spec fn class(nodes: Seq<NodeView>, source: Seq<u8>, path: Seq<char>, i: int) -> Option<
    SymbolView,
> {
    match child_of_kind(nodes, i, "type_identifier"@) {
        Some(n) => Some(
            new_symbol(
                path,
                node_text(nodes, source, n),
                if nodes[i].kind == "struct_specifier"@ {
                    SymbolKind::Struct
                } else {
                    SymbolKind::Class
                },
                (line_of(nodes[i].start_row), line_of(nodes[i].end_row)),
                line_signature(node_slice(nodes, source, i)),
                Visibility::Public,
                false,
                doc(nodes, source, i),
                Language::Cpp,
                None,
            ),
        ),
        None => None,
    }
}

/// The symbol of the enum specifier at node `i`.
pub open spec fn enumeration(nodes: Seq<NodeView>, source: Seq<u8>, path: Seq<char>, i: int)
    -> Option<SymbolView> {
    match child_of_kind(nodes, i, "type_identifier"@) {
        Some(n) => Some(
            new_symbol(
                path,
                node_text(nodes, source, n),
                SymbolKind::Enum,
                (line_of(nodes[i].start_row), line_of(nodes[i].end_row)),
                line_signature(node_slice(nodes, source, i)),
                Visibility::Public,
                false,
                doc(nodes, source, i),
                Language::Cpp,
                None,
            ),
        ),
        None => None,
    }
}

/// Whether node `c` is a class or a struct specifier.
pub open spec fn is_class(nodes: Seq<NodeView>, c: int) -> bool {
    nodes[c].kind == "class_specifier"@ || nodes[c].kind == "struct_specifier"@
}

/// The body (a field declaration list) of a class or struct in which node
/// `i` directly stands.
pub open spec fn enclosing_body(nodes: Seq<NodeView>, i: int) -> Option<int> {
    match parent_of(nodes, i) {
        Some(body) => if nodes[body].kind == "field_declaration_list"@ && parent_of(nodes, body)
            is Some && is_class(nodes, parent_of(nodes, body)->0) {
            Some(body)
        } else {
            None
        },
        None => None,
    }
}

/// The visibility that an access specifier with the given text sets.
pub open spec fn access_of(text: Seq<char>) -> Visibility {
    if has_infix(unicode_lowercase(text), "public"@) {
        Visibility::Public
    } else if has_infix(unicode_lowercase(text), "protected"@) {
        Visibility::Protected
    } else {
        Visibility::Private
    }
}

/// The visibility in force at node `limit` of a body, given the first `k`
/// children of the body: that of the last access specifier before the node,
/// or the default.
pub open spec fn access_before(
    nodes: Seq<NodeView>,
    source: Seq<u8>,
    list: Seq<int>,
    default: Visibility,
    limit: int,
    k: int,
) -> Visibility
    decreases k,
{
    if k <= 0 || k > list.len() {
        default
    } else if list[k - 1] < limit && nodes[list[k - 1]].kind == "access_specifier"@ {
        access_of(node_text(nodes, source, list[k - 1]))
    } else {
        access_before(nodes, source, list, default, limit, k - 1)
    }
}

/// The visibility of the member at node `i` of the body at node `body`:
/// members of a struct are public and members of a class private until an
/// access specifier says otherwise.
pub open spec fn member_visibility(nodes: Seq<NodeView>, source: Seq<u8>, body: int, i: int)
    -> Visibility {
    access_before(
        nodes,
        source,
        children_of(nodes, body),
        if nodes[parent_of(nodes, body)->0].kind == "struct_specifier"@ {
            Visibility::Public
        } else {
            Visibility::Private
        },
        i,
        children_of(nodes, body).len() as int,
    )
}

/// The class symbol that owns the member at node `i` of the body at node
/// `body`.
pub open spec fn owning_class(nodes: Seq<NodeView>, source: Seq<u8>, path: Seq<char>, body: int)
    -> Option<SymbolView> {
    class(nodes, source, path, parent_of(nodes, body)->0)
}

/// Whether node `i` is a declaration of a member.
pub open spec fn is_member_declaration(nodes: Seq<NodeView>, i: int) -> bool {
    nodes[i].kind == "declaration"@ || nodes[i].kind == "field_declaration"@
}

/// The symbol that the member at node `i` of a class body contributes, if
/// the class has a symbol: a method for a function definition and for a
/// declaration of a function.
pub open spec fn member(
    nodes: Seq<NodeView>,
    source: Seq<u8>,
    path: Seq<char>,
    body: int,
    i: int,
) -> Option<SymbolView> {
    match owning_class(nodes, source, path, body) {
        Some(c) => if nodes[i].kind == "function_definition"@ {
            function(
                nodes,
                source,
                path,
                i,
                Some(c.id),
                member_visibility(nodes, source, body, i),
            )
        } else {
            declared_method(
                nodes,
                source,
                path,
                i,
                c.id,
                member_visibility(nodes, source, body, i),
            )
        },
        None => None,
    }
}

/// The symbols that node `i` contributes: a function definition or a member
/// declaration directly in the body of a class or struct gives a method;
/// any other function definition gives a function; class, struct and enum
/// specifiers give their symbols.
pub open spec fn symbols_at(nodes: Seq<NodeView>, source: Seq<u8>, path: Seq<char>, i: int) -> Seq<
    SymbolView,
> {
    if nodes[i].kind == "function_definition"@ || is_member_declaration(nodes, i) {
        match enclosing_body(nodes, i) {
            Some(body) => one(member(nodes, source, path, body, i)),
            None => if nodes[i].kind == "function_definition"@ {
                one(function(nodes, source, path, i, None, Visibility::Public))
            } else {
                Seq::empty()
            },
        }
    } else if is_class(nodes, i) {
        one(class(nodes, source, path, i))
    } else if nodes[i].kind == "enum_specifier"@ {
        one(enumeration(nodes, source, path, i))
    } else {
        Seq::empty()
    }
}

/// The header that an include names, without its quotes or angle brackets.
pub open spec fn header(text: Seq<char>) -> Seq<char> {
    without_surrounding(without_surrounding(without_surrounding(text, '"'), '<'), '>')
}

/// What a using declaration names: its text after `using`, trimmed and
/// without the semicolons at its end.
pub open spec fn used(text: Seq<char>) -> Seq<char> {
    without_trailing(trimmed(without_prefixes(text, "using"@)), ';')
}

/// The target of the import at node `i` in a pass: the header of an include
/// in pass 0, what a using declaration names in pass 1.
pub open spec fn import_target(nodes: Seq<NodeView>, source: Seq<u8>, pass: int, i: int) -> Seq<
    char,
> {
    if pass == 0 && nodes[i].kind == "preproc_include"@ {
        match child_of_kind(nodes, i, "string_literal"@) {
            Some(s) => header(node_text(nodes, source, s)),
            None => match child_of_kind(nodes, i, "system_lib_string"@) {
                Some(s) => header(node_text(nodes, source, s)),
                None => Seq::empty(),
            },
        }
    } else if pass == 1 && nodes[i].kind == "using_declaration"@ {
        used(node_text(nodes, source, i))
    } else {
        Seq::empty()
    }
}

/// The imports that node `i` contributes in a pass: one with its target,
/// unless that is empty.
pub open spec fn imports_at(
    nodes: Seq<NodeView>,
    source: Seq<u8>,
    path: Seq<char>,
    pass: int,
    i: int,
) -> Seq<ImportView> {
    if import_target(nodes, source, pass, i).len() > 0 {
        seq![
            ImportView {
                source_file: path,
                target: import_target(nodes, source, pass, i),
                alias: None,
                items: Seq::empty(),
                line: line_of(nodes[i].start_row),
            },
        ]
    } else {
        Seq::empty()
    }
}

/// The name that the call at node `i` calls: an identifier, the field of a
/// field expression, a whole qualified identifier, or the identifier of a
/// template function.
pub open spec fn callee_at(nodes: Seq<NodeView>, source: Seq<u8>, i: int) -> Option<Seq<char>> {
    if nodes[i].kind == "call_expression"@ {
        match child_at(nodes, i, 0) {
            Some(f) => if nodes[f].kind == "identifier"@ || nodes[f].kind
                == "qualified_identifier"@ {
                Some(node_text(nodes, source, f))
            } else if nodes[f].kind == "field_expression"@ {
                match child_of_kind(nodes, f, "field_identifier"@) {
                    Some(n) => Some(node_text(nodes, source, n)),
                    None => None,
                }
            } else if nodes[f].kind == "template_function"@ {
                match child_of_kind(nodes, f, "identifier"@) {
                    Some(n) => Some(node_text(nodes, source, n)),
                    None => None,
                }
            } else {
                None
            },
            None => None,
        }
    } else {
        None
    }
}

/// The inheritance records that node `i` contributes: for a class or struct
/// specifier whose symbol is among `symbols`, one for each type identifier
/// or qualified identifier of its base clause.
pub open spec fn inheritance_at(
    nodes: Seq<NodeView>,
    source: Seq<u8>,
    symbols: Seq<SymbolView>,
    i: int,
) -> Seq<InheritanceView> {
    if is_class(nodes, i) {
        match child_of_kind(nodes, i, "base_class_clause"@) {
            Some(clause) => match id_of_named(
                symbols,
                match child_of_kind(nodes, i, "type_identifier"@) {
                    Some(n) => node_text(nodes, source, n),
                    None => Seq::empty(),
                },
                KindFilter::Two(SymbolKind::Class, SymbolKind::Struct),
            ) {
                Some(id) => bases(
                    nodes,
                    source,
                    id,
                    children_of(nodes, clause),
                    "type_identifier"@,
                    "qualified_identifier"@,
                ),
                None => Seq::empty(),
            },
            None => Seq::empty(),
        }
    } else {
        Seq::empty()
    }
}

// ---------------------------------------------------------------------------
// Implementation
// ---------------------------------------------------------------------------
fn find_own_name(tree: &SyntaxTree, d: usize) -> (r: Option<usize>)
    requires
        d < tree@.len(),
    ensures
        match r {
            Some(n) => own_name(tree@, d as int) == Some(n as int) && n < tree@.len(),
            None => own_name(tree@, d as int) is None,
        },
{
    match tree.find_child(d, "identifier") {
        Some(n) => Some(n),
        None => match tree.find_child(d, "field_identifier") {
            Some(n) => Some(n),
            None => match tree.find_child(d, "qualified_identifier") {
                Some(n) => Some(n),
                None => tree.find_child(d, "destructor_name"),
            },
        },
    }
}

fn find_name(tree: &SyntaxTree, d: usize) -> (r: Option<usize>)
    requires
        d < tree@.len(),
    ensures
        match r {
            Some(n) => name_node(tree@, d as int) == Some(n as int) && n < tree@.len(),
            None => name_node(tree@, d as int) is None,
        },
{
    let mut cur: usize = d;
    loop
        invariant
            cur < tree@.len(),
            name_node(tree@, d as int) == name_node(tree@, cur as int),
        decreases tree@.len() - cur,
    {
        match find_own_name(tree, cur) {
            Some(n) => {
                return Some(n);
            },
            None => match tree.find_child(cur, "function_declarator") {
                Some(inner) => {
                    cur = inner;
                },
                None => {
                    return None;
                },
            },
        }
    }
}

fn find_function_name(tree: &SyntaxTree, i: usize) -> (r: Option<usize>)
    requires
        i < tree@.len(),
    ensures
        match r {
            Some(n) => function_name(tree@, i as int) == Some(n as int) && n < tree@.len(),
            None => function_name(tree@, i as int) is None,
        },
{
    let d = match tree.find_child(i, "function_declarator") {
        Some(d) => Some(d),
        None => tree.find_child(i, "pointer_declarator"),
    };
    match d {
        Some(d) => find_name(tree, d),
        None => None,
    }
}

fn read_function(
    tree: &SyntaxTree,
    source: &[u8],
    path: &str,
    i: usize,
    parent: Option<String>,
    visibility: Visibility,
) -> (r: Option<Symbol>)
    requires
        i < tree@.len(),
    ensures
        opt_symbol(r) == function(
            tree@,
            source@,
            path@,
            i as int,
            crate::model::opt_text(parent),
            visibility,
        ),
        r is Some ==> symbol_fits(r->0@, path@),
{
    match find_function_name(tree, i) {
        Some(n) => {
            let name = tree.text(source, n);
            let kind = if parent.is_some() {
                SymbolKind::Method
            } else {
                SymbolKind::Function
            };
            let sig = signature_to_brace(&tree.slice(source, i));
            let doc = tree.comment_before(source, i, "comment", "comment");
            Some(
                build_symbol(
                    path,
                    &name,
                    kind,
                    tree.lines(i),
                    &sig,
                    visibility,
                    false,
                    &doc,
                    Language::Cpp,
                    parent,
                ),
            )
        },
        None => None,
    }
}

fn read_declared_method(
    tree: &SyntaxTree,
    source: &[u8],
    path: &str,
    i: usize,
    parent: String,
    visibility: Visibility,
) -> (r: Option<Symbol>)
    requires
        i < tree@.len(),
    ensures
        opt_symbol(r) == declared_method(tree@, source@, path@, i as int, parent@, visibility),
        r is Some ==> symbol_fits(r->0@, path@),
{
    match tree.find_child(i, "function_declarator") {
        Some(d) => match find_name(tree, d) {
            Some(n) => {
                let name = tree.text(source, n);
                let sig = signature_line(&tree.slice(source, i));
                Some(
                    build_symbol(
                        path,
                        &name,
                        SymbolKind::Method,
                        tree.lines(d),
                        &sig,
                        visibility,
                        false,
                        &None,
                        Language::Cpp,
                        Some(parent),
                    ),
                )
            },
            None => None,
        },
        None => None,
    }
}

fn read_class(tree: &SyntaxTree, source: &[u8], path: &str, i: usize) -> (r: Option<Symbol>)
    requires
        i < tree@.len(),
    ensures
        opt_symbol(r) == class(tree@, source@, path@, i as int),
        r is Some ==> symbol_fits(r->0@, path@),
{
    match tree.find_child(i, "type_identifier") {
        Some(n) => {
            let name = tree.text(source, n);
            let kind = if tree.kind_is(i, "struct_specifier") {
                SymbolKind::Struct
            } else {
                SymbolKind::Class
            };
            let sig = signature_line(&tree.slice(source, i));
            let doc = tree.comment_before(source, i, "comment", "comment");
            Some(
                build_symbol(
                    path,
                    &name,
                    kind,
                    tree.lines(i),
                    &sig,
                    Visibility::Public,
                    false,
                    &doc,
                    Language::Cpp,
                    None,
                ),
            )
        },
        None => None,
    }
}

fn read_enumeration(tree: &SyntaxTree, source: &[u8], path: &str, i: usize) -> (r: Option<Symbol>)
    requires
        i < tree@.len(),
    ensures
        opt_symbol(r) == enumeration(tree@, source@, path@, i as int),
        r is Some ==> symbol_fits(r->0@, path@),
{
    match tree.find_child(i, "type_identifier") {
        Some(n) => {
            let name = tree.text(source, n);
            let sig = signature_line(&tree.slice(source, i));
            let doc = tree.comment_before(source, i, "comment", "comment");
            Some(
                build_symbol(
                    path,
                    &name,
                    SymbolKind::Enum,
                    tree.lines(i),
                    &sig,
                    Visibility::Public,
                    false,
                    &doc,
                    Language::Cpp,
                    None,
                ),
            )
        },
        None => None,
    }
}

fn check_class(tree: &SyntaxTree, c: usize) -> (r: bool)
    requires
        c < tree@.len(),
    ensures
        r == is_class(tree@, c as int),
{
    tree.kind_is(c, "class_specifier") || tree.kind_is(c, "struct_specifier")
}

/// The body and the class of the member at node `i`.
fn find_enclosing(tree: &SyntaxTree, i: usize) -> (r: Option<(usize, usize)>)
    requires
        i < tree@.len(),
    ensures
        match r {
            Some((body, c)) => enclosing_body(tree@, i as int) == Some(body as int) && parent_of(
                tree@,
                body as int,
            ) == Some(c as int) && body < tree@.len() && c < tree@.len(),
            None => enclosing_body(tree@, i as int) is None,
        },
{
    match tree.parent(i) {
        Some(body) => {
            if tree.kind_is(body, "field_declaration_list") {
                match tree.parent(body) {
                    Some(c) => if check_class(tree, c) {
                        Some((body, c))
                    } else {
                        None
                    },
                    None => None,
                }
            } else {
                None
            }
        },
        None => None,
    }
}

fn read_access(text: &Vec<char>) -> (r: Visibility)
    ensures
        r == access_of(text@),
{
    let lower = chars_of(lowercase(string_of(text.as_slice()).as_str()).as_str());
    if contains(lower.as_slice(), chars_of("public").as_slice()) {
        Visibility::Public
    } else if contains(lower.as_slice(), chars_of("protected").as_slice()) {
        Visibility::Protected
    } else {
        Visibility::Private
    }
}

fn read_member_visibility(tree: &SyntaxTree, source: &[u8], body: usize, c: usize, i: usize) -> (r:
    Visibility)
    requires
        i < tree@.len(),
        body < tree@.len(),
        c < tree@.len(),
        parent_of(tree@, body as int) == Some(c as int),
    ensures
        r == member_visibility(tree@, source@, body as int, i as int),
{
    let default = if tree.kind_is(c, "struct_specifier") {
        Visibility::Public
    } else {
        Visibility::Private
    };
    let list = tree.children(body);
    let ghost idx = ints(list@);
    assert(idx.len() == list.len());
    let mut k: usize = list.len();
    while k > 0
        invariant
            k <= list.len(),
            idx == ints(list@),
            forall|j: int| 0 <= j < list.len() ==> (#[trigger] list[j]) < tree@.len(),
            member_visibility(tree@, source@, body as int, i as int) == access_before(
                tree@,
                source@,
                idx,
                default,
                i as int,
                k as int,
            ),
        decreases k,
    {
        let m = list[k - 1];
        assert(idx[k - 1] == m);
        if m < i && tree.kind_is(m, "access_specifier") {
            return read_access(&tree.text(source, m));
        }
        k -= 1;
    }
    default
}

fn read_member(tree: &SyntaxTree, source: &[u8], path: &str, body: usize, c: usize, i: usize) -> (r:
    Option<Symbol>)
    requires
        i < tree@.len(),
        body < tree@.len(),
        c < tree@.len(),
        parent_of(tree@, body as int) == Some(c as int),
    ensures
        opt_symbol(r) == member(tree@, source@, path@, body as int, i as int),
        r is Some ==> symbol_fits(r->0@, path@),
{
    match read_class(tree, source, path, c) {
        Some(class_symbol) => {
            let visibility = read_member_visibility(tree, source, body, c, i);
            if tree.kind_is(i, "function_definition") {
                read_function(tree, source, path, i, Some(class_symbol.id), visibility)
            } else {
                read_declared_method(tree, source, path, i, class_symbol.id, visibility)
            }
        },
        None => None,
    }
}

/// Appends the symbols that node `i` contributes.
pub fn emit_symbols(tree: &SyntaxTree, source: &[u8], path: &str, i: usize, out: &mut Vec<Symbol>)
    requires
        i < tree@.len(),
    ensures
        final(out).deep_view() == old(out).deep_view() + symbols_at(
            tree@,
            source@,
            path@,
            i as int,
        ),
        all_valid(old(out).deep_view(), path@) ==> all_valid(final(out).deep_view(), path@),
{
    let ghost before = out.deep_view();
    let definition = tree.kind_is(i, "function_definition");
    if definition || tree.kind_is(i, "declaration") || tree.kind_is(i, "field_declaration") {
        match find_enclosing(tree, i) {
            Some((body, c)) => {
                push_one(out, read_member(tree, source, path, body, c, i), Ghost(path@));
            },
            None => {
                if definition {
                    push_one(out, read_function(tree, source, path, i, None, Visibility::Public), Ghost(path@));
                } else {
                    assert(out.deep_view() == before + Seq::<SymbolView>::empty());
                }
            },
        }
    } else if check_class(tree, i) {
        push_one(out, read_class(tree, source, path, i), Ghost(path@));
    } else if tree.kind_is(i, "enum_specifier") {
        push_one(out, read_enumeration(tree, source, path, i), Ghost(path@));
    } else {
        assert(out.deep_view() == before + Seq::<SymbolView>::empty());
    }
}

fn read_header(text: &Vec<char>) -> (r: Vec<char>)
    ensures
        r@ == header(text@),
{
    let a = strip_surrounding(text.as_slice(), '"');
    let b = strip_surrounding(a.as_slice(), '<');
    strip_surrounding(b.as_slice(), '>')
}

fn read_import_target(tree: &SyntaxTree, source: &[u8], pass: u8, i: usize) -> (r: Vec<char>)
    requires
        i < tree@.len(),
    ensures
        r@ == import_target(tree@, source@, pass as int, i as int),
{
    if pass == 0 && tree.kind_is(i, "preproc_include") {
        match tree.find_child(i, "string_literal") {
            Some(s) => read_header(&tree.text(source, s)),
            None => match tree.find_child(i, "system_lib_string") {
                Some(s) => read_header(&tree.text(source, s)),
                None => Vec::new(),
            },
        }
    } else if pass == 1 && tree.kind_is(i, "using_declaration") {
        let text = tree.text(source, i);
        let a = strip_prefixes(text.as_slice(), chars_of("using").as_slice());
        let b = trim(a.as_slice());
        strip_trailing(b.as_slice(), ';')
    } else {
        Vec::new()
    }
}

/// Appends the imports that node `i` contributes in a pass.
pub fn emit_imports(
    tree: &SyntaxTree,
    source: &[u8],
    path: &str,
    pass: u8,
    i: usize,
    out: &mut Vec<Import>,
)
    requires
        i < tree@.len(),
    ensures
        final(out).deep_view() == old(out).deep_view() + imports_at(
            tree@,
            source@,
            path@,
            pass as int,
            i as int,
        ),
{
    let ghost before = out.deep_view();
    let target = read_import_target(tree, source, pass, i);
    if target.len() > 0 {
        let import = Import {
            source_file: string_of(chars_of(path).as_slice()),
            target: string_of(target.as_slice()),
            alias: None,
            items: Vec::new(),
            line: tree.lines(i).0,
        };
        assert(texts(import.items@) == Seq::<Seq<char>>::empty());
        proof {
            assert(out.deep_view().push(import@) == before + seq![import@]);
        }
        out.push(import);
        assert(out.deep_view() == before + seq![import@]);
    } else {
        assert(out.deep_view() == before + Seq::<ImportView>::empty());
    }
}

/// The name that the call at node `i` calls.
pub fn callee(tree: &SyntaxTree, source: &[u8], i: usize) -> (r: Option<Vec<char>>)
    requires
        i < tree@.len(),
    ensures
        opt_chars(r) == callee_at(tree@, source@, i as int),
{
    if tree.kind_is(i, "call_expression") {
        match tree.child(i, 0) {
            Some(f) => {
                if tree.kind_is(f, "identifier") || tree.kind_is(f, "qualified_identifier") {
                    Some(tree.text(source, f))
                } else if tree.kind_is(f, "field_expression") {
                    match tree.find_child(f, "field_identifier") {
                        Some(n) => Some(tree.text(source, n)),
                        None => None,
                    }
                } else if tree.kind_is(f, "template_function") {
                    match tree.find_child(f, "identifier") {
                        Some(n) => Some(tree.text(source, n)),
                        None => None,
                    }
                } else {
                    None
                }
            },
            None => None,
        }
    } else {
        None
    }
}

/// Appends the inheritance records that node `i` contributes.
pub fn emit_inheritance(
    tree: &SyntaxTree,
    source: &[u8],
    symbols: &Vec<Symbol>,
    i: usize,
    out: &mut Vec<Inheritance>,
)
    requires
        i < tree@.len(),
    ensures
        final(out).deep_view() == old(out).deep_view() + inheritance_at(
            tree@,
            source@,
            symbols.deep_view(),
            i as int,
        ),
{
    let ghost before = out.deep_view();
    if check_class(tree, i) {
        match tree.find_child(i, "base_class_clause") {
            Some(clause) => {
                let name = match tree.find_child(i, "type_identifier") {
                    Some(n) => tree.text(source, n),
                    None => Vec::new(),
                };
                match find_symbol_id(
                    symbols,
                    &name,
                    KindFilter::Two(SymbolKind::Class, SymbolKind::Struct),
                ) {
                    Some(id) => {
                        let children = tree.children(clause);
                        push_bases(
                            out,
                            tree,
                            source,
                            &id,
                            &children,
                            "type_identifier",
                            "qualified_identifier",
                        );
                        return ;
                    },
                    None => {},
                }
            },
            None => {},
        }
    }
    assert(out.deep_view() == before + Seq::<InheritanceView>::empty());
}

} // verus!
