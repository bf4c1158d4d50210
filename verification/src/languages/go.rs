//! Go language extractor.

use crate::language::Language;
use crate::languages::common::all_valid;
use crate::languages::common::brace_signature;
use crate::languages::common::build_symbol;
use crate::languages::common::find_symbol_id;
use crate::languages::common::id_of_named;
use crate::languages::common::line_signature;
use crate::languages::common::new_symbol;
use crate::languages::common::one;
use crate::languages::common::opt_chars;
use crate::languages::common::opt_symbol;
use crate::languages::common::push_one;
use crate::languages::common::signature_line;
use crate::languages::common::symbol_fits;
use crate::languages::common::signature_to_brace;
use crate::languages::common::KindFilter;
use crate::model::texts;
use crate::model::Import;
use crate::model::ImportView;
use crate::model::Inheritance;
use crate::model::InheritanceView;
use crate::model::Symbol;
use crate::model::SymbolKind;
use crate::model::SymbolView;
use crate::model::Visibility;
use crate::syntax::child_at;
use crate::syntax::child_of_kind;
use crate::syntax::children_of;
use crate::syntax::ints;
use crate::syntax::line_of;
use crate::syntax::node_slice;
use crate::syntax::node_text;
use crate::syntax::parent_has_kind;
use crate::syntax::preceding_comment;
use crate::syntax::NodeView;
use crate::syntax::SyntaxTree;
use crate::text::chars_of;
use crate::text::is_uppercase;
use crate::text::string_of;
use crate::text::strip_leading;
use crate::text::strip_surrounding;
use crate::text::unicode_is_uppercase;
use crate::text::without_leading;
use crate::text::without_surrounding;
use vstd::prelude::*;

verus! {

pub struct GoExtractor;

// ---------------------------------------------------------------------------
// Specification
// ---------------------------------------------------------------------------
/// A name is exported iff its first character is an upper-case letter.
pub open spec fn visibility(name: Seq<char>) -> Visibility {
    if name.len() > 0 && unicode_is_uppercase(name[0]) {
        Visibility::Public
    } else {
        Visibility::Private
    }
}

/// The comment that directly precedes node `i`.
pub open spec fn doc(nodes: Seq<NodeView>, source: Seq<u8>, i: int) -> Option<Seq<char>> {
    preceding_comment(nodes, source, i, "comment"@, "comment"@)
}

/// The symbol of the function declaration at node `i`.
pub open spec fn function(nodes: Seq<NodeView>, source: Seq<u8>, path: Seq<char>, i: int) -> Option<
    SymbolView,
> {
    match child_of_kind(nodes, i, "identifier"@) {
        Some(n) => Some(
            new_symbol(
                path,
                node_text(nodes, source, n),
                SymbolKind::Function,
                (line_of(nodes[i].start_row), line_of(nodes[i].end_row)),
                brace_signature(node_slice(nodes, source, i)),
                visibility(node_text(nodes, source, n)),
                false,
                doc(nodes, source, i),
                Language::Go,
                None,
            ),
        ),
        None => None,
    }
}

/// The name of the receiver's type of the method at node `i`, a pointer's
/// leading stars left out.
pub open spec fn receiver(nodes: Seq<NodeView>, source: Seq<u8>, i: int) -> Option<Seq<char>> {
    match child_of_kind(nodes, i, "parameter_list"@) {
        Some(list) => match child_of_kind(nodes, list, "parameter_declaration"@) {
            Some(p) => match child_of_kind(nodes, p, "type_identifier"@) {
                Some(t) => Some(without_leading(node_text(nodes, source, t), '*')),
                None => match child_of_kind(nodes, p, "pointer_type"@) {
                    Some(t) => Some(without_leading(node_text(nodes, source, t), '*')),
                    None => None,
                },
            },
            None => None,
        },
        None => None,
    }
}

/// The identifier of the struct among `types` that the method at node `i`
/// belongs to.
pub open spec fn parent_id(
    nodes: Seq<NodeView>,
    source: Seq<u8>,
    types: Seq<SymbolView>,
    i: int,
) -> Option<Seq<char>> {
    match receiver(nodes, source, i) {
        Some(name) => id_of_named(types, name, KindFilter::One(SymbolKind::Struct)),
        None => None,
    }
}

/// The symbol of the method declaration at node `i`.
pub open spec fn method(
    nodes: Seq<NodeView>,
    source: Seq<u8>,
    path: Seq<char>,
    types: Seq<SymbolView>,
    i: int,
) -> Option<SymbolView> {
    match child_of_kind(nodes, i, "field_identifier"@) {
        Some(n) => Some(
            new_symbol(
                path,
                node_text(nodes, source, n),
                SymbolKind::Method,
                (line_of(nodes[i].start_row), line_of(nodes[i].end_row)),
                brace_signature(node_slice(nodes, source, i)),
                visibility(node_text(nodes, source, n)),
                false,
                doc(nodes, source, i),
                Language::Go,
                parent_id(nodes, source, types, i),
            ),
        ),
        None => None,
    }
}

/// The symbol of the type spec at node `i`: a struct if it holds a struct
/// type, else an interface.
pub open spec fn type_symbol(nodes: Seq<NodeView>, source: Seq<u8>, path: Seq<char>, i: int)
    -> Option<SymbolView> {
    match child_of_kind(nodes, i, "type_identifier"@) {
        Some(n) => Some(
            new_symbol(
                path,
                node_text(nodes, source, n),
                if child_of_kind(nodes, i, "struct_type"@) is Some {
                    SymbolKind::Struct
                } else {
                    SymbolKind::Interface
                },
                (line_of(nodes[i].start_row), line_of(nodes[i].end_row)),
                line_signature(node_slice(nodes, source, i)),
                visibility(node_text(nodes, source, n)),
                false,
                doc(nodes, source, i),
                Language::Go,
                None,
            ),
        ),
        None => None,
    }
}

/// The types that node `i` declares: the symbol of a type spec that stands
/// directly in a type declaration.
pub open spec fn types_at(nodes: Seq<NodeView>, source: Seq<u8>, path: Seq<char>, i: int) -> Seq<
    SymbolView,
> {
    if nodes[i].kind == "type_spec"@ && parent_has_kind(nodes, i, "type_declaration"@) {
        one(type_symbol(nodes, source, path, i))
    } else {
        Seq::empty()
    }
}

/// The symbols that node `i` contributes.
pub open spec fn symbols_at(
    nodes: Seq<NodeView>,
    source: Seq<u8>,
    path: Seq<char>,
    types: Seq<SymbolView>,
    i: int,
) -> Seq<SymbolView> {
    if nodes[i].kind == "function_declaration"@ {
        one(function(nodes, source, path, i))
    } else if nodes[i].kind == "method_declaration"@ {
        one(method(nodes, source, path, types, i))
    } else {
        types_at(nodes, source, path, i)
    }
}

/// The alias of the import spec at node `c`: its package identifier, its
/// dot or its blank identifier.
pub open spec fn alias(nodes: Seq<NodeView>, source: Seq<u8>, c: int) -> Option<Seq<char>> {
    match child_of_kind(nodes, c, "package_identifier"@) {
        Some(a) => Some(node_text(nodes, source, a)),
        None => match child_of_kind(nodes, c, "dot"@) {
            Some(a) => Some(node_text(nodes, source, a)),
            None => match child_of_kind(nodes, c, "blank_identifier"@) {
                Some(a) => Some(node_text(nodes, source, a)),
                None => None,
            },
        },
    }
}

/// The import of the import spec at node `c`.
pub open spec fn spec_import(nodes: Seq<NodeView>, source: Seq<u8>, path: Seq<char>, c: int)
    -> Option<ImportView> {
    if nodes[c].kind == "import_spec"@ {
        match child_of_kind(nodes, c, "interpreted_string_literal"@) {
            Some(p) => Some(
                ImportView {
                    source_file: path,
                    target: without_surrounding(node_text(nodes, source, p), '"'),
                    alias: alias(nodes, source, c),
                    items: Seq::empty(),
                    line: line_of(nodes[c].start_row),
                },
            ),
            None => None,
        }
    } else {
        None
    }
}

/// The imports of the import specs among the first `k` nodes of `list`.
pub open spec fn spec_imports_upto(
    nodes: Seq<NodeView>,
    source: Seq<u8>,
    path: Seq<char>,
    list: Seq<int>,
    k: int,
) -> Seq<ImportView>
    decreases k,
{
    if k <= 0 || k > list.len() {
        Seq::empty()
    } else {
        spec_imports_upto(nodes, source, path, list, k - 1) + one(
            spec_import(nodes, source, path, list[k - 1]),
        )
    }
}

/// The imports of the import specs among the children of node `p`.
pub open spec fn spec_imports(nodes: Seq<NodeView>, source: Seq<u8>, path: Seq<char>, p: int)
    -> Seq<ImportView> {
    spec_imports_upto(
        nodes,
        source,
        path,
        children_of(nodes, p),
        children_of(nodes, p).len() as int,
    )
}

/// The import of a literal that stands directly in the import declaration
/// at node `i`.
pub open spec fn literal_import(nodes: Seq<NodeView>, source: Seq<u8>, path: Seq<char>, i: int)
    -> Option<ImportView> {
    match child_of_kind(nodes, i, "interpreted_string_literal"@) {
        Some(p) => Some(
            ImportView {
                source_file: path,
                target: without_surrounding(node_text(nodes, source, p), '"'),
                alias: None,
                items: Seq::empty(),
                line: line_of(nodes[i].start_row),
            },
        ),
        None => None,
    }
}

/// The imports that node `i` contributes: for an import declaration, its
/// literal, its own import specs and those of its spec list. All imports
/// come in pass 0.
pub open spec fn imports_at(
    nodes: Seq<NodeView>,
    source: Seq<u8>,
    path: Seq<char>,
    pass: int,
    i: int,
) -> Seq<ImportView> {
    if pass == 0 && nodes[i].kind == "import_declaration"@ {
        one(literal_import(nodes, source, path, i)) + spec_imports(nodes, source, path, i) + match child_of_kind(
            nodes,
            i,
            "import_spec_list"@,
        ) {
            Some(l) => spec_imports(nodes, source, path, l),
            None => Seq::empty(),
        }
    } else {
        Seq::empty()
    }
}

/// The name that the call at node `i` calls: an identifier, or the field of
/// a selector.
pub open spec fn callee_at(nodes: Seq<NodeView>, source: Seq<u8>, i: int) -> Option<Seq<char>> {
    if nodes[i].kind == "call_expression"@ {
        match child_at(nodes, i, 0) {
            Some(f) => if nodes[f].kind == "identifier"@ {
                Some(node_text(nodes, source, f))
            } else if nodes[f].kind == "selector_expression"@ {
                match child_of_kind(nodes, f, "field_identifier"@) {
                    Some(n) => Some(node_text(nodes, source, n)),
                    None => None,
                }
            } else {
                None
            },
            None => None,
        }
    } else {
        None
    }
}

/// The type that the field at node `f` embeds: the type identifier of a
/// field declaration without a field name.
pub open spec fn embedded_field(nodes: Seq<NodeView>, f: int) -> Option<int> {
    if nodes[f].kind == "field_declaration"@ && child_of_kind(nodes, f, "field_identifier"@)
        is None {
        child_of_kind(nodes, f, "type_identifier"@)
    } else {
        None
    }
}

/// The type that the interface element at node `c` embeds: a type
/// identifier, alone or as the child of a type element.
pub open spec fn embedded_element(nodes: Seq<NodeView>, c: int) -> Option<int> {
    if nodes[c].kind == "type_identifier"@ {
        Some(c)
    } else if nodes[c].kind == "type_elem"@ {
        child_of_kind(nodes, c, "type_identifier"@)
    } else {
        None
    }
}

/// The type that node `c` embeds, as a field of a struct or as an element
/// of an interface.
pub open spec fn embedded(nodes: Seq<NodeView>, c: int, fields: bool) -> Option<int> {
    if fields {
        embedded_field(nodes, c)
    } else {
        embedded_element(nodes, c)
    }
}

/// One record from `id` to each type that the first `k` nodes of `list`
/// embed, as fields of a struct or as elements of an interface.
pub open spec fn embedded_upto(
    nodes: Seq<NodeView>,
    source: Seq<u8>,
    id: Seq<char>,
    list: Seq<int>,
    fields: bool,
    k: int,
) -> Seq<InheritanceView>
    decreases k,
{
    if k <= 0 || k > list.len() {
        Seq::empty()
    } else {
        embedded_upto(nodes, source, id, list, fields, k - 1) + match embedded(
            nodes,
            list[k - 1],
            fields,
        ) {
            Some(t) => seq![InheritanceView { child_id: id, parent_name: node_text(nodes, source, t) }],
            None => Seq::empty(),
        }
    }
}

/// The name of the type spec at node `i`; empty if it has none.
pub open spec fn declared_name(nodes: Seq<NodeView>, source: Seq<u8>, i: int) -> Seq<char> {
    match child_of_kind(nodes, i, "type_identifier"@) {
        Some(n) => node_text(nodes, source, n),
        None => Seq::empty(),
    }
}

/// The records of the types that the struct of the type spec at node `i`
/// embeds, if its struct symbol is among `symbols`.
pub open spec fn struct_embedding(
    nodes: Seq<NodeView>,
    source: Seq<u8>,
    symbols: Seq<SymbolView>,
    i: int,
) -> Seq<InheritanceView> {
    match child_of_kind(nodes, i, "struct_type"@) {
        Some(s) => match child_of_kind(nodes, s, "field_declaration_list"@) {
            Some(l) => match id_of_named(
                symbols,
                declared_name(nodes, source, i),
                KindFilter::One(SymbolKind::Struct),
            ) {
                Some(id) => embedded_upto(
                    nodes,
                    source,
                    id,
                    children_of(nodes, l),
                    true,
                    children_of(nodes, l).len() as int,
                ),
                None => Seq::empty(),
            },
            None => Seq::empty(),
        },
        None => Seq::empty(),
    }
}

/// The records of the types that the interface of the type spec at node `i`
/// embeds, if its interface symbol is among `symbols`.
pub open spec fn interface_embedding(
    nodes: Seq<NodeView>,
    source: Seq<u8>,
    symbols: Seq<SymbolView>,
    i: int,
) -> Seq<InheritanceView> {
    match child_of_kind(nodes, i, "interface_type"@) {
        Some(t) => match id_of_named(
            symbols,
            declared_name(nodes, source, i),
            KindFilter::One(SymbolKind::Interface),
        ) {
            Some(id) => embedded_upto(
                nodes,
                source,
                id,
                children_of(nodes, t),
                false,
                children_of(nodes, t).len() as int,
            ),
            None => Seq::empty(),
        },
        None => Seq::empty(),
    }
}

/// The inheritance records that node `i` contributes: for a type spec, what
/// its struct embeds, then what its interface embeds.
pub open spec fn inheritance_at(
    nodes: Seq<NodeView>,
    source: Seq<u8>,
    symbols: Seq<SymbolView>,
    i: int,
) -> Seq<InheritanceView> {
    if nodes[i].kind == "type_spec"@ {
        struct_embedding(nodes, source, symbols, i) + interface_embedding(
            nodes,
            source,
            symbols,
            i,
        )
    } else {
        Seq::empty()
    }
}

// ---------------------------------------------------------------------------
// Implementation
// ---------------------------------------------------------------------------
fn visibility_of(name: &Vec<char>) -> (r: Visibility)
    ensures
        r == visibility(name@),
{
    if name.len() > 0 && is_uppercase(name[0]) {
        Visibility::Public
    } else {
        Visibility::Private
    }
}

fn read_function(tree: &SyntaxTree, source: &[u8], path: &str, i: usize) -> (r: Option<Symbol>)
    requires
        i < tree@.len(),
    ensures
        opt_symbol(r) == function(tree@, source@, path@, i as int),
        r is Some ==> symbol_fits(r->0@, path@),
{
    match tree.find_child(i, "identifier") {
        Some(n) => {
            let name = tree.text(source, n);
            let sig = signature_to_brace(&tree.slice(source, i));
            let doc = tree.comment_before(source, i, "comment", "comment");
            Some(
                build_symbol(
                    path,
                    &name,
                    SymbolKind::Function,
                    tree.lines(i),
                    &sig,
                    visibility_of(&name),
                    false,
                    &doc,
                    Language::Go,
                    None,
                ),
            )
        },
        None => None,
    }
}

fn read_receiver(tree: &SyntaxTree, source: &[u8], i: usize) -> (r: Option<Vec<char>>)
    requires
        i < tree@.len(),
    ensures
        opt_chars(r) == receiver(tree@, source@, i as int),
{
    match tree.find_child(i, "parameter_list") {
        Some(list) => match tree.find_child(list, "parameter_declaration") {
            Some(p) => {
                let t = match tree.find_child(p, "type_identifier") {
                    Some(t) => Some(t),
                    None => tree.find_child(p, "pointer_type"),
                };
                match t {
                    Some(t) => Some(strip_leading(tree.text(source, t).as_slice(), '*')),
                    None => None,
                }
            },
            None => None,
        },
        None => None,
    }
}

fn read_method(tree: &SyntaxTree, source: &[u8], path: &str, types: &Vec<Symbol>, i: usize) -> (r:
    Option<Symbol>)
    requires
        i < tree@.len(),
    ensures
        opt_symbol(r) == method(tree@, source@, path@, types.deep_view(), i as int),
        r is Some ==> symbol_fits(r->0@, path@),
{
    match tree.find_child(i, "field_identifier") {
        Some(n) => {
            let name = tree.text(source, n);
            let sig = signature_to_brace(&tree.slice(source, i));
            let doc = tree.comment_before(source, i, "comment", "comment");
            let parent = match read_receiver(tree, source, i) {
                Some(name) => find_symbol_id(types, &name, KindFilter::One(SymbolKind::Struct)),
                None => None,
            };
            Some(
                build_symbol(
                    path,
                    &name,
                    SymbolKind::Method,
                    tree.lines(i),
                    &sig,
                    visibility_of(&name),
                    false,
                    &doc,
                    Language::Go,
                    parent,
                ),
            )
        },
        None => None,
    }
}

fn read_type(tree: &SyntaxTree, source: &[u8], path: &str, i: usize) -> (r: Option<Symbol>)
    requires
        i < tree@.len(),
    ensures
        opt_symbol(r) == type_symbol(tree@, source@, path@, i as int),
        r is Some ==> symbol_fits(r->0@, path@),
{
    match tree.find_child(i, "type_identifier") {
        Some(n) => {
            let name = tree.text(source, n);
            let kind = if tree.find_child(i, "struct_type").is_some() {
                SymbolKind::Struct
            } else {
                SymbolKind::Interface
            };
            let sig = signature_line(&tree.slice(source, i));
            let doc = tree.comment_before(source, i, "comment", "comment");
            Some(
                build_symbol(
                    path,
                    &name,
                    kind,
                    tree.lines(i),
                    &sig,
                    visibility_of(&name),
                    false,
                    &doc,
                    Language::Go,
                    None,
                ),
            )
        },
        None => None,
    }
}

/// Appends the types that node `i` declares.
pub fn emit_types(tree: &SyntaxTree, source: &[u8], path: &str, i: usize, out: &mut Vec<Symbol>)
    requires
        i < tree@.len(),
    ensures
        final(out).deep_view() == old(out).deep_view() + types_at(
            tree@,
            source@,
            path@,
            i as int,
        ),
        all_valid(old(out).deep_view(), path@) ==> all_valid(final(out).deep_view(), path@),
{
    if tree.kind_is(i, "type_spec") && tree.parent_is(i, "type_declaration") {
        push_one(out, read_type(tree, source, path, i), Ghost(path@));
    } else {
        assert(out.deep_view() == old(out).deep_view() + Seq::<SymbolView>::empty());
    }
}

/// Appends the symbols that node `i` contributes.
pub fn emit_symbols(
    tree: &SyntaxTree,
    source: &[u8],
    path: &str,
    types: &Vec<Symbol>,
    i: usize,
    out: &mut Vec<Symbol>,
)
    requires
        i < tree@.len(),
    ensures
        final(out).deep_view() == old(out).deep_view() + symbols_at(
            tree@,
            source@,
            path@,
            types.deep_view(),
            i as int,
        ),
        all_valid(old(out).deep_view(), path@) ==> all_valid(final(out).deep_view(), path@),
{
    if tree.kind_is(i, "function_declaration") {
        push_one(out, read_function(tree, source, path, i), Ghost(path@));
    } else if tree.kind_is(i, "method_declaration") {
        push_one(out, read_method(tree, source, path, types, i), Ghost(path@));
    } else {
        emit_types(tree, source, path, i, out);
    }
}

fn read_alias(tree: &SyntaxTree, source: &[u8], c: usize) -> (r: Option<String>)
    requires
        c < tree@.len(),
    ensures
        crate::model::opt_text(r) == alias(tree@, source@, c as int),
{
    let node = match tree.find_child(c, "package_identifier") {
        Some(a) => Some(a),
        None => match tree.find_child(c, "dot") {
            Some(a) => Some(a),
            None => tree.find_child(c, "blank_identifier"),
        },
    };
    match node {
        Some(a) => Some(string_of(tree.text(source, a).as_slice())),
        None => None,
    }
}

fn read_target(tree: &SyntaxTree, source: &[u8], p: usize) -> (r: String)
    requires
        p < tree@.len(),
    ensures
        r@ == without_surrounding(node_text(tree@, source@, p as int), '"'),
{
    string_of(strip_surrounding(tree.text(source, p).as_slice(), '"').as_slice())
}

fn read_spec_import(tree: &SyntaxTree, source: &[u8], path: &str, c: usize) -> (r: Option<Import>)
    requires
        c < tree@.len(),
    ensures
        match r {
            Some(import) => spec_import(tree@, source@, path@, c as int) == Some(import@),
            None => spec_import(tree@, source@, path@, c as int) is None,
        },
{
    if tree.kind_is(c, "import_spec") {
        match tree.find_child(c, "interpreted_string_literal") {
            Some(p) => {
                let import = Import {
                    source_file: string_of(chars_of(path).as_slice()),
                    target: read_target(tree, source, p),
                    alias: read_alias(tree, source, c),
                    items: Vec::new(),
                    line: tree.lines(c).0,
                };
                assert(texts(import.items@) == Seq::<Seq<char>>::empty());
                Some(import)
            },
            None => None,
        }
    } else {
        None
    }
}

fn emit_spec_imports(tree: &SyntaxTree, source: &[u8], path: &str, p: usize, out: &mut Vec<Import>)
    requires
        p < tree@.len(),
    ensures
        final(out).deep_view() == old(out).deep_view() + spec_imports(
            tree@,
            source@,
            path@,
            p as int,
        ),
{
    let ghost before = out.deep_view();
    let list = tree.children(p);
    let ghost idx = ints(list@);
    assert(idx.len() == list.len());
    let mut k: usize = 0;
    assert(out.deep_view() == before + spec_imports_upto(tree@, source@, path@, idx, 0));
    while k < list.len()
        invariant
            k <= list.len(),
            idx == ints(list@),
            forall|j: int| 0 <= j < list.len() ==> (#[trigger] list[j]) < tree@.len(),
            out.deep_view() == before + spec_imports_upto(tree@, source@, path@, idx, k as int),
        decreases list.len() - k,
    {
        let c = list[k];
        assert(idx[k as int] == c);
        let ghost so_far = spec_imports_upto(tree@, source@, path@, idx, k as int);
        match read_spec_import(tree, source, path, c) {
            Some(import) => {
                proof {
                    assert(out.deep_view().push(import@) == before + (so_far + seq![import@]));
                }
                out.push(import);
                assert(out.deep_view() == before + (so_far + seq![import@]));
            },
            None => {
                assert(out.deep_view() == before + (so_far + Seq::<ImportView>::empty()));
            },
        }
        k += 1;
    }
}

/// Appends the imports that node `i` contributes in a pass.
pub fn emit_imports(
    tree: &SyntaxTree,
    source: &[u8],
    path: &str,
    pass: u8,
    i: usize,
    out: &mut Vec<Import>,
)
    requires
        i < tree@.len(),
    ensures
        final(out).deep_view() == old(out).deep_view() + imports_at(
            tree@,
            source@,
            path@,
            pass as int,
            i as int,
        ),
{
    let ghost before = out.deep_view();
    if pass == 0 && tree.kind_is(i, "import_declaration") {
        match tree.find_child(i, "interpreted_string_literal") {
            Some(p) => {
                let import = Import {
                    source_file: string_of(chars_of(path).as_slice()),
                    target: read_target(tree, source, p),
                    alias: None,
                    items: Vec::new(),
                    line: tree.lines(i).0,
                };
                assert(texts(import.items@) == Seq::<Seq<char>>::empty());
                proof {
                    assert(out.deep_view().push(import@) == before + seq![import@]);
                }
                out.push(import);
                assert(out.deep_view() == before + seq![import@]);
            },
            None => {
                assert(out.deep_view() == before + Seq::<ImportView>::empty());
            },
        }
        let ghost first = out.deep_view();
        emit_spec_imports(tree, source, path, i, out);
        let ghost second = out.deep_view();
        match tree.find_child(i, "import_spec_list") {
            Some(l) => {
                emit_spec_imports(tree, source, path, l, out);
            },
            None => {
                assert(out.deep_view() == second + Seq::<ImportView>::empty());
            },
        }
        assert(out.deep_view() == before + imports_at(
            tree@,
            source@,
            path@,
            pass as int,
            i as int,
        ));
    } else {
        assert(out.deep_view() == before + Seq::<ImportView>::empty());
    }
}

/// The name that the call at node `i` calls.
pub fn callee(tree: &SyntaxTree, source: &[u8], i: usize) -> (r: Option<Vec<char>>)
    requires
        i < tree@.len(),
    ensures
        opt_chars(r) == callee_at(tree@, source@, i as int),
{
    if tree.kind_is(i, "call_expression") {
        match tree.child(i, 0) {
            Some(f) => {
                if tree.kind_is(f, "identifier") {
                    Some(tree.text(source, f))
                } else if tree.kind_is(f, "selector_expression") {
                    match tree.find_child(f, "field_identifier") {
                        Some(n) => Some(tree.text(source, n)),
                        None => None,
                    }
                } else {
                    None
                }
            },
            None => None,
        }
    } else {
        None
    }
}

fn find_embedded(tree: &SyntaxTree, c: usize, fields: bool) -> (r: Option<usize>)
    requires
        c < tree@.len(),
    ensures
        match r {
            Some(t) => t < tree@.len() && embedded(tree@, c as int, fields) == Some(t as int),
            None => embedded(tree@, c as int, fields) is None,
        },
{
    if fields {
        if tree.kind_is(c, "field_declaration") && tree.find_child(c, "field_identifier").is_none() {
            tree.find_child(c, "type_identifier")
        } else {
            None
        }
    } else {
        if tree.kind_is(c, "type_identifier") {
            Some(c)
        } else if tree.kind_is(c, "type_elem") {
            tree.find_child(c, "type_identifier")
        } else {
            None
        }
    }
}

fn emit_embedded(
    tree: &SyntaxTree,
    source: &[u8],
    id: &String,
    p: usize,
    fields: bool,
    out: &mut Vec<Inheritance>,
)
    requires
        p < tree@.len(),
    ensures
        final(out).deep_view() == old(out).deep_view() + embedded_upto(
            tree@,
            source@,
            id@,
            children_of(tree@, p as int),
            fields,
            children_of(tree@, p as int).len() as int,
        ),
{
    let ghost before = out.deep_view();
    let list = tree.children(p);
    let ghost idx = ints(list@);
    assert(idx.len() == list.len());
    let mut k: usize = 0;
    assert(out.deep_view() == before + embedded_upto(tree@, source@, id@, idx, fields, 0));
    while k < list.len()
        invariant
            k <= list.len(),
            idx == ints(list@),
            forall|j: int| 0 <= j < list.len() ==> (#[trigger] list[j]) < tree@.len(),
            out.deep_view() == before + embedded_upto(tree@, source@, id@, idx, fields, k as int),
        decreases list.len() - k,
    {
        let c = list[k];
        assert(idx[k as int] == c);
        let ghost so_far = embedded_upto(tree@, source@, id@, idx, fields, k as int);
        match find_embedded(tree, c, fields) {
            Some(t) => {
                let record = Inheritance {
                    child_id: id.clone(),
                    parent_name: string_of(tree.text(source, t).as_slice()),
                };
                proof {
                    assert(out.deep_view().push(record@) == before + (so_far + seq![record@]));
                }
                out.push(record);
                assert(out.deep_view() == before + (so_far + seq![record@]));
            },
            None => {
                assert(out.deep_view() == before + (so_far + Seq::<InheritanceView>::empty()));
            },
        }
        k += 1;
    }
}

fn read_declared_name(tree: &SyntaxTree, source: &[u8], i: usize) -> (r: Vec<char>)
    requires
        i < tree@.len(),
    ensures
        r@ == declared_name(tree@, source@, i as int),
{
    match tree.find_child(i, "type_identifier") {
        Some(n) => tree.text(source, n),
        None => Vec::new(),
    }
}

fn emit_struct_embedding(
    tree: &SyntaxTree,
    source: &[u8],
    symbols: &Vec<Symbol>,
    i: usize,
    out: &mut Vec<Inheritance>,
)
    requires
        i < tree@.len(),
    ensures
        final(out).deep_view() == old(out).deep_view() + struct_embedding(
            tree@,
            source@,
            symbols.deep_view(),
            i as int,
        ),
{
    match tree.find_child(i, "struct_type") {
        Some(s) => match tree.find_child(s, "field_declaration_list") {
            Some(l) => {
                let name = read_declared_name(tree, source, i);
                match find_symbol_id(symbols, &name, KindFilter::One(SymbolKind::Struct)) {
                    Some(id) => {
                        emit_embedded(tree, source, &id, l, true, out);
                        return ;
                    },
                    None => {},
                }
            },
            None => {},
        },
        None => {},
    }
    assert(out.deep_view() == old(out).deep_view() + Seq::<InheritanceView>::empty());
}

fn emit_interface_embedding(
    tree: &SyntaxTree,
    source: &[u8],
    symbols: &Vec<Symbol>,
    i: usize,
    out: &mut Vec<Inheritance>,
)
    requires
        i < tree@.len(),
    ensures
        final(out).deep_view() == old(out).deep_view() + interface_embedding(
            tree@,
            source@,
            symbols.deep_view(),
            i as int,
        ),
{
    match tree.find_child(i, "interface_type") {
        Some(t) => {
            let name = read_declared_name(tree, source, i);
            match find_symbol_id(symbols, &name, KindFilter::One(SymbolKind::Interface)) {
                Some(id) => {
                    emit_embedded(tree, source, &id, t, false, out);
                    return ;
                },
                None => {},
            }
        },
        None => {},
    }
    assert(out.deep_view() == old(out).deep_view() + Seq::<InheritanceView>::empty());
}

/// Appends the inheritance records that node `i` contributes.
pub fn emit_inheritance(
    tree: &SyntaxTree,
    source: &[u8],
    symbols: &Vec<Symbol>,
    i: usize,
    out: &mut Vec<Inheritance>,
)
    requires
        i < tree@.len(),
    ensures
        final(out).deep_view() == old(out).deep_view() + inheritance_at(
            tree@,
            source@,
            symbols.deep_view(),
            i as int,
        ),
{
    let ghost before = out.deep_view();
    if tree.kind_is(i, "type_spec") {
        emit_struct_embedding(tree, source, symbols, i, out);
        emit_interface_embedding(tree, source, symbols, i, out);
        assert(out.deep_view() == before + (struct_embedding(
            tree@,
            source@,
            symbols.deep_view(),
            i as int,
        ) + interface_embedding(tree@, source@, symbols.deep_view(), i as int)));
    } else {
        assert(out.deep_view() == before + Seq::<InheritanceView>::empty());
    }
}

} // verus!
