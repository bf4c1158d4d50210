//! Rust language extractor.

use crate::language::Language;
use crate::languages::common::all_valid;
use crate::languages::common::brace_signature;
use crate::languages::common::build_symbol;
use crate::languages::common::find_symbol_id;
use crate::languages::common::id_of_named;
use crate::languages::common::line_signature;
use crate::languages::common::new_symbol;
use crate::languages::common::one;
use crate::languages::common::opt_chars;
use crate::languages::common::opt_symbol;
use crate::languages::common::push_one;
use crate::languages::common::signature_line;
use crate::languages::common::symbol_fits;
use crate::languages::common::signature_to_brace;
use crate::languages::common::KindFilter;
use crate::model::texts;
use crate::model::Import;
use crate::model::ImportView;
use crate::model::Inheritance;
use crate::model::InheritanceView;
use crate::model::Symbol;
use crate::model::SymbolKind;
use crate::model::SymbolView;
use crate::model::Visibility;
use crate::syntax::child_at;
use crate::syntax::child_of_kind;
use crate::syntax::child_of_kinds;
use crate::syntax::children_of;
use crate::syntax::ints;
use crate::syntax::line_of;
use crate::syntax::next_child;
use crate::syntax::next_child_of_kinds;
use crate::syntax::node_slice;
use crate::syntax::node_text;
use crate::syntax::parent_of;
use crate::syntax::preceding_comment;
use crate::syntax::NodeView;
use crate::syntax::SyntaxTree;
use crate::text::chars_of;
use crate::text::contains;
use crate::text::has_infix;
use crate::text::has_prefix;
use crate::text::push_str;
use crate::text::starts_with;
use crate::text::string_of;
use crate::text::strip_prefixes;
use crate::text::trim;
use crate::text::trim_start;
use crate::text::trimmed;
use crate::text::trimmed_start;
use crate::text::without_prefixes;
use vstd::prelude::*;

verus! {

pub struct RustExtractor;

// ---------------------------------------------------------------------------
// Specification
// ---------------------------------------------------------------------------
/// An item is public iff its text begins with `pub`, leading white space
/// aside.
pub open spec fn visibility(nodes: Seq<NodeView>, source: Seq<u8>, i: int) -> Visibility {
    if has_prefix(trimmed_start(node_text(nodes, source, i)), "pub"@) {
        Visibility::Public
    } else {
        Visibility::Private
    }
}

/// The documentation of an item: the comment before it, without its
/// leading `///` or `//!` markers, trimmed.
pub open spec fn doc(nodes: Seq<NodeView>, source: Seq<u8>, i: int) -> Option<Seq<char>> {
    match preceding_comment(nodes, source, i, "line_comment"@, "block_comment"@) {
        Some(c) => Some(trimmed(without_prefixes(without_prefixes(c, "///"@), "//!"@))),
        None => None,
    }
}

/// A function is async iff its signature, the text before its body, holds
/// `async fn`.
pub open spec fn is_async(nodes: Seq<NodeView>, source: Seq<u8>, i: int) -> bool {
    match brace_signature(node_slice(nodes, source, i)) {
        Some(signature) => has_infix(signature, "async fn"@),
        None => false,
    }
}

/// The symbol of the function item at node `i`.
pub open spec fn function(
    nodes: Seq<NodeView>,
    source: Seq<u8>,
    path: Seq<char>,
    i: int,
    kind: SymbolKind,
    parent: Option<Seq<char>>,
) -> Option<SymbolView> {
    match child_of_kind(nodes, i, "identifier"@) {
        Some(n) => Some(
            new_symbol(
                path,
                node_text(nodes, source, n),
                kind,
                (line_of(nodes[i].start_row), line_of(nodes[i].end_row)),
                brace_signature(node_slice(nodes, source, i)),
                visibility(nodes, source, i),
                is_async(nodes, source, i),
                doc(nodes, source, i),
                Language::Rust,
                parent,
            ),
        ),
        None => None,
    }
}

/// The symbol of the struct, enum or trait item at node `i`.
pub open spec fn type_symbol(
    nodes: Seq<NodeView>,
    source: Seq<u8>,
    path: Seq<char>,
    i: int,
    kind: SymbolKind,
) -> Option<SymbolView> {
    match child_of_kind(nodes, i, "type_identifier"@) {
        Some(n) => Some(
            new_symbol(
                path,
                node_text(nodes, source, n),
                kind,
                (line_of(nodes[i].start_row), line_of(nodes[i].end_row)),
                line_signature(node_slice(nodes, source, i)),
                visibility(nodes, source, i),
                false,
                doc(nodes, source, i),
                Language::Rust,
                None,
            ),
        ),
        None => None,
    }
}

/// The types that node `i` declares and that a method can belong to: its
/// struct or its enum.
pub open spec fn types_at(nodes: Seq<NodeView>, source: Seq<u8>, path: Seq<char>, i: int) -> Seq<
    SymbolView,
> {
    if nodes[i].kind == "struct_item"@ {
        one(type_symbol(nodes, source, path, i, SymbolKind::Struct))
    } else if nodes[i].kind == "enum_item"@ {
        one(type_symbol(nodes, source, path, i, SymbolKind::Enum))
    } else {
        Seq::empty()
    }
}

/// The first type named in the impl at node `i`.
pub open spec fn first_type(nodes: Seq<NodeView>, i: int) -> Option<int> {
    child_of_kinds(nodes, i, "type_identifier"@, "generic_type"@)
}

/// The second type named in the impl at node `i`.
pub open spec fn second_type(nodes: Seq<NodeView>, i: int) -> Option<int> {
    match first_type(nodes, i) {
        Some(t) => next_child_of_kinds(nodes, i, "type_identifier"@, "generic_type"@, t),
        None => None,
    }
}

/// Whether the impl at node `i` implements a trait: its text holds ` for `
/// and it names two types.
pub open spec fn is_trait_impl(nodes: Seq<NodeView>, source: Seq<u8>, i: int) -> bool {
    has_infix(node_text(nodes, source, i), " for "@) && second_type(nodes, i) is Some
}

/// The type that the impl at node `i` implements: the second type it names
/// where it implements a trait, else the first.
pub open spec fn implemented_type(nodes: Seq<NodeView>, source: Seq<u8>, i: int) -> Option<int> {
    if is_trait_impl(nodes, source, i) {
        second_type(nodes, i)
    } else {
        first_type(nodes, i)
    }
}

/// The impl in whose declaration list node `i` directly stands.
pub open spec fn owner(nodes: Seq<NodeView>, i: int) -> Option<int> {
    match parent_of(nodes, i) {
        Some(body) => if nodes[body].kind == "declaration_list"@ {
            match parent_of(nodes, body) {
                Some(c) => if nodes[c].kind == "impl_item"@ {
                    Some(c)
                } else {
                    None
                },
                None => None,
            }
        } else {
            None
        },
        None => None,
    }
}

/// The identifier of the struct or enum among `types` that the impl at node
/// `c` implements.
pub open spec fn parent_id(
    nodes: Seq<NodeView>,
    source: Seq<u8>,
    types: Seq<SymbolView>,
    c: int,
) -> Option<Seq<char>> {
    match implemented_type(nodes, source, c) {
        Some(t) => id_of_named(
            types,
            node_text(nodes, source, t),
            KindFilter::Two(SymbolKind::Struct, SymbolKind::Enum),
        ),
        None => None,
    }
}

/// The symbols that node `i` contributes: a function for every function
/// item, followed by a method if the item stands directly in an impl; a
/// struct, an enum or a trait for their items.
pub open spec fn symbols_at(
    nodes: Seq<NodeView>,
    source: Seq<u8>,
    path: Seq<char>,
    types: Seq<SymbolView>,
    i: int,
) -> Seq<SymbolView> {
    if nodes[i].kind == "function_item"@ {
        one(function(nodes, source, path, i, SymbolKind::Function, None)) + match owner(nodes, i) {
            Some(c) => one(
                function(
                    nodes,
                    source,
                    path,
                    i,
                    SymbolKind::Method,
                    parent_id(nodes, source, types, c),
                ),
            ),
            None => Seq::empty(),
        }
    } else if nodes[i].kind == "struct_item"@ {
        one(type_symbol(nodes, source, path, i, SymbolKind::Struct))
    } else if nodes[i].kind == "enum_item"@ {
        one(type_symbol(nodes, source, path, i, SymbolKind::Enum))
    } else if nodes[i].kind == "trait_item"@ {
        one(type_symbol(nodes, source, path, i, SymbolKind::Trait))
    } else {
        Seq::empty()
    }
}

/// The text of the first child of node `c`; empty if it has none.
pub open spec fn head_text(nodes: Seq<NodeView>, source: Seq<u8>, c: int) -> Seq<char> {
    match child_at(nodes, c, 0) {
        Some(h) => node_text(nodes, source, h),
        None => Seq::empty(),
    }
}

/// The names among the first `k` nodes of a use list: its identifiers and
/// scoped identifiers.
pub open spec fn listed_upto(nodes: Seq<NodeView>, source: Seq<u8>, list: Seq<int>, k: int) -> Seq<
    Seq<char>,
>
    decreases k,
{
    if k <= 0 || k > list.len() {
        Seq::empty()
    } else if nodes[list[k - 1]].kind == "identifier"@ || nodes[list[k - 1]].kind
        == "scoped_identifier"@ {
        listed_upto(nodes, source, list, k - 1).push(node_text(nodes, source, list[k - 1]))
    } else {
        listed_upto(nodes, source, list, k - 1)
    }
}

/// The target of the use clause at node `c`, by the clause's shape.
pub open spec fn use_target(nodes: Seq<NodeView>, source: Seq<u8>, c: int) -> Seq<char> {
    if nodes[c].kind == "use_as_clause"@ {
        head_text(nodes, source, c)
    } else if nodes[c].kind == "scoped_use_list"@ {
        match child_of_kind(nodes, c, "scoped_identifier"@) {
            Some(p) => node_text(nodes, source, p),
            None => match child_of_kind(nodes, c, "identifier"@) {
                Some(p) => node_text(nodes, source, p),
                None => Seq::empty(),
            },
        }
    } else if nodes[c].kind == "use_wildcard"@ {
        head_text(nodes, source, c) + "::*"@
    } else {
        node_text(nodes, source, c)
    }
}

/// The items of the use clause at node `c`: the names of its list, if it has
/// one.
pub open spec fn use_items(nodes: Seq<NodeView>, source: Seq<u8>, c: int) -> Seq<Seq<char>> {
    if nodes[c].kind == "scoped_use_list"@ {
        match child_of_kind(nodes, c, "use_list"@) {
            Some(l) => listed_upto(
                nodes,
                source,
                children_of(nodes, l),
                children_of(nodes, l).len() as int,
            ),
            None => Seq::empty(),
        }
    } else {
        Seq::empty()
    }
}

/// The clause of the use declaration at node `i`: the child after its `use`
/// keyword.
pub open spec fn use_clause(nodes: Seq<NodeView>, i: int) -> Option<int> {
    match child_of_kind(nodes, i, "use"@) {
        Some(u) => next_child(nodes, i, u),
        None => None,
    }
}

/// The imports that node `i` contributes in a pass: use declarations in pass
/// 0, `extern crate` declarations in pass 1.
pub open spec fn imports_at(
    nodes: Seq<NodeView>,
    source: Seq<u8>,
    path: Seq<char>,
    pass: int,
    i: int,
) -> Seq<ImportView> {
    if pass == 0 && nodes[i].kind == "use_declaration"@ {
        match use_clause(nodes, i) {
            Some(c) => seq![
                ImportView {
                    source_file: path,
                    target: use_target(nodes, source, c),
                    alias: None,
                    items: use_items(nodes, source, c),
                    line: line_of(nodes[i].start_row),
                },
            ],
            None => Seq::empty(),
        }
    } else if pass == 1 && nodes[i].kind == "extern_crate_declaration"@ {
        match child_of_kind(nodes, i, "identifier"@) {
            Some(n) => seq![
                ImportView {
                    source_file: path,
                    target: node_text(nodes, source, n),
                    alias: None,
                    items: Seq::empty(),
                    line: line_of(nodes[i].start_row),
                },
            ],
            None => Seq::empty(),
        }
    } else {
        Seq::empty()
    }
}

/// The name that the call at node `i` calls: an identifier, the field of a
/// field expression, or a whole scoped identifier.
pub open spec fn callee_at(nodes: Seq<NodeView>, source: Seq<u8>, i: int) -> Option<Seq<char>> {
    if nodes[i].kind == "call_expression"@ {
        match child_at(nodes, i, 0) {
            Some(f) => if nodes[f].kind == "identifier"@ || nodes[f].kind == "scoped_identifier"@ {
                Some(node_text(nodes, source, f))
            } else if nodes[f].kind == "field_expression"@ {
                match child_of_kind(nodes, f, "field_identifier"@) {
                    Some(n) => Some(node_text(nodes, source, n)),
                    None => None,
                }
            } else {
                None
            },
            None => None,
        }
    } else {
        None
    }
}

/// The inheritance records that node `i` contributes: for an impl of a trait
/// whose implemented type is a struct or an enum among `symbols`, one from
/// that symbol to the trait.
pub open spec fn inheritance_at(
    nodes: Seq<NodeView>,
    source: Seq<u8>,
    symbols: Seq<SymbolView>,
    i: int,
) -> Seq<InheritanceView> {
    if nodes[i].kind == "impl_item"@ && is_trait_impl(nodes, source, i) {
        match id_of_named(
            symbols,
            node_text(nodes, source, second_type(nodes, i)->0),
            KindFilter::Two(SymbolKind::Struct, SymbolKind::Enum),
        ) {
            Some(id) => seq![
                InheritanceView {
                    child_id: id,
                    parent_name: node_text(nodes, source, first_type(nodes, i)->0),
                },
            ],
            None => Seq::empty(),
        }
    } else {
        Seq::empty()
    }
}

// ---------------------------------------------------------------------------
// Implementation
// ---------------------------------------------------------------------------
fn read_visibility(tree: &SyntaxTree, source: &[u8], i: usize) -> (r: Visibility)
    requires
        i < tree@.len(),
    ensures
        r == visibility(tree@, source@, i as int),
{
    let text = tree.text(source, i);
    let head = trim_start(text.as_slice());
    if starts_with(head.as_slice(), chars_of("pub").as_slice()) {
        Visibility::Public
    } else {
        Visibility::Private
    }
}

fn read_doc(tree: &SyntaxTree, source: &[u8], i: usize) -> (r: Option<Vec<char>>)
    requires
        i < tree@.len(),
    ensures
        opt_chars(r) == doc(tree@, source@, i as int),
{
    match tree.comment_before(source, i, "line_comment", "block_comment") {
        Some(c) => {
            let a = strip_prefixes(c.as_slice(), chars_of("///").as_slice());
            let b = strip_prefixes(a.as_slice(), chars_of("//!").as_slice());
            Some(trim(b.as_slice()))
        },
        None => None,
    }
}

fn read_function(
    tree: &SyntaxTree,
    source: &[u8],
    path: &str,
    i: usize,
    kind: SymbolKind,
    parent: Option<String>,
) -> (r: Option<Symbol>)
    requires
        i < tree@.len(),
    ensures
        opt_symbol(r) == function(
            tree@,
            source@,
            path@,
            i as int,
            kind,
            crate::model::opt_text(parent),
        ),
        r is Some ==> symbol_fits(r->0@, path@),
{
    match tree.find_child(i, "identifier") {
        Some(n) => {
            let name = tree.text(source, n);
            let sig = signature_to_brace(&tree.slice(source, i));
            let marked = match &sig {
                Some(signature) => contains(signature.as_slice(), chars_of("async fn").as_slice()),
                None => false,
            };
            let doc = read_doc(tree, source, i);
            Some(
                build_symbol(
                    path,
                    &name,
                    kind,
                    tree.lines(i),
                    &sig,
                    read_visibility(tree, source, i),
                    marked,
                    &doc,
                    Language::Rust,
                    parent,
                ),
            )
        },
        None => None,
    }
}

fn read_type(tree: &SyntaxTree, source: &[u8], path: &str, i: usize, kind: SymbolKind) -> (r:
    Option<Symbol>)
    requires
        i < tree@.len(),
    ensures
        opt_symbol(r) == type_symbol(tree@, source@, path@, i as int, kind),
        r is Some ==> symbol_fits(r->0@, path@),
{
    match tree.find_child(i, "type_identifier") {
        Some(n) => {
            let name = tree.text(source, n);
            let sig = signature_line(&tree.slice(source, i));
            let doc = read_doc(tree, source, i);
            Some(
                build_symbol(
                    path,
                    &name,
                    kind,
                    tree.lines(i),
                    &sig,
                    read_visibility(tree, source, i),
                    false,
                    &doc,
                    Language::Rust,
                    None,
                ),
            )
        },
        None => None,
    }
}

/// Appends the types that node `i` declares.
pub fn emit_types(tree: &SyntaxTree, source: &[u8], path: &str, i: usize, out: &mut Vec<Symbol>)
    requires
        i < tree@.len(),
    ensures
        final(out).deep_view() == old(out).deep_view() + types_at(
            tree@,
            source@,
            path@,
            i as int,
        ),
{
    if tree.kind_is(i, "struct_item") {
        push_one(out, read_type(tree, source, path, i, SymbolKind::Struct), Ghost(path@));
    } else if tree.kind_is(i, "enum_item") {
        push_one(out, read_type(tree, source, path, i, SymbolKind::Enum), Ghost(path@));
    } else {
        assert(out.deep_view() == old(out).deep_view() + Seq::<SymbolView>::empty());
    }
}

fn find_types(tree: &SyntaxTree, i: usize) -> (r: (Option<usize>, Option<usize>))
    requires
        i < tree@.len(),
    ensures
        match r.0 {
            Some(t) => first_type(tree@, i as int) == Some(t as int) && t < tree@.len(),
            None => first_type(tree@, i as int) is None,
        },
        match r.1 {
            Some(t) => second_type(tree@, i as int) == Some(t as int) && t < tree@.len(),
            None => second_type(tree@, i as int) is None,
        },
{
    match tree.find_child_of(i, "type_identifier", "generic_type") {
        Some(t) => (Some(t), tree.find_next_child_of(i, "type_identifier", "generic_type", t)),
        None => (None, None),
    }
}

fn find_trait_impl(tree: &SyntaxTree, source: &[u8], i: usize) -> (r: Option<(usize, usize)>)
    requires
        i < tree@.len(),
    ensures
        match r {
            Some((a, b)) => is_trait_impl(tree@, source@, i as int) && first_type(tree@, i as int)
                == Some(a as int) && second_type(tree@, i as int) == Some(b as int) && a
                < tree@.len() && b < tree@.len(),
            None => !is_trait_impl(tree@, source@, i as int),
        },
{
    let text = tree.text(source, i);
    if contains(text.as_slice(), chars_of(" for ").as_slice()) {
        match find_types(tree, i) {
            (Some(a), Some(b)) => Some((a, b)),
            _ => None,
        }
    } else {
        None
    }
}

fn find_implemented_type(tree: &SyntaxTree, source: &[u8], i: usize) -> (r: Option<usize>)
    requires
        i < tree@.len(),
    ensures
        match r {
            Some(t) => implemented_type(tree@, source@, i as int) == Some(t as int) && t
                < tree@.len(),
            None => implemented_type(tree@, source@, i as int) is None,
        },
{
    match find_trait_impl(tree, source, i) {
        Some((_, b)) => Some(b),
        None => find_types(tree, i).0,
    }
}

fn find_owner(tree: &SyntaxTree, i: usize) -> (r: Option<usize>)
    requires
        i < tree@.len(),
    ensures
        match r {
            Some(c) => owner(tree@, i as int) == Some(c as int) && c < tree@.len(),
            None => owner(tree@, i as int) is None,
        },
{
    match tree.parent(i) {
        Some(body) => {
            if tree.kind_is(body, "declaration_list") {
                match tree.parent(body) {
                    Some(c) => if tree.kind_is(c, "impl_item") {
                        Some(c)
                    } else {
                        None
                    },
                    None => None,
                }
            } else {
                None
            }
        },
        None => None,
    }
}

fn find_parent_id(tree: &SyntaxTree, source: &[u8], types: &Vec<Symbol>, c: usize) -> (r: Option<
    String,
>)
    requires
        c < tree@.len(),
    ensures
        crate::model::opt_text(r) == parent_id(tree@, source@, types.deep_view(), c as int),
{
    match find_implemented_type(tree, source, c) {
        Some(t) => {
            let name = tree.text(source, t);
            find_symbol_id(types, &name, KindFilter::Two(SymbolKind::Struct, SymbolKind::Enum))
        },
        None => None,
    }
}

/// Appends the symbols that node `i` contributes.
pub fn emit_symbols(
    tree: &SyntaxTree,
    source: &[u8],
    path: &str,
    types: &Vec<Symbol>,
    i: usize,
    out: &mut Vec<Symbol>,
)
    requires
        i < tree@.len(),
    ensures
        final(out).deep_view() == old(out).deep_view() + symbols_at(
            tree@,
            source@,
            path@,
            types.deep_view(),
            i as int,
        ),
        all_valid(old(out).deep_view(), path@) ==> all_valid(final(out).deep_view(), path@),
{
    let ghost before = out.deep_view();
    if tree.kind_is(i, "function_item") {
        push_one(out, read_function(tree, source, path, i, SymbolKind::Function, None), Ghost(path@));
        let ghost middle = out.deep_view();
        match find_owner(tree, i) {
            Some(c) => {
                let parent = find_parent_id(tree, source, types, c);
                push_one(out, read_function(tree, source, path, i, SymbolKind::Method, parent), Ghost(path@));
            },
            None => {
                assert(out.deep_view() == middle + Seq::<SymbolView>::empty());
            },
        }
        assert(out.deep_view() == before + symbols_at(
            tree@,
            source@,
            path@,
            types.deep_view(),
            i as int,
        ));
    } else if tree.kind_is(i, "struct_item") {
        push_one(out, read_type(tree, source, path, i, SymbolKind::Struct), Ghost(path@));
    } else if tree.kind_is(i, "enum_item") {
        push_one(out, read_type(tree, source, path, i, SymbolKind::Enum), Ghost(path@));
    } else if tree.kind_is(i, "trait_item") {
        push_one(out, read_type(tree, source, path, i, SymbolKind::Trait), Ghost(path@));
    } else {
        assert(out.deep_view() == before + Seq::<SymbolView>::empty());
    }
}

fn read_head_text(tree: &SyntaxTree, source: &[u8], c: usize) -> (r: Vec<char>)
    requires
        c < tree@.len(),
    ensures
        r@ == head_text(tree@, source@, c as int),
{
    match tree.child(c, 0) {
        Some(h) => tree.text(source, h),
        None => Vec::new(),
    }
}

fn read_use_target(tree: &SyntaxTree, source: &[u8], c: usize) -> (r: Vec<char>)
    requires
        c < tree@.len(),
    ensures
        r@ == use_target(tree@, source@, c as int),
{
    if tree.kind_is(c, "use_as_clause") {
        read_head_text(tree, source, c)
    } else if tree.kind_is(c, "scoped_use_list") {
        match tree.find_child(c, "scoped_identifier") {
            Some(p) => tree.text(source, p),
            None => match tree.find_child(c, "identifier") {
                Some(p) => tree.text(source, p),
                None => Vec::new(),
            },
        }
    } else if tree.kind_is(c, "use_wildcard") {
        let mut target = read_head_text(tree, source, c);
        push_str(&mut target, "::*");
        target
    } else {
        tree.text(source, c)
    }
}

fn read_use_items(tree: &SyntaxTree, source: &[u8], c: usize) -> (r: Vec<String>)
    requires
        c < tree@.len(),
    ensures
        texts(r@) == use_items(tree@, source@, c as int),
{
    let mut items: Vec<String> = Vec::new();
    assert(texts(items@) == Seq::<Seq<char>>::empty());
    if tree.kind_is(c, "scoped_use_list") {
        match tree.find_child(c, "use_list") {
            Some(l) => {
                let list = tree.children(l);
                let ghost idx = ints(list@);
                assert(idx.len() == list.len());
                let mut k: usize = 0;
                while k < list.len()
                    invariant
                        k <= list.len(),
                        idx == ints(list@),
                        forall|j: int| 0 <= j < list.len() ==> (#[trigger] list[j]) < tree@.len(),
                        texts(items@) == listed_upto(tree@, source@, idx, k as int),
                    decreases list.len() - k,
                {
                    let n = list[k];
                    assert(idx[k as int] == n);
                    if tree.kind_is(n, "identifier") || tree.kind_is(n, "scoped_identifier") {
                        let item = string_of(tree.text(source, n).as_slice());
                        proof {
                            assert(texts(items@.push(item)) == texts(items@).push(item@));
                        }
                        items.push(item);
                    }
                    k += 1;
                }
            },
            None => {},
        }
    }
    items
}

fn find_use_clause(tree: &SyntaxTree, i: usize) -> (r: Option<usize>)
    requires
        i < tree@.len(),
    ensures
        match r {
            Some(c) => use_clause(tree@, i as int) == Some(c as int) && c < tree@.len(),
            None => use_clause(tree@, i as int) is None,
        },
{
    match tree.find_child(i, "use") {
        Some(u) => tree.find_next_child(i, u),
        None => None,
    }
}

/// Appends the imports that node `i` contributes in a pass.
pub fn emit_imports(
    tree: &SyntaxTree,
    source: &[u8],
    path: &str,
    pass: u8,
    i: usize,
    out: &mut Vec<Import>,
)
    requires
        i < tree@.len(),
    ensures
        final(out).deep_view() == old(out).deep_view() + imports_at(
            tree@,
            source@,
            path@,
            pass as int,
            i as int,
        ),
{
    let ghost before = out.deep_view();
    if pass == 0 && tree.kind_is(i, "use_declaration") {
        match find_use_clause(tree, i) {
            Some(c) => {
                let import = Import {
                    source_file: string_of(chars_of(path).as_slice()),
                    target: string_of(read_use_target(tree, source, c).as_slice()),
                    alias: None,
                    items: read_use_items(tree, source, c),
                    line: tree.lines(i).0,
                };
                proof {
                    assert(out.deep_view().push(import@) == before + seq![import@]);
                }
                out.push(import);
                assert(out.deep_view() == before + seq![import@]);
                return ;
            },
            None => {},
        }
    } else if pass == 1 && tree.kind_is(i, "extern_crate_declaration") {
        match tree.find_child(i, "identifier") {
            Some(n) => {
                let import = Import {
                    source_file: string_of(chars_of(path).as_slice()),
                    target: string_of(tree.text(source, n).as_slice()),
                    alias: None,
                    items: Vec::new(),
                    line: tree.lines(i).0,
                };
                assert(texts(import.items@) == Seq::<Seq<char>>::empty());
                proof {
                    assert(out.deep_view().push(import@) == before + seq![import@]);
                }
                out.push(import);
                assert(out.deep_view() == before + seq![import@]);
                return ;
            },
            None => {},
        }
    }
    assert(out.deep_view() == before + Seq::<ImportView>::empty());
}

/// The name that the call at node `i` calls.
pub fn callee(tree: &SyntaxTree, source: &[u8], i: usize) -> (r: Option<Vec<char>>)
    requires
        i < tree@.len(),
    ensures
        opt_chars(r) == callee_at(tree@, source@, i as int),
{
    if tree.kind_is(i, "call_expression") {
        match tree.child(i, 0) {
            Some(f) => {
                if tree.kind_is(f, "identifier") || tree.kind_is(f, "scoped_identifier") {
                    Some(tree.text(source, f))
                } else if tree.kind_is(f, "field_expression") {
                    match tree.find_child(f, "field_identifier") {
                        Some(n) => Some(tree.text(source, n)),
                        None => None,
                    }
                } else {
                    None
                }
            },
            None => None,
        }
    } else {
        None
    }
}

/// Appends the inheritance records that node `i` contributes.
pub fn emit_inheritance(
    tree: &SyntaxTree,
    source: &[u8],
    symbols: &Vec<Symbol>,
    i: usize,
    out: &mut Vec<Inheritance>,
)
    requires
        i < tree@.len(),
    ensures
        final(out).deep_view() == old(out).deep_view() + inheritance_at(
            tree@,
            source@,
            symbols.deep_view(),
            i as int,
        ),
{
    let ghost before = out.deep_view();
    if tree.kind_is(i, "impl_item") {
        match find_trait_impl(tree, source, i) {
            Some((first, second)) => {
                let name = tree.text(source, second);
                match find_symbol_id(
                    symbols,
                    &name,
                    KindFilter::Two(SymbolKind::Struct, SymbolKind::Enum),
                ) {
                    Some(id) => {
                        let record = Inheritance {
                            child_id: id,
                            parent_name: string_of(tree.text(source, first).as_slice()),
                        };
                        proof {
                            assert(out.deep_view().push(record@) == before + seq![record@]);
                        }
                        out.push(record);
                        assert(out.deep_view() == before + seq![record@]);
                        return ;
                    },
                    None => {},
                }
            },
            None => {},
        }
    }
    assert(out.deep_view() == before + Seq::<InheritanceView>::empty());
}

} // verus!
