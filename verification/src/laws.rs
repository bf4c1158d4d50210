//! Laws that relate the operations of the library.

use crate::crawler::selected;
use crate::crawler::selected_upto;
use crate::crawler::source_file_of;
use crate::crawler::SourceFileView;
use crate::crawler::WalkEntryView;
use crate::extractor::calls;
use crate::extractor::calls_at;
use crate::extractor::calls_upto;
use crate::extractor::inheritance;
use crate::extractor::inheritance_at;
use crate::extractor::inheritance_upto;
use crate::extractor::symbols;
use crate::extractor::symbols_at;
use crate::extractor::symbols_upto;
use crate::language::Language;
use crate::languages::common::bases_upto;
use crate::languages::common::callers_upto;
use crate::languages::common::encloses;
use crate::languages::common::id_of_named;
use crate::languages::common::kind_in;
use crate::languages::common::lemma_symbol_named_member;
use crate::languages::common::KindFilter;
use crate::languages::cpp;
use crate::languages::go;
use crate::languages::javascript;
use crate::languages::python;
use crate::languages::rust;
use crate::model::SymbolKind;
use crate::model::SymbolView;
use crate::syntax::lemma_nearest_before_bounds;
use crate::syntax::line_of;
use crate::syntax::well_formed;
use crate::syntax::parent_of;
use crate::syntax::NodeView;
use vstd::prelude::*;

verus! {

// ---------------------------------------------------------------------------
// Symbols and the nodes that contribute them
// ---------------------------------------------------------------------------
/// Every symbol of a file is contributed by one of its nodes.
pub proof fn lemma_symbol_has_origin(
    language: Language,
    nodes: Seq<NodeView>,
    source: Seq<u8>,
    path: Seq<char>,
    n: int,
    k: int,
) -> (i: int)
    requires
        0 <= n,
        0 <= k < symbols_upto(language, nodes, source, path, n).len(),
    ensures
        0 <= i < n,
        symbols_at(language, nodes, source, path, i).contains(
            symbols_upto(language, nodes, source, path, n)[k],
        ),
    decreases n,
{
    let before = symbols_upto(language, nodes, source, path, n - 1);
    let here = symbols_at(language, nodes, source, path, n - 1);
    if k < before.len() {
        assert((before + here)[k] == before[k]);
        lemma_symbol_has_origin(language, nodes, source, path, n - 1, k)
    } else {
        assert((before + here)[k] == here[k - before.len()]);
        n - 1
    }
}

/// Every symbol that a node contributes is a symbol of the file.
pub proof fn lemma_contribution_is_kept(
    language: Language,
    nodes: Seq<NodeView>,
    source: Seq<u8>,
    path: Seq<char>,
    n: int,
    i: int,
    s: SymbolView,
)
    requires
        0 <= i < n,
        symbols_at(language, nodes, source, path, i).contains(s),
    ensures
        symbols_upto(language, nodes, source, path, n).contains(s),
    decreases n,
{
    let before = symbols_upto(language, nodes, source, path, n - 1);
    let here = symbols_at(language, nodes, source, path, n - 1);
    if i == n - 1 {
        let j = choose|j: int| 0 <= j < here.len() && here[j] == s;
        assert((before + here)[before.len() + j] == s);
    } else {
        lemma_contribution_is_kept(language, nodes, source, path, n - 1, i, s);
        let j = choose|j: int| 0 <= j < before.len() && before[j] == s;
        assert((before + here)[j] == s);
    }
}

proof fn lemma_parent_bounds(nodes: Seq<NodeView>, i: int)
    requires
        0 <= i < nodes.len(),
    ensures
        parent_of(nodes, i) is Some ==> 0 <= parent_of(nodes, i)->0 < i,
{
    if nodes[i].depth > 0 {
        lemma_nearest_before_bounds(nodes, (nodes[i].depth - 1) as nat, i);
    }
}

proof fn reveal_kinds()
    ensures
        "function_definition"@.len() == 19,
        "class_definition"@.len() == 16,
        "function_declaration"@.len() == 20,
        "variable_declarator"@.len() == 19,
        "class_declaration"@.len() == 17,
        "declaration"@.len() == 11,
        "field_declaration"@.len() == 17,
        "class_specifier"@.len() == 15,
        "struct_specifier"@.len() == 16,
{
    reveal_strlit("function_definition");
    reveal_strlit("class_definition");
    reveal_strlit("function_declaration");
    reveal_strlit("variable_declarator");
    reveal_strlit("class_declaration");
    reveal_strlit("declaration");
    reveal_strlit("field_declaration");
    reveal_strlit("class_specifier");
    reveal_strlit("struct_specifier");
}

/// The languages whose extractors attach every method to a class.
pub open spec fn supports_classes(language: Language) -> bool {
    language == Language::Python || language == Language::JavaScript || language
        == Language::TypeScript || language == Language::Cpp
}

/// Whether a symbol can be the parent of a method.
pub open spec fn can_own_methods(s: SymbolView) -> bool {
    s.kind == SymbolKind::Class || s.kind == SymbolKind::Struct || s.kind == SymbolKind::Interface
        || s.kind == SymbolKind::Trait
}

/// A method that a node contributes names a parent that another node of
/// the file contributes as a class or a struct.
proof fn lemma_method_origin(
    language: Language,
    nodes: Seq<NodeView>,
    source: Seq<u8>,
    path: Seq<char>,
    i: int,
    m: SymbolView,
) -> (r: (int, SymbolView))
    requires
        supports_classes(language),
        0 <= i < nodes.len(),
        symbols_at(language, nodes, source, path, i).contains(m),
        m.kind == SymbolKind::Method,
    ensures
        0 <= r.0 < nodes.len(),
        symbols_at(language, nodes, source, path, r.0).contains(r.1),
        m.parent_id == Some(r.1.id),
        can_own_methods(r.1),
{
    reveal_kinds();
    let here = symbols_at(language, nodes, source, path, i);
    let j = choose|j: int| 0 <= j < here.len() && here[j] == m;
    assert(here[j] == m);
    match language {
        Language::Python => {
            let c = python::owner(nodes, i)->0;
            lemma_parent_bounds(nodes, i);
            lemma_parent_bounds(nodes, parent_of(nodes, i)->0);
            let class_symbol = python::class(nodes, source, path, c)->0;
            assert(python::symbols_at(nodes, source, path, c) == seq![class_symbol]);
            assert(seq![class_symbol][0] == class_symbol);
            (c, class_symbol)
        },
        Language::JavaScript | Language::TypeScript => {
            let typescript = language == Language::TypeScript;
            let c = javascript::owner(nodes, i)->0;
            lemma_parent_bounds(nodes, i);
            lemma_parent_bounds(nodes, parent_of(nodes, i)->0);
            let class_symbol = javascript::class(nodes, source, path, typescript, c)->0;
            assert(javascript::symbols_at(nodes, source, path, typescript, c)
                == seq![class_symbol]);
            assert(seq![class_symbol][0] == class_symbol);
            (c, class_symbol)
        },
        _ => {
            let body = cpp::enclosing_body(nodes, i)->0;
            lemma_parent_bounds(nodes, i);
            lemma_parent_bounds(nodes, body);
            let c = parent_of(nodes, body)->0;
            let class_symbol = cpp::class(nodes, source, path, c)->0;
            assert(cpp::symbols_at(nodes, source, path, c) == seq![class_symbol]);
            assert(seq![class_symbol][0] == class_symbol);
            (c, class_symbol)
        },
    }
}

/// In a language with classes, every method among the symbols of a file
/// names a parent, and the parent is a class or a struct among the symbols
/// of the same file.
pub proof fn lemma_methods_have_parents(
    language: Language,
    nodes: Seq<NodeView>,
    source: Seq<u8>,
    path: Seq<char>,
    k: int,
)
    requires
        supports_classes(language),
        0 <= k < symbols(language, nodes, source, path).len(),
        symbols(language, nodes, source, path)[k].kind == SymbolKind::Method,
    ensures
        symbols(language, nodes, source, path)[k].parent_id is Some,
        exists|j: int|
            0 <= j < symbols(language, nodes, source, path).len() && (#[trigger] symbols(
                language,
                nodes,
                source,
                path,
            )[j]).id == symbols(language, nodes, source, path)[k].parent_id->0 && can_own_methods(
                symbols(language, nodes, source, path)[j],
            ),
{
    let all = symbols(language, nodes, source, path);
    let n = nodes.len() as int;
    let m = all[k];
    let i = lemma_symbol_has_origin(language, nodes, source, path, n, k);
    let (c, owner) = lemma_method_origin(language, nodes, source, path, i, m);
    lemma_contribution_is_kept(language, nodes, source, path, n, c, owner);
    let j = choose|j: int| 0 <= j < all.len() && all[j] == owner;
    assert(all[j].id == m.parent_id->0 && can_own_methods(all[j]));
}

// ---------------------------------------------------------------------------
// Order of the symbols
// ---------------------------------------------------------------------------
/// Whether the nodes of a tree start in document order: no node starts on a
/// row before that of a node that precedes it.
pub open spec fn rows_ascend(nodes: Seq<NodeView>) -> bool {
    forall|i: int, j: int|
        0 <= i <= j < nodes.len() ==> (#[trigger] nodes[i]).start_row <= (
        #[trigger] nodes[j]).start_row
}

/// The languages in which every symbol starts on the line of the node that
/// contributes it.
pub open spec fn starts_with_its_node(language: Language) -> bool {
    language == Language::Python || language == Language::Rust || language == Language::Go
}

proof fn lemma_starts_with_node(
    language: Language,
    nodes: Seq<NodeView>,
    source: Seq<u8>,
    path: Seq<char>,
    i: int,
    m: int,
)
    requires
        starts_with_its_node(language),
        0 <= m < symbols_at(language, nodes, source, path, i).len(),
    ensures
        symbols_at(language, nodes, source, path, i)[m].start_line == line_of(nodes[i].start_row),
{
}

proof fn lemma_lines_in_order(
    language: Language,
    nodes: Seq<NodeView>,
    source: Seq<u8>,
    path: Seq<char>,
    n: int,
)
    requires
        starts_with_its_node(language),
        well_formed(nodes),
        rows_ascend(nodes),
        0 <= n <= nodes.len(),
    ensures
        forall|a: int, b: int|
            0 <= a <= b < symbols_upto(language, nodes, source, path, n).len() ==> (
            #[trigger] symbols_upto(language, nodes, source, path, n)[a]).start_line <= (
            #[trigger] symbols_upto(language, nodes, source, path, n)[b]).start_line,
        forall|a: int|
            0 <= a < symbols_upto(language, nodes, source, path, n).len() && n > 0 ==> (
            #[trigger] symbols_upto(language, nodes, source, path, n)[a]).start_line <= line_of(
                nodes[n - 1].start_row,
            ),
    decreases n,
{
    if n > 0 {
        lemma_lines_in_order(language, nodes, source, path, n - 1);
        let before = symbols_upto(language, nodes, source, path, n - 1);
        let here = symbols_at(language, nodes, source, path, n - 1);
        let now = symbols_upto(language, nodes, source, path, n);
        let line = line_of(nodes[n - 1].start_row);
        assert forall|a: int| 0 <= a < now.len() implies (#[trigger] now[a]).start_line <= line by {
            if a < before.len() {
                assert(now[a] == before[a]);
                if n - 1 > 0 {
                    assert(nodes[n - 2].start_row <= nodes[n - 1].start_row);
                }
            } else {
                assert(now[a] == here[a - before.len()]);
                lemma_starts_with_node(language, nodes, source, path, n - 1, a - before.len());
            }
        }
        assert forall|a: int, b: int| 0 <= a <= b < now.len() implies (
        #[trigger] now[a]).start_line <= (#[trigger] now[b]).start_line by {
            if b < before.len() {
                assert(now[a] == before[a] && now[b] == before[b]);
            } else {
                assert(now[b] == here[b - before.len()]);
                lemma_starts_with_node(language, nodes, source, path, n - 1, b - before.len());
            }
        }
    }
}

/// In Python, Rust and Go the symbols of a file come in the order of their
/// first lines, if the nodes of its tree start in document order.
pub proof fn lemma_symbols_in_line_order(
    language: Language,
    nodes: Seq<NodeView>,
    source: Seq<u8>,
    path: Seq<char>,
    a: int,
    b: int,
)
    requires
        starts_with_its_node(language),
        well_formed(nodes),
        rows_ascend(nodes),
        0 <= a <= b < symbols(language, nodes, source, path).len(),
    ensures
        symbols(language, nodes, source, path)[a].start_line <= symbols(
            language,
            nodes,
            source,
            path,
        )[b].start_line,
{
    lemma_lines_in_order(language, nodes, source, path, nodes.len() as int);
}

// ---------------------------------------------------------------------------
// Calls and inheritance
// ---------------------------------------------------------------------------
proof fn lemma_caller_exists(
    symbols: Seq<SymbolView>,
    line: u32,
    callee: Seq<char>,
    n: int,
    m: int,
) -> (j: int)
    requires
        0 <= n <= symbols.len(),
        0 <= m < callers_upto(symbols, line, callee, n).len(),
    ensures
        0 <= j < n,
        symbols[j].id == callers_upto(symbols, line, callee, n)[m].caller_id,
        callers_upto(symbols, line, callee, n)[m].call_site_line == line,
        encloses(symbols[j], line),
    decreases n,
{
    let before = callers_upto(symbols, line, callee, n - 1);
    if encloses(symbols[n - 1], line) && m == before.len() {
        n - 1
    } else {
        lemma_caller_exists(symbols, line, callee, n - 1, m)
    }
}

proof fn lemma_call_has_origin(
    language: Language,
    nodes: Seq<NodeView>,
    source: Seq<u8>,
    symbols: Seq<SymbolView>,
    n: int,
    k: int,
) -> (r: (int, int))
    requires
        0 <= n,
        0 <= k < calls_upto(language, nodes, source, symbols, n).len(),
    ensures
        0 <= r.0 < n,
        0 <= r.1 < calls_at(language, nodes, source, symbols, r.0).len(),
        calls_at(language, nodes, source, symbols, r.0)[r.1] == calls_upto(
            language,
            nodes,
            source,
            symbols,
            n,
        )[k],
    decreases n,
{
    let before = calls_upto(language, nodes, source, symbols, n - 1);
    let here = calls_at(language, nodes, source, symbols, n - 1);
    if k < before.len() {
        assert((before + here)[k] == before[k]);
        lemma_call_has_origin(language, nodes, source, symbols, n - 1, k)
    } else {
        assert((before + here)[k] == here[k - before.len()]);
        (n - 1, k - before.len())
    }
}

/// Every call of a file is made by a function or a method among the symbols
/// that were given, and on a line within it.
pub proof fn lemma_calls_have_callers(
    language: Language,
    nodes: Seq<NodeView>,
    source: Seq<u8>,
    symbols: Seq<SymbolView>,
    k: int,
)
    requires
        0 <= k < calls(language, nodes, source, symbols).len(),
    ensures
        exists|j: int|
            0 <= j < symbols.len() && (#[trigger] symbols[j]).id == calls(
                language,
                nodes,
                source,
                symbols,
            )[k].caller_id && encloses(
                symbols[j],
                calls(language, nodes, source, symbols)[k].call_site_line,
            ),
{
    let (i, m) = lemma_call_has_origin(language, nodes, source, symbols, nodes.len() as int, k);
    let name = crate::extractor::callee_at(language, nodes, source, i)->0;
    let line = crate::syntax::line_of(nodes[i].start_row);
    let j = lemma_caller_exists(symbols, line, name, symbols.len() as int, m);
    assert(symbols[j].id == calls(language, nodes, source, symbols)[k].caller_id);
}

/// Whether a symbol can be the child of an inheritance.
pub open spec fn can_inherit(s: SymbolView) -> bool {
    s.kind == SymbolKind::Class || s.kind == SymbolKind::Struct || s.kind == SymbolKind::Interface
        || s.kind == SymbolKind::Trait || s.kind == SymbolKind::Enum
}

/// Whether an identifier is that of a symbol of the list that can be the
/// child of an inheritance.
pub open spec fn names_heir(symbols: Seq<SymbolView>, id: Seq<char>) -> bool {
    exists|j: int| 0 <= j < symbols.len() && (#[trigger] symbols[j]).id == id && can_inherit(symbols[j])
}

proof fn lemma_named_is_heir(symbols: Seq<SymbolView>, name: Seq<char>, filter: KindFilter)
    requires
        id_of_named(symbols, name, filter) is Some,
        forall|kind: SymbolKind|
            kind_in(filter, kind) ==> kind == SymbolKind::Class || kind == SymbolKind::Struct
                || kind == SymbolKind::Interface || kind == SymbolKind::Trait || kind
                == SymbolKind::Enum,
    ensures
        names_heir(symbols, id_of_named(symbols, name, filter)->0),
{
    lemma_symbol_named_member(symbols, name, filter, 0);
    let found = crate::languages::common::symbol_named(symbols, name, filter, 0)->0;
    let j = choose|j: int| 0 <= j < symbols.len() && symbols[j] == found;
    assert(symbols[j].id == id_of_named(symbols, name, filter)->0 && can_inherit(symbols[j]));
}

proof fn lemma_bases_child(
    nodes: Seq<NodeView>,
    source: Seq<u8>,
    id: Seq<char>,
    list: Seq<int>,
    kind_a: Seq<char>,
    kind_b: Seq<char>,
    n: int,
    m: int,
)
    requires
        0 <= m < bases_upto(nodes, source, id, list, kind_a, kind_b, n).len(),
    ensures
        bases_upto(nodes, source, id, list, kind_a, kind_b, n)[m].child_id == id,
    decreases n,
{
    if n <= 0 || n > list.len() {
    } else {
        let before = bases_upto(nodes, source, id, list, kind_a, kind_b, n - 1);
        if m < before.len() {
            lemma_bases_child(nodes, source, id, list, kind_a, kind_b, n - 1, m);
        }
    }
}

proof fn lemma_embedded_child(
    nodes: Seq<NodeView>,
    source: Seq<u8>,
    id: Seq<char>,
    list: Seq<int>,
    fields: bool,
    n: int,
    m: int,
)
    requires
        0 <= m < go::embedded_upto(nodes, source, id, list, fields, n).len(),
    ensures
        go::embedded_upto(nodes, source, id, list, fields, n)[m].child_id == id,
    decreases n,
{
    if n <= 0 || n > list.len() {
    } else {
        let before = go::embedded_upto(nodes, source, id, list, fields, n - 1);
        if m < before.len() {
            lemma_embedded_child(nodes, source, id, list, fields, n - 1, m);
        }
    }
}

proof fn lemma_record_names_heir(
    language: Language,
    nodes: Seq<NodeView>,
    source: Seq<u8>,
    symbols: Seq<SymbolView>,
    i: int,
    m: int,
)
    requires
        0 <= m < inheritance_at(language, nodes, source, symbols, i).len(),
    ensures
        names_heir(symbols, inheritance_at(language, nodes, source, symbols, i)[m].child_id),
{
    let record = inheritance_at(language, nodes, source, symbols, i)[m];
    match language {
        Language::Python => {
            let name = match crate::syntax::child_of_kind(nodes, i, "identifier"@) {
                Some(n) => crate::syntax::node_text(nodes, source, n),
                None => Seq::empty(),
            };
            let filter = KindFilter::One(SymbolKind::Class);
            lemma_named_is_heir(symbols, name, filter);
            let list = crate::syntax::children_of(
                nodes,
                crate::syntax::child_of_kind(nodes, i, "argument_list"@)->0,
            );
            lemma_bases_child(
                nodes,
                source,
                id_of_named(symbols, name, filter)->0,
                list,
                "identifier"@,
                "attribute"@,
                list.len() as int,
                m,
            );
        },
        Language::Rust => {
            let name = crate::syntax::node_text(nodes, source, rust::second_type(nodes, i)->0);
            lemma_named_is_heir(
                symbols,
                name,
                KindFilter::Two(SymbolKind::Struct, SymbolKind::Enum),
            );
        },
        Language::JavaScript | Language::TypeScript => {
            let name = match javascript::class_name_node(nodes, i) {
                Some(n) => crate::syntax::node_text(nodes, source, n),
                None => Seq::empty(),
            };
            lemma_named_is_heir(symbols, name, KindFilter::One(SymbolKind::Class));
        },
        Language::Go => {
            let name = go::declared_name(nodes, source, i);
            let first = go::struct_embedding(nodes, source, symbols, i);
            let second = go::interface_embedding(nodes, source, symbols, i);
            if m < first.len() {
                assert((first + second)[m] == first[m]);
                let filter = KindFilter::One(SymbolKind::Struct);
                lemma_named_is_heir(symbols, name, filter);
                let list = crate::syntax::children_of(
                    nodes,
                    crate::syntax::child_of_kind(
                        nodes,
                        crate::syntax::child_of_kind(nodes, i, "struct_type"@)->0,
                        "field_declaration_list"@,
                    )->0,
                );
                lemma_embedded_child(
                    nodes,
                    source,
                    id_of_named(symbols, name, filter)->0,
                    list,
                    true,
                    list.len() as int,
                    m,
                );
            } else {
                assert((first + second)[m] == second[m - first.len()]);
                let filter = KindFilter::One(SymbolKind::Interface);
                lemma_named_is_heir(symbols, name, filter);
                let list = crate::syntax::children_of(
                    nodes,
                    crate::syntax::child_of_kind(nodes, i, "interface_type"@)->0,
                );
                lemma_embedded_child(
                    nodes,
                    source,
                    id_of_named(symbols, name, filter)->0,
                    list,
                    false,
                    list.len() as int,
                    m - first.len(),
                );
            }
        },
        Language::Cpp => {
            let name = match crate::syntax::child_of_kind(nodes, i, "type_identifier"@) {
                Some(n) => crate::syntax::node_text(nodes, source, n),
                None => Seq::empty(),
            };
            let filter = KindFilter::Two(SymbolKind::Class, SymbolKind::Struct);
            lemma_named_is_heir(symbols, name, filter);
            let list = crate::syntax::children_of(
                nodes,
                crate::syntax::child_of_kind(nodes, i, "base_class_clause"@)->0,
            );
            lemma_bases_child(
                nodes,
                source,
                id_of_named(symbols, name, filter)->0,
                list,
                "type_identifier"@,
                "qualified_identifier"@,
                list.len() as int,
                m,
            );
        },
    }
}

proof fn lemma_inheritance_has_origin(
    language: Language,
    nodes: Seq<NodeView>,
    source: Seq<u8>,
    symbols: Seq<SymbolView>,
    n: int,
    k: int,
) -> (r: (int, int))
    requires
        0 <= n,
        0 <= k < inheritance_upto(language, nodes, source, symbols, n).len(),
    ensures
        0 <= r.0 < n,
        0 <= r.1 < inheritance_at(language, nodes, source, symbols, r.0).len(),
        inheritance_at(language, nodes, source, symbols, r.0)[r.1] == inheritance_upto(
            language,
            nodes,
            source,
            symbols,
            n,
        )[k],
    decreases n,
{
    let before = inheritance_upto(language, nodes, source, symbols, n - 1);
    let here = inheritance_at(language, nodes, source, symbols, n - 1);
    if k < before.len() {
        assert((before + here)[k] == before[k]);
        lemma_inheritance_has_origin(language, nodes, source, symbols, n - 1, k)
    } else {
        assert((before + here)[k] == here[k - before.len()]);
        (n - 1, k - before.len())
    }
}

/// The child of every inheritance of a file is a class, a struct, an
/// interface, a trait or an enum among the symbols that were given.
pub proof fn lemma_inheritance_has_child(
    language: Language,
    nodes: Seq<NodeView>,
    source: Seq<u8>,
    symbols: Seq<SymbolView>,
    k: int,
)
    requires
        0 <= k < inheritance(language, nodes, source, symbols).len(),
    ensures
        names_heir(symbols, inheritance(language, nodes, source, symbols)[k].child_id),
{
    let (i, m) = lemma_inheritance_has_origin(
        language,
        nodes,
        source,
        symbols,
        nodes.len() as int,
        k,
    );
    lemma_record_names_heir(language, nodes, source, symbols, i, m);
}

// ---------------------------------------------------------------------------
// Crawling
// ---------------------------------------------------------------------------
/// A file is selected from the first `n` entries of a walk iff one of them
/// stands for it.
pub proof fn lemma_selected_iff_entry(
    entries: Seq<WalkEntryView>,
    filter: Option<Vec<Language>>,
    n: int,
    file: SourceFileView,
)
    requires
        0 <= n <= entries.len(),
    ensures
        selected_upto(entries, filter, n).contains(file) <==> exists|i: int|
            0 <= i < n && #[trigger] source_file_of(entries[i], filter) == Some(file),
    decreases n,
{
    if n > 0 {
        lemma_selected_iff_entry(entries, filter, n - 1, file);
        let before = selected_upto(entries, filter, n - 1);
        let now = selected_upto(entries, filter, n);
        if now.contains(file) {
            let j = choose|j: int| 0 <= j < now.len() && now[j] == file;
            if j < before.len() {
                assert(before[j] == file);
                assert(before.contains(file));
            } else {
                assert(source_file_of(entries[n - 1], filter) == Some(file));
            }
        }
        if exists|i: int| 0 <= i < n && #[trigger] source_file_of(entries[i], filter) == Some(file) {
            let i = choose|i: int|
                0 <= i < n && #[trigger] source_file_of(entries[i], filter) == Some(file);
            if i < n - 1 {
                assert(before.contains(file));
                let j = choose|j: int| 0 <= j < before.len() && before[j] == file;
                assert(now[j] == file);
            } else {
                assert(now[now.len() - 1] == file);
            }
        }
    }
}

/// Crawling is independent of the order of the walk: two walks that come
/// upon the same entries, in whatever order and however often, select the
/// same set of files.
pub proof fn lemma_crawl_ignores_order(
    first: Seq<WalkEntryView>,
    second: Seq<WalkEntryView>,
    filter: Option<Vec<Language>>,
    file: SourceFileView,
)
    requires
        forall|e: WalkEntryView| first.contains(e) <==> second.contains(e),
    ensures
        selected(first, filter).contains(file) <==> selected(second, filter).contains(file),
{
    lemma_selected_iff_entry(first, filter, first.len() as int, file);
    lemma_selected_iff_entry(second, filter, second.len() as int, file);
    if exists|i: int|
        0 <= i < first.len() && #[trigger] source_file_of(first[i], filter) == Some(file) {
        let i = choose|i: int|
            0 <= i < first.len() && #[trigger] source_file_of(first[i], filter) == Some(file);
        assert(first.contains(first[i]));
        let j = choose|j: int| 0 <= j < second.len() && second[j] == first[i];
        assert(source_file_of(second[j], filter) == Some(file));
    }
    if exists|i: int|
        0 <= i < second.len() && #[trigger] source_file_of(second[i], filter) == Some(file) {
        let i = choose|i: int|
            0 <= i < second.len() && #[trigger] source_file_of(second[i], filter) == Some(file);
        assert(second.contains(second[i]));
        let j = choose|j: int| 0 <= j < first.len() && first[j] == second[i];
        assert(source_file_of(first[j], filter) == Some(file));
    }
}

} // verus!
