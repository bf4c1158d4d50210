//! Python language extractor.

use crate::language::Language;
use crate::languages::common::all_valid;
use crate::languages::common::bases;
use crate::languages::common::build_symbol;
use crate::languages::common::find_symbol_id;
use crate::languages::common::id_of_named;
use crate::languages::common::line_signature;
use crate::languages::common::new_symbol;
use crate::languages::common::one;
use crate::languages::common::opt_chars;
use crate::languages::common::opt_symbol;
use crate::languages::common::push_bases;
use crate::languages::common::push_one;
use crate::languages::common::signature_line;
use crate::languages::common::symbol_fits;
use crate::languages::common::KindFilter;
use crate::model::texts;
use crate::model::Import;
use crate::model::ImportView;
use crate::model::Inheritance;
use crate::model::InheritanceView;
use crate::model::Symbol;
use crate::model::SymbolKind;
use crate::model::SymbolView;
use crate::model::Visibility;
use crate::syntax::child_at;
use crate::syntax::child_of_kind;
use crate::syntax::child_of_kinds;
use crate::syntax::children_of;
use crate::syntax::ints;
use crate::syntax::last_child_of_kind;
use crate::syntax::line_of;
use crate::syntax::node_slice;
use crate::syntax::node_text;
use crate::syntax::parent_has_kind;
use crate::syntax::parent_of;
use crate::syntax::prev_sibling_of;
use crate::syntax::NodeView;
use crate::syntax::SyntaxTree;
use crate::text::chars_of;
use crate::text::ends_with;
use crate::text::has_prefix;
use crate::text::has_suffix;
use crate::text::starts_with;
use crate::text::string_of;
use crate::text::strip_prefixes;
use crate::text::strip_suffixes;
use crate::text::strip_trailing;
use crate::text::trim;
use crate::text::trimmed;
use crate::text::without_prefixes;
use crate::text::without_suffixes;
use crate::text::without_trailing;
use vstd::prelude::*;

verus! {

pub struct PythonExtractor;

// ---------------------------------------------------------------------------
// Specification
// ---------------------------------------------------------------------------
/// Visibility by naming convention: a name with two leading underscores is
/// private, unless it also ends in two, which makes it public; a name with
/// exactly one leading underscore is protected; every other name is public.
pub open spec fn visibility(name: Seq<char>) -> Visibility {
    if has_prefix(name, "__"@) {
        if has_suffix(name, "__"@) {
            Visibility::Public
        } else {
            Visibility::Private
        }
    } else if has_prefix(name, "_"@) {
        Visibility::Protected
    } else {
        Visibility::Public
    }
}

/// The first line of a definition, without the colons at its end.
pub open spec fn signature(nodes: Seq<NodeView>, source: Seq<u8>, i: int) -> Option<Seq<char>> {
    match line_signature(node_slice(nodes, source, i)) {
        Some(line) => Some(without_trailing(line, ':')),
        None => None,
    }
}

/// A string literal without its triple quotes and surrounding white space.
pub open spec fn unquoted(text: Seq<char>) -> Seq<char> {
    trimmed(
        without_suffixes(
            without_suffixes(
                without_prefixes(without_prefixes(text, "\"\"\""@), "'''"@),
                "\"\"\""@,
            ),
            "'''"@,
        ),
    )
}

/// The docstring of a definition: the string of the first expression
/// statement of its body.
pub open spec fn docstring(nodes: Seq<NodeView>, source: Seq<u8>, i: int) -> Option<Seq<char>> {
    match child_of_kind(nodes, i, "block"@) {
        Some(body) => match child_of_kind(nodes, body, "expression_statement"@) {
            Some(statement) => match child_of_kind(nodes, statement, "string"@) {
                Some(string) => Some(unquoted(node_text(nodes, source, string))),
                None => None,
            },
            None => None,
        },
        None => None,
    }
}

/// Whether a definition carries the `async` marker: as a token of its own,
/// as the token before it, or through an enclosing async definition.
pub open spec fn is_async(nodes: Seq<NodeView>, i: int) -> bool {
    ||| child_of_kind(nodes, i, "async"@) is Some
    ||| (prev_sibling_of(nodes, i) is Some && nodes[prev_sibling_of(nodes, i)->0].kind == "async"@)
    ||| parent_has_kind(nodes, i, "async_function_definition"@)
}

/// The symbol of the function definition at node `i`, a method if it has a
/// parent.
pub open spec fn function(
    nodes: Seq<NodeView>,
    source: Seq<u8>,
    path: Seq<char>,
    i: int,
    parent: Option<Seq<char>>,
) -> Option<SymbolView> {
    match child_of_kind(nodes, i, "identifier"@) {
        Some(n) => Some(
            new_symbol(
                path,
                node_text(nodes, source, n),
                if parent is Some {
                    SymbolKind::Method
                } else {
                    SymbolKind::Function
                },
                (line_of(nodes[i].start_row), line_of(nodes[i].end_row)),
                signature(nodes, source, i),
                visibility(node_text(nodes, source, n)),
                is_async(nodes, i),
                docstring(nodes, source, i),
                Language::Python,
                parent,
            ),
        ),
        None => None,
    }
}

/// The symbol of the class definition at node `i`.
pub open spec fn class(nodes: Seq<NodeView>, source: Seq<u8>, path: Seq<char>, i: int) -> Option<
    SymbolView,
> {
    match child_of_kind(nodes, i, "identifier"@) {
        Some(n) => Some(
            new_symbol(
                path,
                node_text(nodes, source, n),
                SymbolKind::Class,
                (line_of(nodes[i].start_row), line_of(nodes[i].end_row)),
                signature(nodes, source, i),
                visibility(node_text(nodes, source, n)),
                false,
                docstring(nodes, source, i),
                Language::Python,
                None,
            ),
        ),
        None => None,
    }
}

/// The node of the class in whose body node `i` directly stands.
pub open spec fn owner(nodes: Seq<NodeView>, i: int) -> Option<int> {
    match parent_of(nodes, i) {
        Some(body) => if nodes[body].kind == "block"@ {
            match parent_of(nodes, body) {
                Some(c) => if nodes[c].kind == "class_definition"@ {
                    Some(c)
                } else {
                    None
                },
                None => None,
            }
        } else {
            None
        },
        None => None,
    }
}

/// The class symbol that owns the function at node `i` as a method.
pub open spec fn owning_class(nodes: Seq<NodeView>, source: Seq<u8>, path: Seq<char>, i: int)
    -> Option<SymbolView> {
    match owner(nodes, i) {
        Some(c) => class(nodes, source, path, c),
        None => None,
    }
}

/// The symbols that node `i` contributes: a class for a class definition; for
/// a function definition a method of the class in whose body it directly
/// stands, else a function.
pub open spec fn symbols_at(nodes: Seq<NodeView>, source: Seq<u8>, path: Seq<char>, i: int) -> Seq<
    SymbolView,
> {
    if nodes[i].kind == "function_definition"@ {
        match owning_class(nodes, source, path, i) {
            Some(c) => one(function(nodes, source, path, i, Some(c.id))),
            None => one(function(nodes, source, path, i, None)),
        }
    } else if nodes[i].kind == "class_definition"@ {
        one(class(nodes, source, path, i))
    } else {
        Seq::empty()
    }
}

/// The import of one child of an `import` statement: a dotted name, or a
/// dotted name with its alias.
pub open spec fn plain_import(
    nodes: Seq<NodeView>,
    source: Seq<u8>,
    path: Seq<char>,
    line: u32,
    c: int,
) -> Option<ImportView> {
    if nodes[c].kind == "dotted_name"@ {
        Some(
            ImportView {
                source_file: path,
                target: node_text(nodes, source, c),
                alias: None,
                items: Seq::empty(),
                line,
            },
        )
    } else if nodes[c].kind == "aliased_import"@ {
        match child_of_kind(nodes, c, "dotted_name"@) {
            Some(d) => Some(
                ImportView {
                    source_file: path,
                    target: node_text(nodes, source, d),
                    alias: match child_of_kind(nodes, c, "identifier"@) {
                        Some(a) => Some(node_text(nodes, source, a)),
                        None => None,
                    },
                    items: Seq::empty(),
                    line,
                },
            ),
            None => None,
        }
    } else {
        None
    }
}

/// The imports of the first `k` children of an `import` statement.
pub open spec fn plain_imports_upto(
    nodes: Seq<NodeView>,
    source: Seq<u8>,
    path: Seq<char>,
    line: u32,
    list: Seq<int>,
    k: int,
) -> Seq<ImportView>
    decreases k,
{
    if k <= 0 || k > list.len() {
        Seq::empty()
    } else {
        plain_imports_upto(nodes, source, path, line, list, k - 1) + one(
            plain_import(nodes, source, path, line, list[k - 1]),
        )
    }
}

/// The name that one child of a `from` import brings in.
pub open spec fn imported_item(nodes: Seq<NodeView>, source: Seq<u8>, c: int) -> Option<Seq<char>> {
    if nodes[c].kind == "dotted_name"@ {
        Some(node_text(nodes, source, c))
    } else if nodes[c].kind == "aliased_import"@ {
        match child_of_kind(nodes, c, "dotted_name"@) {
            Some(d) => Some(node_text(nodes, source, d)),
            None => None,
        }
    } else {
        None
    }
}

/// The names that the first `k` children of a `from` import bring in, the
/// children up to the module left out.
pub open spec fn imported_items_upto(
    nodes: Seq<NodeView>,
    source: Seq<u8>,
    list: Seq<int>,
    module: int,
    k: int,
) -> Seq<Seq<char>>
    decreases k,
{
    if k <= 0 || k > list.len() {
        Seq::empty()
    } else if list[k - 1] > module {
        imported_items_upto(nodes, source, list, module, k - 1) + one(
            imported_item(nodes, source, list[k - 1]),
        )
    } else {
        imported_items_upto(nodes, source, list, module, k - 1)
    }
}

/// The import of a `from` statement: its module (a dotted name or a relative
/// import) as target, and the names after it as items.
pub open spec fn from_import(nodes: Seq<NodeView>, source: Seq<u8>, path: Seq<char>, i: int)
    -> ImportView {
    let list = children_of(nodes, i);
    let module = child_of_kinds(nodes, i, "dotted_name"@, "relative_import"@);
    ImportView {
        source_file: path,
        target: match module {
            Some(m) => node_text(nodes, source, m),
            None => Seq::empty(),
        },
        alias: None,
        items: imported_items_upto(
            nodes,
            source,
            list,
            match module {
                Some(m) => m,
                None => -1,
            },
            list.len() as int,
        ),
        line: line_of(nodes[i].start_row),
    }
}

/// The imports that node `i` contributes in a pass: `import` statements in
/// pass 0, `from` imports in pass 1.
pub open spec fn imports_at(
    nodes: Seq<NodeView>,
    source: Seq<u8>,
    path: Seq<char>,
    pass: int,
    i: int,
) -> Seq<ImportView> {
    if pass == 0 && nodes[i].kind == "import_statement"@ {
        plain_imports_upto(
            nodes,
            source,
            path,
            line_of(nodes[i].start_row),
            children_of(nodes, i),
            children_of(nodes, i).len() as int,
        )
    } else if pass == 1 && nodes[i].kind == "import_from_statement"@ {
        seq![from_import(nodes, source, path, i)]
    } else {
        Seq::empty()
    }
}

/// The name that the call at node `i` calls: an identifier, or the last
/// identifier of an attribute access.
pub open spec fn callee_at(nodes: Seq<NodeView>, source: Seq<u8>, i: int) -> Option<Seq<char>> {
    if nodes[i].kind == "call"@ {
        match child_at(nodes, i, 0) {
            Some(f) => if nodes[f].kind == "identifier"@ {
                Some(node_text(nodes, source, f))
            } else if nodes[f].kind == "attribute"@ {
                match last_child_of_kind(nodes, f, "identifier"@) {
                    Some(n) => Some(node_text(nodes, source, n)),
                    None => None,
                }
            } else {
                None
            },
            None => None,
        }
    } else {
        None
    }
}

/// The inheritance records that node `i` contributes: for a class definition
/// whose class symbol is among `symbols`, one for each base that is an
/// identifier or an attribute.
pub open spec fn inheritance_at(
    nodes: Seq<NodeView>,
    source: Seq<u8>,
    symbols: Seq<SymbolView>,
    i: int,
) -> Seq<InheritanceView> {
    if nodes[i].kind == "class_definition"@ {
        match id_of_named(
            symbols,
            match child_of_kind(nodes, i, "identifier"@) {
                Some(n) => node_text(nodes, source, n),
                None => Seq::empty(),
            },
            KindFilter::One(SymbolKind::Class),
        ) {
            Some(id) => match child_of_kind(nodes, i, "argument_list"@) {
                Some(list) => bases(
                    nodes,
                    source,
                    id,
                    children_of(nodes, list),
                    "identifier"@,
                    "attribute"@,
                ),
                None => Seq::empty(),
            },
            None => Seq::empty(),
        }
    } else {
        Seq::empty()
    }
}

// ---------------------------------------------------------------------------
// Implementation
// ---------------------------------------------------------------------------
fn visibility_of(name: &Vec<char>) -> (r: Visibility)
    ensures
        r == visibility(name@),
{
    let two = chars_of("__");
    let single = chars_of("_");
    if starts_with(name.as_slice(), two.as_slice()) {
        if ends_with(name.as_slice(), two.as_slice()) {
            Visibility::Public
        } else {
            Visibility::Private
        }
    } else if starts_with(name.as_slice(), single.as_slice()) {
        Visibility::Protected
    } else {
        Visibility::Public
    }
}

fn read_signature(tree: &SyntaxTree, source: &[u8], i: usize) -> (r: Option<Vec<char>>)
    requires
        i < tree@.len(),
    ensures
        opt_chars(r) == signature(tree@, source@, i as int),
{
    let text = tree.slice(source, i);
    match signature_line(&text) {
        Some(line) => Some(strip_trailing(line.as_slice(), ':')),
        None => None,
    }
}

fn unquote(text: &Vec<char>) -> (r: Vec<char>)
    ensures
        r@ == unquoted(text@),
{
    let double = chars_of("\"\"\"");
    let single = chars_of("'''");
    let a = strip_prefixes(text.as_slice(), double.as_slice());
    let b = strip_prefixes(a.as_slice(), single.as_slice());
    let c = strip_suffixes(b.as_slice(), double.as_slice());
    let d = strip_suffixes(c.as_slice(), single.as_slice());
    trim(d.as_slice())
}

fn read_docstring(tree: &SyntaxTree, source: &[u8], i: usize) -> (r: Option<Vec<char>>)
    requires
        i < tree@.len(),
    ensures
        opt_chars(r) == docstring(tree@, source@, i as int),
{
    match tree.find_child(i, "block") {
        Some(body) => match tree.find_child(body, "expression_statement") {
            Some(statement) => match tree.find_child(statement, "string") {
                Some(string) => {
                    let text = tree.text(source, string);
                    Some(unquote(&text))
                },
                None => None,
            },
            None => None,
        },
        None => None,
    }
}

fn read_is_async(tree: &SyntaxTree, i: usize) -> (r: bool)
    requires
        i < tree@.len(),
    ensures
        r == is_async(tree@, i as int),
{
    if tree.find_child(i, "async").is_some() {
        return true;
    }
    let before = match tree.prev_sibling(i) {
        Some(p) => tree.kind_is(p, "async"),
        None => false,
    };
    before || tree.parent_is(i, "async_function_definition")
}

fn read_function(tree: &SyntaxTree, source: &[u8], path: &str, i: usize, parent: Option<String>)
    -> (r: Option<Symbol>)
    requires
        i < tree@.len(),
    ensures
        opt_symbol(r) == function(
            tree@,
            source@,
            path@,
            i as int,
            crate::model::opt_text(parent),
        ),
        r is Some ==> symbol_fits(r->0@, path@),
{
    match tree.find_child(i, "identifier") {
        Some(n) => {
            let name = tree.text(source, n);
            let kind = if parent.is_some() {
                SymbolKind::Method
            } else {
                SymbolKind::Function
            };
            let sig = read_signature(tree, source, i);
            let doc = read_docstring(tree, source, i);
            Some(
                build_symbol(
                    path,
                    &name,
                    kind,
                    tree.lines(i),
                    &sig,
                    visibility_of(&name),
                    read_is_async(tree, i),
                    &doc,
                    Language::Python,
                    parent,
                ),
            )
        },
        None => None,
    }
}

fn read_class(tree: &SyntaxTree, source: &[u8], path: &str, i: usize) -> (r: Option<Symbol>)
    requires
        i < tree@.len(),
    ensures
        opt_symbol(r) == class(tree@, source@, path@, i as int),
        r is Some ==> symbol_fits(r->0@, path@),
{
    match tree.find_child(i, "identifier") {
        Some(n) => {
            let name = tree.text(source, n);
            let sig = read_signature(tree, source, i);
            let doc = read_docstring(tree, source, i);
            Some(
                build_symbol(
                    path,
                    &name,
                    SymbolKind::Class,
                    tree.lines(i),
                    &sig,
                    visibility_of(&name),
                    false,
                    &doc,
                    Language::Python,
                    None,
                ),
            )
        },
        None => None,
    }
}

fn find_owner(tree: &SyntaxTree, i: usize) -> (r: Option<usize>)
    requires
        i < tree@.len(),
    ensures
        match r {
            Some(c) => owner(tree@, i as int) == Some(c as int) && c < tree@.len(),
            None => owner(tree@, i as int) is None,
        },
{
    match tree.parent(i) {
        Some(body) => {
            if tree.kind_is(body, "block") {
                match tree.parent(body) {
                    Some(c) => if tree.kind_is(c, "class_definition") {
                        Some(c)
                    } else {
                        None
                    },
                    None => None,
                }
            } else {
                None
            }
        },
        None => None,
    }
}

/// Appends the symbols that node `i` contributes.
pub fn emit_symbols(tree: &SyntaxTree, source: &[u8], path: &str, i: usize, out: &mut Vec<Symbol>)
    requires
        i < tree@.len(),
    ensures
        final(out).deep_view() == old(out).deep_view() + symbols_at(
            tree@,
            source@,
            path@,
            i as int,
        ),
        all_valid(old(out).deep_view(), path@) ==> all_valid(final(out).deep_view(), path@),
{
    if tree.kind_is(i, "function_definition") {
        let class_symbol = match find_owner(tree, i) {
            Some(c) => read_class(tree, source, path, c),
            None => None,
        };
        match class_symbol {
            Some(c) => {
                push_one(out, read_function(tree, source, path, i, Some(c.id)), Ghost(path@));
            },
            None => {
                push_one(out, read_function(tree, source, path, i, None), Ghost(path@));
            },
        }
    } else if tree.kind_is(i, "class_definition") {
        push_one(out, read_class(tree, source, path, i), Ghost(path@));
    } else {
        assert(out.deep_view() == old(out).deep_view() + Seq::<SymbolView>::empty());
    }
}

fn read_plain_import(tree: &SyntaxTree, source: &[u8], path: &str, line: u32, c: usize) -> (r:
    Option<Import>)
    requires
        c < tree@.len(),
    ensures
        match r {
            Some(import) => plain_import(tree@, source@, path@, line, c as int) == Some(import@),
            None => plain_import(tree@, source@, path@, line, c as int) is None,
        },
{
    if tree.kind_is(c, "dotted_name") {
        let import = Import {
            source_file: string_of(chars_of(path).as_slice()),
            target: string_of(tree.text(source, c).as_slice()),
            alias: None,
            items: Vec::new(),
            line,
        };
        assert(texts(import.items@) == Seq::<Seq<char>>::empty());
        Some(import)
    } else if tree.kind_is(c, "aliased_import") {
        match tree.find_child(c, "dotted_name") {
            Some(d) => {
                let alias = match tree.find_child(c, "identifier") {
                    Some(a) => Some(string_of(tree.text(source, a).as_slice())),
                    None => None,
                };
                let import = Import {
                    source_file: string_of(chars_of(path).as_slice()),
                    target: string_of(tree.text(source, d).as_slice()),
                    alias,
                    items: Vec::new(),
                    line,
                };
                assert(texts(import.items@) == Seq::<Seq<char>>::empty());
                Some(import)
            },
            None => None,
        }
    } else {
        None
    }
}

fn read_imported_item(tree: &SyntaxTree, source: &[u8], c: usize) -> (r: Option<String>)
    requires
        c < tree@.len(),
    ensures
        crate::model::opt_text(r) == imported_item(tree@, source@, c as int),
{
    if tree.kind_is(c, "dotted_name") {
        Some(string_of(tree.text(source, c).as_slice()))
    } else if tree.kind_is(c, "aliased_import") {
        match tree.find_child(c, "dotted_name") {
            Some(d) => Some(string_of(tree.text(source, d).as_slice())),
            None => None,
        }
    } else {
        None
    }
}

fn read_from_import(tree: &SyntaxTree, source: &[u8], path: &str, i: usize) -> (r: Import)
    requires
        i < tree@.len(),
    ensures
        r@ == from_import(tree@, source@, path@, i as int),
{
    let list = tree.children(i);
    let ghost idx = ints(list@);
    assert(idx.len() == list.len());
    let module = tree.find_child_of(i, "dotted_name", "relative_import");
    let ghost m: int = match module {
        Some(m) => m as int,
        None => -1,
    };
    let target = match module {
        Some(m) => string_of(tree.text(source, m).as_slice()),
        None => String::new(),
    };
    let mut items: Vec<String> = Vec::new();
    let mut k: usize = 0;
    assert(texts(items@) == imported_items_upto(tree@, source@, idx, m, 0));
    while k < list.len()
        invariant
            k <= list.len(),
            idx == ints(list@),
            forall|j: int| 0 <= j < list.len() ==> (#[trigger] list[j]) < tree@.len(),
            m == match module {
                Some(m) => m as int,
                None => -1,
            },
            texts(items@) == imported_items_upto(tree@, source@, idx, m, k as int),
        decreases list.len() - k,
    {
        let c = list[k];
        assert(idx[k as int] == c);
        let after = match module {
            Some(m) => c > m,
            None => true,
        };
        if after {
            match read_imported_item(tree, source, c) {
                Some(item) => {
                    proof {
                        assert(texts(items@.push(item)) == texts(items@).push(item@));
                        assert(texts(items@).push(item@) == texts(items@) + seq![item@]);
                    }
                    items.push(item);
                },
                None => {
                    assert(texts(items@) == texts(items@) + Seq::<Seq<char>>::empty());
                },
            }
        }
        k += 1;
    }
    Import {
        source_file: string_of(chars_of(path).as_slice()),
        target,
        alias: None,
        items,
        line: tree.lines(i).0,
    }
}

/// Appends the imports that node `i` contributes in a pass.
pub fn emit_imports(
    tree: &SyntaxTree,
    source: &[u8],
    path: &str,
    pass: u8,
    i: usize,
    out: &mut Vec<Import>,
)
    requires
        i < tree@.len(),
    ensures
        final(out).deep_view() == old(out).deep_view() + imports_at(
            tree@,
            source@,
            path@,
            pass as int,
            i as int,
        ),
{
    let ghost before = out.deep_view();
    if pass == 0 && tree.kind_is(i, "import_statement") {
        let line = tree.lines(i).0;
        let list = tree.children(i);
        let ghost idx = ints(list@);
        assert(idx.len() == list.len());
        let mut k: usize = 0;
        assert(out.deep_view() == before + plain_imports_upto(
            tree@,
            source@,
            path@,
            line,
            idx,
            0,
        ));
        while k < list.len()
            invariant
                k <= list.len(),
                idx == ints(list@),
                forall|j: int| 0 <= j < list.len() ==> (#[trigger] list[j]) < tree@.len(),
                out.deep_view() == before + plain_imports_upto(
                    tree@,
                    source@,
                    path@,
                    line,
                    idx,
                    k as int,
                ),
            decreases list.len() - k,
        {
            let c = list[k];
            assert(idx[k as int] == c);
            let ghost so_far = plain_imports_upto(tree@, source@, path@, line, idx, k as int);
            match read_plain_import(tree, source, path, line, c) {
                Some(import) => {
                    proof {
                        assert(out.deep_view().push(import@) == before + (so_far + seq![import@]));
                    }
                    out.push(import);
                    assert(out.deep_view() == before + (so_far + seq![import@]));
                },
                None => {
                    assert(out.deep_view() == before + (so_far + Seq::<ImportView>::empty()));
                },
            }
            k += 1;
        }
    } else if pass == 1 && tree.kind_is(i, "import_from_statement") {
        let import = read_from_import(tree, source, path, i);
        proof {
            assert(out.deep_view().push(import@) == before + seq![import@]);
        }
        out.push(import);
        assert(out.deep_view() == before + seq![import@]);
    } else {
        assert(out.deep_view() == before + Seq::<ImportView>::empty());
    }
}

/// The name that the call at node `i` calls.
pub fn callee(tree: &SyntaxTree, source: &[u8], i: usize) -> (r: Option<Vec<char>>)
    requires
        i < tree@.len(),
    ensures
        opt_chars(r) == callee_at(tree@, source@, i as int),
{
    if tree.kind_is(i, "call") {
        match tree.child(i, 0) {
            Some(f) => {
                if tree.kind_is(f, "identifier") {
                    Some(tree.text(source, f))
                } else if tree.kind_is(f, "attribute") {
                    match tree.find_last_child(f, "identifier") {
                        Some(n) => Some(tree.text(source, n)),
                        None => None,
                    }
                } else {
                    None
                }
            },
            None => None,
        }
    } else {
        None
    }
}

/// Appends the inheritance records that node `i` contributes.
pub fn emit_inheritance(
    tree: &SyntaxTree,
    source: &[u8],
    symbols: &Vec<Symbol>,
    i: usize,
    out: &mut Vec<Inheritance>,
)
    requires
        i < tree@.len(),
    ensures
        final(out).deep_view() == old(out).deep_view() + inheritance_at(
            tree@,
            source@,
            symbols.deep_view(),
            i as int,
        ),
{
    let ghost before = out.deep_view();
    if tree.kind_is(i, "class_definition") {
        let name = match tree.find_child(i, "identifier") {
            Some(n) => tree.text(source, n),
            None => Vec::new(),
        };
        match find_symbol_id(symbols, &name, KindFilter::One(SymbolKind::Class)) {
            Some(id) => match tree.find_child(i, "argument_list") {
                Some(list) => {
                    let children = tree.children(list);
                    push_bases(out, tree, source, &id, &children, "identifier", "attribute");
                    return ;
                },
                None => {},
            },
            None => {},
        }
    }
    assert(out.deep_view() == before + Seq::<InheritanceView>::empty());
}

} // verus!
