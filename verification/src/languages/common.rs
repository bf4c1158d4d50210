//! What the six language extractors share: signatures, symbol records,
//! symbol lookup and the callers of a call site.

use crate::language::Language;
use crate::model::symbol_id;
use crate::model::symbol_is_valid;
use crate::model::Call;
use crate::model::CallView;
use crate::model::Inheritance;
use crate::model::InheritanceView;
use crate::model::Symbol;
use crate::model::SymbolKind;
use crate::model::SymbolView;
use crate::model::Visibility;
use crate::syntax::ints;
use crate::syntax::node_text;
use crate::syntax::NodeView;
use crate::syntax::SyntaxTree;
use crate::text::copy_range;
use crate::text::find_char;
use crate::text::first_line;
use crate::text::first_line_of;
use crate::text::index_of;
use crate::text::str_eq;
use crate::text::string_of;
use crate::text::trim;
use crate::text::trimmed;
use vstd::prelude::*;

verus! {

/// The text of an optional character list.
pub open spec fn opt_chars(o: Option<Vec<char>>) -> Option<Seq<char>> {
    match o {
        Some(v) => Some(v@),
        None => None,
    }
}

/// The sequence of what an option holds.
pub open spec fn one<T>(o: Option<T>) -> Seq<T> {
    match o {
        Some(x) => seq![x],
        None => Seq::empty(),
    }
}

/// The signature of a declaration with a body: its text up to the first
/// opening brace, trimmed; without a brace its first line (empty for an
/// empty text). Nothing if the text cannot be read.
pub open spec fn brace_signature(text: Option<Seq<char>>) -> Option<Seq<char>> {
    match text {
        Some(s) => {
            let brace = index_of(s, '{');
            if brace >= 0 {
                Some(trimmed(s.subrange(0, brace)))
            } else {
                match first_line_of(s) {
                    Some(line) => Some(line),
                    None => Some(Seq::empty()),
                }
            }
        },
        None => None,
    }
}

/// The signature of a declaration without a body: the first line of its
/// text. Nothing if the text is empty or cannot be read.
pub open spec fn line_signature(text: Option<Seq<char>>) -> Option<Seq<char>> {
    match text {
        Some(s) => first_line_of(s),
        None => None,
    }
}

/// Computes [`brace_signature`].
pub fn signature_to_brace(text: &Option<Vec<char>>) -> (r: Option<Vec<char>>)
    ensures
        opt_chars(r) == brace_signature(opt_chars(*text)),
{
    match text {
        Some(s) => match find_char(s.as_slice(), '{') {
            Some(brace) => {
                let head = copy_range(s.as_slice(), 0, brace);
                Some(trim(head.as_slice()))
            },
            None => match first_line(s.as_slice()) {
                Some(line) => Some(line),
                None => Some(Vec::new()),
            },
        },
        None => None,
    }
}

/// Computes [`line_signature`].
pub fn signature_line(text: &Option<Vec<char>>) -> (r: Option<Vec<char>>)
    ensures
        opt_chars(r) == line_signature(opt_chars(*text)),
{
    match text {
        Some(s) => first_line(s.as_slice()),
        None => None,
    }
}

/// An optional string of optional characters.
pub fn opt_string(o: &Option<Vec<char>>) -> (r: Option<String>)
    ensures
        crate::model::opt_text(r) == opt_chars(*o),
{
    match o {
        Some(v) => Some(string_of(v.as_slice())),
        None => None,
    }
}

/// The record of a symbol.
pub open spec fn new_symbol(
    path: Seq<char>,
    name: Seq<char>,
    kind: SymbolKind,
    lines: (u32, u32),
    signature: Option<Seq<char>>,
    visibility: Visibility,
    is_async: bool,
    docstring: Option<Seq<char>>,
    language: Language,
    parent_id: Option<Seq<char>>,
) -> SymbolView {
    SymbolView {
        id: symbol_id(path, name, lines.0),
        name,
        kind,
        file_path: path,
        start_line: lines.0,
        end_line: lines.1,
        signature,
        visibility,
        is_async,
        docstring,
        summary: None,
        language,
        parent_id,
    }
}

/// Builds the record of a symbol.
pub fn build_symbol(
    path: &str,
    name: &Vec<char>,
    kind: SymbolKind,
    lines: (u32, u32),
    signature: &Option<Vec<char>>,
    visibility: Visibility,
    is_async: bool,
    docstring: &Option<Vec<char>>,
    language: Language,
    parent_id: Option<String>,
) -> (r: Symbol)
    ensures
        r@ == new_symbol(
            path@,
            name@,
            kind,
            lines,
            opt_chars(*signature),
            visibility,
            is_async,
            opt_chars(*docstring),
            language,
            crate::model::opt_text(parent_id),
        ),
        1 <= lines.0 <= lines.1 ==> symbol_fits(r@, path@),
{
    let name = string_of(name.as_slice());
    Symbol {
        id: Symbol::generate_id(path, name.as_str(), lines.0),
        name,
        kind,
        file_path: string_of(crate::text::chars_of(path).as_slice()),
        start_line: lines.0,
        end_line: lines.1,
        signature: opt_string(signature),
        visibility,
        is_async,
        docstring: opt_string(docstring),
        summary: None,
        language,
        parent_id,
    }
}

/// A choice of symbol kinds.
#[derive(Debug, Clone, Copy, PartialEq, Eq, Structural)]
pub enum KindFilter {
    /// One kind.
    One(SymbolKind),
    /// Either of two kinds.
    Two(SymbolKind, SymbolKind),
}

/// Whether a kind passes a filter.
pub open spec fn kind_in(filter: KindFilter, kind: SymbolKind) -> bool {
    match filter {
        KindFilter::One(a) => kind == a,
        KindFilter::Two(a, b) => kind == a || kind == b,
    }
}

/// Decides [`kind_in`].
pub fn kind_passes(filter: KindFilter, kind: SymbolKind) -> (r: bool)
    ensures
        r == kind_in(filter, kind),
{
    match filter {
        KindFilter::One(a) => kind == a,
        KindFilter::Two(a, b) => kind == a || kind == b,
    }
}

/// The first symbol at or after position `k` with the given name and a kind
/// that passes the filter.
pub open spec fn symbol_named(
    symbols: Seq<SymbolView>,
    name: Seq<char>,
    filter: KindFilter,
    k: int,
) -> Option<SymbolView>
    decreases symbols.len() - k,
{
    if k < 0 || k >= symbols.len() {
        None
    } else if kind_in(filter, symbols[k].kind) && symbols[k].name == name {
        Some(symbols[k])
    } else {
        symbol_named(symbols, name, filter, k + 1)
    }
}

/// The identifier of the first symbol with the given name and a kind that
/// passes the filter.
pub open spec fn id_of_named(symbols: Seq<SymbolView>, name: Seq<char>, filter: KindFilter)
    -> Option<Seq<char>> {
    match symbol_named(symbols, name, filter, 0) {
        Some(s) => Some(s.id),
        None => None,
    }
}

pub proof fn lemma_symbol_named_member(
    symbols: Seq<SymbolView>,
    name: Seq<char>,
    filter: KindFilter,
    k: int,
)
    requires
        0 <= k,
    ensures
        symbol_named(symbols, name, filter, k) is Some ==> symbols.contains(
            symbol_named(symbols, name, filter, k)->0,
        ) && kind_in(filter, symbol_named(symbols, name, filter, k)->0.kind) && symbol_named(
            symbols,
            name,
            filter,
            k,
        )->0.name == name,
    decreases symbols.len() - k,
{
    if k < symbols.len() {
        if kind_in(filter, symbols[k].kind) && symbols[k].name == name {
            assert(symbols[k] == symbol_named(symbols, name, filter, k)->0);
        } else {
            lemma_symbol_named_member(symbols, name, filter, k + 1);
        }
    }
}

/// Finds the identifier of the first symbol with the given name and a kind
/// that passes the filter.
pub fn find_symbol_id(symbols: &Vec<Symbol>, name: &Vec<char>, filter: KindFilter) -> (r: Option<
    String,
>)
    ensures
        crate::model::opt_text(r) == id_of_named(symbols.deep_view(), name@, filter),
{
    let wanted = string_of(name.as_slice());
    let ghost view = symbols.deep_view();
    let mut k: usize = 0;
    while k < symbols.len()
        invariant
            k <= symbols.len(),
            view == symbols.deep_view(),
            wanted@ == name@,
            symbol_named(view, name@, filter, 0) == symbol_named(view, name@, filter, k as int),
        decreases symbols.len() - k,
    {
        assert(view[k as int] == symbols[k as int]@);
        if kind_passes(filter, symbols[k].kind) && str_eq(
            symbols[k].name.as_str(),
            wanted.as_str(),
        ) {
            let id = symbols[k].id.clone();
            assert(symbol_named(view, name@, filter, k as int) == Some(view[k as int]));
            assert(id@ == view[k as int].id);
            return Some(id);
        }
        k += 1;
    }
    None
}

/// Whether a symbol can be the caller of a call on the given line: it is a
/// function or a method and the line lies within it.
pub open spec fn encloses(symbol: SymbolView, line: u32) -> bool {
    (symbol.kind == SymbolKind::Function || symbol.kind == SymbolKind::Method) && symbol.start_line
        <= line <= symbol.end_line
}

/// One call record for each of the first `k` symbols that encloses the line
/// of the call, in the order of the symbols.
pub open spec fn callers_upto(symbols: Seq<SymbolView>, line: u32, callee: Seq<char>, k: int)
    -> Seq<CallView>
    decreases k,
{
    if k <= 0 || k > symbols.len() {
        Seq::empty()
    } else if encloses(symbols[k - 1], line) {
        callers_upto(symbols, line, callee, k - 1).push(
            CallView { caller_id: symbols[k - 1].id, callee_name: callee, call_site_line: line },
        )
    } else {
        callers_upto(symbols, line, callee, k - 1)
    }
}

/// One call record for each symbol that encloses the line of the call.
pub open spec fn callers(symbols: Seq<SymbolView>, line: u32, callee: Seq<char>) -> Seq<CallView> {
    callers_upto(symbols, line, callee, symbols.len() as int)
}

/// Appends one call record for each symbol that encloses the line.
pub fn push_callers(out: &mut Vec<Call>, symbols: &Vec<Symbol>, line: u32, callee: &Vec<char>)
    ensures
        final(out).deep_view() == old(out).deep_view() + callers(
            symbols.deep_view(),
            line,
            callee@,
        ),
{
    let ghost view = symbols.deep_view();
    let ghost before = out.deep_view();
    let mut k: usize = 0;
    assert(out.deep_view() == before + callers_upto(view, line, callee@, 0));
    while k < symbols.len()
        invariant
            k <= symbols.len(),
            view == symbols.deep_view(),
            out.deep_view() == before + callers_upto(view, line, callee@, k as int),
        decreases symbols.len() - k,
    {
        let s = &symbols[k];
        assert(view[k as int] == s@);
        if (s.kind == SymbolKind::Function || s.kind == SymbolKind::Method) && s.start_line <= line
            && line <= s.end_line {
            let call = Call {
                caller_id: s.id.clone(),
                callee_name: string_of(callee.as_slice()),
                call_site_line: line,
            };
            proof {
                assert(out.deep_view().push(call@) == before + callers_upto(
                    view,
                    line,
                    callee@,
                    k + 1,
                ));
            }
            out.push(call);
            assert(out.deep_view() == before + callers_upto(view, line, callee@, k + 1));
        }
        k += 1;
    }
}

/// Appends a symbol.
pub(crate) fn push_symbol(out: &mut Vec<Symbol>, symbol: Symbol, Ghost(path): Ghost<Seq<char>>)
    ensures
        final(out).deep_view() == old(out).deep_view().push(symbol@),
        final(out).deep_view() == old(out).deep_view() + seq![symbol@],
        all_valid(old(out).deep_view(), path) && symbol_fits(symbol@, path) ==> all_valid(
            final(out).deep_view(),
            path,
        ),
{
    out.push(symbol);
    assert(out.deep_view() == old(out).deep_view().push(symbol@));
    assert(old(out).deep_view().push(symbol@) == old(out).deep_view() + seq![symbol@]);
}

/// The value of an optional symbol.
pub open spec fn opt_symbol(o: Option<Symbol>) -> Option<SymbolView> {
    match o {
        Some(s) => Some(s@),
        None => None,
    }
}

/// Appends a symbol, if there is one.
pub(crate) fn push_one(out: &mut Vec<Symbol>, symbol: Option<Symbol>, Ghost(path): Ghost<Seq<char>>)
    ensures
        final(out).deep_view() == old(out).deep_view() + one(opt_symbol(symbol)),
        all_valid(old(out).deep_view(), path) && (symbol is Some ==> symbol_fits(
            symbol->0@,
            path,
        )) ==> all_valid(final(out).deep_view(), path),
{
    match symbol {
        Some(s) => {
            push_symbol(out, s, Ghost(path));
        },
        None => {
            assert(out.deep_view() == old(out).deep_view() + Seq::<SymbolView>::empty());
        },
    }
}

/// One inheritance record from `child_id` to each node among the first `k`
/// of `list` whose kind is one of two kinds; the parent's name is the node's
/// text.
pub open spec fn bases_upto(
    nodes: Seq<NodeView>,
    source: Seq<u8>,
    child_id: Seq<char>,
    list: Seq<int>,
    kind_a: Seq<char>,
    kind_b: Seq<char>,
    k: int,
) -> Seq<InheritanceView>
    decreases k,
{
    if k <= 0 || k > list.len() {
        Seq::empty()
    } else if nodes[list[k - 1]].kind == kind_a || nodes[list[k - 1]].kind == kind_b {
        bases_upto(nodes, source, child_id, list, kind_a, kind_b, k - 1).push(
            InheritanceView { child_id, parent_name: node_text(nodes, source, list[k - 1]) },
        )
    } else {
        bases_upto(nodes, source, child_id, list, kind_a, kind_b, k - 1)
    }
}

/// One inheritance record from `child_id` to each node of `list` whose kind
/// is one of two kinds.
pub open spec fn bases(
    nodes: Seq<NodeView>,
    source: Seq<u8>,
    child_id: Seq<char>,
    list: Seq<int>,
    kind_a: Seq<char>,
    kind_b: Seq<char>,
) -> Seq<InheritanceView> {
    bases_upto(nodes, source, child_id, list, kind_a, kind_b, list.len() as int)
}

/// Appends one inheritance record from `child_id` to each node of `list`
/// whose kind is one of two kinds.
pub fn push_bases(
    out: &mut Vec<Inheritance>,
    tree: &SyntaxTree,
    source: &[u8],
    child_id: &String,
    list: &Vec<usize>,
    kind_a: &str,
    kind_b: &str,
)
    requires
        forall|k: int| 0 <= k < list.len() ==> (#[trigger] list[k]) < tree@.len(),
    ensures
        final(out).deep_view() == old(out).deep_view() + bases(
            tree@,
            source@,
            child_id@,
            ints(list@),
            kind_a@,
            kind_b@,
        ),
{
    let ghost before = out.deep_view();
    let ghost idx = ints(list@);
    assert(idx.len() == list.len());
    let mut k: usize = 0;
    assert(out.deep_view() == before + bases_upto(
        tree@,
        source@,
        child_id@,
        idx,
        kind_a@,
        kind_b@,
        0,
    ));
    while k < list.len()
        invariant
            k <= list.len(),
            idx == ints(list@),
            forall|m: int| 0 <= m < list.len() ==> (#[trigger] list[m]) < tree@.len(),
            out.deep_view() == before + bases_upto(
                tree@,
                source@,
                child_id@,
                idx,
                kind_a@,
                kind_b@,
                k as int,
            ),
        decreases list.len() - k,
    {
        let c = list[k];
        assert(idx[k as int] == c);
        if tree.kind_is(c, kind_a) || tree.kind_is(c, kind_b) {
            let record = Inheritance {
                child_id: child_id.clone(),
                parent_name: string_of(tree.text(source, c).as_slice()),
            };
            proof {
                assert(out.deep_view().push(record@) == before + bases_upto(
                    tree@,
                    source@,
                    child_id@,
                    idx,
                    kind_a@,
                    kind_b@,
                    k + 1,
                ));
            }
            out.push(record);
            assert(out.deep_view() == before + bases_upto(
                tree@,
                source@,
                child_id@,
                idx,
                kind_a@,
                kind_b@,
                k + 1,
            ));
        }
        k += 1;
    }
}

/// Whether a symbol is valid and lies in the file of the given path.
pub open spec fn symbol_fits(symbol: SymbolView, path: Seq<char>) -> bool {
    symbol_is_valid(symbol) && symbol.file_path == path
}

/// Whether every symbol of a list is valid and lies in the file of the given
/// path.
pub open spec fn all_valid(symbols: Seq<SymbolView>, path: Seq<char>) -> bool {
    forall|k: int| 0 <= k < symbols.len() ==> symbol_fits(#[trigger] symbols[k], path)
}

} // verus!
