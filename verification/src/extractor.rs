//! Symbol extraction from syntax trees: the uniform contract of the six
//! language extractors, and the record of a whole file.

use crate::language::Language;
use crate::languages::common::all_valid;
use crate::languages::common::callers;
use crate::languages::common::opt_chars;
use crate::languages::common::push_callers;
use crate::languages::cpp;
use crate::languages::go;
use crate::languages::javascript;
use crate::languages::python;
use crate::languages::rust;
use crate::languages::CppExtractor;
use crate::languages::GoExtractor;
use crate::languages::JavaScriptExtractor;
use crate::languages::PythonExtractor;
use crate::languages::RustExtractor;
use crate::languages::TypeScriptExtractor;
use crate::model::Call;
use crate::model::CallView;
use crate::model::FileSymbols;
use crate::model::FileSymbolsView;
use crate::model::Import;
use crate::model::ImportView;
use crate::model::Inheritance;
use crate::model::InheritanceView;
use crate::model::Symbol;
use crate::model::SymbolView;
use crate::syntax::line_of;
use crate::syntax::NodeView;
use crate::syntax::SyntaxTree;
use crate::text::chars_of;
use crate::text::string_of;
use vstd::prelude::*;
use vstd::string::StringExecFns;

verus! {

// ---------------------------------------------------------------------------
// Trusted: SHA-256 and hexadecimal encoding
// ---------------------------------------------------------------------------
/// The SHA-256 digest of a byte string.
pub uninterp spec fn sha256_digest(bytes: Seq<u8>) -> Seq<u8>;

/// `Sha256::digest` of the `sha2` crate returns the SHA-256 digest of the
/// bytes, which is 32 bytes long; the digest itself is only named.
#[verifier::external_body]
fn sha256(bytes: &[u8]) -> (r: Vec<u8>)
    ensures
        r@ == sha256_digest(bytes@),
        r@.len() == 32,
{
    <sha2::Sha256 as sha2::Digest>::digest(bytes).to_vec()
}

/// The lower-case hexadecimal digit of a value below 16.
pub open spec fn hex_digit(d: nat) -> char {
    if d < 10 {
        crate::text::digit(d)
    } else if d == 10 {
        'a'
    } else if d == 11 {
        'b'
    } else if d == 12 {
        'c'
    } else if d == 13 {
        'd'
    } else if d == 14 {
        'e'
    } else {
        'f'
    }
}

/// The first `n` bytes in lower-case hexadecimal, two digits for each byte.
pub open spec fn hex_upto(bytes: Seq<u8>, n: int) -> Seq<char>
    decreases n,
{
    if n <= 0 || n > bytes.len() {
        Seq::empty()
    } else {
        hex_upto(bytes, n - 1).push(hex_digit((bytes[n - 1] / 16) as nat)).push(
            hex_digit((bytes[n - 1] % 16) as nat),
        )
    }
}

/// The bytes in lower-case hexadecimal.
pub open spec fn hex_lower(bytes: Seq<u8>) -> Seq<char> {
    hex_upto(bytes, bytes.len() as int)
}

/// `hex::encode` writes every byte as two lower-case hexadecimal digits, the
/// high one first.
#[verifier::external_body]
fn hex_encode(bytes: &[u8]) -> (r: String)
    ensures
        r@ == hex_lower(bytes@),
{
    hex::encode(bytes)
}

// ---------------------------------------------------------------------------
// Errors
// ---------------------------------------------------------------------------
/// Why the symbols of a file could not be extracted.
#[derive(Debug)]
pub enum ExtractorError {
    /// No extractor is known for the language.
    UnsupportedLanguage(String),
    /// The file could not be turned into a record.
    ExtractionFailed(String),
}

/// The message of an extractor error.
pub open spec fn extractor_error_message(e: ExtractorError) -> Seq<char> {
    match e {
        ExtractorError::UnsupportedLanguage(m) => "Unsupported language: "@ + m@,
        ExtractorError::ExtractionFailed(m) => "Extraction failed: "@ + m@,
    }
}

impl ExtractorError {
    /// The error's message.
    pub fn to_string(&self) -> (r: String)
        ensures
            r@ == extractor_error_message(*self),
    {
        match self {
            ExtractorError::UnsupportedLanguage(m) => String::from_str(
                "Unsupported language: ",
            ).concat(m.as_str()),
            ExtractorError::ExtractionFailed(m) => String::from_str("Extraction failed: ").concat(
                m.as_str(),
            ),
        }
    }
}

// ---------------------------------------------------------------------------
// Specification: what is extracted from a tree
// ---------------------------------------------------------------------------
/// The types that node `i` declares and that methods are attached to by name
/// (Rust and Go only).
pub open spec fn types_at(
    language: Language,
    nodes: Seq<NodeView>,
    source: Seq<u8>,
    path: Seq<char>,
    i: int,
) -> Seq<SymbolView> {
    match language {
        Language::Rust => rust::types_at(nodes, source, path, i),
        Language::Go => go::types_at(nodes, source, path, i),
        _ => Seq::empty(),
    }
}

/// The types that the first `n` nodes declare, in document order.
pub open spec fn types_upto(
    language: Language,
    nodes: Seq<NodeView>,
    source: Seq<u8>,
    path: Seq<char>,
    n: int,
) -> Seq<SymbolView>
    decreases n,
{
    if n <= 0 {
        Seq::empty()
    } else {
        types_upto(language, nodes, source, path, n - 1) + types_at(
            language,
            nodes,
            source,
            path,
            n - 1,
        )
    }
}

/// The types that the file declares.
pub open spec fn types(language: Language, nodes: Seq<NodeView>, source: Seq<u8>, path: Seq<char>)
    -> Seq<SymbolView> {
    types_upto(language, nodes, source, path, nodes.len() as int)
}

/// The symbols that node `i` contributes.
pub open spec fn symbols_at(
    language: Language,
    nodes: Seq<NodeView>,
    source: Seq<u8>,
    path: Seq<char>,
    i: int,
) -> Seq<SymbolView> {
    match language {
        Language::Python => python::symbols_at(nodes, source, path, i),
        Language::Rust => rust::symbols_at(
            nodes,
            source,
            path,
            types(language, nodes, source, path),
            i,
        ),
        Language::JavaScript => javascript::symbols_at(nodes, source, path, false, i),
        Language::TypeScript => javascript::symbols_at(nodes, source, path, true, i),
        Language::Go => go::symbols_at(
            nodes,
            source,
            path,
            types(language, nodes, source, path),
            i,
        ),
        Language::Cpp => cpp::symbols_at(nodes, source, path, i),
    }
}

/// The symbols that the first `n` nodes contribute, in document order.
pub open spec fn symbols_upto(
    language: Language,
    nodes: Seq<NodeView>,
    source: Seq<u8>,
    path: Seq<char>,
    n: int,
) -> Seq<SymbolView>
    decreases n,
{
    if n <= 0 {
        Seq::empty()
    } else {
        symbols_upto(language, nodes, source, path, n - 1) + symbols_at(
            language,
            nodes,
            source,
            path,
            n - 1,
        )
    }
}

/// The symbols of a file: what its nodes contribute, in document order.
pub open spec fn symbols(
    language: Language,
    nodes: Seq<NodeView>,
    source: Seq<u8>,
    path: Seq<char>,
) -> Seq<SymbolView> {
    symbols_upto(language, nodes, source, path, nodes.len() as int)
}

/// The imports that node `i` contributes in a pass.
pub open spec fn imports_at(
    language: Language,
    nodes: Seq<NodeView>,
    source: Seq<u8>,
    path: Seq<char>,
    pass: int,
    i: int,
) -> Seq<ImportView> {
    match language {
        Language::Python => python::imports_at(nodes, source, path, pass, i),
        Language::Rust => rust::imports_at(nodes, source, path, pass, i),
        Language::JavaScript => javascript::imports_at(nodes, source, path, pass, i),
        Language::TypeScript => javascript::imports_at(nodes, source, path, pass, i),
        Language::Go => go::imports_at(nodes, source, path, pass, i),
        Language::Cpp => cpp::imports_at(nodes, source, path, pass, i),
    }
}

/// What holds of every import of a record: it names a target and stands on
/// a line.
pub open spec fn import_is_valid(import: ImportView) -> bool {
    import.target.len() > 0 && import.line >= 1
}

/// The valid imports among the first `k` of a list, in their order.
pub open spec fn valid_imports_upto(list: Seq<ImportView>, k: int) -> Seq<ImportView>
    decreases k,
{
    if k <= 0 || k > list.len() {
        Seq::empty()
    } else if import_is_valid(list[k - 1]) {
        valid_imports_upto(list, k - 1).push(list[k - 1])
    } else {
        valid_imports_upto(list, k - 1)
    }
}

/// The valid imports of a list, in their order.
pub open spec fn valid_imports(list: Seq<ImportView>) -> Seq<ImportView> {
    valid_imports_upto(list, list.len() as int)
}

/// Whether every import of a list is valid.
pub open spec fn all_imports_valid(list: Seq<ImportView>) -> bool {
    forall|k: int| 0 <= k < list.len() ==> import_is_valid(#[trigger] list[k])
}

/// The imports that the first `n` nodes contribute in a pass; an import
/// without a target is dropped.
pub open spec fn imports_upto(
    language: Language,
    nodes: Seq<NodeView>,
    source: Seq<u8>,
    path: Seq<char>,
    pass: int,
    n: int,
) -> Seq<ImportView>
    decreases n,
{
    if n <= 0 {
        Seq::empty()
    } else {
        imports_upto(language, nodes, source, path, pass, n - 1) + valid_imports(
            imports_at(language, nodes, source, path, pass, n - 1),
        )
    }
}

/// The imports of a file: those of the first pass over its nodes, then those
/// of the second.
pub open spec fn imports(
    language: Language,
    nodes: Seq<NodeView>,
    source: Seq<u8>,
    path: Seq<char>,
) -> Seq<ImportView> {
    imports_upto(language, nodes, source, path, 0, nodes.len() as int) + imports_upto(
        language,
        nodes,
        source,
        path,
        1,
        nodes.len() as int,
    )
}

/// The name that the call at node `i` calls.
pub open spec fn callee_at(language: Language, nodes: Seq<NodeView>, source: Seq<u8>, i: int)
    -> Option<Seq<char>> {
    match language {
        Language::Python => python::callee_at(nodes, source, i),
        Language::Rust => rust::callee_at(nodes, source, i),
        Language::JavaScript => javascript::callee_at(nodes, source, i),
        Language::TypeScript => javascript::callee_at(nodes, source, i),
        Language::Go => go::callee_at(nodes, source, i),
        Language::Cpp => cpp::callee_at(nodes, source, i),
    }
}

/// The calls that node `i` contributes: if it is a call with a callee name
/// that is not empty, one for each function or method among `symbols` whose
/// lines enclose the line of the call.
pub open spec fn calls_at(
    language: Language,
    nodes: Seq<NodeView>,
    source: Seq<u8>,
    symbols: Seq<SymbolView>,
    i: int,
) -> Seq<CallView> {
    match callee_at(language, nodes, source, i) {
        Some(name) => if name.len() > 0 {
            callers(symbols, line_of(nodes[i].start_row), name)
        } else {
            Seq::empty()
        },
        None => Seq::empty(),
    }
}

/// The calls that the first `n` nodes contribute, in document order.
pub open spec fn calls_upto(
    language: Language,
    nodes: Seq<NodeView>,
    source: Seq<u8>,
    symbols: Seq<SymbolView>,
    n: int,
) -> Seq<CallView>
    decreases n,
{
    if n <= 0 {
        Seq::empty()
    } else {
        calls_upto(language, nodes, source, symbols, n - 1) + calls_at(
            language,
            nodes,
            source,
            symbols,
            n - 1,
        )
    }
}

/// The calls of a file, in the document order of the call nodes.
pub open spec fn calls(
    language: Language,
    nodes: Seq<NodeView>,
    source: Seq<u8>,
    symbols: Seq<SymbolView>,
) -> Seq<CallView> {
    calls_upto(language, nodes, source, symbols, nodes.len() as int)
}

/// The inheritance records that node `i` contributes.
pub open spec fn inheritance_at(
    language: Language,
    nodes: Seq<NodeView>,
    source: Seq<u8>,
    symbols: Seq<SymbolView>,
    i: int,
) -> Seq<InheritanceView> {
    match language {
        Language::Python => python::inheritance_at(nodes, source, symbols, i),
        Language::Rust => rust::inheritance_at(nodes, source, symbols, i),
        Language::JavaScript => javascript::inheritance_at(nodes, source, symbols, i),
        Language::TypeScript => javascript::inheritance_at(nodes, source, symbols, i),
        Language::Go => go::inheritance_at(nodes, source, symbols, i),
        Language::Cpp => cpp::inheritance_at(nodes, source, symbols, i),
    }
}

/// The inheritance records that the first `n` nodes contribute.
pub open spec fn inheritance_upto(
    language: Language,
    nodes: Seq<NodeView>,
    source: Seq<u8>,
    symbols: Seq<SymbolView>,
    n: int,
) -> Seq<InheritanceView>
    decreases n,
{
    if n <= 0 {
        Seq::empty()
    } else {
        inheritance_upto(language, nodes, source, symbols, n - 1) + inheritance_at(
            language,
            nodes,
            source,
            symbols,
            n - 1,
        )
    }
}

/// The inheritance records of a file, in the document order of the bases.
pub open spec fn inheritance(
    language: Language,
    nodes: Seq<NodeView>,
    source: Seq<u8>,
    symbols: Seq<SymbolView>,
) -> Seq<InheritanceView> {
    inheritance_upto(language, nodes, source, symbols, nodes.len() as int)
}

/// Number of newline bytes among the first `n` bytes.
pub open spec fn newlines_upto(bytes: Seq<u8>, n: int) -> nat
    decreases n,
{
    if n <= 0 || n > bytes.len() {
        0
    } else if bytes[n - 1] == 10u8 {
        newlines_upto(bytes, n - 1) + 1
    } else {
        newlines_upto(bytes, n - 1)
    }
}

/// Number of lines of a source: its newline bytes and one.
pub open spec fn line_count(bytes: Seq<u8>) -> nat {
    newlines_upto(bytes, bytes.len() as int) + 1
}

/// The content hash of a source: its SHA-256 digest in lower-case
/// hexadecimal.
pub open spec fn content_hash(bytes: Seq<u8>) -> Seq<char> {
    hex_lower(sha256_digest(bytes))
}

/// The record of a file.
pub open spec fn file_symbols(
    language: Language,
    nodes: Seq<NodeView>,
    source: Seq<u8>,
    path: Seq<char>,
) -> FileSymbolsView {
    FileSymbolsView {
        file_path: path,
        language: Some(language),
        content_hash: content_hash(source),
        line_count: line_count(source) as u32,
        symbols: symbols(language, nodes, source, path),
        imports: imports(language, nodes, source, path),
        calls: calls(language, nodes, source, symbols(language, nodes, source, path)),
        inheritance: inheritance(language, nodes, source, symbols(language, nodes, source, path)),
    }
}

/// The hexadecimal form of `n` bytes has two digits for each of them.
pub proof fn lemma_hex_length(bytes: Seq<u8>, n: int)
    requires
        0 <= n <= bytes.len(),
    ensures
        hex_upto(bytes, n).len() == 2 * n,
    decreases n,
{
    if n > 0 {
        lemma_hex_length(bytes, n - 1);
    }
}

proof fn lemma_no_types(
    language: Language,
    nodes: Seq<NodeView>,
    source: Seq<u8>,
    path: Seq<char>,
    n: int,
)
    requires
        language != Language::Rust,
        language != Language::Go,
    ensures
        types_upto(language, nodes, source, path, n) == Seq::<SymbolView>::empty(),
    decreases n,
{
    if n > 0 {
        lemma_no_types(language, nodes, source, path, n - 1);
    }
}

// ---------------------------------------------------------------------------
// Extraction
// ---------------------------------------------------------------------------
fn extract_types(language: Language, tree: &SyntaxTree, source: &[u8], path: &str) -> (r: Vec<
    Symbol,
>)
    ensures
        r.deep_view() == types(language, tree@, source@, path@),
{
    let mut out: Vec<Symbol> = Vec::new();
    match language {
        Language::Rust | Language::Go => {},
        _ => {
            proof {
                lemma_no_types(language, tree@, source@, path@, tree@.len() as int);
            }
            return out;
        },
    }
    let n = tree.len();
    let mut i: usize = 0;
    while i < n
        invariant
            i <= n,
            n == tree@.len(),
            language == Language::Rust || language == Language::Go,
            out.deep_view() == types_upto(language, tree@, source@, path@, i as int),
        decreases n - i,
    {
        match language {
            Language::Rust => {
                rust::emit_types(tree, source, path, i, &mut out);
            },
            _ => {
                go::emit_types(tree, source, path, i, &mut out);
            },
        }
        i += 1;
    }
    out
}

/// Extracts the symbols of a file.
pub fn extract_symbols(language: Language, tree: &SyntaxTree, source: &[u8], path: &str) -> (r: Vec<
    Symbol,
>)
    ensures
        r.deep_view() == symbols(language, tree@, source@, path@),
        all_valid(r.deep_view(), path@),
{
    let declared = extract_types(language, tree, source, path);
    let mut out: Vec<Symbol> = Vec::new();
    let n = tree.len();
    let mut i: usize = 0;
    while i < n
        invariant
            i <= n,
            n == tree@.len(),
            declared.deep_view() == types(language, tree@, source@, path@),
            out.deep_view() == symbols_upto(language, tree@, source@, path@, i as int),
            all_valid(out.deep_view(), path@),
        decreases n - i,
    {
        match language {
            Language::Python => {
                python::emit_symbols(tree, source, path, i, &mut out);
            },
            Language::Rust => {
                rust::emit_symbols(tree, source, path, &declared, i, &mut out);
            },
            Language::JavaScript => {
                javascript::emit_symbols(tree, source, path, false, i, &mut out);
            },
            Language::TypeScript => {
                javascript::emit_symbols(tree, source, path, true, i, &mut out);
            },
            Language::Go => {
                go::emit_symbols(tree, source, path, &declared, i, &mut out);
            },
            Language::Cpp => {
                cpp::emit_symbols(tree, source, path, i, &mut out);
            },
        }
        i += 1;
    }
    out
}

fn keep_valid(found: Vec<Import>, out: &mut Vec<Import>)
    ensures
        final(out).deep_view() == old(out).deep_view() + valid_imports(found.deep_view()),
        all_imports_valid(old(out).deep_view()) ==> all_imports_valid(final(out).deep_view()),
{
    let ghost before = out.deep_view();
    let ghost all = found.deep_view();
    assert(out.deep_view() == before + valid_imports_upto(all, 0));
    for import in it: found
        invariant
            it.seq().len() == all.len(),
            forall|k: int| 0 <= k < all.len() ==> (#[trigger] it.seq()[k])@ == all[k],
            out.deep_view() == before + valid_imports_upto(all, it.index() as int),
            all_imports_valid(before) ==> all_imports_valid(out.deep_view()),
    {
        let ghost so_far = valid_imports_upto(all, it.index() as int);
        if !import.target.as_str().is_empty() && import.line >= 1 {
            let ghost kept = out.deep_view();
            proof {
                assert(kept.push(import@) == before + so_far.push(import@));
                assert(import_is_valid(import@));
                assert(all_imports_valid(kept) ==> all_imports_valid(kept.push(import@))) by {
                    if all_imports_valid(kept) {
                        assert forall|k: int| 0 <= k < kept.len() + 1 implies import_is_valid(
                            #[trigger] kept.push(import@)[k],
                        ) by {
                            if k < kept.len() {
                                assert(kept.push(import@)[k] == kept[k]);
                            }
                        }
                    }
                }
            }
            out.push(import);
            assert(out.deep_view() == kept.push(import@));
        }
    }
}

fn extract_imports_pass(
    language: Language,
    tree: &SyntaxTree,
    source: &[u8],
    path: &str,
    pass: u8,
    out: &mut Vec<Import>,
)
    ensures
        final(out).deep_view() == old(out).deep_view() + imports_upto(
            language,
            tree@,
            source@,
            path@,
            pass as int,
            tree@.len() as int,
        ),
        all_imports_valid(old(out).deep_view()) ==> all_imports_valid(final(out).deep_view()),
{
    let ghost before = out.deep_view();
    let n = tree.len();
    let mut i: usize = 0;
    assert(out.deep_view() == before + imports_upto(
        language,
        tree@,
        source@,
        path@,
        pass as int,
        0,
    ));
    while i < n
        invariant
            i <= n,
            n == tree@.len(),
            out.deep_view() == before + imports_upto(
                language,
                tree@,
                source@,
                path@,
                pass as int,
                i as int,
            ),
            all_imports_valid(before) ==> all_imports_valid(out.deep_view()),
        decreases n - i,
    {
        let ghost so_far = imports_upto(language, tree@, source@, path@, pass as int, i as int);
        let ghost here = imports_at(language, tree@, source@, path@, pass as int, i as int);
        let mut found: Vec<Import> = Vec::new();
        match language {
            Language::Python => {
                python::emit_imports(tree, source, path, pass, i, &mut found);
            },
            Language::Rust => {
                rust::emit_imports(tree, source, path, pass, i, &mut found);
            },
            Language::JavaScript | Language::TypeScript => {
                javascript::emit_imports(tree, source, path, pass, i, &mut found);
            },
            Language::Go => {
                go::emit_imports(tree, source, path, pass, i, &mut found);
            },
            Language::Cpp => {
                cpp::emit_imports(tree, source, path, pass, i, &mut found);
            },
        }
        assert(found.deep_view() == here);
        keep_valid(found, out);
        assert(out.deep_view() == before + (so_far + valid_imports(here))) by {
            assert((before + so_far) + valid_imports(here) == before + (so_far + valid_imports(
                here,
            )));
        }
        i += 1;
    }
}

/// Extracts the imports of a file.
pub fn extract_imports(language: Language, tree: &SyntaxTree, source: &[u8], path: &str) -> (r: Vec<
    Import,
>)
    ensures
        r.deep_view() == imports(language, tree@, source@, path@),
        all_imports_valid(r.deep_view()),
{
    let mut out: Vec<Import> = Vec::new();
    extract_imports_pass(language, tree, source, path, 0, &mut out);
    extract_imports_pass(language, tree, source, path, 1, &mut out);
    out
}

fn read_callee(language: Language, tree: &SyntaxTree, source: &[u8], i: usize) -> (r: Option<
    Vec<char>,
>)
    requires
        i < tree@.len(),
    ensures
        opt_chars(r) == callee_at(language, tree@, source@, i as int),
{
    match language {
        Language::Python => python::callee(tree, source, i),
        Language::Rust => rust::callee(tree, source, i),
        Language::JavaScript | Language::TypeScript => javascript::callee(tree, source, i),
        Language::Go => go::callee(tree, source, i),
        Language::Cpp => cpp::callee(tree, source, i),
    }
}

/// Extracts the calls of a file, given its symbols.
pub fn extract_calls(
    language: Language,
    tree: &SyntaxTree,
    source: &[u8],
    symbols: &Vec<Symbol>,
) -> (r: Vec<Call>)
    ensures
        r.deep_view() == calls(language, tree@, source@, symbols.deep_view()),
{
    let mut out: Vec<Call> = Vec::new();
    let ghost view = symbols.deep_view();
    let n = tree.len();
    let mut i: usize = 0;
    while i < n
        invariant
            i <= n,
            n == tree@.len(),
            view == symbols.deep_view(),
            out.deep_view() == calls_upto(language, tree@, source@, view, i as int),
        decreases n - i,
    {
        let ghost so_far = out.deep_view();
        match read_callee(language, tree, source, i) {
            Some(name) => {
                if name.len() > 0 {
                    push_callers(&mut out, symbols, tree.lines(i).0, &name);
                } else {
                    assert(out.deep_view() == so_far + Seq::<CallView>::empty());
                }
            },
            None => {
                assert(out.deep_view() == so_far + Seq::<CallView>::empty());
            },
        }
        i += 1;
    }
    out
}

/// Extracts the inheritance records of a file, given its symbols.
pub fn extract_inheritance(
    language: Language,
    tree: &SyntaxTree,
    source: &[u8],
    symbols: &Vec<Symbol>,
) -> (r: Vec<Inheritance>)
    ensures
        r.deep_view() == inheritance(language, tree@, source@, symbols.deep_view()),
{
    let mut out: Vec<Inheritance> = Vec::new();
    let ghost view = symbols.deep_view();
    let n = tree.len();
    let mut i: usize = 0;
    while i < n
        invariant
            i <= n,
            n == tree@.len(),
            view == symbols.deep_view(),
            out.deep_view() == inheritance_upto(language, tree@, source@, view, i as int),
        decreases n - i,
    {
        match language {
            Language::Python => {
                python::emit_inheritance(tree, source, symbols, i, &mut out);
            },
            Language::Rust => {
                rust::emit_inheritance(tree, source, symbols, i, &mut out);
            },
            Language::JavaScript | Language::TypeScript => {
                javascript::emit_inheritance(tree, source, symbols, i, &mut out);
            },
            Language::Go => {
                go::emit_inheritance(tree, source, symbols, i, &mut out);
            },
            Language::Cpp => {
                cpp::emit_inheritance(tree, source, symbols, i, &mut out);
            },
        }
        i += 1;
    }
    out
}

/// What every language extractor offers: four operations on the syntax tree
/// of a file, its source bytes and its path.
pub trait LanguageExtractor {
    /// The language whose rules the extractor follows.
    spec fn language(&self) -> Language;

    /// Extracts symbols (functions, classes, etc.) from the tree.
    fn extract_symbols(&self, tree: &SyntaxTree, source: &[u8], file_path: &str) -> (r: Vec<Symbol>)
        ensures
            r.deep_view() == symbols(self.language(), tree@, source@, file_path@),
            all_valid(r.deep_view(), file_path@),
    ;

    /// Extracts import statements.
    fn extract_imports(&self, tree: &SyntaxTree, source: &[u8], file_path: &str) -> (r: Vec<Import>)
        ensures
            r.deep_view() == imports(self.language(), tree@, source@, file_path@),
            all_imports_valid(r.deep_view()),
    ;

    /// Extracts function calls within the given functions and methods.
    fn extract_calls(&self, tree: &SyntaxTree, source: &[u8], symbols: &Vec<Symbol>) -> (r: Vec<
        Call,
    >)
        ensures
            r.deep_view() == calls(self.language(), tree@, source@, symbols.deep_view()),
    ;

    /// Extracts inheritance relationships of the given symbols.
    fn extract_inheritance(&self, tree: &SyntaxTree, source: &[u8], symbols: &Vec<Symbol>) -> (r:
        Vec<Inheritance>)
        ensures
            r.deep_view() == inheritance(self.language(), tree@, source@, symbols.deep_view()),
    ;
}

impl LanguageExtractor for PythonExtractor {
    open spec fn language(&self) -> Language {
        Language::Python
    }

    fn extract_symbols(&self, tree: &SyntaxTree, source: &[u8], file_path: &str) -> (r: Vec<
        Symbol,
    >) {
        self::extract_symbols(Language::Python, tree, source, file_path)
    }

    fn extract_imports(&self, tree: &SyntaxTree, source: &[u8], file_path: &str) -> (r: Vec<
        Import,
    >) {
        self::extract_imports(Language::Python, tree, source, file_path)
    }

    fn extract_calls(&self, tree: &SyntaxTree, source: &[u8], symbols: &Vec<Symbol>) -> (r: Vec<
        Call,
    >) {
        self::extract_calls(Language::Python, tree, source, symbols)
    }

    fn extract_inheritance(&self, tree: &SyntaxTree, source: &[u8], symbols: &Vec<Symbol>) -> (r:
        Vec<Inheritance>) {
        self::extract_inheritance(Language::Python, tree, source, symbols)
    }
}

impl LanguageExtractor for RustExtractor {
    open spec fn language(&self) -> Language {
        Language::Rust
    }

    fn extract_symbols(&self, tree: &SyntaxTree, source: &[u8], file_path: &str) -> (r: Vec<
        Symbol,
    >) {
        self::extract_symbols(Language::Rust, tree, source, file_path)
    }

    fn extract_imports(&self, tree: &SyntaxTree, source: &[u8], file_path: &str) -> (r: Vec<
        Import,
    >) {
        self::extract_imports(Language::Rust, tree, source, file_path)
    }

    fn extract_calls(&self, tree: &SyntaxTree, source: &[u8], symbols: &Vec<Symbol>) -> (r: Vec<
        Call,
    >) {
        self::extract_calls(Language::Rust, tree, source, symbols)
    }

    fn extract_inheritance(&self, tree: &SyntaxTree, source: &[u8], symbols: &Vec<Symbol>) -> (r:
        Vec<Inheritance>) {
        self::extract_inheritance(Language::Rust, tree, source, symbols)
    }
}

impl LanguageExtractor for JavaScriptExtractor {
    open spec fn language(&self) -> Language {
        Language::JavaScript
    }

    fn extract_symbols(&self, tree: &SyntaxTree, source: &[u8], file_path: &str) -> (r: Vec<
        Symbol,
    >) {
        self::extract_symbols(Language::JavaScript, tree, source, file_path)
    }

    fn extract_imports(&self, tree: &SyntaxTree, source: &[u8], file_path: &str) -> (r: Vec<
        Import,
    >) {
        self::extract_imports(Language::JavaScript, tree, source, file_path)
    }

    fn extract_calls(&self, tree: &SyntaxTree, source: &[u8], symbols: &Vec<Symbol>) -> (r: Vec<
        Call,
    >) {
        self::extract_calls(Language::JavaScript, tree, source, symbols)
    }

    fn extract_inheritance(&self, tree: &SyntaxTree, source: &[u8], symbols: &Vec<Symbol>) -> (r:
        Vec<Inheritance>) {
        self::extract_inheritance(Language::JavaScript, tree, source, symbols)
    }
}

impl LanguageExtractor for TypeScriptExtractor {
    open spec fn language(&self) -> Language {
        Language::TypeScript
    }

    fn extract_symbols(&self, tree: &SyntaxTree, source: &[u8], file_path: &str) -> (r: Vec<
        Symbol,
    >) {
        self::extract_symbols(Language::TypeScript, tree, source, file_path)
    }

    fn extract_imports(&self, tree: &SyntaxTree, source: &[u8], file_path: &str) -> (r: Vec<
        Import,
    >) {
        self::extract_imports(Language::TypeScript, tree, source, file_path)
    }

    fn extract_calls(&self, tree: &SyntaxTree, source: &[u8], symbols: &Vec<Symbol>) -> (r: Vec<
        Call,
    >) {
        self::extract_calls(Language::TypeScript, tree, source, symbols)
    }

    fn extract_inheritance(&self, tree: &SyntaxTree, source: &[u8], symbols: &Vec<Symbol>) -> (r:
        Vec<Inheritance>) {
        self::extract_inheritance(Language::TypeScript, tree, source, symbols)
    }
}

impl LanguageExtractor for GoExtractor {
    open spec fn language(&self) -> Language {
        Language::Go
    }

    fn extract_symbols(&self, tree: &SyntaxTree, source: &[u8], file_path: &str) -> (r: Vec<
        Symbol,
    >) {
        self::extract_symbols(Language::Go, tree, source, file_path)
    }

    fn extract_imports(&self, tree: &SyntaxTree, source: &[u8], file_path: &str) -> (r: Vec<
        Import,
    >) {
        self::extract_imports(Language::Go, tree, source, file_path)
    }

    fn extract_calls(&self, tree: &SyntaxTree, source: &[u8], symbols: &Vec<Symbol>) -> (r: Vec<
        Call,
    >) {
        self::extract_calls(Language::Go, tree, source, symbols)
    }

    fn extract_inheritance(&self, tree: &SyntaxTree, source: &[u8], symbols: &Vec<Symbol>) -> (r:
        Vec<Inheritance>) {
        self::extract_inheritance(Language::Go, tree, source, symbols)
    }
}

impl LanguageExtractor for CppExtractor {
    open spec fn language(&self) -> Language {
        Language::Cpp
    }

    fn extract_symbols(&self, tree: &SyntaxTree, source: &[u8], file_path: &str) -> (r: Vec<
        Symbol,
    >) {
        self::extract_symbols(Language::Cpp, tree, source, file_path)
    }

    fn extract_imports(&self, tree: &SyntaxTree, source: &[u8], file_path: &str) -> (r: Vec<
        Import,
    >) {
        self::extract_imports(Language::Cpp, tree, source, file_path)
    }

    fn extract_calls(&self, tree: &SyntaxTree, source: &[u8], symbols: &Vec<Symbol>) -> (r: Vec<
        Call,
    >) {
        self::extract_calls(Language::Cpp, tree, source, symbols)
    }

    fn extract_inheritance(&self, tree: &SyntaxTree, source: &[u8], symbols: &Vec<Symbol>) -> (r:
        Vec<Inheritance>) {
        self::extract_inheritance(Language::Cpp, tree, source, symbols)
    }
}

/// Main extractor that delegates to the language-specific extractors.
pub struct SymbolExtractor;

impl SymbolExtractor {
    /// The content hash of a source: its SHA-256 digest in lower-case
    /// hexadecimal, 64 digits long.
    pub fn compute_hash(source: &[u8]) -> (r: String)
        ensures
            r@ == content_hash(source@),
            r@.len() == 64,
    {
        let digest = sha256(source);
        proof {
            lemma_hex_length(digest@, digest@.len() as int);
        }
        hex_encode(digest.as_slice())
    }

    /// Counts the lines of a source: its newline bytes and one. Nothing if
    /// the count does not fit a line number.
    pub fn count_lines(source: &[u8]) -> (r: Option<u32>)
        ensures
            match r {
                Some(n) => n == line_count(source@),
                None => line_count(source@) > u32::MAX,
            },
    {
        let mut count: usize = 0;
        let mut i: usize = 0;
        while i < source.len()
            invariant
                i <= source.len(),
                count == newlines_upto(source@, i as int),
                count <= i,
            decreases source.len() - i,
        {
            if source[i] == 10u8 {
                count += 1;
            }
            i += 1;
        }
        if count < u32::MAX as usize {
            Some((count + 1) as u32)
        } else {
            None
        }
    }

    /// Extracts all symbols and relationships from a file. The file is
    /// refused only if its lines cannot be counted in 32 bits.
    pub fn extract(tree: &SyntaxTree, source: &[u8], file_path: &str, language: Language) -> (r:
        Result<FileSymbols, ExtractorError>)
        ensures
            match r {
                Ok(file) => line_count(source@) <= u32::MAX && file@ == file_symbols(
                    language,
                    tree@,
                    source@,
                    file_path@,
                ) && all_valid(file@.symbols, file_path@) && all_imports_valid(file@.imports)
                    && file@.content_hash.len() == 64,
                Err(e) => line_count(source@) > u32::MAX && e is ExtractionFailed,
            },
    {
        let lines = match Self::count_lines(source) {
            Some(n) => n,
            None => {
                return Err(ExtractorError::ExtractionFailed(String::from_str("too many lines")));
            },
        };
        let symbols = extract_symbols(language, tree, source, file_path);
        let imports = extract_imports(language, tree, source, file_path);
        let calls = extract_calls(language, tree, source, &symbols);
        let inheritance = extract_inheritance(language, tree, source, &symbols);
        Ok(
            FileSymbols {
                file_path: string_of(chars_of(file_path).as_slice()),
                language: Some(language),
                content_hash: Self::compute_hash(source),
                line_count: lines,
                symbols,
                imports,
                calls,
                inheritance,
            },
        )
    }
}

} // verus!
