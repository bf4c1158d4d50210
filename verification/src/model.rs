//! The uniform record that every language extractor produces.

use crate::language::Language;
use crate::text::chars_of;
use crate::text::decimal;
use crate::text::push_decimal;
use crate::text::push_str;
use crate::text::string_of;
use vstd::prelude::*;
use vstd::string::StringExecFns;

verus! {

/// Visibility of a symbol.
#[derive(Debug, Clone, Copy, PartialEq, Eq, Structural, Default)]
pub enum Visibility {
    #[default]
    Public,
    Private,
    Protected,
}

/// Type of symbol.
#[derive(Debug, Clone, Copy, PartialEq, Eq, Hash, Structural)]
pub enum SymbolKind {
    Function,
    Class,
    Struct,
    Interface,
    Module,
    Method,
    Trait,
    Enum,
    Constant,
    Variable,
}

/// The lower-case name of a visibility.
pub open spec fn visibility_name(visibility: Visibility) -> Seq<char> {
    match visibility {
        Visibility::Public => "public"@,
        Visibility::Private => "private"@,
        Visibility::Protected => "protected"@,
    }
}

/// The lower-case name of a symbol kind.
pub open spec fn kind_name(kind: SymbolKind) -> Seq<char> {
    match kind {
        SymbolKind::Function => "function"@,
        SymbolKind::Class => "class"@,
        SymbolKind::Struct => "struct"@,
        SymbolKind::Interface => "interface"@,
        SymbolKind::Module => "module"@,
        SymbolKind::Method => "method"@,
        SymbolKind::Trait => "trait"@,
        SymbolKind::Enum => "enum"@,
        SymbolKind::Constant => "constant"@,
        SymbolKind::Variable => "variable"@,
    }
}

impl Visibility {
    /// The lower-case name.
    pub fn as_str(&self) -> (r: &'static str)
        ensures
            r@ == visibility_name(*self),
    {
        match self {
            Visibility::Public => "public",
            Visibility::Private => "private",
            Visibility::Protected => "protected",
        }
    }
}

impl SymbolKind {
    /// The lower-case name.
    pub fn as_str(&self) -> (r: &'static str)
        ensures
            r@ == kind_name(*self),
    {
        match self {
            SymbolKind::Function => "function",
            SymbolKind::Class => "class",
            SymbolKind::Struct => "struct",
            SymbolKind::Interface => "interface",
            SymbolKind::Module => "module",
            SymbolKind::Method => "method",
            SymbolKind::Trait => "trait",
            SymbolKind::Enum => "enum",
            SymbolKind::Constant => "constant",
            SymbolKind::Variable => "variable",
        }
    }

    /// The lower-case name as an owned string.
    pub fn to_string(&self) -> (r: String)
        ensures
            r@ == kind_name(*self),
    {
        String::from_str(self.as_str())
    }
}

/// The text of an optional string.
pub open spec fn opt_text(o: Option<String>) -> Option<Seq<char>> {
    match o {
        Some(s) => Some(s@),
        None => None,
    }
}

/// The texts of a list of strings.
pub open spec fn texts(v: Seq<String>) -> Seq<Seq<char>> {
    Seq::new(v.len(), |i: int| v[i]@)
}

/// A code symbol (function, class, etc.).
#[derive(Debug, Clone)]
pub struct Symbol {
    /// Unique identifier (file_path:name:start_line).
    pub id: String,
    /// Symbol name.
    pub name: String,
    /// Kind of symbol.
    pub kind: SymbolKind,
    /// File path where the symbol is defined.
    pub file_path: String,
    /// Starting line number (1-indexed).
    pub start_line: u32,
    /// Ending line number (1-indexed).
    pub end_line: u32,
    /// Function signature or declaration.
    pub signature: Option<String>,
    /// Visibility.
    pub visibility: Visibility,
    /// Whether the function is async.
    pub is_async: bool,
    /// Documentation string.
    pub docstring: Option<String>,
    /// Summary, filled in by later stages.
    pub summary: Option<String>,
    /// Language of the symbol.
    pub language: Language,
    /// Parent symbol id (for methods in classes).
    pub parent_id: Option<String>,
}

/// The mathematical value of a [`Symbol`].
pub struct SymbolView {
    pub id: Seq<char>,
    pub name: Seq<char>,
    pub kind: SymbolKind,
    pub file_path: Seq<char>,
    pub start_line: u32,
    pub end_line: u32,
    pub signature: Option<Seq<char>>,
    pub visibility: Visibility,
    pub is_async: bool,
    pub docstring: Option<Seq<char>>,
    pub summary: Option<Seq<char>>,
    pub language: Language,
    pub parent_id: Option<Seq<char>>,
}

impl View for Symbol {
    type V = SymbolView;

    open spec fn view(&self) -> SymbolView {
        SymbolView {
            id: self.id@,
            name: self.name@,
            kind: self.kind,
            file_path: self.file_path@,
            start_line: self.start_line,
            end_line: self.end_line,
            signature: opt_text(self.signature),
            visibility: self.visibility,
            is_async: self.is_async,
            docstring: opt_text(self.docstring),
            summary: opt_text(self.summary),
            language: self.language,
            parent_id: opt_text(self.parent_id),
        }
    }
}

impl DeepView for Symbol {
    type V = SymbolView;

    open spec fn deep_view(&self) -> SymbolView {
        self@
    }
}

/// The identifier of the symbol `name` that starts at `start_line` of
/// `file_path`: the three joined by colons.
pub open spec fn symbol_id(file_path: Seq<char>, name: Seq<char>, start_line: u32) -> Seq<char> {
    file_path + seq![':'] + name + seq![':'] + decimal(start_line as nat)
}

/// What holds of every symbol that an extractor emits: its lines are
/// 1-indexed and ordered, and its identifier is determined by its file, its
/// name and its first line.
pub open spec fn symbol_is_valid(s: SymbolView) -> bool {
    &&& 1 <= s.start_line <= s.end_line
    &&& s.id == symbol_id(s.file_path, s.name, s.start_line)
}

impl Symbol {
    /// Creates the unique identifier of a symbol.
    pub fn generate_id(file_path: &str, name: &str, start_line: u32) -> (id: String)
        ensures
            id@ == symbol_id(file_path@, name@, start_line),
    {
        let mut out: Vec<char> = chars_of(file_path);
        out.push(':');
        push_str(&mut out, name);
        out.push(':');
        push_decimal(&mut out, start_line as u64);
        let id = string_of(out.as_slice());
        assert(id@ =~= symbol_id(file_path@, name@, start_line));
        id
    }
}

/// An import statement.
#[derive(Debug, Clone)]
pub struct Import {
    /// File containing the import.
    pub source_file: String,
    /// Module or file being imported.
    pub target: String,
    /// Alias if any.
    pub alias: Option<String>,
    /// Specific items imported.
    pub items: Vec<String>,
    /// Line number of the import.
    pub line: u32,
}

/// The mathematical value of an [`Import`].
pub struct ImportView {
    pub source_file: Seq<char>,
    pub target: Seq<char>,
    pub alias: Option<Seq<char>>,
    pub items: Seq<Seq<char>>,
    pub line: u32,
}

impl View for Import {
    type V = ImportView;

    open spec fn view(&self) -> ImportView {
        ImportView {
            source_file: self.source_file@,
            target: self.target@,
            alias: opt_text(self.alias),
            items: texts(self.items@),
            line: self.line,
        }
    }
}

impl DeepView for Import {
    type V = ImportView;

    open spec fn deep_view(&self) -> ImportView {
        self@
    }
}

/// A function call reference.
#[derive(Debug, Clone)]
pub struct Call {
    /// Id of the calling function.
    pub caller_id: String,
    /// Name of the called function.
    pub callee_name: String,
    /// Line number where the call occurs.
    pub call_site_line: u32,
}

/// The mathematical value of a [`Call`].
pub struct CallView {
    pub caller_id: Seq<char>,
    pub callee_name: Seq<char>,
    pub call_site_line: u32,
}

impl View for Call {
    type V = CallView;

    open spec fn view(&self) -> CallView {
        CallView {
            caller_id: self.caller_id@,
            callee_name: self.callee_name@,
            call_site_line: self.call_site_line,
        }
    }
}

impl DeepView for Call {
    type V = CallView;

    open spec fn deep_view(&self) -> CallView {
        self@
    }
}

/// An inheritance relationship.
#[derive(Debug, Clone)]
pub struct Inheritance {
    /// Id of the child class or struct.
    pub child_id: String,
    /// Name of the parent class or interface.
    pub parent_name: String,
}

/// The mathematical value of an [`Inheritance`].
pub struct InheritanceView {
    pub child_id: Seq<char>,
    pub parent_name: Seq<char>,
}

impl View for Inheritance {
    type V = InheritanceView;

    open spec fn view(&self) -> InheritanceView {
        InheritanceView { child_id: self.child_id@, parent_name: self.parent_name@ }
    }
}

impl DeepView for Inheritance {
    type V = InheritanceView;

    open spec fn deep_view(&self) -> InheritanceView {
        self@
    }
}

/// All extracted data from a file.
#[derive(Debug, Clone)]
pub struct FileSymbols {
    /// File path.
    pub file_path: String,
    /// Detected language.
    pub language: Option<Language>,
    /// Content hash (SHA-256, lower-case hex).
    pub content_hash: String,
    /// Line count.
    pub line_count: u32,
    /// Extracted symbols.
    pub symbols: Vec<Symbol>,
    /// Import statements.
    pub imports: Vec<Import>,
    /// Function calls.
    pub calls: Vec<Call>,
    /// Inheritance relationships.
    pub inheritance: Vec<Inheritance>,
}

/// The mathematical value of a [`FileSymbols`].
pub struct FileSymbolsView {
    pub file_path: Seq<char>,
    pub language: Option<Language>,
    pub content_hash: Seq<char>,
    pub line_count: u32,
    pub symbols: Seq<SymbolView>,
    pub imports: Seq<ImportView>,
    pub calls: Seq<CallView>,
    pub inheritance: Seq<InheritanceView>,
}

impl View for FileSymbols {
    type V = FileSymbolsView;

    open spec fn view(&self) -> FileSymbolsView {
        FileSymbolsView {
            file_path: self.file_path@,
            language: self.language,
            content_hash: self.content_hash@,
            line_count: self.line_count,
            symbols: self.symbols.deep_view(),
            imports: self.imports.deep_view(),
            calls: self.calls.deep_view(),
            inheritance: self.inheritance.deep_view(),
        }
    }
}

impl Default for FileSymbols {
    fn default() -> (r: FileSymbols)
        ensures
            r@.file_path.len() == 0,
            r@.language is None,
            r@.content_hash.len() == 0,
            r@.line_count == 0,
            r@.symbols.len() == 0,
            r@.imports.len() == 0,
            r@.calls.len() == 0,
            r@.inheritance.len() == 0,
    {
        FileSymbols {
            file_path: String::new(),
            language: None,
            content_hash: String::new(),
            line_count: 0,
            symbols: Vec::new(),
            imports: Vec::new(),
            calls: Vec::new(),
            inheritance: Vec::new(),
        }
    }
}

/// Index statistics.
#[derive(Debug, Clone)]
pub struct IndexStats {
    pub total_files: usize,
    pub files_by_language: Vec<(Language, usize)>,
    pub total_symbols: usize,
    pub symbols_by_kind: Vec<(SymbolKind, usize)>,
    pub total_calls: usize,
    pub total_imports: usize,
    pub last_indexed_commit: Option<String>,
}

impl Default for IndexStats {
    fn default() -> (r: IndexStats)
        ensures
            r.total_files == 0,
            r.files_by_language@.len() == 0,
            r.total_symbols == 0,
            r.symbols_by_kind@.len() == 0,
            r.total_calls == 0,
            r.total_imports == 0,
            r.last_indexed_commit is None,
    {
        IndexStats {
            total_files: 0,
            files_by_language: Vec::new(),
            total_symbols: 0,
            symbols_by_kind: Vec::new(),
            total_calls: 0,
            total_imports: 0,
            last_indexed_commit: None,
        }
    }
}

} // verus!
