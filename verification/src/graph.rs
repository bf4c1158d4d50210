//! The queries that write the index to the graph backend, and the decoding
//! of what the backend answers.

use crate::language::name_of;
use crate::model::opt_text;
use crate::model::texts;
use crate::model::visibility_name;
use crate::model::Call;
use crate::model::CallView;
use crate::model::FileSymbols;
use crate::model::FileSymbolsView;
use crate::model::Import;
use crate::model::ImportView;
use crate::model::Inheritance;
use crate::model::InheritanceView;
use crate::model::Symbol;
use crate::model::SymbolKind;
use crate::model::SymbolView;
use crate::text::chars_of;
use crate::text::decimal;
use crate::text::push_decimal;
use crate::text::push_str;
use crate::text::string_of;
use vstd::prelude::*;
use vstd::string::StringExecFns;

verus! {

// ---------------------------------------------------------------------------
// Trusted: JSON encoding of a list of strings
// ---------------------------------------------------------------------------
/// The JSON text of a list of strings, as `serde_json` writes it.
pub uninterp spec fn json_of_strings(items: Seq<Seq<char>>) -> Seq<char>;

/// `serde_json::to_string` of a list of strings returns its JSON text (an
/// array of string literals); the text is only named. A failure, which a
/// list of strings cannot cause, would give the empty text.
#[verifier::external_body]
fn json_array(items: &Vec<String>) -> (r: String)
    ensures
        r@ == json_of_strings(texts(items@)),
{
    serde_json::to_string(items).unwrap_or_default()
}

// ---------------------------------------------------------------------------
// Errors and statistics
// ---------------------------------------------------------------------------
/// Why a graph operation failed.
#[derive(Debug)]
pub enum GraphError {
    Connection(String),
    Query(String),
    Serialization(String),
    Schema(String),
}

/// The message of a graph error.
pub open spec fn graph_error_message(e: GraphError) -> Seq<char> {
    match e {
        GraphError::Connection(m) => "Database connection error: "@ + m@,
        GraphError::Query(m) => "Query execution error: "@ + m@,
        GraphError::Serialization(m) => "Serialization error: "@ + m@,
        GraphError::Schema(m) => "Schema error: "@ + m@,
    }
}

impl GraphError {
    /// The error's message.
    pub fn to_string(&self) -> (r: String)
        ensures
            r@ == graph_error_message(*self),
    {
        match self {
            GraphError::Connection(m) => String::from_str("Database connection error: ").concat(
                m.as_str(),
            ),
            GraphError::Query(m) => String::from_str("Query execution error: ").concat(m.as_str()),
            GraphError::Serialization(m) => String::from_str("Serialization error: ").concat(
                m.as_str(),
            ),
            GraphError::Schema(m) => String::from_str("Schema error: ").concat(m.as_str()),
        }
    }
}

/// Graph statistics.
#[derive(Debug, Clone, Copy, PartialEq, Eq, Structural)]
pub struct GraphStats {
    pub file_count: usize,
    pub function_count: usize,
    pub class_count: usize,
    pub struct_count: usize,
    pub calls_count: usize,
    pub imports_count: usize,
}

impl Default for GraphStats {
    fn default() -> (r: GraphStats)
        ensures
            r == (GraphStats {
                file_count: 0,
                function_count: 0,
                class_count: 0,
                struct_count: 0,
                calls_count: 0,
                imports_count: 0,
            }),
    {
        GraphStats {
            file_count: 0,
            function_count: 0,
            class_count: 0,
            struct_count: 0,
            calls_count: 0,
            imports_count: 0,
        }
    }
}

/// The text of graph statistics.
pub open spec fn graph_stats_text(stats: GraphStats) -> Seq<char> {
    "Graph Statistics:\n  Files:     "@ + decimal(stats.file_count as nat) + "\n  Functions: "@
        + decimal(stats.function_count as nat) + "\n  Classes:   "@ + decimal(
        stats.class_count as nat,
    ) + "\n  Structs:   "@ + decimal(stats.struct_count as nat) + "\n  Calls:     "@ + decimal(
        stats.calls_count as nat,
    ) + "\n  Imports:   "@ + decimal(stats.imports_count as nat) + "\n"@
}

impl GraphStats {
    /// The statistics as text, one count on each line.
    pub fn to_string(&self) -> (r: String)
        ensures
            r@ == graph_stats_text(*self),
    {
        let mut out = chars_of("Graph Statistics:\n  Files:     ");
        push_decimal(&mut out, self.file_count as u64);
        push_str(&mut out, "\n  Functions: ");
        push_decimal(&mut out, self.function_count as u64);
        push_str(&mut out, "\n  Classes:   ");
        push_decimal(&mut out, self.class_count as u64);
        push_str(&mut out, "\n  Structs:   ");
        push_decimal(&mut out, self.struct_count as u64);
        push_str(&mut out, "\n  Calls:     ");
        push_decimal(&mut out, self.calls_count as u64);
        push_str(&mut out, "\n  Imports:   ");
        push_decimal(&mut out, self.imports_count as u64);
        push_str(&mut out, "\n");
        string_of(out.as_slice())
    }
}

/// Statistics from write operations.
#[derive(Debug, Clone, Copy, PartialEq, Eq, Structural)]
pub struct WriteStats {
    pub files_written: usize,
    pub symbols_written: usize,
    pub imports_written: usize,
    pub calls_written: usize,
}

impl Default for WriteStats {
    fn default() -> (r: WriteStats)
        ensures
            r == (WriteStats {
                files_written: 0,
                symbols_written: 0,
                imports_written: 0,
                calls_written: 0,
            }),
    {
        WriteStats { files_written: 0, symbols_written: 0, imports_written: 0, calls_written: 0 }
    }
}

/// A sum that stops at the largest count.
pub open spec fn capped_sum(a: usize, b: nat) -> usize {
    if a + b > usize::MAX {
        usize::MAX
    } else {
        (a + b) as usize
    }
}

/// The text of write statistics.
pub open spec fn write_stats_text(stats: WriteStats) -> Seq<char> {
    "Write Statistics:\n  Files:   "@ + decimal(stats.files_written as nat) + "\n  Symbols: "@
        + decimal(stats.symbols_written as nat) + "\n  Imports: "@ + decimal(
        stats.imports_written as nat,
    ) + "\n  Calls:   "@ + decimal(stats.calls_written as nat) + "\n"@
}

impl WriteStats {
    /// The statistics as text, one count on each line.
    pub fn to_string(&self) -> (r: String)
        ensures
            r@ == write_stats_text(*self),
    {
        let mut out = chars_of("Write Statistics:\n  Files:   ");
        push_decimal(&mut out, self.files_written as u64);
        push_str(&mut out, "\n  Symbols: ");
        push_decimal(&mut out, self.symbols_written as u64);
        push_str(&mut out, "\n  Imports: ");
        push_decimal(&mut out, self.imports_written as u64);
        push_str(&mut out, "\n  Calls:   ");
        push_decimal(&mut out, self.calls_written as u64);
        push_str(&mut out, "\n");
        string_of(out.as_slice())
    }

    /// Counts one written file with its symbols, imports and calls; a count
    /// that would overflow stays at the largest value.
    pub fn record(&mut self, file: &FileSymbols)
        ensures
            final(self).files_written == capped_sum(old(self).files_written, 1),
            final(self).symbols_written == capped_sum(
                old(self).symbols_written,
                file@.symbols.len(),
            ),
            final(self).imports_written == capped_sum(
                old(self).imports_written,
                file@.imports.len(),
            ),
            final(self).calls_written == capped_sum(old(self).calls_written, file@.calls.len()),
    {
        self.files_written = self.files_written.saturating_add(1);
        self.symbols_written = self.symbols_written.saturating_add(file.symbols.len());
        self.imports_written = self.imports_written.saturating_add(file.imports.len());
        self.calls_written = self.calls_written.saturating_add(file.calls.len());
    }
}

// ---------------------------------------------------------------------------
// Escaping
// ---------------------------------------------------------------------------
/// What stands for one character inside a quoted string of a query.
pub open spec fn escaped_char(c: char) -> Seq<char> {
    if c == '\\' {
        seq!['\\', '\\']
    } else if c == '\'' {
        seq!['\\', '\'']
    } else if c == '\n' {
        seq!['\\', 'n']
    } else if c == '\r' {
        seq!['\\', 'r']
    } else if c == '\t' {
        seq!['\\', 't']
    } else {
        seq![c]
    }
}

/// The first `n` characters of a text, escaped.
pub open spec fn escaped_upto(s: Seq<char>, n: int) -> Seq<char>
    decreases n,
{
    if n <= 0 || n > s.len() {
        Seq::empty()
    } else {
        escaped_upto(s, n - 1) + escaped_char(s[n - 1])
    }
}

/// A text escaped for use inside a quoted string of a query: backslash,
/// single quote, newline, carriage return and tab are written as escapes.
pub open spec fn escaped(s: Seq<char>) -> Seq<char> {
    escaped_upto(s, s.len() as int)
}

/// Whether a character can follow a backslash in an escape.
pub open spec fn is_escape_letter(c: char) -> bool {
    c == '\\' || c == '\'' || c == 'n' || c == 'r' || c == 't'
}

/// Whether a text, read from position `i` on, can stand inside a quoted
/// string of a query: every backslash is followed by a backslash, a single
/// quote or one of the letters `n`, `r`, `t`, and outside of these escapes
/// there is no single quote, newline, carriage return or tab.
pub open spec fn is_safe_from(t: Seq<char>, i: int) -> bool
    decreases t.len() - i,
{
    if i < 0 || i >= t.len() {
        true
    } else if t[i] == '\\' {
        i + 1 < t.len() && is_escape_letter(t[i + 1]) && is_safe_from(t, i + 2)
    } else {
        t[i] != '\'' && t[i] != '\n' && t[i] != '\r' && t[i] != '\t' && is_safe_from(t, i + 1)
    }
}

proof fn lemma_safe_append(t: Seq<char>, c: char, i: int)
    requires
        0 <= i <= t.len(),
        is_safe_from(t, i),
    ensures
        is_safe_from(t + escaped_char(c), i),
    decreases t.len() - i,
{
    let e = escaped_char(c);
    let u = t + e;
    if i < t.len() {
        assert(u[i] == t[i]);
        if t[i] == '\\' {
            assert(i + 1 < t.len());
            assert(u[i + 1] == t[i + 1]);
            lemma_safe_append(t, c, i + 2);
        } else {
            lemma_safe_append(t, c, i + 1);
        }
    } else {
        assert(u[i] == e[0]);
        if e.len() == 2 {
            assert(u[i + 1] == e[1]);
            assert(is_safe_from(u, i + 2));
        } else {
            assert(is_safe_from(u, i + 1));
        }
    }
}

/// Every escaped text is safe inside a quoted string of a query.
pub proof fn lemma_escaped_is_safe(s: Seq<char>)
    ensures
        is_safe_from(escaped(s), 0),
{
    lemma_escaped_upto_is_safe(s, s.len() as int);
}

proof fn lemma_escaped_upto_is_safe(s: Seq<char>, n: int)
    requires
        0 <= n <= s.len(),
    ensures
        is_safe_from(escaped_upto(s, n), 0),
    decreases n,
{
    if n > 0 {
        lemma_escaped_upto_is_safe(s, n - 1);
        lemma_safe_append(escaped_upto(s, n - 1), s[n - 1], 0);
    }
}

/// Appends the escaped form of `s`.
pub fn push_escaped(out: &mut Vec<char>, s: &str)
    ensures
        final(out)@ == old(out)@ + escaped(s@),
{
    let chars = chars_of(s);
    let ghost before = out@;
    let mut i: usize = 0;
    assert(out@ == before + escaped_upto(chars@, 0));
    while i < chars.len()
        invariant
            i <= chars.len(),
            out@ == before + escaped_upto(chars@, i as int),
        decreases chars.len() - i,
    {
        let c = chars[i];
        let ghost so_far = escaped_upto(chars@, i as int);
        if c == '\\' {
            out.push('\\');
            out.push('\\');
        } else if c == '\'' {
            out.push('\\');
            out.push('\'');
        } else if c == '\n' {
            out.push('\\');
            out.push('n');
        } else if c == '\r' {
            out.push('\\');
            out.push('r');
        } else if c == '\t' {
            out.push('\\');
            out.push('t');
        } else {
            out.push(c);
        }
        assert(out@ == before + (so_far + escaped_char(c)));
        i += 1;
    }
}

/// Escapes a string for use inside a quoted string of a query.
pub fn escape_string(s: &str) -> (r: String)
    ensures
        r@ == escaped(s@),
{
    let mut out: Vec<char> = Vec::new();
    push_escaped(&mut out, s);
    assert(out@ == escaped(s@));
    string_of(out.as_slice())
}

// ---------------------------------------------------------------------------
// Schema queries
// ---------------------------------------------------------------------------
/// The node label of a symbol kind.
pub open spec fn label_of(kind: SymbolKind) -> Seq<char> {
    match kind {
        SymbolKind::Function => "Function"@,
        SymbolKind::Class => "Class"@,
        SymbolKind::Struct => "Struct"@,
        SymbolKind::Interface => "Interface"@,
        SymbolKind::Module => "Module"@,
        SymbolKind::Method => "Method"@,
        SymbolKind::Trait => "Trait"@,
        SymbolKind::Enum => "Enum"@,
        SymbolKind::Constant => "Constant"@,
        SymbolKind::Variable => "Variable"@,
    }
}

/// Converts a symbol kind to its node label.
pub fn symbol_kind_to_label(kind: SymbolKind) -> (r: &'static str)
    ensures
        r@ == label_of(kind),
{
    match kind {
        SymbolKind::Function => "Function",
        SymbolKind::Class => "Class",
        SymbolKind::Struct => "Struct",
        SymbolKind::Interface => "Interface",
        SymbolKind::Module => "Module",
        SymbolKind::Method => "Method",
        SymbolKind::Trait => "Trait",
        SymbolKind::Enum => "Enum",
        SymbolKind::Constant => "Constant",
        SymbolKind::Variable => "Variable",
    }
}

/// The queries that create the indexes of the schema.
pub open spec fn index_query_texts() -> Seq<Seq<char>> {
    seq![
        "CREATE INDEX FOR (f:File) ON (f.path)"@,
        "CREATE INDEX FOR (fn:Function) ON (fn.name)"@,
        "CREATE INDEX FOR (fn:Function) ON (fn.file_path)"@,
        "CREATE INDEX FOR (c:Class) ON (c.name)"@,
        "CREATE INDEX FOR (c:Class) ON (c.file_path)"@,
        "CREATE INDEX FOR (s:Struct) ON (s.name)"@,
        "CREATE INDEX FOR (s:Struct) ON (s.file_path)"@,
        "CREATE INDEX FOR (i:Interface) ON (i.name)"@,
        "CREATE INDEX FOR (m:Module) ON (m.name)"@,
    ]
}

/// The queries that create the indexes of the schema; the backend's error
/// for an index that exists already is to be ignored.
pub fn index_queries() -> (r: Vec<&'static str>)
    ensures
        crate::text::slice_texts(r@) == index_query_texts(),
{
    let r = vec![
        "CREATE INDEX FOR (f:File) ON (f.path)",
        "CREATE INDEX FOR (fn:Function) ON (fn.name)",
        "CREATE INDEX FOR (fn:Function) ON (fn.file_path)",
        "CREATE INDEX FOR (c:Class) ON (c.name)",
        "CREATE INDEX FOR (c:Class) ON (c.file_path)",
        "CREATE INDEX FOR (s:Struct) ON (s.name)",
        "CREATE INDEX FOR (s:Struct) ON (s.file_path)",
        "CREATE INDEX FOR (i:Interface) ON (i.name)",
        "CREATE INDEX FOR (m:Module) ON (m.name)",
    ];
    assert(crate::text::slice_texts(r@) =~= index_query_texts());
    r
}

/// The query that removes everything from the graph.
pub fn clear_query() -> (r: &'static str)
    ensures
        r@ == "MATCH (n) DETACH DELETE n"@,
{
    "MATCH (n) DETACH DELETE n"
}

/// The query that removes a file node and what it contains.
pub open spec fn delete_contained_text(path: Seq<char>) -> Seq<char> {
    "\n            MATCH (f:File {path: '"@ + escaped(path)
        + "'})\n            OPTIONAL MATCH (f)-[:CONTAINS]->(s)\n            DETACH DELETE f, s\n            "@
}

/// The query that removes every node that names the file as its own.
pub open spec fn delete_orphans_text(path: Seq<char>) -> Seq<char> {
    "\n            MATCH (s)\n            WHERE s.file_path = '"@ + escaped(path)
        + "'\n            DETACH DELETE s\n            "@
}

/// The two queries that delete all data of a file: first the file node with
/// what it contains, then the symbols left over that name the file.
pub fn delete_file_queries(file_path: &str) -> (r: (String, String))
    ensures
        r.0@ == delete_contained_text(file_path@),
        r.1@ == delete_orphans_text(file_path@),
{
    let mut first = chars_of("\n            MATCH (f:File {path: '");
    push_escaped(&mut first, file_path);
    push_str(
        &mut first,
        "'})\n            OPTIONAL MATCH (f)-[:CONTAINS]->(s)\n            DETACH DELETE f, s\n            ",
    );
    let mut second = chars_of("\n            MATCH (s)\n            WHERE s.file_path = '");
    push_escaped(&mut second, file_path);
    push_str(&mut second, "'\n            DETACH DELETE s\n            ");
    (string_of(first.as_slice()), string_of(second.as_slice()))
}

/// The query that reads a metadata value.
pub open spec fn get_metadata_text(key: Seq<char>) -> Seq<char> {
    "MATCH (m:Metadata {key: '"@ + escaped(key) + "'}) RETURN m.value"@
}

/// The query that reads the metadata value of a key.
pub fn get_metadata_query(key: &str) -> (r: String)
    ensures
        r@ == get_metadata_text(key@),
{
    let mut out = chars_of("MATCH (m:Metadata {key: '");
    push_escaped(&mut out, key);
    push_str(&mut out, "'}) RETURN m.value");
    string_of(out.as_slice())
}

/// The query that writes a metadata value.
pub open spec fn set_metadata_text(key: Seq<char>, value: Seq<char>) -> Seq<char> {
    "\n            MERGE (m:Metadata {key: '"@ + escaped(key) + "'})\n            SET m.value = '"@
        + escaped(value) + "'\n            "@
}

/// The query that sets the metadata value of a key.
pub fn set_metadata_query(key: &str, value: &str) -> (r: String)
    ensures
        r@ == set_metadata_text(key@, value@),
{
    let mut out = chars_of("\n            MERGE (m:Metadata {key: '");
    push_escaped(&mut out, key);
    push_str(&mut out, "'})\n            SET m.value = '");
    push_escaped(&mut out, value);
    push_str(&mut out, "'\n            ");
    string_of(out.as_slice())
}

/// The metadata key under which the revision of the last index is kept.
pub fn last_indexed_commit_key() -> (r: &'static str)
    ensures
        r@ == "last_indexed_commit"@,
{
    "last_indexed_commit"
}

/// The queries that count files, functions, classes, structs, calls and
/// imports, in the order of the fields of [`GraphStats`].
pub fn stats_queries() -> (r: Vec<&'static str>)
    ensures
        r.len() == 6,
        r[0]@ == "MATCH (f:File) RETURN count(f)"@,
        r[1]@ == "MATCH (f:Function) RETURN count(f)"@,
        r[2]@ == "MATCH (c:Class) RETURN count(c)"@,
        r[3]@ == "MATCH (s:Struct) RETURN count(s)"@,
        r[4]@ == "MATCH ()-[r:CALLS]->() RETURN count(r)"@,
        r[5]@ == "MATCH ()-[r:IMPORTS]->() RETURN count(r)"@,
{
    vec![
        "MATCH (f:File) RETURN count(f)",
        "MATCH (f:Function) RETURN count(f)",
        "MATCH (c:Class) RETURN count(c)",
        "MATCH (s:Struct) RETURN count(s)",
        "MATCH ()-[r:CALLS]->() RETURN count(r)",
        "MATCH ()-[r:IMPORTS]->() RETURN count(r)",
    ]
}

// ---------------------------------------------------------------------------
// Write queries
// ---------------------------------------------------------------------------
/// The text of a flag.
pub open spec fn flag_text(b: bool) -> Seq<char> {
    if b {
        "true"@
    } else {
        "false"@
    }
}

/// An optional text, empty if absent.
pub open spec fn text_or_empty(o: Option<Seq<char>>) -> Seq<char> {
    match o {
        Some(t) => t,
        None => Seq::empty(),
    }
}

/// The query that writes the node of a file.
pub open spec fn file_query_text(file: FileSymbolsView) -> Seq<char> {
    "\n            MERGE (f:File {path: '"@ + escaped(file.file_path)
        + "'})\n            SET f.language = '"@ + escaped(
        match file.language {
            Some(l) => name_of(l),
            None => Seq::empty(),
        },
    ) + "',\n                f.hash = '"@ + escaped(file.content_hash)
        + "',\n                f.line_count = "@ + decimal(file.line_count as nat)
        + ",\n                f.last_indexed = timestamp()\n            "@
}

/// The query that writes the node of a symbol and ties it to its file.
pub open spec fn symbol_query_text(s: SymbolView, file_path: Seq<char>) -> Seq<char> {
    "\n            MERGE (s:"@ + label_of(s.kind) + " {id: '"@ + escaped(s.id)
        + "'})\n            SET s.name = '"@ + escaped(s.name)
        + "',\n                s.file_path = '"@ + escaped(file_path)
        + "',\n                s.start_line = "@ + decimal(s.start_line as nat)
        + ",\n                s.end_line = "@ + decimal(s.end_line as nat)
        + ",\n                s.signature = '"@ + escaped(text_or_empty(s.signature))
        + "',\n                s.visibility = '"@ + escaped(visibility_name(s.visibility))
        + "',\n                s.is_async = "@ + flag_text(s.is_async)
        + ",\n                s.docstring = '"@ + escaped(text_or_empty(s.docstring))
        + "',\n                s.language = '"@ + name_of(s.language)
        + "'\n            WITH s\n            MATCH (f:File {path: '"@ + escaped(file_path)
        + "'})\n            MERGE (f)-[:CONTAINS]->(s)\n            "@
}

/// The query that ties a symbol to its parent.
pub open spec fn parent_query_text(parent_id: Seq<char>, id: Seq<char>) -> Seq<char> {
    "\n                MATCH (p {id: '"@ + escaped(parent_id) + "'})\n                MATCH (c {id: '"@
        + escaped(id) + "'})\n                MERGE (p)-[:CONTAINS]->(c)\n                "@
}

/// The query that writes an import.
pub open spec fn import_query_text(import: ImportView) -> Seq<char> {
    "\n            MERGE (m:Module {name: '"@ + escaped(import.target)
        + "'})\n            SET m.is_external = true\n            WITH m\n            MATCH (f:File {path: '"@
        + escaped(import.source_file)
        + "'})\n            MERGE (f)-[r:IMPORTS]->(m)\n            SET r.alias = '"@ + escaped(
        text_or_empty(import.alias),
    ) + "',\n                r.items = '"@ + escaped(json_of_strings(import.items))
        + "',\n                r.line = "@ + decimal(import.line as nat) + "\n            "@
}

/// The query that writes a call, if a function of the callee's name exists.
pub open spec fn call_query_text(call: CallView) -> Seq<char> {
    "\n            MATCH (caller {id: '"@ + escaped(call.caller_id)
        + "'})\n            OPTIONAL MATCH (callee:Function {name: '"@ + escaped(call.callee_name)
        + "'})\n            FOREACH (_ IN CASE WHEN callee IS NOT NULL THEN [1] ELSE [] END |\n                MERGE (caller)-[r:CALLS]->(callee)\n                SET r.call_site_line = "@
        + decimal(call.call_site_line as nat) + "\n            )\n            "@
}

/// The query that writes an inheritance, if a type of the parent's name
/// exists.
pub open spec fn inheritance_query_text(inheritance: InheritanceView) -> Seq<char> {
    "\n            MATCH (child {id: '"@ + escaped(inheritance.child_id)
        + "'})\n            OPTIONAL MATCH (parent)\n            WHERE (parent:Class OR parent:Struct OR parent:Interface OR parent:Trait)\n              AND parent.name = '"@
        + escaped(inheritance.parent_name)
        + "'\n            FOREACH (_ IN CASE WHEN parent IS NOT NULL THEN [1] ELSE [] END |\n                MERGE (child)-[:INHERITS]->(parent)\n            )\n            "@
}

fn push_opt_escaped(out: &mut Vec<char>, o: &Option<String>)
    ensures
        final(out)@ == old(out)@ + escaped(text_or_empty(opt_text(*o))),
{
    match o {
        Some(s) => {
            push_escaped(out, s.as_str());
        },
        None => {
            push_escaped(out, "");
            proof {
                reveal_strlit("");
            }
            assert(""@ =~= Seq::<char>::empty());
        },
    }
}

/// The query that writes the node of a file.
pub fn file_query(file: &FileSymbols) -> (r: String)
    ensures
        r@ == file_query_text(file@),
{
    let mut out = chars_of("\n            MERGE (f:File {path: '");
    push_escaped(&mut out, file.file_path.as_str());
    push_str(&mut out, "'})\n            SET f.language = '");
    match file.language {
        Some(l) => {
            push_escaped(&mut out, l.name());
        },
        None => {
            push_escaped(&mut out, "");
            proof {
                reveal_strlit("");
            }
            assert(""@ =~= Seq::<char>::empty());
        },
    }
    push_str(&mut out, "',\n                f.hash = '");
    push_escaped(&mut out, file.content_hash.as_str());
    push_str(&mut out, "',\n                f.line_count = ");
    push_decimal(&mut out, file.line_count as u64);
    push_str(&mut out, ",\n                f.last_indexed = timestamp()\n            ");
    string_of(out.as_slice())
}

/// The query that writes the node of a symbol and ties it to its file.
pub fn symbol_query(symbol: &Symbol, file_path: &str) -> (r: String)
    ensures
        r@ == symbol_query_text(symbol@, file_path@),
{
    let mut out = chars_of("\n            MERGE (s:");
    push_str(&mut out, symbol_kind_to_label(symbol.kind));
    push_str(&mut out, " {id: '");
    push_escaped(&mut out, symbol.id.as_str());
    push_str(&mut out, "'})\n            SET s.name = '");
    push_escaped(&mut out, symbol.name.as_str());
    push_str(&mut out, "',\n                s.file_path = '");
    push_escaped(&mut out, file_path);
    push_str(&mut out, "',\n                s.start_line = ");
    push_decimal(&mut out, symbol.start_line as u64);
    push_str(&mut out, ",\n                s.end_line = ");
    push_decimal(&mut out, symbol.end_line as u64);
    push_str(&mut out, ",\n                s.signature = '");
    push_opt_escaped(&mut out, &symbol.signature);
    push_str(&mut out, "',\n                s.visibility = '");
    push_escaped(&mut out, symbol.visibility.as_str());
    push_str(&mut out, "',\n                s.is_async = ");
    push_str(
        &mut out,
        if symbol.is_async {
            "true"
        } else {
            "false"
        },
    );
    push_str(&mut out, ",\n                s.docstring = '");
    push_opt_escaped(&mut out, &symbol.docstring);
    push_str(&mut out, "',\n                s.language = '");
    push_str(&mut out, symbol.language.name());
    push_str(&mut out, "'\n            WITH s\n            MATCH (f:File {path: '");
    push_escaped(&mut out, file_path);
    push_str(&mut out, "'})\n            MERGE (f)-[:CONTAINS]->(s)\n            ");
    string_of(out.as_slice())
}

/// The query that ties a symbol to its parent.
pub fn parent_query(parent_id: &str, id: &str) -> (r: String)
    ensures
        r@ == parent_query_text(parent_id@, id@),
{
    let mut out = chars_of("\n                MATCH (p {id: '");
    push_escaped(&mut out, parent_id);
    push_str(&mut out, "'})\n                MATCH (c {id: '");
    push_escaped(&mut out, id);
    push_str(&mut out, "'})\n                MERGE (p)-[:CONTAINS]->(c)\n                ");
    string_of(out.as_slice())
}

/// The query that writes an import.
pub fn import_query(import: &Import) -> (r: String)
    ensures
        r@ == import_query_text(import@),
{
    let items = json_array(&import.items);
    let mut out = chars_of("\n            MERGE (m:Module {name: '");
    push_escaped(&mut out, import.target.as_str());
    push_str(
        &mut out,
        "'})\n            SET m.is_external = true\n            WITH m\n            MATCH (f:File {path: '",
    );
    push_escaped(&mut out, import.source_file.as_str());
    push_str(
        &mut out,
        "'})\n            MERGE (f)-[r:IMPORTS]->(m)\n            SET r.alias = '",
    );
    push_opt_escaped(&mut out, &import.alias);
    push_str(&mut out, "',\n                r.items = '");
    push_escaped(&mut out, items.as_str());
    push_str(&mut out, "',\n                r.line = ");
    push_decimal(&mut out, import.line as u64);
    push_str(&mut out, "\n            ");
    string_of(out.as_slice())
}

/// The query that writes a call.
pub fn call_query(call: &Call) -> (r: String)
    ensures
        r@ == call_query_text(call@),
{
    let mut out = chars_of("\n            MATCH (caller {id: '");
    push_escaped(&mut out, call.caller_id.as_str());
    push_str(&mut out, "'})\n            OPTIONAL MATCH (callee:Function {name: '");
    push_escaped(&mut out, call.callee_name.as_str());
    push_str(
        &mut out,
        "'})\n            FOREACH (_ IN CASE WHEN callee IS NOT NULL THEN [1] ELSE [] END |\n                MERGE (caller)-[r:CALLS]->(callee)\n                SET r.call_site_line = ",
    );
    push_decimal(&mut out, call.call_site_line as u64);
    push_str(&mut out, "\n            )\n            ");
    string_of(out.as_slice())
}

/// The query that writes an inheritance.
pub fn inheritance_query(inheritance: &Inheritance) -> (r: String)
    ensures
        r@ == inheritance_query_text(inheritance@),
{
    let mut out = chars_of("\n            MATCH (child {id: '");
    push_escaped(&mut out, inheritance.child_id.as_str());
    push_str(
        &mut out,
        "'})\n            OPTIONAL MATCH (parent)\n            WHERE (parent:Class OR parent:Struct OR parent:Interface OR parent:Trait)\n              AND parent.name = '",
    );
    push_escaped(&mut out, inheritance.parent_name.as_str());
    push_str(
        &mut out,
        "'\n            FOREACH (_ IN CASE WHEN parent IS NOT NULL THEN [1] ELSE [] END |\n                MERGE (child)-[:INHERITS]->(parent)\n            )\n            ",
    );
    string_of(out.as_slice())
}

/// The queries that write one symbol: its node, then its tie to its parent
/// if it has one.
pub open spec fn symbol_queries(s: SymbolView, file_path: Seq<char>) -> Seq<Seq<char>> {
    match s.parent_id {
        Some(p) => seq![symbol_query_text(s, file_path), parent_query_text(p, s.id)],
        None => seq![symbol_query_text(s, file_path)],
    }
}

/// The queries that write the first `n` symbols.
pub open spec fn symbols_queries_upto(symbols: Seq<SymbolView>, file_path: Seq<char>, n: int)
    -> Seq<Seq<char>>
    decreases n,
{
    if n <= 0 || n > symbols.len() {
        Seq::empty()
    } else {
        symbols_queries_upto(symbols, file_path, n - 1) + symbol_queries(symbols[n - 1], file_path)
    }
}

/// The queries that write the first `n` imports.
pub open spec fn imports_queries_upto(imports: Seq<ImportView>, n: int) -> Seq<Seq<char>>
    decreases n,
{
    if n <= 0 || n > imports.len() {
        Seq::empty()
    } else {
        imports_queries_upto(imports, n - 1).push(import_query_text(imports[n - 1]))
    }
}

/// The queries that write the first `n` calls.
pub open spec fn calls_queries_upto(calls: Seq<CallView>, n: int) -> Seq<Seq<char>>
    decreases n,
{
    if n <= 0 || n > calls.len() {
        Seq::empty()
    } else {
        calls_queries_upto(calls, n - 1).push(call_query_text(calls[n - 1]))
    }
}

/// The queries that write the first `n` inheritance records.
pub open spec fn inheritance_queries_upto(records: Seq<InheritanceView>, n: int) -> Seq<Seq<char>>
    decreases n,
{
    if n <= 0 || n > records.len() {
        Seq::empty()
    } else {
        inheritance_queries_upto(records, n - 1).push(inheritance_query_text(records[n - 1]))
    }
}

/// The queries that write a file, in the order in which they are run: the
/// file node, then its symbols, its imports, its calls and its inheritance
/// records.
pub open spec fn write_file_texts(file: FileSymbolsView) -> Seq<Seq<char>> {
    seq![file_query_text(file)] + symbols_queries_upto(
        file.symbols,
        file.file_path,
        file.symbols.len() as int,
    ) + imports_queries_upto(file.imports, file.imports.len() as int) + calls_queries_upto(
        file.calls,
        file.calls.len() as int,
    ) + inheritance_queries_upto(file.inheritance, file.inheritance.len() as int)
}

/// The queries that write a single file's symbols, in the order in which
/// they are to be run.
pub fn write_file_queries(file: &FileSymbols) -> (r: Vec<String>)
    ensures
        texts(r@) == write_file_texts(file@),
{
    let mut out: Vec<String> = Vec::new();
    let first = file_query(file);
    out.push(first);
    assert(texts(out@) =~= seq![file_query_text(file@)]);
    let ghost head = texts(out@);
    let ghost symbols = file@.symbols;
    let ghost path = file@.file_path;
    let mut i: usize = 0;
    assert(texts(out@) == head + symbols_queries_upto(symbols, path, 0));
    while i < file.symbols.len()
        invariant
            i <= file.symbols.len(),
            symbols == file.symbols.deep_view(),
            path == file.file_path@,
            texts(out@) == head + symbols_queries_upto(symbols, path, i as int),
        decreases file.symbols.len() - i,
    {
        let s = &file.symbols[i];
        assert(symbols[i as int] == s@);
        let ghost so_far = symbols_queries_upto(symbols, path, i as int);
        let q = symbol_query(s, file.file_path.as_str());
        proof {
            assert(texts(out@.push(q)) == texts(out@).push(q@));
        }
        out.push(q);
        match &s.parent_id {
            Some(p) => {
                let pq = parent_query(p.as_str(), s.id.as_str());
                proof {
                    assert(texts(out@.push(pq)) == texts(out@).push(pq@));
                }
                out.push(pq);
                assert(texts(out@) == head + (so_far + seq![q@, pq@]));
            },
            None => {
                assert(texts(out@) == head + (so_far + seq![q@]));
            },
        }
        i += 1;
    }
    let ghost after_symbols = texts(out@);
    let ghost imports = file@.imports;
    let mut i: usize = 0;
    assert(texts(out@) == after_symbols + imports_queries_upto(imports, 0));
    while i < file.imports.len()
        invariant
            i <= file.imports.len(),
            imports == file.imports.deep_view(),
            texts(out@) == after_symbols + imports_queries_upto(imports, i as int),
        decreases file.imports.len() - i,
    {
        assert(imports[i as int] == file.imports[i as int]@);
        let q = import_query(&file.imports[i]);
        proof {
            let so_far = imports_queries_upto(imports, i as int);
            assert(texts(out@.push(q)) == texts(out@).push(q@));
            assert((after_symbols + so_far).push(q@) == after_symbols + so_far.push(q@));
        }
        out.push(q);
        i += 1;
    }
    let ghost after_imports = texts(out@);
    let ghost calls = file@.calls;
    let mut i: usize = 0;
    assert(texts(out@) == after_imports + calls_queries_upto(calls, 0));
    while i < file.calls.len()
        invariant
            i <= file.calls.len(),
            calls == file.calls.deep_view(),
            texts(out@) == after_imports + calls_queries_upto(calls, i as int),
        decreases file.calls.len() - i,
    {
        assert(calls[i as int] == file.calls[i as int]@);
        let q = call_query(&file.calls[i]);
        proof {
            let so_far = calls_queries_upto(calls, i as int);
            assert(texts(out@.push(q)) == texts(out@).push(q@));
            assert((after_imports + so_far).push(q@) == after_imports + so_far.push(q@));
        }
        out.push(q);
        i += 1;
    }
    let ghost after_calls = texts(out@);
    let ghost records = file@.inheritance;
    let mut i: usize = 0;
    assert(texts(out@) == after_calls + inheritance_queries_upto(records, 0));
    while i < file.inheritance.len()
        invariant
            i <= file.inheritance.len(),
            records == file.inheritance.deep_view(),
            texts(out@) == after_calls + inheritance_queries_upto(records, i as int),
        decreases file.inheritance.len() - i,
    {
        assert(records[i as int] == file.inheritance[i as int]@);
        let q = inheritance_query(&file.inheritance[i]);
        proof {
            let so_far = inheritance_queries_upto(records, i as int);
            assert(texts(out@.push(q)) == texts(out@).push(q@));
            assert((after_calls + so_far).push(q@) == after_calls + so_far.push(q@));
        }
        out.push(q);
        i += 1;
    }
    out
}

// ---------------------------------------------------------------------------
// Answers
// ---------------------------------------------------------------------------
/// A value that the backend answers with, as far as the index reads it.
#[derive(Debug, Clone)]
pub enum GraphValue {
    /// No value.
    Null,
    /// A boolean.
    Bool(bool),
    /// A signed integer.
    Integer(i64),
    /// A string.
    Text(String),
    /// A value of another type, by its printed form.
    Other(String),
}

/// The text of a value; empty if there is no value or it is no string.
pub open spec fn text_of(value: Option<GraphValue>) -> Seq<char> {
    match value {
        Some(GraphValue::Text(s)) => s@,
        _ => Seq::empty(),
    }
}

/// The integer of a value; zero if there is no value or it is no integer.
pub open spec fn integer_of(value: Option<GraphValue>) -> i64 {
    match value {
        Some(GraphValue::Integer(n)) => n,
        _ => 0,
    }
}

/// The first value of the first row.
pub open spec fn first_value(rows: Seq<Vec<GraphValue>>) -> Option<GraphValue> {
    if rows.len() > 0 && rows[0]@.len() > 0 {
        Some(rows[0]@[0])
    } else {
        None
    }
}

/// Reads a string out of a value; empty if there is none.
pub fn extract_string(value: Option<&GraphValue>) -> (r: String)
    ensures
        r@ == text_of(
            match value {
                Some(v) => Some(*v),
                None => None,
            },
        ),
{
    match value {
        Some(GraphValue::Text(s)) => s.clone(),
        _ => String::new(),
    }
}

/// Reads an integer out of a value; zero if there is none.
pub fn extract_i64(value: Option<&GraphValue>) -> (r: i64)
    ensures
        r == integer_of(
            match value {
                Some(v) => Some(*v),
                None => None,
            },
        ),
{
    match value {
        Some(GraphValue::Integer(n)) => *n,
        _ => 0,
    }
}

/// The count that a counting query answered: the integer at the start of
/// its first row, zero if there is none or it is negative.
pub open spec fn count_of_rows(rows: Seq<Vec<GraphValue>>) -> usize {
    let n = integer_of(first_value(rows));
    if 0 <= n <= usize::MAX {
        n as usize
    } else {
        0
    }
}

/// Reads the count that a counting query answered.
pub fn read_count(rows: &Vec<Vec<GraphValue>>) -> (r: usize)
    ensures
        r == count_of_rows(rows@),
{
    if rows.len() > 0 && rows[0].len() > 0 {
        match &rows[0][0] {
            GraphValue::Integer(n) => {
                if *n >= 0 && (*n as u64) <= usize::MAX as u64 {
                    *n as usize
                } else {
                    0
                }
            },
            _ => 0,
        }
    } else {
        0
    }
}

/// Reads the metadata value that a metadata query answered: the string at
/// the start of its first row.
pub fn read_metadata(rows: &Vec<Vec<GraphValue>>) -> (r: Option<String>)
    ensures
        match r {
            Some(s) => first_value(rows@) == Some(GraphValue::Text(s)),
            None => !(first_value(rows@) is Some && first_value(rows@)->0 is Text),
        },
{
    if rows.len() > 0 && rows[0].len() > 0 {
        match &rows[0][0] {
            GraphValue::Text(s) => Some(s.clone()),
            _ => None,
        }
    } else {
        None
    }
}

} // verus!
