//! Indexing orchestration: what a full and an incremental run have to do,
//! step by step, as functions from the state of a run and the outcome of its
//! last action to its next action. Performing the actions is left to the
//! caller.

use crate::crawler::contains_language;
use crate::crawler::cpu_count;
use crate::crawler::detect_language;
use crate::crawler::language_allowed;
use crate::crawler::language_of_path;
use crate::crawler::CrawlerError;
use crate::extractor::file_symbols;
use crate::extractor::line_count;
use crate::extractor::ExtractorError;
use crate::extractor::SymbolExtractor;
use crate::git::ChangeKind;
use crate::git::ChangedFile;
use crate::git::ChangedFileView;
use crate::git::GitError;
use crate::graph::GraphError;
use crate::graph::WriteStats;
use crate::language::Language;
use crate::languages::common::all_valid;
use crate::model::FileSymbols;
use crate::pool::grammar_loads;
use crate::pool::parsed_nodes;
use crate::pool::ParserError;
use crate::pool::ParserPool;
use crate::syntax::well_formed;
use crate::text::chars_of;
use crate::text::copy_range;
use crate::text::decimal;
use crate::text::push_decimal;
use crate::text::push_str;
use crate::text::extension;
use crate::text::extension_of;
use crate::text::string_of;
use vstd::prelude::*;
use vstd::string::StringExecFns;

verus! {

/// Why an indexing run failed.
#[derive(Debug)]
pub enum IndexError {
    Crawler(CrawlerError),
    Parser(ParserError),
    Extractor(ExtractorError),
    Graph(GraphError),
    Git(GitError),
    /// An I/O error, by its message.
    Io(String),
}

/// The message of an indexing error.
pub open spec fn index_error_message(e: IndexError) -> Seq<char> {
    match e {
        IndexError::Crawler(e) => "Crawler error: "@ + crate::crawler::crawler_error_message(e),
        IndexError::Parser(e) => "Parser error: "@ + crate::pool::parser_error_message(e),
        IndexError::Extractor(e) => "Extractor error: "@
            + crate::extractor::extractor_error_message(e),
        IndexError::Graph(e) => "Graph error: "@ + crate::graph::graph_error_message(e),
        IndexError::Git(e) => "Git error: "@ + crate::git::git_error_message(e),
        IndexError::Io(m) => "IO error: "@ + m@,
    }
}

impl IndexError {
    /// The error's message.
    pub fn to_string(&self) -> (r: String)
        ensures
            r@ == index_error_message(*self),
    {
        match self {
            IndexError::Crawler(e) => String::from_str("Crawler error: ").concat(
                e.to_string().as_str(),
            ),
            IndexError::Parser(e) => String::from_str("Parser error: ").concat(
                e.to_string().as_str(),
            ),
            IndexError::Extractor(e) => String::from_str("Extractor error: ").concat(
                e.to_string().as_str(),
            ),
            IndexError::Graph(e) => String::from_str("Graph error: ").concat(
                e.to_string().as_str(),
            ),
            IndexError::Git(e) => String::from_str("Git error: ").concat(e.to_string().as_str()),
            IndexError::Io(m) => String::from_str("IO error: ").concat(m.as_str()),
        }
    }
}

/// Statistics from an indexing operation.
#[derive(Debug, Clone, Copy, PartialEq, Eq, Structural)]
pub struct IndexingStats {
    /// Number of files discovered.
    pub files_discovered: usize,
    /// Number of files parsed.
    pub files_parsed: usize,
    /// Number of files skipped (already indexed).
    pub files_skipped: usize,
    /// Number of files that failed to parse.
    pub files_failed: usize,
    /// Write statistics.
    pub write_stats: WriteStats,
    /// Total duration in milliseconds.
    pub duration_millis: u64,
}

/// The statistics of a run that has done nothing yet.
pub open spec fn no_stats() -> IndexingStats {
    IndexingStats {
        files_discovered: 0,
        files_parsed: 0,
        files_skipped: 0,
        files_failed: 0,
        write_stats: WriteStats {
            files_written: 0,
            symbols_written: 0,
            imports_written: 0,
            calls_written: 0,
        },
        duration_millis: 0,
    }
}

impl Default for IndexingStats {
    fn default() -> (r: IndexingStats)
        ensures
            r == no_stats(),
    {
        IndexingStats {
            files_discovered: 0,
            files_parsed: 0,
            files_skipped: 0,
            files_failed: 0,
            write_stats: WriteStats {
                files_written: 0,
                symbols_written: 0,
                imports_written: 0,
                calls_written: 0,
            },
            duration_millis: 0,
        }
    }
}

/// The text of indexing statistics.
pub open spec fn indexing_stats_text(stats: IndexingStats) -> Seq<char> {
    "Indexing Statistics:\n  Files discovered: "@ + decimal(stats.files_discovered as nat)
        + "\n  Files parsed:     "@ + decimal(stats.files_parsed as nat)
        + "\n  Files skipped:    "@ + decimal(stats.files_skipped as nat)
        + "\n  Files failed:     "@ + decimal(stats.files_failed as nat)
        + "\n  Symbols written:  "@ + decimal(stats.write_stats.symbols_written as nat)
        + "\n  Duration:         "@ + decimal(stats.duration_millis as nat) + "ms\n"@
}

impl IndexingStats {
    /// The statistics as text, one count on each line.
    pub fn to_string(&self) -> (r: String)
        ensures
            r@ == indexing_stats_text(*self),
    {
        let mut out = chars_of("Indexing Statistics:\n  Files discovered: ");
        push_decimal(&mut out, self.files_discovered as u64);
        push_str(&mut out, "\n  Files parsed:     ");
        push_decimal(&mut out, self.files_parsed as u64);
        push_str(&mut out, "\n  Files skipped:    ");
        push_decimal(&mut out, self.files_skipped as u64);
        push_str(&mut out, "\n  Files failed:     ");
        push_decimal(&mut out, self.files_failed as u64);
        push_str(&mut out, "\n  Symbols written:  ");
        push_decimal(&mut out, self.write_stats.symbols_written as u64);
        push_str(&mut out, "\n  Duration:         ");
        push_decimal(&mut out, self.duration_millis);
        push_str(&mut out, "ms\n");
        string_of(out.as_slice())
    }
}

/// The least time between two progress reports, in milliseconds.
pub const PROGRESS_INTERVAL_MILLIS: u64 = 100;

/// Whether progress is due for a report: not before 100 ms have passed since
/// the last one.
pub fn progress_is_due(millis_since_last: u64) -> (r: bool)
    ensures
        r == (millis_since_last >= 100),
{
    millis_since_last >= PROGRESS_INTERVAL_MILLIS
}

/// The share of the work that is done, in percent, rounded down; a total of
/// zero counts as one.
pub open spec fn percent_of(done: usize, total: usize) -> int {
    if total == 0 {
        done * 100
    } else {
        (done * 100) / (total as int)
    }
}

/// Computes the share of the work that is done, in percent, rounded down; a
/// total of zero counts as one.
pub fn percent_done(done: usize, total: usize) -> (r: u128)
    ensures
        r == percent_of(done, total),
{
    let scaled: u128 = (done as u128) * 100;
    if total == 0 {
        scaled
    } else {
        scaled / (total as u128)
    }
}

/// The first twelve characters of a revision, for display.
pub open spec fn short_revision(revision: Seq<char>) -> Seq<char> {
    if revision.len() <= 12 {
        revision
    } else {
        revision.subrange(0, 12)
    }
}

/// The first twelve characters of a revision, for display.
pub fn short_commit(revision: &str) -> (r: String)
    ensures
        r@ == short_revision(revision@),
{
    let chars = chars_of(revision);
    if chars.len() <= 12 {
        string_of(chars.as_slice())
    } else {
        string_of(copy_range(chars.as_slice(), 0, 12).as_slice())
    }
}

// ---------------------------------------------------------------------------
// One file
// ---------------------------------------------------------------------------
/// Parses one source and extracts its record.
///
/// The run fails for the file if the grammar cannot be loaded, if the parser
/// returns no tree, if the tree is malformed, or if the source has more
/// lines than fit a line number.
pub fn index_source(language: Language, source: &[u8], path: &str) -> (r: Result<
    FileSymbols,
    IndexError,
>)
    ensures
        match r {
            Ok(file) => {
                &&& grammar_loads(language)
                &&& parsed_nodes(language, source@) is Some
                &&& well_formed(parsed_nodes(language, source@)->0)
                &&& line_count(source@) <= u32::MAX
                &&& file@ == file_symbols(
                    language,
                    parsed_nodes(language, source@)->0,
                    source@,
                    path@,
                )
                &&& all_valid(file@.symbols, path@)
            },
            Err(IndexError::Parser(ParserError::SetLanguage(_))) => !grammar_loads(language),
            Err(IndexError::Parser(ParserError::Parse(_))) => grammar_loads(language)
                && parsed_nodes(language, source@) is None,
            Err(IndexError::Extractor(ExtractorError::ExtractionFailed(_))) => {
                &&& grammar_loads(language)
                &&& parsed_nodes(language, source@) is Some
                &&& !well_formed(parsed_nodes(language, source@)->0) || line_count(source@)
                    > u32::MAX
            },
            Err(_) => false,
        },
{
    let tree = match ParserPool::parse(language, source) {
        Ok(tree) => tree,
        Err(e) => {
            return Err(IndexError::Parser(e));
        },
    };
    let syntax = match ParserPool::syntax_tree(&tree) {
        Some(syntax) => syntax,
        None => {
            return Err(
                IndexError::Extractor(
                    ExtractorError::ExtractionFailed(String::from_str("malformed syntax tree")),
                ),
            );
        },
    };
    match SymbolExtractor::extract(&syntax, source, path, language) {
        Ok(file) => Ok(file),
        Err(e) => Err(IndexError::Extractor(e)),
    }
}

/// Detects the language of a file that is to be parsed, from the extension
/// of its path. A path without an extension and an extension that maps to no
/// language are refused, the latter with the extension as the message.
pub fn language_for_parsing(path: &str) -> (r: Result<Language, IndexError>)
    ensures
        match r {
            Ok(language) => language_of_path(path@) == Some(language),
            Err(IndexError::Parser(ParserError::UnsupportedLanguage(m))) => language_of_path(path@)
                is None && m@ == match extension_of(path@) {
                Some(ext) => ext,
                None => "Unknown extension"@,
            },
            Err(_) => false,
        },
{
    let chars = chars_of(path);
    match extension(chars.as_slice()) {
        Some(ext) => {
            let ext = string_of(ext.as_slice());
            match Language::from_extension(ext.as_str()) {
                Some(language) => Ok(language),
                None => Err(IndexError::Parser(ParserError::UnsupportedLanguage(ext))),
            }
        },
        None => Err(
            IndexError::Parser(
                ParserError::UnsupportedLanguage(String::from_str("Unknown extension")),
            ),
        ),
    }
}

// ---------------------------------------------------------------------------
// Full indexing
// ---------------------------------------------------------------------------
/// Configuration for full indexing.
#[derive(Debug, Clone)]
pub struct FullIndexConfig {
    /// Root directory to index.
    pub root: String,
    /// Languages to index (None = all).
    pub languages: Option<Vec<Language>>,
    /// Number of threads for parsing.
    pub threads: usize,
    /// Whether to clear existing data first.
    pub clear_existing: bool,
    /// Connection URI of the graph backend.
    pub db_uri: Option<String>,
    /// Graph name.
    pub graph_name: String,
}

impl Default for FullIndexConfig {
    fn default() -> (r: FullIndexConfig)
        ensures
            r.root@ == "."@,
            r.languages is None,
            r.clear_existing,
            r.db_uri is None,
            r.graph_name@ == "kampus"@,
    {
        FullIndexConfig {
            root: String::from_str("."),
            languages: None,
            threads: cpu_count(),
            clear_existing: true,
            db_uri: None,
            graph_name: String::from_str("kampus"),
        }
    }
}

/// Where a full run stands: which action it waits for.
#[derive(Debug, Clone, Copy, PartialEq, Eq, Structural)]
pub enum FullPhase {
    Start,
    Connecting,
    Initializing,
    Clearing,
    Crawling,
    Parsing,
    Writing,
    ReadingHead,
    StoringCommit,
    Done,
}

/// What the caller of a full run reports back.
#[derive(Debug)]
pub enum FullEvent {
    /// The run begins.
    Begin,
    /// The last action succeeded.
    Completed,
    /// The last action failed.
    Failed(IndexError),
    /// The crawl discovered this many files.
    Crawled(usize),
    /// Parsing ended with these counts of parsed and of failed files.
    Parsed(usize, usize),
    /// Writing ended with these statistics.
    Written(WriteStats),
    /// The revision at the head of the repository, if the root lies in one.
    Head(Option<String>),
}

/// What the caller of a full run has to do next.
#[derive(Debug)]
pub enum FullAction {
    Connect,
    Initialize,
    Clear,
    Crawl,
    Parse,
    Write,
    ReadHead,
    /// Store the revision under the key of the last indexed commit.
    StoreCommit(String),
    Finish,
    Fail(IndexError),
}

/// The next phase of a full run. An event that the phase does not wait for
/// ends the run, as does a failed action. A head that cannot be read is no
/// failure of the run: the run then ends without storing a revision.
pub open spec fn full_next(clear_existing: bool, phase: FullPhase, event: FullEvent) -> FullPhase {
    match (phase, event) {
        (FullPhase::Start, FullEvent::Begin) => FullPhase::Connecting,
        (FullPhase::Connecting, FullEvent::Completed) => FullPhase::Initializing,
        (FullPhase::Initializing, FullEvent::Completed) => if clear_existing {
            FullPhase::Clearing
        } else {
            FullPhase::Crawling
        },
        (FullPhase::Clearing, FullEvent::Completed) => FullPhase::Crawling,
        (FullPhase::Crawling, FullEvent::Crawled(_)) => FullPhase::Parsing,
        (FullPhase::Parsing, FullEvent::Parsed(_, _)) => FullPhase::Writing,
        (FullPhase::Writing, FullEvent::Written(_)) => FullPhase::ReadingHead,
        (FullPhase::ReadingHead, FullEvent::Head(Some(_))) => FullPhase::StoringCommit,
        (FullPhase::StoringCommit, FullEvent::Completed) => FullPhase::Done,
        _ => FullPhase::Done,
    }
}

/// The statistics of a full run after an event.
pub open spec fn full_stats(phase: FullPhase, stats: IndexingStats, event: FullEvent)
    -> IndexingStats {
    match (phase, event) {
        (FullPhase::Crawling, FullEvent::Crawled(n)) => IndexingStats {
            files_discovered: n,
            ..stats
        },
        (FullPhase::Parsing, FullEvent::Parsed(parsed, failed)) => IndexingStats {
            files_parsed: parsed,
            files_failed: failed,
            ..stats
        },
        (FullPhase::Writing, FullEvent::Written(written)) => IndexingStats {
            write_stats: written,
            ..stats
        },
        _ => stats,
    }
}

/// Whether an event is one that the phase of a full run waits for.
pub open spec fn full_expected(phase: FullPhase, event: FullEvent) -> bool {
    match (phase, event) {
        (FullPhase::Start, FullEvent::Begin) => true,
        (FullPhase::Connecting, FullEvent::Completed) => true,
        (FullPhase::Initializing, FullEvent::Completed) => true,
        (FullPhase::Clearing, FullEvent::Completed) => true,
        (FullPhase::Crawling, FullEvent::Crawled(_)) => true,
        (FullPhase::Parsing, FullEvent::Parsed(_, _)) => true,
        (FullPhase::Writing, FullEvent::Written(_)) => true,
        (FullPhase::ReadingHead, FullEvent::Head(_)) => true,
        (FullPhase::ReadingHead, FullEvent::Failed(_)) => true,
        (FullPhase::StoringCommit, FullEvent::Completed) => true,
        _ => false,
    }
}

/// The message for an event that a run does not wait for.
pub open spec fn unexpected_message() -> Seq<char> {
    "unexpected event"@
}

/// Full indexer that processes the entire codebase.
pub struct FullIndexer {
    config: FullIndexConfig,
    phase: FullPhase,
    stats: IndexingStats,
}

impl FullIndexer {
    /// The indexer's configuration.
    pub closed spec fn config(&self) -> FullIndexConfig {
        self.config
    }

    /// The phase in which the run stands.
    pub closed spec fn phase(&self) -> FullPhase {
        self.phase
    }

    /// The statistics of the run so far.
    pub closed spec fn stats(&self) -> IndexingStats {
        self.stats
    }

    pub fn new(config: FullIndexConfig) -> (r: FullIndexer)
        ensures
            r.config() == config,
            r.phase() == FullPhase::Start,
            r.stats() == no_stats(),
    {
        FullIndexer { config, phase: FullPhase::Start, stats: IndexingStats::default() }
    }

    /// The indexer's configuration.
    pub fn settings(&self) -> (r: &FullIndexConfig)
        ensures
            *r == self.config(),
    {
        &self.config
    }

    /// The phase in which the run stands.
    pub fn current_phase(&self) -> (r: FullPhase)
        ensures
            r == self.phase(),
    {
        self.phase
    }

    /// The statistics of the run so far.
    pub fn statistics(&self) -> (r: IndexingStats)
        ensures
            r == self.stats(),
    {
        self.stats
    }

    /// Takes the outcome of the last action and says what to do next.
    ///
    /// The run connects, initializes the schema, clears the graph if the
    /// configuration asks for it, crawls, parses, writes, and stores the
    /// head revision if there is one; where the head cannot be read the run
    /// ends without an error. Any other failed action ends the run with its
    /// error; an event that the run does not wait for ends it with an error
    /// of its own.
    pub fn step(&mut self, event: FullEvent) -> (action: FullAction)
        ensures
            final(self).config() == old(self).config(),
            final(self).phase() == full_next(
                old(self).config().clear_existing,
                old(self).phase(),
                event,
            ),
            final(self).stats() == full_stats(old(self).phase(), old(self).stats(), event),
            match action {
                FullAction::Connect => final(self).phase() == FullPhase::Connecting,
                FullAction::Initialize => final(self).phase() == FullPhase::Initializing,
                FullAction::Clear => final(self).phase() == FullPhase::Clearing && old(self).config().clear_existing,
                FullAction::Crawl => final(self).phase() == FullPhase::Crawling,
                FullAction::Parse => final(self).phase() == FullPhase::Parsing,
                FullAction::Write => final(self).phase() == FullPhase::Writing,
                FullAction::ReadHead => final(self).phase() == FullPhase::ReadingHead,
                FullAction::StoreCommit(c) => final(self).phase() == FullPhase::StoringCommit
                    && event == FullEvent::Head(Some(c)),
                FullAction::Finish => final(self).phase() == FullPhase::Done && full_expected(
                    old(self).phase(),
                    event,
                ),
                FullAction::Fail(e) => final(self).phase() == FullPhase::Done && if event
                    is Failed {
                    event == FullEvent::Failed(e)
                } else {
                    !full_expected(old(self).phase(), event) && e is Io && e->Io_0@
                        == unexpected_message()
                },
            },
            full_expected(old(self).phase(), event) ==> !(action is Fail),
    {
        let phase = self.phase;
        match (phase, event) {
            (FullPhase::Start, FullEvent::Begin) => {
                self.phase = FullPhase::Connecting;
                FullAction::Connect
            },
            (FullPhase::Connecting, FullEvent::Completed) => {
                self.phase = FullPhase::Initializing;
                FullAction::Initialize
            },
            (FullPhase::Initializing, FullEvent::Completed) => {
                if self.config.clear_existing {
                    self.phase = FullPhase::Clearing;
                    FullAction::Clear
                } else {
                    self.phase = FullPhase::Crawling;
                    FullAction::Crawl
                }
            },
            (FullPhase::Clearing, FullEvent::Completed) => {
                self.phase = FullPhase::Crawling;
                FullAction::Crawl
            },
            (FullPhase::Crawling, FullEvent::Crawled(n)) => {
                self.stats.files_discovered = n;
                self.phase = FullPhase::Parsing;
                FullAction::Parse
            },
            (FullPhase::Parsing, FullEvent::Parsed(parsed, failed)) => {
                self.stats.files_parsed = parsed;
                self.stats.files_failed = failed;
                self.phase = FullPhase::Writing;
                FullAction::Write
            },
            (FullPhase::Writing, FullEvent::Written(written)) => {
                self.stats.write_stats = written;
                self.phase = FullPhase::ReadingHead;
                FullAction::ReadHead
            },
            (FullPhase::ReadingHead, FullEvent::Head(Some(c))) => {
                self.phase = FullPhase::StoringCommit;
                FullAction::StoreCommit(c)
            },
            (FullPhase::ReadingHead, FullEvent::Head(None)) => {
                self.phase = FullPhase::Done;
                FullAction::Finish
            },
            (FullPhase::ReadingHead, FullEvent::Failed(_)) => {
                self.phase = FullPhase::Done;
                FullAction::Finish
            },
            (FullPhase::StoringCommit, FullEvent::Completed) => {
                self.phase = FullPhase::Done;
                FullAction::Finish
            },
            (_, FullEvent::Failed(e)) => {
                self.phase = FullPhase::Done;
                FullAction::Fail(e)
            },
            (_, _) => {
                self.phase = FullPhase::Done;
                FullAction::Fail(IndexError::Io(String::from_str("unexpected event")))
            },
        }
    }
}

// ---------------------------------------------------------------------------
// Incremental indexing
// ---------------------------------------------------------------------------
/// Configuration for incremental indexing.
#[derive(Debug, Clone)]
pub struct IncrementalConfig {
    /// Root directory.
    pub root: String,
    /// Languages to index.
    pub languages: Option<Vec<Language>>,
    /// Reference to compare against (None = last indexed commit).
    pub since: Option<String>,
    /// Dry run (don't write to the database).
    pub dry_run: bool,
    /// Connection URI of the graph backend.
    pub db_uri: Option<String>,
    /// Graph name.
    pub graph_name: String,
}

impl Default for IncrementalConfig {
    fn default() -> (r: IncrementalConfig)
        ensures
            r.root@ == "."@,
            r.languages is None,
            r.since is None,
            !r.dry_run,
            r.db_uri is None,
            r.graph_name@ == "kampus"@,
    {
        IncrementalConfig {
            root: String::from_str("."),
            languages: None,
            since: None,
            dry_run: false,
            db_uri: None,
            graph_name: String::from_str("kampus"),
        }
    }
}

/// One operation on the graph for one file.
#[derive(Debug, Clone)]
pub enum FileOp {
    /// Delete everything that the graph holds of the file at this path.
    Delete(String),
    /// Parse the file at this path and write its record.
    Upsert(String),
}

/// The mathematical value of a [`FileOp`].
pub enum FileOpView {
    Delete(Seq<char>),
    Upsert(Seq<char>),
}

impl View for FileOp {
    type V = FileOpView;

    open spec fn view(&self) -> FileOpView {
        match self {
            FileOp::Delete(p) => FileOpView::Delete(p@),
            FileOp::Upsert(p) => FileOpView::Upsert(p@),
        }
    }
}

impl DeepView for FileOp {
    type V = FileOpView;

    open spec fn deep_view(&self) -> FileOpView {
        self@
    }
}

/// What one change asks of the graph: a deleted file is deleted; a renamed
/// file is deleted under its old path and written under its new one; an
/// added file is written; a modified file is deleted, then written.
pub open spec fn ops_of_change(change: ChangedFileView) -> Seq<FileOpView> {
    match change.kind {
        ChangeKind::Deleted => seq![FileOpView::Delete(change.path)],
        ChangeKind::Renamed => match change.old_path {
            Some(old) => seq![FileOpView::Delete(old), FileOpView::Upsert(change.path)],
            None => seq![FileOpView::Upsert(change.path)],
        },
        ChangeKind::Added => seq![FileOpView::Upsert(change.path)],
        ChangeKind::Modified => seq![
            FileOpView::Delete(change.path),
            FileOpView::Upsert(change.path),
        ],
    }
}

/// What the first `n` changes ask of the graph, in their order.
pub open spec fn ops_upto(changes: Seq<ChangedFileView>, n: int) -> Seq<FileOpView>
    decreases n,
{
    if n <= 0 || n > changes.len() {
        Seq::empty()
    } else {
        ops_upto(changes, n - 1) + ops_of_change(changes[n - 1])
    }
}

/// What the changes ask of the graph, in their order.
pub open spec fn ops_of(changes: Seq<ChangedFileView>) -> Seq<FileOpView> {
    ops_upto(changes, changes.len() as int)
}

/// Whether a change is of a file that is indexed: its extension maps to a
/// language that passes the filter.
pub open spec fn is_indexed(change: ChangedFileView, filter: Option<Vec<Language>>) -> bool {
    match language_of_path(change.path) {
        Some(language) => language_allowed(filter, language),
        None => false,
    }
}

/// The changes among the first `n` that are of indexed files.
pub open spec fn indexed_upto(
    changes: Seq<ChangedFileView>,
    filter: Option<Vec<Language>>,
    n: int,
) -> Seq<ChangedFileView>
    decreases n,
{
    if n <= 0 || n > changes.len() {
        Seq::empty()
    } else if is_indexed(changes[n - 1], filter) {
        indexed_upto(changes, filter, n - 1).push(changes[n - 1])
    } else {
        indexed_upto(changes, filter, n - 1)
    }
}

/// The changes that are of indexed files, in their order.
pub open spec fn indexed(changes: Seq<ChangedFileView>, filter: Option<Vec<Language>>) -> Seq<
    ChangedFileView,
> {
    indexed_upto(changes, filter, changes.len() as int)
}

/// Computes [`ops_of_change`], appending to `out`.
pub fn push_ops(out: &mut Vec<FileOp>, change: &ChangedFile)
    ensures
        final(out).deep_view() == old(out).deep_view() + ops_of_change(change@),
{
    let ghost before = out.deep_view();
    let delete_first = match change.kind {
        ChangeKind::Deleted | ChangeKind::Modified => Some(change.path.clone()),
        ChangeKind::Renamed => match &change.old_path {
            Some(old) => Some(old.clone()),
            None => None,
        },
        ChangeKind::Added => None,
    };
    match delete_first {
        Some(p) => {
            let op = FileOp::Delete(p);
            proof {
                assert(out.deep_view().push(op@) == before + seq![op@]);
            }
            out.push(op);
            assert(out.deep_view() == before + seq![op@]);
        },
        None => {},
    }
    let ghost middle = out.deep_view();
    match change.kind {
        ChangeKind::Deleted => {},
        _ => {
            let op = FileOp::Upsert(change.path.clone());
            proof {
                assert(out.deep_view().push(op@) == middle + seq![op@]);
            }
            out.push(op);
            assert(out.deep_view() == middle + seq![op@]);
        },
    }
    assert(out.deep_view() == before + ops_of_change(change@));
}

/// The operations that a list of changes asks of the graph, in the order of
/// the changes.
pub fn plan_changes(changes: &Vec<ChangedFile>) -> (r: Vec<FileOp>)
    ensures
        r.deep_view() == ops_of(changes.deep_view()),
{
    let mut out: Vec<FileOp> = Vec::new();
    let ghost all = changes.deep_view();
    let mut i: usize = 0;
    while i < changes.len()
        invariant
            i <= changes.len(),
            all == changes.deep_view(),
            out.deep_view() == ops_upto(all, i as int),
        decreases changes.len() - i,
    {
        assert(all[i as int] == changes[i as int]@);
        push_ops(&mut out, &changes[i]);
        i += 1;
    }
    out
}

/// Where an incremental run stands: which action it waits for.
#[derive(Debug, Clone, Copy, PartialEq, Eq, Structural)]
pub enum IncrementalPhase {
    Start,
    OpeningRepository,
    Connecting,
    ReadingLastCommit,
    Diffing,
    Applying,
    ReadingHead,
    StoringCommit,
    Done,
}

/// What the caller of an incremental run reports back.
#[derive(Debug)]
pub enum IncrementalEvent {
    /// The run begins.
    Begin,
    /// The last action succeeded.
    Completed,
    /// The last action failed.
    Failed(IndexError),
    /// The revision that the graph holds as the last indexed one.
    LastCommit(Option<String>),
    /// The changes since the reference.
    Changes(Vec<ChangedFile>),
    /// The revision at the head of the repository.
    Head(String),
}

/// What the caller of an incremental run has to do next.
#[derive(Debug)]
pub enum IncrementalAction {
    OpenRepository,
    Connect,
    /// Read the revision of the last index from the graph.
    ReadLastCommit,
    /// Ask the repository for the changes since this reference.
    Diff(String),
    /// Delete or write one file.
    Apply(FileOp),
    ReadHead,
    /// Store the revision under the key of the last indexed commit.
    StoreCommit(String),
    Finish,
    Fail(IndexError),
}

/// Whether an action changes the graph.
pub open spec fn writes(action: IncrementalAction) -> bool {
    action is Apply || action is StoreCommit
}

/// The message for a run that has no reference to compare against.
pub open spec fn no_previous_index_message() -> Seq<char> {
    "No previous index found. Run full index first."@
}

/// The state of an incremental run.
pub struct RunView {
    /// Which action the run waits for.
    pub phase: IncrementalPhase,
    /// The changes of indexed files that the run found.
    pub changes: Seq<ChangedFileView>,
    /// The operations that the run has to apply.
    pub ops: Seq<FileOpView>,
    /// How many operations the run has handed out.
    pub position: nat,
    /// How each operation that has ended went: well or not.
    pub outcomes: Seq<bool>,
    /// The statistics so far.
    pub stats: IndexingStats,
}

/// The state of a run that has not begun.
pub open spec fn initial_run() -> RunView {
    RunView {
        phase: IncrementalPhase::Start,
        changes: Seq::empty(),
        ops: Seq::empty(),
        position: 0,
        outcomes: Seq::empty(),
        stats: no_stats(),
    }
}

/// How many of the first `n` operations are writes of a file.
pub open spec fn upserts_upto(ops: Seq<FileOpView>, n: int) -> nat
    decreases n,
{
    if n <= 0 || n > ops.len() {
        0
    } else if ops[n - 1] is Upsert {
        upserts_upto(ops, n - 1) + 1
    } else {
        upserts_upto(ops, n - 1)
    }
}

/// How many of the first `n` operations are writes of a file that ended
/// with the given outcome.
pub open spec fn outcomes_upto(ops: Seq<FileOpView>, outcomes: Seq<bool>, ok: bool, n: int) -> nat
    decreases n,
{
    if n <= 0 || n > ops.len() || n > outcomes.len() {
        0
    } else if ops[n - 1] is Upsert && outcomes[n - 1] == ok {
        outcomes_upto(ops, outcomes, ok, n - 1) + 1
    } else {
        outcomes_upto(ops, outcomes, ok, n - 1)
    }
}

/// How many of the first `n` changes are not deletions.
pub open spec fn kept_upto(changes: Seq<ChangedFileView>, n: int) -> nat
    decreases n,
{
    if n <= 0 || n > changes.len() {
        0
    } else if changes[n - 1].kind != ChangeKind::Deleted {
        kept_upto(changes, n - 1) + 1
    } else {
        kept_upto(changes, n - 1)
    }
}

/// Whether the run has not yet got its changes.
pub open spec fn is_before_changes(phase: IncrementalPhase) -> bool {
    phase == IncrementalPhase::Start || phase == IncrementalPhase::OpeningRepository || phase
        == IncrementalPhase::Connecting || phase == IncrementalPhase::ReadingLastCommit || phase
        == IncrementalPhase::Diffing
}

/// Whether the run is applying its operations or has applied them all.
pub open spec fn is_writing(phase: IncrementalPhase) -> bool {
    phase == IncrementalPhase::Applying || phase == IncrementalPhase::ReadingHead || phase
        == IncrementalPhase::StoringCommit
}

/// What holds of every run. The operations that ended are among those
/// handed out, with one outstanding while the run applies them and none
/// once it has applied them all. The counts of parsed and of failed files
/// are those of the writes that ended well and that did not. While it
/// writes, the run's operations are those that its changes ask for, and the
/// count of discovered files is that of its changes. A dry run has no
/// operations and never writes.
pub open spec fn run_is_consistent(dry_run: bool, run: RunView) -> bool {
    &&& run.outcomes.len() <= run.position <= run.ops.len()
    &&& run.phase == IncrementalPhase::Applying ==> run.outcomes.len() + 1 == run.position
    &&& (run.phase == IncrementalPhase::ReadingHead || run.phase == IncrementalPhase::StoringCommit)
        ==> run.outcomes.len() == run.ops.len()
    &&& is_before_changes(run.phase) ==> run.ops.len() == 0
    &&& run.stats.files_parsed == outcomes_upto(
        run.ops,
        run.outcomes,
        true,
        run.outcomes.len() as int,
    )
    &&& run.stats.files_failed == outcomes_upto(
        run.ops,
        run.outcomes,
        false,
        run.outcomes.len() as int,
    )
    &&& is_writing(run.phase) ==> run.ops == ops_of(run.changes) && run.stats.files_discovered
        == run.changes.len()
    &&& dry_run ==> run.ops.len() == 0 && !is_writing(run.phase)
}

/// The run after it has handed out its next operation, or after it has
/// found that none is left.
pub open spec fn advanced(run: RunView) -> RunView {
    if run.position < run.ops.len() {
        RunView { phase: IncrementalPhase::Applying, position: run.position + 1, ..run }
    } else {
        RunView { phase: IncrementalPhase::ReadingHead, ..run }
    }
}

/// The run after an operation has ended with the given outcome: a written
/// file counts as parsed, a file that could not be written as failed.
pub open spec fn recorded(run: RunView, ok: bool) -> RunView {
    let upsert = run.ops[run.position - 1] is Upsert;
    RunView {
        outcomes: run.outcomes.push(ok),
        stats: IndexingStats {
            files_parsed: if upsert && ok {
                (run.stats.files_parsed + 1) as usize
            } else {
                run.stats.files_parsed
            },
            files_failed: if upsert && !ok {
                (run.stats.files_failed + 1) as usize
            } else {
                run.stats.files_failed
            },
            ..run.stats
        },
        ..run
    }
}

/// The state of a run after an event.
///
/// The run opens the repository, connects, takes the reference from its
/// configuration or else from the graph, asks for the changes, keeps those
/// of indexed files and counts them as discovered. A dry run ends there.
/// Otherwise the run applies the operations that the changes ask for, one
/// after the other, and then stores the head revision. A file that could
/// not be written counts as failed and the run goes on; any other failure,
/// and any event that the run does not wait for, ends the run.
pub open spec fn next_state(config: IncrementalConfig, run: RunView, event: IncrementalEvent)
    -> RunView {
    match (run.phase, event) {
        (IncrementalPhase::Start, IncrementalEvent::Begin) => RunView {
            phase: IncrementalPhase::OpeningRepository,
            ..run
        },
        (IncrementalPhase::OpeningRepository, IncrementalEvent::Completed) => RunView {
            phase: IncrementalPhase::Connecting,
            ..run
        },
        (IncrementalPhase::Connecting, IncrementalEvent::Completed) => RunView {
            phase: if config.since is Some {
                IncrementalPhase::Diffing
            } else {
                IncrementalPhase::ReadingLastCommit
            },
            ..run
        },
        (IncrementalPhase::ReadingLastCommit, IncrementalEvent::LastCommit(Some(_))) => RunView {
            phase: IncrementalPhase::Diffing,
            ..run
        },
        (IncrementalPhase::Diffing, IncrementalEvent::Changes(changes)) => {
            let kept = indexed(changes.deep_view(), config.languages);
            let stats = IndexingStats { files_discovered: kept.len() as usize, ..run.stats };
            if config.dry_run {
                RunView { phase: IncrementalPhase::Done, changes: kept, stats, ..run }
            } else {
                advanced(
                    RunView {
                        phase: run.phase,
                        changes: kept,
                        ops: ops_of(kept),
                        position: 0,
                        outcomes: Seq::empty(),
                        stats,
                    },
                )
            }
        },
        (IncrementalPhase::Applying, IncrementalEvent::Completed) => advanced(recorded(run, true)),
        (IncrementalPhase::Applying, IncrementalEvent::Failed(_)) => if run.ops[run.position - 1]
            is Upsert {
            advanced(recorded(run, false))
        } else {
            RunView { phase: IncrementalPhase::Done, ..recorded(run, false) }
        },
        (IncrementalPhase::ReadingHead, IncrementalEvent::Head(_)) => RunView {
            phase: IncrementalPhase::StoringCommit,
            ..run
        },
        _ => RunView { phase: IncrementalPhase::Done, ..run },
    }
}

/// Whether an action is the one that hands out the operation that a run has
/// just advanced to, or that reads the head where none was left.
pub open spec fn is_handed_out(next: RunView, action: IncrementalAction) -> bool {
    if next.phase == IncrementalPhase::Applying {
        action is Apply && action->Apply_0@ == next.ops[next.position - 1]
    } else {
        action is ReadHead
    }
}

/// Whether an action is the one that a run takes on an event.
pub open spec fn is_next_action(
    config: IncrementalConfig,
    run: RunView,
    event: IncrementalEvent,
    action: IncrementalAction,
) -> bool {
    match (run.phase, event) {
        (IncrementalPhase::Start, IncrementalEvent::Begin) => action is OpenRepository,
        (IncrementalPhase::OpeningRepository, IncrementalEvent::Completed) => action is Connect,
        (IncrementalPhase::Connecting, IncrementalEvent::Completed) => match config.since {
            Some(since) => action is Diff && action->Diff_0@ == since@,
            None => action is ReadLastCommit,
        },
        (IncrementalPhase::ReadingLastCommit, IncrementalEvent::LastCommit(Some(c))) => action
            is Diff && action->Diff_0@ == c@,
        (IncrementalPhase::ReadingLastCommit, IncrementalEvent::LastCommit(None)) => action is Fail
            && action->Fail_0 is Git && action->Fail_0->Git_0 is InvalidRef
            && action->Fail_0->Git_0->InvalidRef_0@ == no_previous_index_message(),
        (IncrementalPhase::Diffing, IncrementalEvent::Changes(_)) => if config.dry_run {
            action is Finish
        } else {
            is_handed_out(next_state(config, run, event), action)
        },
        (IncrementalPhase::Applying, IncrementalEvent::Completed) => is_handed_out(
            next_state(config, run, event),
            action,
        ),
        (IncrementalPhase::Applying, IncrementalEvent::Failed(e)) => if run.ops[run.position - 1]
            is Upsert {
            is_handed_out(next_state(config, run, event), action)
        } else {
            action == IncrementalAction::Fail(e)
        },
        (IncrementalPhase::ReadingHead, IncrementalEvent::Head(c)) => action
            == IncrementalAction::StoreCommit(c),
        (IncrementalPhase::StoringCommit, IncrementalEvent::Completed) => action is Finish,
        (_, IncrementalEvent::Failed(e)) => action == IncrementalAction::Fail(e),
        _ => action is Fail && action->Fail_0 is Io && action->Fail_0->Io_0@
            == unexpected_message(),
    }
}

pub proof fn lemma_outcomes_bound(ops: Seq<FileOpView>, outcomes: Seq<bool>, ok: bool, n: int)
    requires
        0 <= n,
    ensures
        outcomes_upto(ops, outcomes, ok, n) <= n,
    decreases n,
{
    if n > 0 {
        lemma_outcomes_bound(ops, outcomes, ok, n - 1);
    }
}

proof fn lemma_outcomes_push(
    ops: Seq<FileOpView>,
    outcomes: Seq<bool>,
    last: bool,
    ok: bool,
    n: int,
)
    requires
        0 <= n <= outcomes.len(),
    ensures
        outcomes_upto(ops, outcomes.push(last), ok, n) == outcomes_upto(ops, outcomes, ok, n),
    decreases n,
{
    if n > 0 {
        lemma_outcomes_push(ops, outcomes, last, ok, n - 1);
        assert(outcomes.push(last)[n - 1] == outcomes[n - 1]);
    }
}

/// Every write that has ended counts either as parsed or as failed.
pub proof fn lemma_outcomes_add_up(ops: Seq<FileOpView>, outcomes: Seq<bool>, n: int)
    requires
        0 <= n <= outcomes.len(),
        n <= ops.len(),
    ensures
        outcomes_upto(ops, outcomes, true, n) + outcomes_upto(ops, outcomes, false, n)
            == upserts_upto(ops, n),
    decreases n,
{
    if n > 0 {
        lemma_outcomes_add_up(ops, outcomes, n - 1);
    }
}

proof fn lemma_upserts_append(a: Seq<FileOpView>, b: Seq<FileOpView>, n: int)
    requires
        0 <= n <= b.len(),
    ensures
        upserts_upto(a + b, a.len() + n) == upserts_upto(a, a.len() as int) + upserts_upto(b, n),
    decreases n,
{
    if n > 0 {
        lemma_upserts_append(a, b, n - 1);
        assert((a + b)[a.len() + n - 1] == b[n - 1]);
    } else {
        lemma_upserts_prefix(a, b, a.len() as int);
    }
}

proof fn lemma_upserts_prefix(a: Seq<FileOpView>, b: Seq<FileOpView>, n: int)
    requires
        0 <= n <= a.len(),
    ensures
        upserts_upto(a + b, n) == upserts_upto(a, n),
    decreases n,
{
    if n > 0 {
        lemma_upserts_prefix(a, b, n - 1);
        assert((a + b)[n - 1] == a[n - 1]);
    }
}

/// The operations that changes ask for hold one write for every change that
/// is no deletion.
pub proof fn lemma_one_write_for_each_kept(changes: Seq<ChangedFileView>, n: int)
    requires
        0 <= n <= changes.len(),
    ensures
        upserts_upto(ops_upto(changes, n), ops_upto(changes, n).len() as int) == kept_upto(
            changes,
            n,
        ),
    decreases n,
{
    if n > 0 {
        lemma_one_write_for_each_kept(changes, n - 1);
        let before = ops_upto(changes, n - 1);
        let here = ops_of_change(changes[n - 1]);
        lemma_upserts_append(before, here, here.len() as int);
        reveal_with_fuel(upserts_upto, 3);
    }
}

/// A dry run parses nothing and fails on nothing.
pub proof fn lemma_dry_run_counts_nothing(run: RunView)
    requires
        run_is_consistent(true, run),
    ensures
        run.stats.files_parsed == 0,
        run.stats.files_failed == 0,
        run.ops.len() == 0,
{
}

/// Once a run has applied all its operations, its counts add up: it has
/// discovered its changes, and each change that is no deletion counts
/// either as parsed or as failed, the failed ones being the writes that did
/// not end well.
pub proof fn lemma_counts_add_up(dry_run: bool, run: RunView)
    requires
        run_is_consistent(dry_run, run),
        run.phase == IncrementalPhase::ReadingHead || run.phase == IncrementalPhase::StoringCommit,
    ensures
        run.stats.files_discovered == run.changes.len(),
        run.stats.files_failed == outcomes_upto(run.ops, run.outcomes, false, run.ops.len() as int),
        run.stats.files_parsed + run.stats.files_failed == kept_upto(
            run.changes,
            run.changes.len() as int,
        ),
{
    lemma_outcomes_add_up(run.ops, run.outcomes, run.ops.len() as int);
    lemma_one_write_for_each_kept(run.changes, run.changes.len() as int);
}

/// Incremental indexer that only processes changed files.
pub struct IncrementalIndexer {
    config: IncrementalConfig,
    phase: IncrementalPhase,
    changes: Vec<ChangedFile>,
    ops: Vec<FileOp>,
    next: usize,
    outcomes: Vec<bool>,
    stats: IndexingStats,
}

/// Decides whether two operations are the same.
fn same_op(a: &FileOp, b: &FileOp) -> (r: bool)
    ensures
        r == (a@ == b@),
{
    match (a, b) {
        (FileOp::Delete(p), FileOp::Delete(q)) => crate::text::str_eq(p.as_str(), q.as_str()),
        (FileOp::Upsert(p), FileOp::Upsert(q)) => crate::text::str_eq(p.as_str(), q.as_str()),
        _ => false,
    }
}

/// Decides whether two lists of operations are the same.
fn same_ops(a: &Vec<FileOp>, b: &Vec<FileOp>) -> (r: bool)
    ensures
        r == (a.deep_view() == b.deep_view()),
{
    if a.len() != b.len() {
        assert(a.deep_view().len() != b.deep_view().len());
        return false;
    }
    let mut k: usize = 0;
    while k < a.len()
        invariant
            k <= a.len(),
            a.len() == b.len(),
            forall|j: int| 0 <= j < k ==> a.deep_view()[j] == b.deep_view()[j],
        decreases a.len() - k,
    {
        assert(a.deep_view()[k as int] == a[k as int]@);
        assert(b.deep_view()[k as int] == b[k as int]@);
        if !same_op(&a[k], &b[k]) {
            return false;
        }
        k += 1;
    }
    assert(a.deep_view() =~= b.deep_view());
    true
}

impl IncrementalIndexer {
    /// The indexer's configuration.
    pub closed spec fn config(&self) -> IncrementalConfig {
        self.config
    }

    /// The state of the run.
    pub closed spec fn state(&self) -> RunView {
        RunView {
            phase: self.phase,
            changes: self.changes.deep_view(),
            ops: self.ops.deep_view(),
            position: self.next as nat,
            outcomes: self.outcomes@,
            stats: self.stats,
        }
    }

    /// What holds of every run: see [`run_is_consistent`].
    pub open spec fn inv(&self) -> bool {
        run_is_consistent(self.config().dry_run, self.state())
    }

    pub fn new(config: IncrementalConfig) -> (r: IncrementalIndexer)
        ensures
            r.config() == config,
            r.state() == initial_run(),
            r.inv(),
    {
        let r = IncrementalIndexer {
            config,
            phase: IncrementalPhase::Start,
            changes: Vec::new(),
            ops: Vec::new(),
            next: 0,
            outcomes: Vec::new(),
            stats: IndexingStats::default(),
        };
        assert(r.state().changes =~= Seq::<ChangedFileView>::empty());
        assert(r.state().ops =~= Seq::<FileOpView>::empty());
        assert(r.state().outcomes =~= Seq::<bool>::empty());
        r
    }

    /// Counts the writes among the operations that have ended with the
    /// given outcome.
    fn count_outcomes(&self, ok: bool) -> (r: usize)
        requires
            self.outcomes.len() <= self.ops.len(),
        ensures
            r == outcomes_upto(
                self.state().ops,
                self.state().outcomes,
                ok,
                self.state().outcomes.len() as int,
            ),
    {
        let ghost ops = self.ops.deep_view();
        let mut count: usize = 0;
        let mut k: usize = 0;
        while k < self.outcomes.len()
            invariant
                k <= self.outcomes.len() <= self.ops.len(),
                ops == self.ops.deep_view(),
                count == outcomes_upto(ops, self.outcomes@, ok, k as int),
                count <= k,
            decreases self.outcomes.len() - k,
        {
            assert(ops[k as int] == self.ops[k as int]@);
            let upsert = match &self.ops[k] {
                FileOp::Upsert(_) => true,
                FileOp::Delete(_) => false,
            };
            if upsert && self.outcomes[k] == ok {
                count += 1;
            }
            k += 1;
        }
        count
    }

    /// Decides whether the run is in a state that [`Self::step`] accepts;
    /// every run that was made by [`Self::new`] and driven by
    /// [`Self::step`] is.
    pub fn is_consistent(&self) -> (r: bool)
        ensures
            r == self.inv(),
    {
        if !(self.outcomes.len() <= self.next && self.next <= self.ops.len()) {
            return false;
        }
        let phase = self.phase;
        let applying = phase == IncrementalPhase::Applying;
        let finishing = phase == IncrementalPhase::ReadingHead || phase
            == IncrementalPhase::StoringCommit;
        let before = phase == IncrementalPhase::Start || phase
            == IncrementalPhase::OpeningRepository || phase == IncrementalPhase::Connecting
            || phase == IncrementalPhase::ReadingLastCommit || phase == IncrementalPhase::Diffing;
        if applying && (self.next == 0 || self.outcomes.len() != self.next - 1) {
            return false;
        }
        if finishing && self.outcomes.len() != self.ops.len() {
            return false;
        }
        if before && self.ops.len() != 0 {
            return false;
        }
        if self.stats.files_parsed != self.count_outcomes(true) || self.stats.files_failed
            != self.count_outcomes(false) {
            return false;
        }
        if applying || finishing {
            let plan = plan_changes(&self.changes);
            if !same_ops(&self.ops, &plan) || self.stats.files_discovered != self.changes.len() {
                return false;
            }
        }
        if self.config.dry_run && (self.ops.len() != 0 || applying || finishing) {
            return false;
        }
        true
    }

    /// The indexer's configuration.
    pub fn settings(&self) -> (r: &IncrementalConfig)
        ensures
            *r == self.config(),
    {
        &self.config
    }

    /// The phase in which the run stands.
    pub fn current_phase(&self) -> (r: IncrementalPhase)
        ensures
            r == self.state().phase,
    {
        self.phase
    }

    /// The statistics of the run so far.
    pub fn statistics(&self) -> (r: IndexingStats)
        ensures
            r == self.state().stats,
    {
        self.stats
    }

    /// The changes of indexed files that the run found; a dry run shows them
    /// and writes nothing.
    pub fn found_changes(&self) -> (r: &Vec<ChangedFile>)
        ensures
            r.deep_view() == self.state().changes,
    {
        &self.changes
    }

    /// Filters changes to only include files of supported languages that
    /// pass the language filter, keeping their order.
    pub fn filter_changes(&self, changes: Vec<ChangedFile>) -> (r: Vec<ChangedFile>)
        ensures
            r.deep_view() == indexed(changes.deep_view(), self.config().languages),
    {
        let ghost all = changes.deep_view();
        let mut out: Vec<ChangedFile> = Vec::new();
        let mut i: usize = 0;
        while i < changes.len()
            invariant
                i <= changes.len(),
                all == changes.deep_view(),
                out.deep_view() == indexed_upto(all, self.config.languages, i as int),
            decreases changes.len() - i,
        {
            assert(all[i as int] == changes[i as int]@);
            let keep = match detect_language(changes[i].path.as_str()) {
                Some(language) => match &self.config.languages {
                    Some(list) => contains_language(list, language),
                    None => true,
                },
                None => false,
            };
            if keep {
                let change = changes[i].duplicate();
                proof {
                    assert(out.deep_view().push(change@) == indexed_upto(
                        all,
                        self.config.languages,
                        i + 1,
                    ));
                }
                out.push(change);
                assert(out.deep_view() == indexed_upto(all, self.config.languages, i + 1));
            }
            i += 1;
        }
        out
    }

    /// Hands out the next operation, or reads the head when all are handed
    /// out.
    fn advance(&mut self) -> (action: IncrementalAction)
        requires
            old(self).next <= old(self).ops.len(),
        ensures
            final(self).config() == old(self).config(),
            final(self).state() == advanced(old(self).state()),
            is_handed_out(final(self).state(), action),
    {
        if self.next < self.ops.len() {
            let op = match &self.ops[self.next] {
                FileOp::Delete(p) => FileOp::Delete(p.clone()),
                FileOp::Upsert(p) => FileOp::Upsert(p.clone()),
            };
            assert(self.ops.deep_view()[self.next as int] == self.ops[self.next as int]@);
            self.next = self.next + 1;
            self.phase = IncrementalPhase::Applying;
            IncrementalAction::Apply(op)
        } else {
            self.phase = IncrementalPhase::ReadingHead;
            IncrementalAction::ReadHead
        }
    }

    /// Records how the operation that was handed out last has ended.
    fn record(&mut self, ok: bool)
        requires
            old(self).inv(),
            old(self).state().phase == IncrementalPhase::Applying,
        ensures
            final(self).config() == old(self).config(),
            final(self).state() == recorded(old(self).state(), ok),
            final(self).next <= final(self).ops.len(),
            final(self).state().outcomes.len() == final(self).state().position,
            final(self).state().stats.files_parsed == outcomes_upto(
                final(self).state().ops,
                final(self).state().outcomes,
                true,
                final(self).state().outcomes.len() as int,
            ),
            final(self).state().stats.files_failed == outcomes_upto(
                final(self).state().ops,
                final(self).state().outcomes,
                false,
                final(self).state().outcomes.len() as int,
            ),
    {
        let ghost ops = self.ops.deep_view();
        let ghost outcomes = self.outcomes@;
        let upsert = match &self.ops[self.next - 1] {
            FileOp::Upsert(_) => true,
            FileOp::Delete(_) => false,
        };
        assert(ops[self.next - 1] == self.ops[self.next - 1]@);
        proof {
            let n = outcomes.len() as int;
            lemma_outcomes_bound(ops, outcomes, true, n);
            lemma_outcomes_bound(ops, outcomes, false, n);
            lemma_outcomes_push(ops, outcomes, ok, true, n);
            lemma_outcomes_push(ops, outcomes, ok, false, n);
            assert(outcomes.push(ok)[n] == ok);
        }
        if upsert && ok {
            self.stats.files_parsed = self.stats.files_parsed + 1;
        }
        if upsert && !ok {
            self.stats.files_failed = self.stats.files_failed + 1;
        }
        self.outcomes.push(ok);
    }

    /// Takes the outcome of the last action and says what to do next.
    ///
    /// The state after the step is [`next_state`] of the state before it,
    /// and the action is the one that [`is_next_action`] describes. A dry
    /// run never returns an action that writes.
    pub fn step(&mut self, event: IncrementalEvent) -> (action: IncrementalAction)
        requires
            old(self).inv(),
        ensures
            final(self).inv(),
            final(self).config() == old(self).config(),
            final(self).state() == next_state(old(self).config(), old(self).state(), event),
            is_next_action(old(self).config(), old(self).state(), event, action),
            old(self).config().dry_run ==> !writes(action),
    {
        let phase = self.phase;
        match (phase, event) {
            (IncrementalPhase::Start, IncrementalEvent::Begin) => {
                self.phase = IncrementalPhase::OpeningRepository;
                IncrementalAction::OpenRepository
            },
            (IncrementalPhase::OpeningRepository, IncrementalEvent::Completed) => {
                self.phase = IncrementalPhase::Connecting;
                IncrementalAction::Connect
            },
            (IncrementalPhase::Connecting, IncrementalEvent::Completed) => {
                match &self.config.since {
                    Some(since) => {
                        let since = since.clone();
                        self.phase = IncrementalPhase::Diffing;
                        IncrementalAction::Diff(since)
                    },
                    None => {
                        self.phase = IncrementalPhase::ReadingLastCommit;
                        IncrementalAction::ReadLastCommit
                    },
                }
            },
            (IncrementalPhase::ReadingLastCommit, IncrementalEvent::LastCommit(Some(c))) => {
                self.phase = IncrementalPhase::Diffing;
                IncrementalAction::Diff(c)
            },
            (IncrementalPhase::ReadingLastCommit, IncrementalEvent::LastCommit(None)) => {
                self.phase = IncrementalPhase::Done;
                IncrementalAction::Fail(
                    IndexError::Git(
                        GitError::InvalidRef(
                            String::from_str("No previous index found. Run full index first."),
                        ),
                    ),
                )
            },
            (IncrementalPhase::Diffing, IncrementalEvent::Changes(changes)) => {
                let kept = self.filter_changes(changes);
                self.stats.files_discovered = kept.len();
                if self.config.dry_run {
                    self.changes = kept;
                    self.phase = IncrementalPhase::Done;
                    IncrementalAction::Finish
                } else {
                    self.ops = plan_changes(&kept);
                    self.changes = kept;
                    self.next = 0;
                    self.outcomes = Vec::new();
                    self.advance()
                }
            },
            (IncrementalPhase::Applying, IncrementalEvent::Completed) => {
                self.record(true);
                self.advance()
            },
            (IncrementalPhase::Applying, IncrementalEvent::Failed(e)) => {
                let upsert = match &self.ops[self.next - 1] {
                    FileOp::Upsert(_) => true,
                    FileOp::Delete(_) => false,
                };
                assert(self.ops.deep_view()[self.next - 1] == self.ops[self.next - 1]@);
                self.record(false);
                if upsert {
                    self.advance()
                } else {
                    self.phase = IncrementalPhase::Done;
                    IncrementalAction::Fail(e)
                }
            },
            (IncrementalPhase::ReadingHead, IncrementalEvent::Head(c)) => {
                self.phase = IncrementalPhase::StoringCommit;
                IncrementalAction::StoreCommit(c)
            },
            (IncrementalPhase::StoringCommit, IncrementalEvent::Completed) => {
                self.phase = IncrementalPhase::Done;
                IncrementalAction::Finish
            },
            (_, IncrementalEvent::Failed(e)) => {
                self.phase = IncrementalPhase::Done;
                IncrementalAction::Fail(e)
            },
            (_, _) => {
                self.phase = IncrementalPhase::Done;
                IncrementalAction::Fail(IndexError::Io(String::from_str("unexpected event")))
            },
        }
    }
}

} // verus!
