//! Selection of the source files among the entries of a directory walk.

use crate::language::language_of_extension;
use crate::language::Language;
use crate::text::chars_of;
use crate::text::extension;
use crate::text::extension_of;
use crate::text::string_of;
use crate::text::unicode_lowercase;
use vstd::prelude::*;
use vstd::string::StringExecFns;

verus! {

/// `num_cpus::get` returns the number of logical cores of the machine it
/// runs on; nothing is claimed of it.
#[verifier::external_body]
pub(crate) fn cpu_count() -> usize {
    num_cpus::get()
}

/// Why a crawl failed.
#[derive(Debug)]
pub enum CrawlerError {
    /// The directory could not be walked.
    WalkError(String),
    /// An I/O error, by its message.
    Io(String),
}

/// The message of a crawler error.
pub open spec fn crawler_error_message(e: CrawlerError) -> Seq<char> {
    match e {
        CrawlerError::WalkError(m) => "Failed to walk directory: "@ + m@,
        CrawlerError::Io(m) => "IO error: "@ + m@,
    }
}

impl CrawlerError {
    /// The error's message.
    pub fn to_string(&self) -> (r: String)
        ensures
            r@ == crawler_error_message(*self),
    {
        match self {
            CrawlerError::WalkError(m) => String::from_str("Failed to walk directory: ").concat(
                m.as_str(),
            ),
            CrawlerError::Io(m) => String::from_str("IO error: ").concat(m.as_str()),
        }
    }
}

/// Configuration for the file crawler.
#[derive(Debug, Clone)]
pub struct CrawlerConfig {
    /// Root directory to crawl.
    pub root: String,
    /// Languages to include (None = all supported).
    pub languages: Option<Vec<Language>>,
    /// Number of threads to use.
    pub threads: usize,
    /// Respect VCS ignore files.
    pub git_ignore: bool,
    /// Names of directories that are never entered.
    pub ignore_patterns: Vec<String>,
}

/// The directory names that are denied by default.
pub open spec fn default_ignore_patterns() -> Seq<Seq<char>> {
    seq![
        "node_modules"@,
        "target"@,
        ".git"@,
        "vendor"@,
        "dist"@,
        "build"@,
        "__pycache__"@,
        ".venv"@,
        "venv"@,
    ]
}

impl Default for CrawlerConfig {
    fn default() -> (r: CrawlerConfig)
        ensures
            r.root@ == "."@,
            r.languages is None,
            r.git_ignore,
            crate::model::texts(r.ignore_patterns@) == default_ignore_patterns(),
    {
        let mut patterns: Vec<String> = Vec::new();
        patterns.push(String::from_str("node_modules"));
        patterns.push(String::from_str("target"));
        patterns.push(String::from_str(".git"));
        patterns.push(String::from_str("vendor"));
        patterns.push(String::from_str("dist"));
        patterns.push(String::from_str("build"));
        patterns.push(String::from_str("__pycache__"));
        patterns.push(String::from_str(".venv"));
        patterns.push(String::from_str("venv"));
        assert(crate::model::texts(patterns@) =~= default_ignore_patterns());
        CrawlerConfig {
            root: String::from_str("."),
            languages: None,
            threads: cpu_count(),
            git_ignore: true,
            ignore_patterns: patterns,
        }
    }
}

/// A discovered source file.
#[derive(Debug, Clone)]
pub struct SourceFile {
    pub path: String,
    pub language: Language,
}

/// The mathematical value of a [`SourceFile`].
pub struct SourceFileView {
    pub path: Seq<char>,
    pub language: Language,
}

impl View for SourceFile {
    type V = SourceFileView;

    open spec fn view(&self) -> SourceFileView {
        SourceFileView { path: self.path@, language: self.language }
    }
}

impl DeepView for SourceFile {
    type V = SourceFileView;

    open spec fn deep_view(&self) -> SourceFileView {
        self@
    }
}

/// One entry that the directory walk came upon.
#[derive(Debug, Clone)]
pub struct WalkEntry {
    /// The entry's path, with `/` between its components.
    pub path: String,
    /// Whether the entry is a regular file.
    pub is_file: bool,
}

/// The mathematical value of a [`WalkEntry`].
pub struct WalkEntryView {
    pub path: Seq<char>,
    pub is_file: bool,
}

impl View for WalkEntry {
    type V = WalkEntryView;

    open spec fn view(&self) -> WalkEntryView {
        WalkEntryView { path: self.path@, is_file: self.is_file }
    }
}

impl DeepView for WalkEntry {
    type V = WalkEntryView;

    open spec fn deep_view(&self) -> WalkEntryView {
        self@
    }
}

/// The language that the extension of a path maps to.
pub open spec fn language_of_path(path: Seq<char>) -> Option<Language> {
    match extension_of(path) {
        Some(ext) => language_of_extension(unicode_lowercase(ext)),
        None => None,
    }
}

/// Whether a language passes an optional language filter.
pub open spec fn language_allowed(filter: Option<Vec<Language>>, language: Language) -> bool {
    match filter {
        Some(list) => list@.contains(language),
        None => true,
    }
}

/// The source file that a walk entry stands for, if it is a regular file
/// whose extension maps to a language that passes the filter.
pub open spec fn source_file_of(entry: WalkEntryView, filter: Option<Vec<Language>>) -> Option<
    SourceFileView,
> {
    match language_of_path(entry.path) {
        Some(language) => if entry.is_file && language_allowed(filter, language) {
            Some(SourceFileView { path: entry.path, language })
        } else {
            None
        },
        None => None,
    }
}

/// The source files among the first `n` entries, in the order of the walk.
pub open spec fn selected_upto(
    entries: Seq<WalkEntryView>,
    filter: Option<Vec<Language>>,
    n: int,
) -> Seq<SourceFileView>
    decreases n,
{
    if n <= 0 || n > entries.len() {
        Seq::empty()
    } else {
        match source_file_of(entries[n - 1], filter) {
            Some(file) => selected_upto(entries, filter, n - 1).push(file),
            None => selected_upto(entries, filter, n - 1),
        }
    }
}

/// The source files among the entries of a walk.
pub open spec fn selected(entries: Seq<WalkEntryView>, filter: Option<Vec<Language>>) -> Seq<
    SourceFileView,
> {
    selected_upto(entries, filter, entries.len() as int)
}

/// How many of the first `n` files are in the given language.
pub open spec fn count_upto(files: Seq<SourceFileView>, language: Language, n: int) -> nat
    decreases n,
{
    if n <= 0 || n > files.len() {
        0
    } else if files[n - 1].language == language {
        count_upto(files, language, n - 1) + 1
    } else {
        count_upto(files, language, n - 1)
    }
}

/// How many of the files are in the given language.
pub open spec fn count_of(files: Seq<SourceFileView>, language: Language) -> nat {
    count_upto(files, language, files.len() as int)
}

pub proof fn lemma_count_upto_bound(files: Seq<SourceFileView>, language: Language, n: int)
    requires
        0 <= n <= files.len(),
    ensures
        count_upto(files, language, n) <= n,
    decreases n,
{
    if n > 0 {
        lemma_count_upto_bound(files, language, n - 1);
    }
}

/// Number of files per language.
#[derive(Debug, Clone, Copy, PartialEq, Eq, Structural)]
pub struct LanguageCounts {
    pub python: usize,
    pub rust: usize,
    pub javascript: usize,
    pub typescript: usize,
    pub go: usize,
    pub cpp: usize,
}

impl LanguageCounts {
    /// The count of one language.
    pub open spec fn count(self, language: Language) -> usize {
        match language {
            Language::Python => self.python,
            Language::Rust => self.rust,
            Language::JavaScript => self.javascript,
            Language::TypeScript => self.typescript,
            Language::Go => self.go,
            Language::Cpp => self.cpp,
        }
    }

    /// The count of one language.
    pub fn get(&self, language: Language) -> (n: usize)
        ensures
            n == self.count(language),
    {
        match language {
            Language::Python => self.python,
            Language::Rust => self.rust,
            Language::JavaScript => self.javascript,
            Language::TypeScript => self.typescript,
            Language::Go => self.go,
            Language::Cpp => self.cpp,
        }
    }
}

/// Decides whether `list` holds `language`.
pub fn contains_language(list: &Vec<Language>, language: Language) -> (r: bool)
    ensures
        r == list@.contains(language),
{
    let mut i: usize = 0;
    while i < list.len()
        invariant
            i <= list.len(),
            forall|k: int| 0 <= k < i ==> list@[k] != language,
        decreases list.len() - i,
    {
        if list[i] == language {
            return true;
        }
        i += 1;
    }
    false
}

/// Detects the language of a path from its extension.
pub fn detect_language(path: &str) -> (r: Option<Language>)
    ensures
        r == language_of_path(path@),
{
    let chars = chars_of(path);
    match extension(chars.as_slice()) {
        Some(ext) => {
            let ext = string_of(ext.as_slice());
            Language::from_extension(ext.as_str())
        },
        None => None,
    }
}

/// File crawler that discovers source files.
pub struct Crawler {
    config: CrawlerConfig,
}

impl Crawler {
    /// The crawler's configuration.
    pub closed spec fn config(&self) -> CrawlerConfig {
        self.config
    }

    pub fn new(config: CrawlerConfig) -> (r: Crawler)
        ensures
            r.config() == config,
    {
        Crawler { config }
    }

    /// The crawler's configuration.
    pub fn settings(&self) -> (r: &CrawlerConfig)
        ensures
            *r == self.config(),
    {
        &self.config
    }

    /// The source file that one walk entry stands for.
    pub fn accept(&self, entry: &WalkEntry) -> (r: Option<SourceFile>)
        ensures
            match r {
                Some(file) => source_file_of(entry@, self.config().languages) == Some(file@),
                None => source_file_of(entry@, self.config().languages) is None,
            },
    {
        match detect_language(entry.path.as_str()) {
            Some(language) => {
                let allowed = match &self.config.languages {
                    Some(list) => contains_language(list, language),
                    None => true,
                };
                if entry.is_file && allowed {
                    Some(SourceFile { path: entry.path.clone(), language })
                } else {
                    None
                }
            },
            None => None,
        }
    }

    /// Selects the source files among the entries that the walk of the root
    /// came upon: every regular file whose extension maps to a language that
    /// passes the filter, in the order of the walk.
    pub fn crawl(&self, entries: &Vec<WalkEntry>) -> (r: Result<Vec<SourceFile>, CrawlerError>)
        ensures
            r is Ok,
            r->Ok_0.deep_view() == selected(entries.deep_view(), self.config().languages),
    {
        let mut files: Vec<SourceFile> = Vec::new();
        let mut i: usize = 0;
        while i < entries.len()
            invariant
                i <= entries.len(),
                files.deep_view() == selected_upto(
                    entries.deep_view(),
                    self.config().languages,
                    i as int,
                ),
            decreases entries.len() - i,
        {
            assert(entries.deep_view()[i as int] == entries[i as int]@);
            match self.accept(&entries[i]) {
                Some(file) => {
                    proof {
                        assert(files.deep_view().push(file@) == selected_upto(
                            entries.deep_view(),
                            self.config().languages,
                            i + 1,
                        ));
                    }
                    files.push(file);
                    assert(files.deep_view() == selected_upto(
                        entries.deep_view(),
                        self.config().languages,
                        i + 1,
                    ));
                },
                None => {},
            }
            i += 1;
        }
        Ok(files)
    }

    /// The number of selected files for each language.
    pub fn count_by_language(&self, entries: &Vec<WalkEntry>) -> (r: Result<
        LanguageCounts,
        CrawlerError,
    >)
        ensures
            r is Ok,
            forall|language: Language|
                r->Ok_0.count(language) == #[trigger] count_of(
                    selected(entries.deep_view(), self.config().languages),
                    language,
                ),
    {
        let files = match self.crawl(entries) {
            Ok(files) => files,
            Err(e) => {
                return Err(e);
            },
        };
        let mut counts = LanguageCounts {
            python: 0,
            rust: 0,
            javascript: 0,
            typescript: 0,
            go: 0,
            cpp: 0,
        };
        let ghost view = files.deep_view();
        let mut i: usize = 0;
        while i < files.len()
            invariant
                i <= files.len(),
                view == files.deep_view(),
                forall|language: Language|
                    counts.count(language) == #[trigger] count_upto(view, language, i as int),
            decreases files.len() - i,
        {
            assert(view[i as int] == files[i as int]@);
            proof {
                lemma_count_upto_bound(view, Language::Python, i as int);
                lemma_count_upto_bound(view, Language::Rust, i as int);
                lemma_count_upto_bound(view, Language::JavaScript, i as int);
                lemma_count_upto_bound(view, Language::TypeScript, i as int);
                lemma_count_upto_bound(view, Language::Go, i as int);
                lemma_count_upto_bound(view, Language::Cpp, i as int);
            }
            match files[i].language {
                Language::Python => {
                    counts.python = counts.python + 1;
                },
                Language::Rust => {
                    counts.rust = counts.rust + 1;
                },
                Language::JavaScript => {
                    counts.javascript = counts.javascript + 1;
                },
                Language::TypeScript => {
                    counts.typescript = counts.typescript + 1;
                },
                Language::Go => {
                    counts.go = counts.go + 1;
                },
                Language::Cpp => {
                    counts.cpp = counts.cpp + 1;
                },
            }
            i += 1;
        }
        Ok(counts)
    }

    /// The glob that keeps the walk out of directories of the given name.
    pub open spec fn deny_glob(name: Seq<char>) -> Seq<char> {
        "!**/"@ + name
    }

    /// The globs that keep the walk out of the denied directories, one for
    /// each name of the deny-list and in its order.
    pub fn deny_globs(&self) -> (r: Vec<String>)
        ensures
            r.len() == self.config().ignore_patterns.len(),
            forall|i: int|
                0 <= i < r.len() ==> (#[trigger] r[i])@ == Self::deny_glob(
                    self.config().ignore_patterns[i]@,
                ),
    {
        let mut globs: Vec<String> = Vec::new();
        let mut i: usize = 0;
        while i < self.config.ignore_patterns.len()
            invariant
                i <= self.config.ignore_patterns.len(),
                globs.len() == i,
                forall|k: int|
                    0 <= k < i ==> (#[trigger] globs[k])@ == Self::deny_glob(
                        self.config.ignore_patterns[k]@,
                    ),
            decreases self.config.ignore_patterns.len() - i,
        {
            globs.push(String::from_str("!**/").concat(self.config.ignore_patterns[i].as_str()));
            i += 1;
        }
        globs
    }
}

/// Selects the source files of a walk of `root` with the default
/// configuration and the given language filter.
pub fn crawl_directory(root: &str, languages: Option<Vec<Language>>, entries: &Vec<WalkEntry>) -> (r:
    Result<Vec<SourceFile>, CrawlerError>)
    ensures
        r is Ok,
        r->Ok_0.deep_view() == selected(entries.deep_view(), languages),
{
    let defaults = CrawlerConfig::default();
    let config = CrawlerConfig {
        root: String::from_str(root),
        languages,
        threads: defaults.threads,
        git_ignore: defaults.git_ignore,
        ignore_patterns: defaults.ignore_patterns,
    };
    Crawler::new(config).crawl(entries)
}

} // verus!
