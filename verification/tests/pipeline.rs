use kampus_core::cli::callees_query;
use kampus_core::cli::callers_query;
use kampus_core::cli::find_query;
use kampus_core::cli::indent;
use kampus_core::cli::kind_label;
use kampus_core::cli::parse_languages;
use kampus_core::cli::pattern_to_condition;
use kampus_core::cli::split_at_commas;
use kampus_core::cli::truncate;
use kampus_core::crawler::crawl_directory;
use kampus_core::crawler::detect_language;
use kampus_core::crawler::Crawler;
use kampus_core::crawler::CrawlerConfig;
use kampus_core::crawler::CrawlerError;
use kampus_core::crawler::WalkEntry;
use kampus_core::extractor::ExtractorError;
use kampus_core::git::changed_file;
use kampus_core::git::classify_delta;
use kampus_core::git::filter_by_extensions;
use kampus_core::git::uncommitted_change;
use kampus_core::git::ChangeKind;
use kampus_core::git::ChangedFile;
use kampus_core::git::DeltaStatus;
use kampus_core::git::GitError;
use kampus_core::git::StatusFlags;
use kampus_core::graph::call_query;
use kampus_core::graph::clear_query;
use kampus_core::graph::delete_file_queries;
use kampus_core::graph::escape_string;
use kampus_core::graph::extract_i64;
use kampus_core::graph::extract_string;
use kampus_core::graph::file_query;
use kampus_core::graph::get_metadata_query;
use kampus_core::graph::import_query;
use kampus_core::graph::index_queries;
use kampus_core::graph::inheritance_query;
use kampus_core::graph::last_indexed_commit_key;
use kampus_core::graph::parent_query;
use kampus_core::graph::read_count;
use kampus_core::graph::read_metadata;
use kampus_core::graph::set_metadata_query;
use kampus_core::graph::stats_queries;
use kampus_core::graph::symbol_kind_to_label;
use kampus_core::graph::symbol_query;
use kampus_core::graph::write_file_queries;
use kampus_core::graph::GraphError;
use kampus_core::graph::GraphStats;
use kampus_core::graph::GraphValue;
use kampus_core::graph::WriteStats;
use kampus_core::index::index_source;
use kampus_core::index::language_for_parsing;
use kampus_core::index::percent_done;
use kampus_core::index::plan_changes;
use kampus_core::index::progress_is_due;
use kampus_core::index::short_commit;
use kampus_core::index::FileOp;
use kampus_core::index::FullAction;
use kampus_core::index::FullEvent;
use kampus_core::index::FullIndexConfig;
use kampus_core::index::FullIndexer;
use kampus_core::index::FullPhase;
use kampus_core::index::IncrementalAction;
use kampus_core::index::IncrementalConfig;
use kampus_core::index::IncrementalEvent;
use kampus_core::index::IncrementalIndexer;
use kampus_core::index::IncrementalPhase;
use kampus_core::index::IndexError;
use kampus_core::index::IndexingStats;
use kampus_core::pool::ParserError;
use kampus_core::Call;
use kampus_core::FileSymbols;
use kampus_core::Import;
use kampus_core::Inheritance;
use kampus_core::Language;
use kampus_core::SymbolKind;

fn entry(path: &str, is_file: bool) -> WalkEntry {
    WalkEntry { path: path.to_string(), is_file }
}

fn change(path: &str, kind: ChangeKind, old: Option<&str>) -> ChangedFile {
    ChangedFile { path: path.to_string(), old_path: old.map(String::from), kind }
}

fn describe(op: &FileOp) -> String {
    match op {
        FileOp::Delete(p) => format!("delete {}", p),
        FileOp::Upsert(p) => format!("upsert {}", p),
    }
}

// ---------------------------------------------------------------------------
// Crawling
// ---------------------------------------------------------------------------

#[test]
fn default_crawler_configuration() {
    let config = CrawlerConfig::default();
    assert_eq!(config.root, ".");
    assert!(config.languages.is_none());
    assert!(config.git_ignore);
    assert_eq!(
        config.ignore_patterns,
        vec!["node_modules", "target", ".git", "vendor", "dist", "build", "__pycache__", ".venv", "venv"]
    );
    assert!(config.threads >= 1);
}

#[test]
fn crawl_selects_regular_files_of_known_languages() {
    let entries = vec![
        entry("src", false),
        entry("src/main.rs", true),
        entry("src/lib.PY", true),
        entry("README.md", true),
        entry("dir.py", false),
        entry("web/app.tsx", true),
        entry("Makefile", true),
        entry("a/.hidden", true),
        entry("x.h", true),
    ];
    let crawler = Crawler::new(CrawlerConfig::default());
    let files = crawler.crawl(&entries).unwrap();
    let got: Vec<(String, Language)> = files.iter().map(|f| (f.path.clone(), f.language)).collect();
    assert_eq!(
        got,
        vec![
            ("src/main.rs".to_string(), Language::Rust),
            ("src/lib.PY".to_string(), Language::Python),
            ("web/app.tsx".to_string(), Language::TypeScript),
            ("x.h".to_string(), Language::Cpp),
        ]
    );
    let counts = crawler.count_by_language(&entries).unwrap();
    assert_eq!(counts.get(Language::Rust), 1);
    assert_eq!(counts.get(Language::Python), 1);
    assert_eq!(counts.get(Language::TypeScript), 1);
    assert_eq!(counts.get(Language::Cpp), 1);
    assert_eq!(counts.get(Language::Go), 0);
    assert_eq!(counts.get(Language::JavaScript), 0);
}

#[test]
fn crawl_honours_the_language_filter() {
    let entries = vec![entry("a.py", true), entry("b.rs", true), entry("c.go", true), entry("d.py", true)];
    let files = crawl_directory("root", Some(vec![Language::Python, Language::Go]), &entries).unwrap();
    let got: Vec<&str> = files.iter().map(|f| f.path.as_str()).collect();
    assert_eq!(got, vec!["a.py", "c.go", "d.py"]);
    assert!(crawl_directory("root", Some(Vec::new()), &entries).unwrap().is_empty());
    assert_eq!(crawl_directory("root", None, &entries).unwrap().len(), 4);
    assert!(crawl_directory("root", None, &Vec::new()).unwrap().is_empty());
}

#[test]
fn crawl_selects_the_same_files_in_any_order() {
    let forward = vec![entry("a.py", true), entry("b.txt", true), entry("c.rs", true)];
    let backward = vec![entry("c.rs", true), entry("b.txt", true), entry("a.py", true), entry("a.py", true)];
    let crawler = Crawler::new(CrawlerConfig::default());
    let mut first: Vec<(String, Language)> =
        crawler.crawl(&forward).unwrap().iter().map(|f| (f.path.clone(), f.language)).collect();
    let mut second: Vec<(String, Language)> =
        crawler.crawl(&backward).unwrap().iter().map(|f| (f.path.clone(), f.language)).collect();
    first.sort_by(|a, b| a.0.cmp(&b.0));
    second.sort_by(|a, b| a.0.cmp(&b.0));
    second.dedup();
    assert_eq!(first, second);
}

#[test]
fn deny_globs_name_every_denied_directory() {
    let mut config = CrawlerConfig::default();
    config.ignore_patterns = vec!["target".to_string(), ".git".to_string()];
    let crawler = Crawler::new(config);
    assert_eq!(crawler.deny_globs(), vec!["!**/target", "!**/.git"]);
    assert_eq!(crawler.settings().ignore_patterns.len(), 2);
    assert_eq!(detect_language("a/b/c.CPP"), Some(Language::Cpp));
    assert_eq!(detect_language("a/b.d/c"), None);
}

// ---------------------------------------------------------------------------
// Changes
// ---------------------------------------------------------------------------

#[test]
fn delta_statuses_map_to_change_kinds() {
    assert_eq!(classify_delta(DeltaStatus::Added, false), Some(ChangeKind::Added));
    assert_eq!(classify_delta(DeltaStatus::Deleted, false), Some(ChangeKind::Deleted));
    assert_eq!(classify_delta(DeltaStatus::Modified, true), Some(ChangeKind::Modified));
    assert_eq!(classify_delta(DeltaStatus::Renamed, true), Some(ChangeKind::Renamed));
    assert_eq!(classify_delta(DeltaStatus::Copied, false), Some(ChangeKind::Added));
    assert_eq!(classify_delta(DeltaStatus::Untracked, true), Some(ChangeKind::Added));
    assert_eq!(classify_delta(DeltaStatus::Untracked, false), None);
    for status in [DeltaStatus::Unmodified, DeltaStatus::Ignored, DeltaStatus::Typechange, DeltaStatus::Unreadable, DeltaStatus::Conflicted] {
        assert_eq!(classify_delta(status, true), None);
    }
}

#[test]
fn changed_files_keep_the_old_path_only_for_renames() {
    let renamed = changed_file(DeltaStatus::Renamed, Some("new.py".to_string()), Some("old.py".to_string()), false).unwrap();
    assert_eq!(renamed.path, "new.py");
    assert_eq!(renamed.old_path.as_deref(), Some("old.py"));
    assert_eq!(renamed.kind, ChangeKind::Renamed);
    let modified = changed_file(DeltaStatus::Modified, Some("a.py".to_string()), Some("a.py".to_string()), false).unwrap();
    assert!(modified.old_path.is_none());
    let deleted = changed_file(DeltaStatus::Deleted, None, Some("gone.py".to_string()), false).unwrap();
    assert_eq!(deleted.path, "gone.py");
    assert!(deleted.old_path.is_none());
    assert_eq!(deleted.kind, ChangeKind::Deleted);
    let copied = changed_file(DeltaStatus::Copied, Some("copy.py".to_string()), Some("orig.py".to_string()), false).unwrap();
    assert_eq!(copied.kind, ChangeKind::Added);
    assert!(copied.old_path.is_none());
    assert!(changed_file(DeltaStatus::Added, None, None, false).is_none());
    assert!(changed_file(DeltaStatus::Ignored, Some("x".to_string()), None, true).is_none());
    let lone = changed_file(DeltaStatus::Renamed, None, Some("only_old.py".to_string()), false).unwrap();
    assert_eq!(lone.path, "only_old.py");
    assert_eq!(lone.old_path.as_deref(), Some("only_old.py"));
}

#[test]
fn uncommitted_changes_prefer_new_over_deleted_over_modified_over_renamed() {
    let none = StatusFlags {
        wt_new: false, index_new: false, wt_deleted: false, index_deleted: false,
        wt_modified: false, index_modified: false, wt_renamed: false, index_renamed: false,
    };
    assert!(uncommitted_change(none, Some("a".to_string())).is_none());
    assert!(uncommitted_change(StatusFlags { wt_new: true, ..none }, None).is_none());
    let kind = |flags: StatusFlags| uncommitted_change(flags, Some("a".to_string())).unwrap().kind;
    assert_eq!(kind(StatusFlags { index_new: true, wt_deleted: true, ..none }), ChangeKind::Added);
    assert_eq!(kind(StatusFlags { index_deleted: true, wt_modified: true, ..none }), ChangeKind::Deleted);
    assert_eq!(kind(StatusFlags { wt_modified: true, index_renamed: true, ..none }), ChangeKind::Modified);
    assert_eq!(kind(StatusFlags { wt_renamed: true, ..none }), ChangeKind::Renamed);
    let change = uncommitted_change(StatusFlags { wt_new: true, ..none }, Some("p.rs".to_string())).unwrap();
    assert_eq!(change.path, "p.rs");
    assert!(change.old_path.is_none());
}

#[test]
fn changes_are_filtered_by_extension() {
    let changes = vec![
        change("a.py", ChangeKind::Added, None),
        change("b.PY", ChangeKind::Added, None),
        change("c.rs", ChangeKind::Modified, None),
        change("d", ChangeKind::Deleted, None),
        change("e.py", ChangeKind::Renamed, Some("f.py")),
    ];
    let kept = filter_by_extensions(changes, &vec!["py", "go"]);
    let got: Vec<&str> = kept.iter().map(|c| c.path.as_str()).collect();
    assert_eq!(got, vec!["a.py", "e.py"]);
    assert_eq!(kept[1].old_path.as_deref(), Some("f.py"));
    assert_eq!(kept[1].duplicate().kind, ChangeKind::Renamed);
    assert!(filter_by_extensions(vec![change("a.py", ChangeKind::Added, None)], &Vec::new()).is_empty());
}

// ---------------------------------------------------------------------------
// Graph queries
// ---------------------------------------------------------------------------

#[test]
fn escaping() {
    assert_eq!(escape_string("plain"), "plain");
    assert_eq!(escape_string("it's"), "it\\'s");
    assert_eq!(escape_string("a\\b"), "a\\\\b");
    assert_eq!(escape_string("l1\nl2\r\tend"), "l1\\nl2\\r\\tend");
    assert_eq!(escape_string("\\'"), "\\\\\\'");
    assert_eq!(escape_string(""), "");
    assert_eq!(escape_string("\"é\""), "\"é\"");
    for text in ["it's", "a\\b", "x\ny", "\\n", "'\\'\n\r\t", "ü'"] {
        let expected = text
            .replace('\\', "\\\\")
            .replace('\'', "\\'")
            .replace('\n', "\\n")
            .replace('\r', "\\r")
            .replace('\t', "\\t");
        assert_eq!(escape_string(text), expected);
    }
}

#[test]
fn schema_queries() {
    let queries = index_queries();
    assert_eq!(queries.len(), 9);
    assert_eq!(queries[0], "CREATE INDEX FOR (f:File) ON (f.path)");
    assert_eq!(queries[8], "CREATE INDEX FOR (m:Module) ON (m.name)");
    assert!(queries.contains(&"CREATE INDEX FOR (i:Interface) ON (i.name)"));
    assert_eq!(clear_query(), "MATCH (n) DETACH DELETE n");
    assert_eq!(last_indexed_commit_key(), "last_indexed_commit");
    assert_eq!(stats_queries().len(), 6);
    assert_eq!(stats_queries()[4], "MATCH ()-[r:CALLS]->() RETURN count(r)");
    assert_eq!(symbol_kind_to_label(SymbolKind::Function), "Function");
    assert_eq!(symbol_kind_to_label(SymbolKind::Trait), "Trait");
    assert_eq!(symbol_kind_to_label(SymbolKind::Constant), "Constant");
}

#[test]
fn delete_and_metadata_queries() {
    let (first, second) = delete_file_queries("a'b.py");
    assert_eq!(
        first,
        "\n            MATCH (f:File {path: 'a\\'b.py'})\n            OPTIONAL MATCH (f)-[:CONTAINS]->(s)\n            DETACH DELETE f, s\n            "
    );
    assert_eq!(
        second,
        "\n            MATCH (s)\n            WHERE s.file_path = 'a\\'b.py'\n            DETACH DELETE s\n            "
    );
    assert_eq!(get_metadata_query("k'"), "MATCH (m:Metadata {key: 'k\\''}) RETURN m.value");
    assert_eq!(
        set_metadata_query("last_indexed_commit", "abc\n"),
        "\n            MERGE (m:Metadata {key: 'last_indexed_commit'})\n            SET m.value = 'abc\\n'\n            "
    );
}

#[test]
fn write_queries() {
    let file = index_source(Language::Python, b"import os\nclass A(B):\n    def m(self):\n        f()\n", "d'ir/a.py").unwrap();
    assert_eq!(
        file_query(&file),
        format!(
            "\n            MERGE (f:File {{path: 'd\\'ir/a.py'}})\n            SET f.language = 'Python',\n                f.hash = '{}',\n                f.line_count = 5,\n                f.last_indexed = timestamp()\n            ",
            file.content_hash
        )
    );
    let class = &file.symbols[0];
    assert_eq!(
        symbol_query(class, "d'ir/a.py"),
        "\n            MERGE (s:Class {id: 'd\\'ir/a.py:A:2'})\n            SET s.name = 'A',\n                s.file_path = 'd\\'ir/a.py',\n                s.start_line = 2,\n                s.end_line = 4,\n                s.signature = 'class A(B)',\n                s.visibility = 'public',\n                s.is_async = false,\n                s.docstring = '',\n                s.language = 'Python'\n            WITH s\n            MATCH (f:File {path: 'd\\'ir/a.py'})\n            MERGE (f)-[:CONTAINS]->(s)\n            "
    );
    assert_eq!(
        parent_query("p:1", "c:2"),
        "\n                MATCH (p {id: 'p:1'})\n                MATCH (c {id: 'c:2'})\n                MERGE (p)-[:CONTAINS]->(c)\n                "
    );
    let import = Import {
        source_file: "a.py".to_string(),
        target: "m".to_string(),
        alias: Some("x".to_string()),
        items: vec!["a".to_string(), "b'c".to_string()],
        line: 3,
    };
    assert_eq!(
        import_query(&import),
        "\n            MERGE (m:Module {name: 'm'})\n            SET m.is_external = true\n            WITH m\n            MATCH (f:File {path: 'a.py'})\n            MERGE (f)-[r:IMPORTS]->(m)\n            SET r.alias = 'x',\n                r.items = '[\"a\",\"b\\'c\"]',\n                r.line = 3\n            "
    );
    let call = Call { caller_id: "a.py:f:1".to_string(), callee_name: "g".to_string(), call_site_line: 2 };
    assert_eq!(
        call_query(&call),
        "\n            MATCH (caller {id: 'a.py:f:1'})\n            OPTIONAL MATCH (callee:Function {name: 'g'})\n            FOREACH (_ IN CASE WHEN callee IS NOT NULL THEN [1] ELSE [] END |\n                MERGE (caller)-[r:CALLS]->(callee)\n                SET r.call_site_line = 2\n            )\n            "
    );
    let inheritance = Inheritance { child_id: "a.py:A:1".to_string(), parent_name: "B".to_string() };
    assert_eq!(
        inheritance_query(&inheritance),
        "\n            MATCH (child {id: 'a.py:A:1'})\n            OPTIONAL MATCH (parent)\n            WHERE (parent:Class OR parent:Struct OR parent:Interface OR parent:Trait)\n              AND parent.name = 'B'\n            FOREACH (_ IN CASE WHEN parent IS NOT NULL THEN [1] ELSE [] END |\n                MERGE (child)-[:INHERITS]->(parent)\n            )\n            "
    );

    let queries = write_file_queries(&file);
    assert_eq!(queries.len(), 1 + 3 + 1 + 1 + 1);
    assert_eq!(queries[0], file_query(&file));
    assert_eq!(queries[1], symbol_query(&file.symbols[0], &file.file_path));
    assert_eq!(queries[2], symbol_query(&file.symbols[1], &file.file_path));
    assert_eq!(queries[3], parent_query("d'ir/a.py:A:2", "d'ir/a.py:m:3"));
    assert_eq!(queries[4], import_query(&file.imports[0]));
    assert_eq!(queries[5], call_query(&file.calls[0]));
    assert_eq!(queries[6], inheritance_query(&file.inheritance[0]));
    let empty = FileSymbols::default();
    assert_eq!(write_file_queries(&empty).len(), 1);
    assert!(file_query(&empty).contains("SET f.language = '',"));
}

#[test]
fn symbols_with_the_same_id_are_written_in_order() {
    let file = index_source(Language::Rust, b"struct S;\nimpl S { fn f(&self) {} }\n", "s.rs").unwrap();
    let function = file.symbols.iter().position(|s| s.kind == SymbolKind::Function && s.name == "f").unwrap();
    let method = file.symbols.iter().position(|s| s.kind == SymbolKind::Method && s.name == "f").unwrap();
    assert_eq!(file.symbols[function].id, file.symbols[method].id);
    assert!(function < method);
    let queries = write_file_queries(&file);
    let first = queries.iter().position(|q| q.contains("MERGE (s:Function {id: 's.rs:f:2'})")).unwrap();
    let second = queries.iter().position(|q| q.contains("MERGE (s:Method {id: 's.rs:f:2'})")).unwrap();
    assert!(first < second);
}

#[test]
fn answers_are_decoded_by_their_tag() {
    let text = GraphValue::Text("abc".to_string());
    let number = GraphValue::Integer(-7);
    assert_eq!(extract_string(Some(&text)), "abc");
    assert_eq!(extract_string(Some(&number)), "");
    assert_eq!(extract_string(None), "");
    assert_eq!(extract_i64(Some(&number)), -7);
    assert_eq!(extract_i64(Some(&text)), 0);
    assert_eq!(extract_i64(Some(&GraphValue::Null)), 0);
    assert_eq!(extract_i64(None), 0);
    assert_eq!(read_count(&vec![vec![GraphValue::Integer(42), GraphValue::Integer(1)]]), 42);
    assert_eq!(read_count(&vec![vec![GraphValue::Integer(-1)]]), 0);
    assert_eq!(read_count(&vec![vec![GraphValue::Bool(true)]]), 0);
    assert_eq!(read_count(&vec![Vec::new()]), 0);
    assert_eq!(read_count(&Vec::new()), 0);
    assert_eq!(read_metadata(&vec![vec![GraphValue::Text("c0ffee".to_string())]]), Some("c0ffee".to_string()));
    assert_eq!(read_metadata(&vec![vec![GraphValue::Other("x".to_string())]]), None);
    assert_eq!(read_metadata(&Vec::new()), None);
}

#[test]
fn write_statistics_count_what_was_written() {
    let file = index_source(Language::Python, b"import os\ndef f(): g()\ndef h(): pass\n", "a.py").unwrap();
    let mut stats = WriteStats::default();
    stats.record(&file);
    stats.record(&file);
    assert_eq!(stats, WriteStats { files_written: 2, symbols_written: 4, imports_written: 2, calls_written: 2 });
    let mut full = WriteStats { files_written: usize::MAX, symbols_written: usize::MAX - 1, imports_written: 0, calls_written: 0 };
    full.record(&file);
    assert_eq!(full.files_written, usize::MAX);
    assert_eq!(full.symbols_written, usize::MAX);
    assert_eq!(GraphStats::default().file_count, 0);
}

// ---------------------------------------------------------------------------
// Errors
// ---------------------------------------------------------------------------

#[test]
fn error_messages() {
    assert_eq!(CrawlerError::WalkError("x".to_string()).to_string(), "Failed to walk directory: x");
    assert_eq!(CrawlerError::Io("x".to_string()).to_string(), "IO error: x");
    assert_eq!(GitError::NotARepository("/tmp".to_string()).to_string(), "Not a git repository: /tmp");
    assert_eq!(GitError::Git("boom".to_string()).to_string(), "Git error: boom");
    assert_eq!(GitError::InvalidRef("r".to_string()).to_string(), "Invalid reference: r");
    assert_eq!(GraphError::Connection("c".to_string()).to_string(), "Database connection error: c");
    assert_eq!(GraphError::Query("q".to_string()).to_string(), "Query execution error: q");
    assert_eq!(GraphError::Serialization("s".to_string()).to_string(), "Serialization error: s");
    assert_eq!(GraphError::Schema("s".to_string()).to_string(), "Schema error: s");
    assert_eq!(ParserError::SetLanguage("v".to_string()).to_string(), "Failed to set language for parser: v");
    assert_eq!(ParserError::Parse("p".to_string()).to_string(), "Failed to parse file: p");
    assert_eq!(ParserError::UnsupportedLanguage("l".to_string()).to_string(), "Unsupported language: l");
    assert_eq!(ExtractorError::UnsupportedLanguage("l".to_string()).to_string(), "Unsupported language: l");
    assert_eq!(ExtractorError::ExtractionFailed("f".to_string()).to_string(), "Extraction failed: f");
    assert_eq!(
        IndexError::Git(GitError::InvalidRef("r".to_string())).to_string(),
        "Git error: Invalid reference: r"
    );
    assert_eq!(
        IndexError::Parser(ParserError::Parse("p".to_string())).to_string(),
        "Parser error: Failed to parse file: p"
    );
    assert_eq!(IndexError::Crawler(CrawlerError::Io("i".to_string())).to_string(), "Crawler error: IO error: i");
    assert_eq!(
        IndexError::Extractor(ExtractorError::ExtractionFailed("f".to_string())).to_string(),
        "Extractor error: Extraction failed: f"
    );
    assert_eq!(IndexError::Graph(GraphError::Query("q".to_string())).to_string(), "Graph error: Query execution error: q");
    assert_eq!(IndexError::Io("gone".to_string()).to_string(), "IO error: gone");
}

// ---------------------------------------------------------------------------
// Runs
// ---------------------------------------------------------------------------

#[test]
fn statistics_as_text() {
    let graph = GraphStats { file_count: 1, function_count: 20, class_count: 3, struct_count: 0, calls_count: 45, imports_count: 6 };
    assert_eq!(
        graph.to_string(),
        "Graph Statistics:\n  Files:     1\n  Functions: 20\n  Classes:   3\n  Structs:   0\n  Calls:     45\n  Imports:   6\n"
    );
    let written = WriteStats { files_written: 2, symbols_written: 30, imports_written: 4, calls_written: 5 };
    assert_eq!(
        written.to_string(),
        "Write Statistics:\n  Files:   2\n  Symbols: 30\n  Imports: 4\n  Calls:   5\n"
    );
    let stats = IndexingStats {
        files_discovered: 10,
        files_parsed: 8,
        files_skipped: 1,
        files_failed: 2,
        write_stats: written,
        duration_millis: 1234,
    };
    assert_eq!(
        stats.to_string(),
        "Indexing Statistics:\n  Files discovered: 10\n  Files parsed:     8\n  Files skipped:    1\n  Files failed:     2\n  Symbols written:  30\n  Duration:         1234ms\n"
    );
}

#[test]
fn progress_and_display_helpers() {
    assert!(!progress_is_due(0));
    assert!(!progress_is_due(99));
    assert!(progress_is_due(100));
    assert!(progress_is_due(5000));
    assert_eq!(percent_done(0, 0), 0);
    assert_eq!(percent_done(1, 3), 33);
    assert_eq!(percent_done(2, 3), 66);
    assert_eq!(percent_done(3, 3), 100);
    assert_eq!(percent_done(usize::MAX, usize::MAX), 100);
    assert_eq!(short_commit("0123456789abcdef"), "0123456789ab");
    assert_eq!(short_commit("abc"), "abc");
    assert_eq!(short_commit(""), "");
    assert_eq!(IndexingStats::default().files_discovered, 0);
}

#[test]
fn languages_for_parsing() {
    assert!(matches!(language_for_parsing("a/b.rs"), Ok(Language::Rust)));
    match language_for_parsing("Makefile") {
        Err(IndexError::Parser(ParserError::UnsupportedLanguage(m))) => assert_eq!(m, "Unknown extension"),
        _ => panic!("expected an unsupported language"),
    }
    match language_for_parsing("notes.txt") {
        Err(IndexError::Parser(ParserError::UnsupportedLanguage(m))) => assert_eq!(m, "txt"),
        _ => panic!("expected an unsupported language"),
    }
}

#[test]
fn full_run_with_clearing() {
    let mut run = FullIndexer::new(FullIndexConfig::default());
    assert_eq!(run.current_phase(), FullPhase::Start);
    assert!(matches!(run.step(FullEvent::Begin), FullAction::Connect));
    assert!(matches!(run.step(FullEvent::Completed), FullAction::Initialize));
    assert!(matches!(run.step(FullEvent::Completed), FullAction::Clear));
    assert!(matches!(run.step(FullEvent::Completed), FullAction::Crawl));
    assert!(matches!(run.step(FullEvent::Crawled(10)), FullAction::Parse));
    assert!(matches!(run.step(FullEvent::Parsed(8, 2)), FullAction::Write));
    let written = WriteStats { files_written: 8, symbols_written: 30, imports_written: 4, calls_written: 5 };
    assert!(matches!(run.step(FullEvent::Written(written)), FullAction::ReadHead));
    match run.step(FullEvent::Head(Some("c0ffee".to_string()))) {
        FullAction::StoreCommit(c) => assert_eq!(c, "c0ffee"),
        _ => panic!("expected the commit to be stored"),
    }
    assert!(matches!(run.step(FullEvent::Completed), FullAction::Finish));
    assert_eq!(run.current_phase(), FullPhase::Done);
    let stats = run.statistics();
    assert_eq!(stats.files_discovered, 10);
    assert_eq!(stats.files_parsed, 8);
    assert_eq!(stats.files_failed, 2);
    assert_eq!(stats.write_stats, written);
    assert!(run.settings().clear_existing);
}

#[test]
fn full_run_without_clearing_and_outside_a_repository() {
    let mut config = FullIndexConfig::default();
    config.clear_existing = false;
    let mut run = FullIndexer::new(config);
    assert!(matches!(run.step(FullEvent::Begin), FullAction::Connect));
    assert!(matches!(run.step(FullEvent::Completed), FullAction::Initialize));
    assert!(matches!(run.step(FullEvent::Completed), FullAction::Crawl));
    assert!(matches!(run.step(FullEvent::Crawled(0)), FullAction::Parse));
    assert!(matches!(run.step(FullEvent::Parsed(0, 0)), FullAction::Write));
    assert!(matches!(run.step(FullEvent::Written(WriteStats::default())), FullAction::ReadHead));
    assert!(matches!(run.step(FullEvent::Head(None)), FullAction::Finish));
    assert_eq!(run.current_phase(), FullPhase::Done);
}

#[test]
fn full_run_ends_on_a_failure() {
    let mut run = FullIndexer::new(FullIndexConfig::default());
    run.step(FullEvent::Begin);
    match run.step(FullEvent::Failed(IndexError::Graph(GraphError::Connection("refused".to_string())))) {
        FullAction::Fail(IndexError::Graph(GraphError::Connection(m))) => assert_eq!(m, "refused"),
        _ => panic!("expected the failure"),
    }
    assert_eq!(run.current_phase(), FullPhase::Done);
    let mut odd = FullIndexer::new(FullIndexConfig::default());
    match odd.step(FullEvent::Crawled(3)) {
        FullAction::Fail(IndexError::Io(m)) => assert_eq!(m, "unexpected event"),
        _ => panic!("expected the failure"),
    }
    assert_eq!(odd.statistics().files_discovered, 0);
}

#[test]
fn full_run_ends_quietly_where_the_head_cannot_be_read() {
    let mut config = FullIndexConfig::default();
    config.clear_existing = false;
    let mut run = FullIndexer::new(config);
    run.step(FullEvent::Begin);
    run.step(FullEvent::Completed);
    run.step(FullEvent::Completed);
    run.step(FullEvent::Crawled(2));
    run.step(FullEvent::Parsed(2, 0));
    assert!(matches!(run.step(FullEvent::Written(WriteStats::default())), FullAction::ReadHead));
    let failure = FullEvent::Failed(IndexError::Git(GitError::Git("no head".to_string())));
    assert!(matches!(run.step(failure), FullAction::Finish));
    assert_eq!(run.current_phase(), FullPhase::Done);
    assert_eq!(run.statistics().files_parsed, 2);
}

#[test]
fn incremental_run_counts_parsed_and_failed_files() {
    let mut run = IncrementalIndexer::new(IncrementalConfig { since: Some("A".to_string()), ..IncrementalConfig::default() });
    assert!(run.is_consistent());
    run.step(IncrementalEvent::Begin);
    run.step(IncrementalEvent::Completed);
    run.step(IncrementalEvent::Completed);
    let changes = vec![
        change("a.py", ChangeKind::Added, None),
        change("gone.py", ChangeKind::Deleted, None),
        change("b.py", ChangeKind::Modified, None),
        change("c.py", ChangeKind::Renamed, Some("old_c.py")),
        change("d.py", ChangeKind::Added, None),
        change("skipped.txt", ChangeKind::Added, None),
    ];
    let mut action = run.step(IncrementalEvent::Changes(changes));
    let mut applied: Vec<String> = Vec::new();
    let failing = ["b.py", "d.py"];
    loop {
        assert!(run.is_consistent());
        match action {
            IncrementalAction::Apply(op) => {
                assert_eq!(run.current_phase(), IncrementalPhase::Applying);
                let fails = match &op {
                    FileOp::Upsert(p) => failing.contains(&p.as_str()),
                    FileOp::Delete(_) => false,
                };
                applied.push(describe(&op));
                action = if fails {
                    run.step(IncrementalEvent::Failed(IndexError::Io("unreadable".to_string())))
                } else {
                    run.step(IncrementalEvent::Completed)
                };
            }
            IncrementalAction::ReadHead => {
                action = run.step(IncrementalEvent::Head("h".to_string()));
            }
            IncrementalAction::StoreCommit(c) => {
                assert_eq!(c, "h");
                action = run.step(IncrementalEvent::Completed);
            }
            IncrementalAction::Finish => break,
            _ => panic!("unexpected action"),
        }
    }
    assert_eq!(
        applied,
        vec![
            "upsert a.py",
            "delete gone.py",
            "delete b.py",
            "upsert b.py",
            "delete old_c.py",
            "upsert c.py",
            "upsert d.py",
        ]
    );
    let stats = run.statistics();
    assert_eq!(stats.files_discovered, 5);
    assert_eq!(stats.files_failed, 2);
    assert_eq!(stats.files_parsed, 2);
    assert_eq!(stats.files_skipped, 0);
    assert_eq!(run.current_phase(), IncrementalPhase::Done);
    assert!(run.is_consistent());
}

#[test]
fn plans_delete_before_they_write() {
    let changes = vec![
        change("gone.py", ChangeKind::Deleted, None),
        change("new.py", ChangeKind::Renamed, Some("old.py")),
        change("added.rs", ChangeKind::Added, None),
        change("changed.go", ChangeKind::Modified, None),
        change("moved.js", ChangeKind::Renamed, None),
    ];
    let ops: Vec<String> = plan_changes(&changes).iter().map(describe).collect();
    assert_eq!(
        ops,
        vec![
            "delete gone.py",
            "delete old.py",
            "upsert new.py",
            "upsert added.rs",
            "delete changed.go",
            "upsert changed.go",
            "upsert moved.js",
        ]
    );
    assert!(plan_changes(&Vec::new()).is_empty());
}

#[test]
fn incremental_rename() {
    let mut run = IncrementalIndexer::new(IncrementalConfig { since: Some("A".to_string()), ..IncrementalConfig::default() });
    assert!(matches!(run.step(IncrementalEvent::Begin), IncrementalAction::OpenRepository));
    assert!(matches!(run.step(IncrementalEvent::Completed), IncrementalAction::Connect));
    match run.step(IncrementalEvent::Completed) {
        IncrementalAction::Diff(since) => assert_eq!(since, "A"),
        _ => panic!("expected a diff"),
    }
    let changes = vec![change("new.py", ChangeKind::Renamed, Some("old.py")), change("notes.txt", ChangeKind::Added, None)];
    match run.step(IncrementalEvent::Changes(changes)) {
        IncrementalAction::Apply(FileOp::Delete(p)) => assert_eq!(p, "old.py"),
        _ => panic!("expected the old path to be deleted"),
    }
    assert_eq!(run.statistics().files_discovered, 1);
    match run.step(IncrementalEvent::Completed) {
        IncrementalAction::Apply(FileOp::Upsert(p)) => {
            assert_eq!(p, "new.py");
            let file = index_source(Language::Python, b"def f(): pass\nclass A: pass\n", &p).unwrap();
            assert_eq!(file.file_path, "new.py");
            assert_eq!(file.symbols.len(), 2);
            assert!(file.symbols.iter().all(|s| s.file_path == "new.py"));
            assert!(file.symbols.iter().all(|s| s.id.starts_with("new.py:")));
        }
        _ => panic!("expected the new path to be written"),
    }
    assert!(matches!(run.step(IncrementalEvent::Completed), IncrementalAction::ReadHead));
    match run.step(IncrementalEvent::Head("B".to_string())) {
        IncrementalAction::StoreCommit(c) => assert_eq!(c, "B"),
        _ => panic!("expected the commit to be stored"),
    }
    assert!(matches!(run.step(IncrementalEvent::Completed), IncrementalAction::Finish));
    assert_eq!(run.current_phase(), IncrementalPhase::Done);
    assert_eq!(run.statistics().files_parsed, 1);
    assert_eq!(run.statistics().files_failed, 0);
}

#[test]
fn incremental_run_takes_the_reference_from_the_graph() {
    let mut run = IncrementalIndexer::new(IncrementalConfig::default());
    run.step(IncrementalEvent::Begin);
    run.step(IncrementalEvent::Completed);
    assert!(matches!(run.step(IncrementalEvent::Completed), IncrementalAction::ReadLastCommit));
    match run.step(IncrementalEvent::LastCommit(Some("deadbeef".to_string()))) {
        IncrementalAction::Diff(since) => assert_eq!(since, "deadbeef"),
        _ => panic!("expected a diff"),
    }
    assert!(matches!(run.step(IncrementalEvent::Changes(Vec::new())), IncrementalAction::ReadHead));

    let mut fresh = IncrementalIndexer::new(IncrementalConfig::default());
    fresh.step(IncrementalEvent::Begin);
    fresh.step(IncrementalEvent::Completed);
    fresh.step(IncrementalEvent::Completed);
    match fresh.step(IncrementalEvent::LastCommit(None)) {
        IncrementalAction::Fail(IndexError::Git(GitError::InvalidRef(m))) => {
            assert_eq!(m, "No previous index found. Run full index first.")
        }
        _ => panic!("expected the failure"),
    }
    assert_eq!(fresh.current_phase(), IncrementalPhase::Done);
}

#[test]
fn incremental_dry_run_writes_nothing() {
    let mut run = IncrementalIndexer::new(IncrementalConfig {
        since: Some("A".to_string()),
        dry_run: true,
        languages: Some(vec![Language::Python]),
        ..IncrementalConfig::default()
    });
    run.step(IncrementalEvent::Begin);
    run.step(IncrementalEvent::Completed);
    run.step(IncrementalEvent::Completed);
    let changes = vec![
        change("a.py", ChangeKind::Modified, None),
        change("b.rs", ChangeKind::Added, None),
        change("c.py", ChangeKind::Deleted, None),
    ];
    assert!(matches!(run.step(IncrementalEvent::Changes(changes)), IncrementalAction::Finish));
    assert_eq!(run.current_phase(), IncrementalPhase::Done);
    assert_eq!(run.statistics().files_discovered, 2);
    assert_eq!(run.statistics().files_parsed, 0);
    assert_eq!(run.statistics().files_failed, 0);
    assert!(run.is_consistent());
    let found: Vec<&str> = run.found_changes().iter().map(|c| c.path.as_str()).collect();
    assert_eq!(found, vec!["a.py", "c.py"]);
    assert!(run.settings().dry_run);
}

#[test]
fn incremental_run_counts_failed_files_and_stops_on_failed_deletes() {
    let mut run = IncrementalIndexer::new(IncrementalConfig { since: Some("A".to_string()), ..IncrementalConfig::default() });
    run.step(IncrementalEvent::Begin);
    run.step(IncrementalEvent::Completed);
    run.step(IncrementalEvent::Completed);
    let changes = vec![change("a.py", ChangeKind::Added, None), change("b.py", ChangeKind::Modified, None)];
    assert!(matches!(run.step(IncrementalEvent::Changes(changes)), IncrementalAction::Apply(FileOp::Upsert(_))));
    let failure = || IndexError::Io("unreadable".to_string());
    assert!(matches!(run.step(IncrementalEvent::Failed(failure())), IncrementalAction::Apply(FileOp::Delete(_))));
    assert_eq!(run.statistics().files_failed, 1);
    assert_eq!(run.statistics().files_parsed, 0);
    match run.step(IncrementalEvent::Failed(failure())) {
        IncrementalAction::Fail(IndexError::Io(m)) => assert_eq!(m, "unreadable"),
        _ => panic!("expected the failure"),
    }
    assert_eq!(run.current_phase(), IncrementalPhase::Done);
    match run.step(IncrementalEvent::Completed) {
        IncrementalAction::Fail(IndexError::Io(m)) => assert_eq!(m, "unexpected event"),
        _ => panic!("expected the failure"),
    }
}

#[test]
fn incremental_filter_keeps_indexed_files() {
    let run = IncrementalIndexer::new(IncrementalConfig { languages: Some(vec![Language::Go]), ..IncrementalConfig::default() });
    let kept = run.filter_changes(vec![
        change("a.go", ChangeKind::Added, None),
        change("b.py", ChangeKind::Added, None),
        change("c", ChangeKind::Added, None),
        change("d.GO", ChangeKind::Deleted, None),
    ]);
    let got: Vec<&str> = kept.iter().map(|c| c.path.as_str()).collect();
    assert_eq!(got, vec!["a.go", "d.GO"]);
    let all = IncrementalIndexer::new(IncrementalConfig::default());
    assert_eq!(all.filter_changes(vec![change("b.py", ChangeKind::Added, None), change("x.md", ChangeKind::Added, None)]).len(), 1);
}

// ---------------------------------------------------------------------------
// Command line
// ---------------------------------------------------------------------------

#[test]
fn truncation() {
    assert_eq!(truncate("short", 10), "short");
    assert_eq!(truncate("exactly10!", 10), "exactly10!");
    assert_eq!(truncate("a longer text", 10), "a longe...");
    assert_eq!(truncate("abcdef", 3), "abc");
    assert_eq!(truncate("abcdef", 4), "a...");
    assert_eq!(truncate("abcdef", 0), "");
    assert_eq!(truncate("äöüäöü", 5), "äö...");
    assert_eq!(truncate("", 0), "");
}

#[test]
fn indentation() {
    assert_eq!(indent(1), "");
    assert_eq!(indent(0), "");
    assert_eq!(indent(-3), "");
    assert_eq!(indent(2), "  ");
    assert_eq!(indent(4), "      ");
}

#[test]
fn patterns_become_conditions() {
    assert_eq!(pattern_to_condition("Auth"), "toLower(s.name) = 'auth'");
    assert_eq!(pattern_to_condition("*Auth*"), "toLower(s.name) CONTAINS 'auth'");
    assert_eq!(pattern_to_condition("auth*"), "toLower(s.name) STARTS WITH 'auth'");
    assert_eq!(pattern_to_condition("**auth"), "toLower(s.name) ENDS WITH 'auth'");
    assert_eq!(pattern_to_condition("*"), "true");
    assert_eq!(pattern_to_condition("***"), "true");
    assert_eq!(pattern_to_condition(""), "true");
    assert_eq!(pattern_to_condition("O'Neil*"), "toLower(s.name) STARTS WITH 'o\\'neil'");
    assert_eq!(pattern_to_condition("a*b"), "toLower(s.name) = 'a*b'");
}

#[test]
fn language_lists() {
    assert_eq!(parse_languages(None), Ok(None));
    assert_eq!(parse_languages(Some("py")), Ok(Some(vec![Language::Python])));
    assert_eq!(
        parse_languages(Some("py, RS ,typescript,c++")),
        Ok(Some(vec![Language::Python, Language::Rust, Language::TypeScript, Language::Cpp]))
    );
    assert_eq!(parse_languages(Some("py,,rs")), Err("Invalid language: Unknown language: ".to_string()));
    assert_eq!(parse_languages(Some("py, ruby ,perl")), Err("Invalid language: Unknown language: ruby".to_string()));
    assert_eq!(parse_languages(Some("")), Err("Invalid language: Unknown language: ".to_string()));
    let pieces: Vec<String> = split_at_commas(&"a,,b,".chars().collect()).iter().map(|p| p.iter().collect()).collect();
    assert_eq!(pieces, vec!["a", "", "b", ""]);
}

#[test]
fn kinds_on_the_command_line() {
    assert_eq!(kind_label("function"), Ok("Function"));
    assert_eq!(kind_label("class"), Ok("Class"));
    assert_eq!(kind_label("struct"), Ok("Struct"));
    assert_eq!(kind_label("interface"), Ok("Interface"));
    assert_eq!(kind_label("method"), Ok("Method"));
    assert_eq!(kind_label("trait"), Ok("Trait"));
    assert_eq!(kind_label("enum"), Ok("Enum"));
    assert_eq!(kind_label("Function"), Err("Unknown symbol kind: Function".to_string()));
    assert_eq!(kind_label("module"), Err("Unknown symbol kind: module".to_string()));
}

#[test]
fn find_and_call_queries() {
    assert_eq!(
        find_query(None, "true", None, 20),
        "\n            MATCH (s)\n            WHERE (s:Function OR s:Class OR s:Struct OR s:Interface OR s:Method OR s:Trait OR s:Enum)\n              AND true\n              \n            RETURN s.name, labels(s)[0], s.file_path, s.start_line\n            ORDER BY s.name\n            LIMIT 20\n            "
    );
    assert_eq!(
        find_query(Some("Class"), "toLower(s.name) = 'a'", Some("py'"), 5),
        "\n            MATCH (s:Class)\n            WHERE toLower(s.name) = 'a'\n              AND s.language = 'PY\\''\n            RETURN s.name, 'Class', s.file_path, s.start_line\n            ORDER BY s.name\n            LIMIT 5\n            "
    );
    assert_eq!(
        callers_query("it's", 3),
        "\n        MATCH (target:Function {name: 'it\\'s'})\n        MATCH path = (caller:Function)-[:CALLS*1..3]->(target)\n        RETURN caller.name, caller.file_path, length(path)\n        ORDER BY length(path), caller.name\n        LIMIT 50\n        "
    );
    assert_eq!(
        callees_query("f", 12),
        "\n        MATCH (source:Function {name: 'f'})\n        MATCH path = (source)-[:CALLS*1..12]->(callee:Function)\n        RETURN callee.name, callee.file_path, length(path)\n        ORDER BY length(path), callee.name\n        LIMIT 50\n        "
    );
}
