//! Indexing of source trees into code symbols and their relationships.
//!
//! The library turns the syntax tree of a source file into a uniform record
//! of symbols, imports, calls and inheritance, and decides what an indexing
//! run has to do with each file.

pub mod cli;
pub mod crawler;
pub mod extractor;
pub mod git;
pub mod graph;
pub mod index;
pub mod language;
pub mod languages;
pub mod laws;
pub mod model;
pub mod pool;
pub mod syntax;
pub mod text;

pub use crate::extractor::SymbolExtractor;
pub use crate::language::Language;
pub use crate::model::Call;
pub use crate::model::FileSymbols;
pub use crate::model::Import;
pub use crate::model::IndexStats;
pub use crate::model::Inheritance;
pub use crate::model::Symbol;
pub use crate::model::SymbolKind;
pub use crate::model::Visibility;
pub use crate::pool::ParserPool;
