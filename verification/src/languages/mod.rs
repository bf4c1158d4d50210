//! Language-specific symbol extractors.

pub mod common;
pub mod cpp;
pub mod go;
pub mod javascript;
pub mod python;
pub mod rust;
pub mod typescript;

pub use crate::languages::cpp::CppExtractor;
pub use crate::languages::go::GoExtractor;
pub use crate::languages::javascript::JavaScriptExtractor;
pub use crate::languages::python::PythonExtractor;
pub use crate::languages::rust::RustExtractor;
pub use crate::languages::typescript::TypeScriptExtractor;
