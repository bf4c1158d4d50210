//! The closed set of supported languages and the file extensions that map to
//! them.

use crate::text::lowercase;
use crate::text::str_eq;
use crate::text::unicode_lowercase;
use vstd::prelude::*;
use vstd::string::StringExecFns;

verus! {

/// Supported programming languages.
#[derive(Debug, Clone, Copy, PartialEq, Eq, Hash, Structural)]
pub enum Language {
    Python,
    Rust,
    JavaScript,
    TypeScript,
    Go,
    Cpp,
}

/// The language of a lower-case file extension.
pub open spec fn language_of_extension(ext: Seq<char>) -> Option<Language> {
    if ext == "py"@ {
        Some(Language::Python)
    } else if ext == "rs"@ {
        Some(Language::Rust)
    } else if ext == "js"@ || ext == "mjs"@ || ext == "cjs"@ {
        Some(Language::JavaScript)
    } else if ext == "ts"@ || ext == "tsx"@ {
        Some(Language::TypeScript)
    } else if ext == "go"@ {
        Some(Language::Go)
    } else if ext == "cpp"@ || ext == "cc"@ || ext == "cxx"@ || ext == "c++"@ || ext == "hpp"@
        || ext == "hxx"@ || ext == "h"@ {
        Some(Language::Cpp)
    } else {
        None
    }
}

/// The file extensions of a language, in a fixed order.
pub open spec fn extensions_of(language: Language) -> Seq<Seq<char>> {
    match language {
        Language::Python => seq!["py"@],
        Language::Rust => seq!["rs"@],
        Language::JavaScript => seq!["js"@, "mjs"@, "cjs"@],
        Language::TypeScript => seq!["ts"@, "tsx"@],
        Language::Go => seq!["go"@],
        Language::Cpp => seq!["cpp"@, "cc"@, "cxx"@, "c++"@, "hpp"@, "hxx"@, "h"@],
    }
}

/// The display name of a language.
pub open spec fn name_of(language: Language) -> Seq<char> {
    match language {
        Language::Python => "Python"@,
        Language::Rust => "Rust"@,
        Language::JavaScript => "JavaScript"@,
        Language::TypeScript => "TypeScript"@,
        Language::Go => "Go"@,
        Language::Cpp => "C++"@,
    }
}

/// The language that a lower-case tag names, in its long or short form.
pub open spec fn language_of_tag(tag: Seq<char>) -> Option<Language> {
    if tag == "python"@ || tag == "py"@ {
        Some(Language::Python)
    } else if tag == "rust"@ || tag == "rs"@ {
        Some(Language::Rust)
    } else if tag == "javascript"@ || tag == "js"@ {
        Some(Language::JavaScript)
    } else if tag == "typescript"@ || tag == "ts"@ {
        Some(Language::TypeScript)
    } else if tag == "go"@ {
        Some(Language::Go)
    } else if tag == "cpp"@ || tag == "c++"@ {
        Some(Language::Cpp)
    } else {
        None
    }
}

/// The message for a tag that names no language.
pub open spec fn unknown_language_message(tag: Seq<char>) -> Seq<char> {
    "Unknown language: "@ + tag
}

/// Reveals the contents of the extension literals.
pub proof fn reveal_extensions()
    ensures
        "py"@ == seq!['p', 'y'],
        "rs"@ == seq!['r', 's'],
        "js"@ == seq!['j', 's'],
        "mjs"@ == seq!['m', 'j', 's'],
        "cjs"@ == seq!['c', 'j', 's'],
        "ts"@ == seq!['t', 's'],
        "tsx"@ == seq!['t', 's', 'x'],
        "go"@ == seq!['g', 'o'],
        "cpp"@ == seq!['c', 'p', 'p'],
        "cc"@ == seq!['c', 'c'],
        "cxx"@ == seq!['c', 'x', 'x'],
        "c++"@ == seq!['c', '+', '+'],
        "hpp"@ == seq!['h', 'p', 'p'],
        "hxx"@ == seq!['h', 'x', 'x'],
        "h"@ == seq!['h'],
{
    reveal_strlit("py");
    reveal_strlit("rs");
    reveal_strlit("js");
    reveal_strlit("mjs");
    reveal_strlit("cjs");
    reveal_strlit("ts");
    reveal_strlit("tsx");
    reveal_strlit("go");
    reveal_strlit("cpp");
    reveal_strlit("cc");
    reveal_strlit("cxx");
    reveal_strlit("c++");
    reveal_strlit("hpp");
    reveal_strlit("hxx");
    reveal_strlit("h");
    assert("py"@ =~= seq!['p', 'y']);
    assert("rs"@ =~= seq!['r', 's']);
    assert("js"@ =~= seq!['j', 's']);
    assert("mjs"@ =~= seq!['m', 'j', 's']);
    assert("cjs"@ =~= seq!['c', 'j', 's']);
    assert("ts"@ =~= seq!['t', 's']);
    assert("tsx"@ =~= seq!['t', 's', 'x']);
    assert("go"@ =~= seq!['g', 'o']);
    assert("cpp"@ =~= seq!['c', 'p', 'p']);
    assert("cc"@ =~= seq!['c', 'c']);
    assert("cxx"@ =~= seq!['c', 'x', 'x']);
    assert("c++"@ =~= seq!['c', '+', '+']);
    assert("hpp"@ =~= seq!['h', 'p', 'p']);
    assert("hxx"@ =~= seq!['h', 'x', 'x']);
    assert("h"@ =~= seq!['h']);
}

/// Every extension listed for a language maps back to that language, and
/// every extension that maps to a language is listed for it: the registry is
/// a total function from the recognized extensions to the languages.
pub proof fn lemma_extensions_agree(language: Language, ext: Seq<char>)
    ensures
        extensions_of(language).contains(ext) <==> language_of_extension(ext) == Some(language),
{
    reveal_extensions();
    let list = extensions_of(language);
    if language_of_extension(ext) == Some(language) {
        match language {
            Language::Python => {
                assert(list[0] == ext);
            },
            Language::Rust => {
                assert(list[0] == ext);
            },
            Language::JavaScript => {
                assert(list[0] == ext || list[1] == ext || list[2] == ext);
            },
            Language::TypeScript => {
                assert(list[0] == ext || list[1] == ext);
            },
            Language::Go => {
                assert(list[0] == ext);
            },
            Language::Cpp => {
                assert(list[0] == ext || list[1] == ext || list[2] == ext || list[3] == ext
                    || list[4] == ext || list[5] == ext || list[6] == ext);
            },
        }
    }
    if list.contains(ext) {
        let i = choose|i: int| 0 <= i < list.len() && list[i] == ext;
        assert(list[i] == ext);
    }
}

impl Language {
    /// Detects the language from a lower-case file extension.
    pub fn from_lower_extension(ext: &str) -> (r: Option<Language>)
        ensures
            r == language_of_extension(ext@),
    {
        if str_eq(ext, "py") {
            Some(Language::Python)
        } else if str_eq(ext, "rs") {
            Some(Language::Rust)
        } else if str_eq(ext, "js") || str_eq(ext, "mjs") || str_eq(ext, "cjs") {
            Some(Language::JavaScript)
        } else if str_eq(ext, "ts") || str_eq(ext, "tsx") {
            Some(Language::TypeScript)
        } else if str_eq(ext, "go") {
            Some(Language::Go)
        } else if str_eq(ext, "cpp") || str_eq(ext, "cc") || str_eq(ext, "cxx") || str_eq(
            ext,
            "c++",
        ) || str_eq(ext, "hpp") || str_eq(ext, "hxx") || str_eq(ext, "h") {
            Some(Language::Cpp)
        } else {
            None
        }
    }

    /// Detects the language from a file extension, in any letter case.
    pub fn from_extension(ext: &str) -> (r: Option<Language>)
        ensures
            r == language_of_extension(unicode_lowercase(ext@)),
    {
        let lower = lowercase(ext);
        Language::from_lower_extension(lower.as_str())
    }

    /// All file extensions of this language.
    pub fn extensions(&self) -> (r: Vec<&'static str>)
        ensures
            r.len() == extensions_of(*self).len(),
            forall|i: int| 0 <= i < r.len() ==> (#[trigger] r[i])@ == extensions_of(*self)[i],
    {
        match self {
            Language::Python => vec!["py"],
            Language::Rust => vec!["rs"],
            Language::JavaScript => vec!["js", "mjs", "cjs"],
            Language::TypeScript => vec!["ts", "tsx"],
            Language::Go => vec!["go"],
            Language::Cpp => vec!["cpp", "cc", "cxx", "c++", "hpp", "hxx", "h"],
        }
    }

    /// The display name.
    pub fn name(&self) -> (r: &'static str)
        ensures
            r@ == name_of(*self),
    {
        match self {
            Language::Python => "Python",
            Language::Rust => "Rust",
            Language::JavaScript => "JavaScript",
            Language::TypeScript => "TypeScript",
            Language::Go => "Go",
            Language::Cpp => "C++",
        }
    }

    /// The display name as an owned string.
    pub fn to_string(&self) -> (r: String)
        ensures
            r@ == name_of(*self),
    {
        String::from_str(self.name())
    }

    /// The language that a lower-case tag names.
    pub fn from_lower_tag(tag: &str) -> (r: Option<Language>)
        ensures
            r == language_of_tag(tag@),
    {
        if str_eq(tag, "python") || str_eq(tag, "py") {
            Some(Language::Python)
        } else if str_eq(tag, "rust") || str_eq(tag, "rs") {
            Some(Language::Rust)
        } else if str_eq(tag, "javascript") || str_eq(tag, "js") {
            Some(Language::JavaScript)
        } else if str_eq(tag, "typescript") || str_eq(tag, "ts") {
            Some(Language::TypeScript)
        } else if str_eq(tag, "go") {
            Some(Language::Go)
        } else if str_eq(tag, "cpp") || str_eq(tag, "c++") {
            Some(Language::Cpp)
        } else {
            None
        }
    }

    /// Parses a language tag in its long or short form, in any letter case.
    /// An unknown tag is answered with a message that quotes it.
    pub fn parse_tag(tag: &str) -> (r: Result<Language, String>)
        ensures
            match r {
                Ok(language) => language_of_tag(unicode_lowercase(tag@)) == Some(language),
                Err(message) => language_of_tag(unicode_lowercase(tag@)) is None && message@
                    == unknown_language_message(tag@),
            },
    {
        let lower = lowercase(tag);
        match Language::from_lower_tag(lower.as_str()) {
            Some(language) => Ok(language),
            None => Err(String::from_str("Unknown language: ").concat(tag)),
        }
    }
}

impl std::str::FromStr for Language {
    type Err = String;

    /// Parses a language tag as [`Language::parse_tag`] does: the long or
    /// the short form of a language in any letter case gives that language,
    /// any other text a message that quotes it.
    fn from_str(s: &str) -> (r: Result<Language, String>)
        ensures
            match r {
                Ok(language) => language_of_tag(unicode_lowercase(s@)) == Some(language),
                Err(message) => language_of_tag(unicode_lowercase(s@)) is None && message@
                    == unknown_language_message(s@),
            },
    {
        Language::parse_tag(s)
    }
}

} // verus!
