use kampus_core::language::Language;
use kampus_core::model::Symbol;
use kampus_core::model::SymbolKind;
use kampus_core::model::Visibility;
use kampus_core::text::chars_of;
use kampus_core::text::contains;
use kampus_core::text::decode;
use kampus_core::text::ends_with;
use kampus_core::text::extension;
use kampus_core::text::find_char;
use kampus_core::text::find_sub;
use kampus_core::text::first_line;
use kampus_core::text::is_space_char;
use kampus_core::text::push_decimal;
use kampus_core::text::rfind_char;
use kampus_core::text::starts_with;
use kampus_core::text::string_of;
use kampus_core::text::strip_leading;
use kampus_core::text::strip_prefixes;
use kampus_core::text::strip_suffixes;
use kampus_core::text::strip_surrounding;
use kampus_core::text::strip_trailing;
use kampus_core::text::trim;
use kampus_core::text::trim_end;
use kampus_core::text::trim_start;
use std::str::FromStr;

fn c(s: &str) -> Vec<char> {
    chars_of(s)
}

fn s(v: Vec<char>) -> String {
    string_of(&v)
}

#[test]
fn chars_and_strings_round_trip() {
    assert_eq!(c("aé漢"), vec!['a', 'é', '漢']);
    assert_eq!(string_of(&['x', 'ÿ']), "xÿ");
    assert_eq!(s(c("")), "");
}

#[test]
fn decode_accepts_only_well_formed_utf8() {
    assert_eq!(decode("héllo".as_bytes()), Some(c("héllo")));
    assert_eq!(decode(&[0xff, 0xfe]), None);
    assert_eq!(decode(&[]), Some(Vec::new()));
}

#[test]
fn white_space_is_the_unicode_property() {
    for ch in ['\t', '\n', '\u{b}', '\u{c}', '\r', ' ', '\u{85}', '\u{a0}', '\u{1680}', '\u{2000}', '\u{200a}', '\u{2028}', '\u{2029}', '\u{202f}', '\u{205f}', '\u{3000}'] {
        assert!(is_space_char(ch), "{:?}", ch);
        assert!(ch.is_whitespace());
    }
    for ch in ['a', '0', '_', '\u{200b}', '\u{feff}', '\u{1c}'] {
        assert_eq!(is_space_char(ch), ch.is_whitespace(), "{:?}", ch);
    }
}

#[test]
fn white_space_agrees_with_std_on_every_character() {
    let mut u: u32 = 0;
    while u <= 0x10ffff {
        if let Some(ch) = char::from_u32(u) {
            assert_eq!(is_space_char(ch), ch.is_whitespace(), "U+{:X}", u);
        }
        u += 1;
    }
}

#[test]
fn trimming() {
    assert_eq!(s(trim(&c("  a b \n"))), "a b");
    assert_eq!(s(trim_start(&c("\t\u{a0}x "))), "x ");
    assert_eq!(s(trim_end(&c(" x\u{3000}\r\n"))), " x");
    assert_eq!(s(trim(&c("   "))), "");
    assert_eq!(s(trim(&c(""))), "");
}

#[test]
fn searching() {
    assert!(starts_with(&c("public"), &c("pub")));
    assert!(!starts_with(&c("pu"), &c("pub")));
    assert!(starts_with(&c("x"), &c("")));
    assert!(ends_with(&c("__init__"), &c("__")));
    assert!(!ends_with(&c("_"), &c("__")));
    assert_eq!(find_sub(&c("a => b => c"), &c("=>")), Some(2));
    assert_eq!(find_sub(&c("abc"), &c("abcd")), None);
    assert_eq!(find_sub(&c("abc"), &c("")), Some(0));
    assert!(contains(&c("impl T for S"), &c(" for ")));
    assert!(!contains(&c("implTforS"), &c(" for ")));
    assert_eq!(find_char(&c("fn f() { }"), '{'), Some(7));
    assert_eq!(find_char(&c("fn f();"), '{'), None);
    assert_eq!(rfind_char(&c("a.b.c"), '.'), Some(3));
    assert_eq!(rfind_char(&c("abc"), '.'), None);
}

#[test]
fn first_line_follows_the_line_rules() {
    assert_eq!(first_line(&c("")), None);
    assert_eq!(first_line(&c("one")).map(s), Some("one".to_string()));
    assert_eq!(first_line(&c("one\ntwo")).map(s), Some("one".to_string()));
    assert_eq!(first_line(&c("one\r\ntwo")).map(s), Some("one".to_string()));
    assert_eq!(first_line(&c("one\r")).map(s), Some("one\r".to_string()));
    assert_eq!(first_line(&c("\nx")).map(s), Some("".to_string()));
    for text in ["", "one", "one\ntwo", "one\r\ntwo", "one\r", "\nx", "\r\nx", "a\r\r\nb"] {
        assert_eq!(first_line(&c(text)).map(s), text.lines().next().map(String::from), "{:?}", text);
    }
}

#[test]
fn stripping_matches_std() {
    assert_eq!(s(strip_leading(&c("**a*"), '*')), "a*");
    assert_eq!(s(strip_trailing(&c("def f()::"), ':')), "def f()");
    assert_eq!(s(strip_surrounding(&c("\"\"x\"y\"\""), '"')), "x\"y");
    assert_eq!(s(strip_surrounding(&c("''"), '\'')), "");
    assert_eq!(s(strip_prefixes(&c("//////x"), &c("///"))), "x");
    assert_eq!(s(strip_prefixes(&c("////x"), &c("///"))), "/x");
    assert_eq!(s(strip_suffixes(&c("x''''''"), &c("'''"))), "x");
    assert_eq!(s(strip_prefixes(&c("abc"), &c(""))), "abc");
    for (text, pat) in [("//////x", "///"), ("////x", "///"), ("usingusing x", "using"), ("x", "xx"), ("", "a")] {
        assert_eq!(s(strip_prefixes(&c(text), &c(pat))), text.trim_start_matches(pat));
        assert_eq!(s(strip_suffixes(&c(text), &c(pat))), text.trim_end_matches(pat));
    }
    for (text, ch) in [("\"a\"", '"'), ("<<a.h>", '<'), ("a;;", ';'), (";;;", ';')] {
        assert_eq!(s(strip_surrounding(&c(text), ch)), text.trim_matches(ch));
    }
}

#[test]
fn decimal_notation() {
    let mut out = Vec::new();
    push_decimal(&mut out, 0);
    out.push(',');
    push_decimal(&mut out, 7);
    out.push(',');
    push_decimal(&mut out, 1203);
    out.push(',');
    push_decimal(&mut out, u64::MAX);
    assert_eq!(s(out), "0,7,1203,18446744073709551615");
}

#[test]
fn extensions_of_paths() {
    assert_eq!(extension(&c("a/b/c.py")).map(s), Some("py".to_string()));
    assert_eq!(extension(&c("c.tar.gz")).map(s), Some("gz".to_string()));
    assert_eq!(extension(&c("a.d/file")), None);
    assert_eq!(extension(&c(".gitignore")), None);
    assert_eq!(extension(&c("dir/.hidden.rs")).map(s), Some("rs".to_string()));
    assert_eq!(extension(&c("noext")), None);
    assert_eq!(extension(&c("trailing.")).map(s), Some("".to_string()));
    assert_eq!(extension(&c("")), None);
}

#[test]
fn language_from_extension_ignores_case() {
    assert_eq!(Language::from_extension("PY"), Some(Language::Python));
    assert_eq!(Language::from_extension("Tsx"), Some(Language::TypeScript));
    assert_eq!(Language::from_extension("mjs"), Some(Language::JavaScript));
    assert_eq!(Language::from_extension("cjs"), Some(Language::JavaScript));
    assert_eq!(Language::from_extension("c++"), Some(Language::Cpp));
    assert_eq!(Language::from_extension("H"), Some(Language::Cpp));
    assert_eq!(Language::from_extension("hxx"), Some(Language::Cpp));
    assert_eq!(Language::from_extension(""), None);
    assert_eq!(Language::from_extension("pyc"), None);
    assert_eq!(Language::from_lower_extension("PY"), None);
}

#[test]
fn every_listed_extension_maps_back() {
    let all = [Language::Python, Language::Rust, Language::JavaScript, Language::TypeScript, Language::Go, Language::Cpp];
    for language in all {
        let extensions = language.extensions();
        assert!(!extensions.is_empty());
        for ext in extensions {
            assert_eq!(Language::from_extension(ext), Some(language));
        }
    }
    assert_eq!(Language::Python.extensions(), vec!["py"]);
    assert_eq!(Language::JavaScript.extensions(), vec!["js", "mjs", "cjs"]);
    assert_eq!(Language::Cpp.extensions(), vec!["cpp", "cc", "cxx", "c++", "hpp", "hxx", "h"]);
}

#[test]
fn language_names_and_tags() {
    assert_eq!(Language::Cpp.name(), "C++");
    assert_eq!(Language::TypeScript.to_string(), "TypeScript");
    assert_eq!(Language::parse_tag("Python"), Ok(Language::Python));
    assert_eq!(Language::parse_tag("RS"), Ok(Language::Rust));
    assert_eq!(Language::parse_tag("js"), Ok(Language::JavaScript));
    assert_eq!(Language::parse_tag("typescript"), Ok(Language::TypeScript));
    assert_eq!(Language::parse_tag("go"), Ok(Language::Go));
    assert_eq!(Language::parse_tag("c++"), Ok(Language::Cpp));
    assert_eq!(Language::parse_tag("Ruby"), Err("Unknown language: Ruby".to_string()));
    assert_eq!(Language::from_str("cpp"), Ok(Language::Cpp));
    assert_eq!("tsx".parse::<Language>(), Err("Unknown language: tsx".to_string()));
}

#[test]
fn symbol_ids_join_path_name_and_line() {
    assert_eq!(Symbol::generate_id("src/a.py", "f", 12), "src/a.py:f:12");
    assert_eq!(Symbol::generate_id("", "", 0), "::0");
    assert_eq!(Symbol::generate_id("é", "ü", u32::MAX), "é:ü:4294967295");
}

#[test]
fn kinds_and_visibilities_have_lower_case_names() {
    assert_eq!(SymbolKind::Function.to_string(), "function");
    assert_eq!(SymbolKind::Interface.as_str(), "interface");
    assert_eq!(SymbolKind::Variable.as_str(), "variable");
    assert_eq!(Visibility::Protected.as_str(), "protected");
    assert_eq!(Visibility::default(), Visibility::Public);
}
