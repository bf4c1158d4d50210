//! What the command line computes before it asks the graph and after the
//! graph has answered: patterns, queries and the cells of its tables.

use crate::graph::escaped;
use crate::graph::push_escaped;
use crate::language::language_of_tag;
use crate::language::unknown_language_message;
use crate::language::Language;
use crate::text::chars_of;
use crate::text::copy_range;
use crate::text::decimal;
use crate::text::ends_with;
use crate::text::find_char_from;
use crate::text::has_prefix;
use crate::text::has_suffix;
use crate::text::index_from;
use crate::text::lowercase;
use crate::text::push_decimal;
use crate::text::push_str;
use crate::text::starts_with;
use crate::text::str_eq;
use crate::text::string_of;
use crate::text::strip_surrounding;
use crate::text::trim;
use crate::text::trimmed;
use crate::text::unicode_lowercase;
use crate::text::unicode_uppercase;
use crate::text::uppercase;
use crate::text::without_surrounding;
use vstd::prelude::*;
use vstd::string::StringExecFns;

verus! {

// ---------------------------------------------------------------------------
// Table cells
// ---------------------------------------------------------------------------
/// A text cut to at most `max_len` characters: a text that is too long ends
/// in three dots, unless fewer than four characters are allowed.
pub open spec fn truncated(s: Seq<char>, max_len: nat) -> Seq<char> {
    if s.len() <= max_len {
        s
    } else if max_len < 4 {
        s.subrange(0, max_len as int)
    } else {
        s.subrange(0, max_len - 3) + "..."@
    }
}

/// Cuts a text to at most `max_len` characters.
pub fn truncate(s: &str, max_len: usize) -> (r: String)
    ensures
        r@ == truncated(s@, max_len as nat),
{
    let chars = chars_of(s);
    if chars.len() <= max_len {
        string_of(chars.as_slice())
    } else if max_len < 4 {
        string_of(copy_range(chars.as_slice(), 0, max_len).as_slice())
    } else {
        let mut out = copy_range(chars.as_slice(), 0, max_len - 3);
        push_str(&mut out, "...");
        string_of(out.as_slice())
    }
}

/// The length of a cut text never exceeds the limit.
pub proof fn lemma_truncated_fits(s: Seq<char>, max_len: nat)
    ensures
        truncated(s, max_len).len() <= max_len,
{
    reveal_strlit("...");
}

/// The indentation of a row of a call tree at the given distance: two
/// spaces for every step beyond the first.
pub open spec fn indent_upto(n: nat) -> Seq<char>
    decreases n,
{
    if n == 0 {
        Seq::empty()
    } else {
        indent_upto((n - 1) as nat) + "  "@
    }
}

/// The indentation of a row of a call tree at the given distance.
pub open spec fn indentation(distance: i64) -> Seq<char> {
    if distance <= 1 {
        Seq::empty()
    } else {
        indent_upto((distance - 1) as nat)
    }
}

/// The indentation of a row of a call tree at the given distance.
pub fn indent(distance: i64) -> (r: String)
    ensures
        r@ == indentation(distance),
{
    let mut out: Vec<char> = Vec::new();
    if distance > 1 {
        let steps: i64 = distance - 1;
        let mut i: i64 = 0;
        while i < steps
            invariant
                0 <= i <= steps,
                out@ == indent_upto(i as nat),
            decreases steps - i,
        {
            push_str(&mut out, "  ");
            i += 1;
        }
    }
    string_of(out.as_slice())
}

// ---------------------------------------------------------------------------
// Patterns
// ---------------------------------------------------------------------------
/// The condition on a symbol's name that a wildcard pattern stands for. A
/// star at the start or the end of the pattern stands for any text; the
/// rest is compared without regard to case. A pattern of stars alone holds
/// of every name.
pub open spec fn condition_of(pattern: Seq<char>) -> Seq<char> {
    let term = without_surrounding(pattern, '*');
    let lower = unicode_lowercase(escaped(term));
    if term.len() == 0 {
        "true"@
    } else if has_prefix(pattern, "*"@) && has_suffix(pattern, "*"@) {
        "toLower(s.name) CONTAINS '"@ + lower + "'"@
    } else if has_prefix(pattern, "*"@) {
        "toLower(s.name) ENDS WITH '"@ + lower + "'"@
    } else if has_suffix(pattern, "*"@) {
        "toLower(s.name) STARTS WITH '"@ + lower + "'"@
    } else {
        "toLower(s.name) = '"@ + lower + "'"@
    }
}

/// Converts a wildcard pattern to a condition of a query.
pub fn pattern_to_condition(pattern: &str) -> (r: String)
    ensures
        r@ == condition_of(pattern@),
{
    let chars = chars_of(pattern);
    let star = chars_of("*");
    let starts = starts_with(chars.as_slice(), star.as_slice());
    let ends = ends_with(chars.as_slice(), star.as_slice());
    let term = strip_surrounding(chars.as_slice(), '*');
    if term.len() == 0 {
        return String::from_str("true");
    }
    let mut escaped_term: Vec<char> = Vec::new();
    push_escaped(&mut escaped_term, string_of(term.as_slice()).as_str());
    assert(escaped_term@ == escaped(term@));
    let lower = lowercase(string_of(escaped_term.as_slice()).as_str());
    let mut out = chars_of(
        if starts && ends {
            "toLower(s.name) CONTAINS '"
        } else if starts {
            "toLower(s.name) ENDS WITH '"
        } else if ends {
            "toLower(s.name) STARTS WITH '"
        } else {
            "toLower(s.name) = '"
        },
    );
    push_str(&mut out, lower.as_str());
    push_str(&mut out, "'");
    string_of(out.as_slice())
}

// ---------------------------------------------------------------------------
// Language lists
// ---------------------------------------------------------------------------
/// The pieces of a text between its commas, from position `pos` on.
pub open spec fn pieces_from(s: Seq<char>, pos: int) -> Seq<Seq<char>>
    decreases s.len() - pos,
{
    let comma = index_from(s, ',', pos);
    if pos < 0 || pos > s.len() {
        Seq::empty()
    } else if comma < pos || comma >= s.len() {
        seq![s.subrange(pos, s.len() as int)]
    } else {
        seq![s.subrange(pos, comma)] + pieces_from(s, comma + 1)
    }
}

/// The languages that the first `k` pieces name, or the first piece among
/// them, trimmed, that names none.
pub open spec fn tags_upto(pieces: Seq<Seq<char>>, k: int) -> Result<Seq<Language>, Seq<char>>
    decreases k,
{
    if k <= 0 || k > pieces.len() {
        Ok(Seq::empty())
    } else {
        match tags_upto(pieces, k - 1) {
            Ok(languages) => match language_of_tag(unicode_lowercase(trimmed(pieces[k - 1]))) {
                Some(language) => Ok(languages.push(language)),
                None => Err(trimmed(pieces[k - 1])),
            },
            Err(tag) => Err(tag),
        }
    }
}

/// The languages that a comma-separated list names.
pub open spec fn languages_of(list: Seq<char>) -> Result<Seq<Language>, Seq<char>> {
    tags_upto(pieces_from(list, 0), pieces_from(list, 0).len() as int)
}

/// The message for a list with a tag that names no language.
pub open spec fn invalid_language_message(tag: Seq<char>) -> Seq<char> {
    "Invalid language: "@ + unknown_language_message(tag)
}

/// The texts of a list of character lists.
pub open spec fn views(v: Seq<Vec<char>>) -> Seq<Seq<char>> {
    Seq::new(v.len(), |i: int| v[i]@)
}

/// Splits a text at its commas.
pub fn split_at_commas(s: &Vec<char>) -> (r: Vec<Vec<char>>)
    ensures
        views(r@) == pieces_from(s@, 0),
{
    let mut out: Vec<Vec<char>> = Vec::new();
    let mut pos: usize = 0;
    assert(views(out@) + pieces_from(s@, 0) == pieces_from(s@, 0));
    loop
        invariant
            pos <= s.len(),
            pieces_from(s@, 0) == views(out@) + pieces_from(s@, pos as int),
        decreases s.len() - pos,
    {
        let ghost so_far = views(out@);
        match find_char_from(s.as_slice(), ',', pos) {
            Some(comma) => {
                let piece = copy_range(s.as_slice(), pos, comma);
                proof {
                    assert(views(out@.push(piece)) == so_far + seq![piece@]);
                    assert(so_far + (seq![piece@] + pieces_from(s@, comma + 1)) == (so_far
                        + seq![piece@]) + pieces_from(s@, comma + 1));
                }
                out.push(piece);
                pos = comma + 1;
            },
            None => {
                let piece = copy_range(s.as_slice(), pos, s.len());
                proof {
                    assert(views(out@.push(piece)) == so_far + seq![piece@]);
                }
                out.push(piece);
                return out;
            },
        }
    }
}

/// Parses a comma-separated list of language tags; no list means no filter.
/// The first tag that names no language is refused with a message that
/// quotes it.
pub fn parse_languages(input: Option<&str>) -> (r: Result<Option<Vec<Language>>, String>)
    ensures
        match input {
            None => r == Ok::<Option<Vec<Language>>, String>(None),
            Some(list) => match languages_of(list@) {
                Ok(languages) => r is Ok && r->Ok_0 is Some && r->Ok_0->0@ == languages,
                Err(tag) => r is Err && r->Err_0@ == invalid_language_message(tag),
            },
        },
{
    let list = match input {
        None => {
            return Ok(None);
        },
        Some(list) => list,
    };
    let chars = chars_of(list);
    let pieces = split_at_commas(&chars);
    let ghost all = views(pieces@);
    let mut languages: Vec<Language> = Vec::new();
    let mut k: usize = 0;
    while k < pieces.len()
        invariant
            k <= pieces.len(),
            input == Some(list),
            all == views(pieces@),
            all == pieces_from(list@, 0),
            tags_upto(all, k as int) == Ok::<Seq<Language>, Seq<char>>(languages@),
        decreases pieces.len() - k,
    {
        assert(all[k as int] == pieces[k as int]@);
        let tag = string_of(trim(pieces[k].as_slice()).as_slice());
        let lower = lowercase(tag.as_str());
        match Language::from_lower_tag(lower.as_str()) {
            Some(language) => {
                languages.push(language);
            },
            None => {
                proof {
                    assert(tags_upto(all, k + 1) == Err::<Seq<Language>, Seq<char>>(tag@));
                    lemma_tags_error_stays(all, k + 1, all.len() as int);
                    assert(languages_of(list@) == Err::<Seq<Language>, Seq<char>>(tag@));
                }
                let message = String::from_str("Invalid language: ").concat(
                    "Unknown language: ",
                ).concat(tag.as_str());
                assert(message@ =~= invalid_language_message(tag@));
                return Err(message);
            },
        }
        k += 1;
    }
    Ok(Some(languages))
}

proof fn lemma_tags_error_stays(pieces: Seq<Seq<char>>, k: int, n: int)
    requires
        0 <= k <= n <= pieces.len(),
        tags_upto(pieces, k) is Err,
    ensures
        tags_upto(pieces, n) == tags_upto(pieces, k),
    decreases n - k,
{
    if k < n {
        lemma_tags_error_stays(pieces, k, n - 1);
    }
}

// ---------------------------------------------------------------------------
// Queries
// ---------------------------------------------------------------------------
/// The node label that a kind given on the command line names.
pub open spec fn label_of_kind(kind: Seq<char>) -> Option<Seq<char>> {
    if kind == "function"@ {
        Some("Function"@)
    } else if kind == "class"@ {
        Some("Class"@)
    } else if kind == "struct"@ {
        Some("Struct"@)
    } else if kind == "interface"@ {
        Some("Interface"@)
    } else if kind == "method"@ {
        Some("Method"@)
    } else if kind == "trait"@ {
        Some("Trait"@)
    } else if kind == "enum"@ {
        Some("Enum"@)
    } else {
        None
    }
}

/// The node label that a kind given on the command line names; an unknown
/// kind is refused with a message that quotes it.
pub fn kind_label(kind: &str) -> (r: Result<&'static str, String>)
    ensures
        match r {
            Ok(label) => label_of_kind(kind@) == Some(label@),
            Err(message) => label_of_kind(kind@) is None && message@ == "Unknown symbol kind: "@
                + kind@,
        },
{
    if str_eq(kind, "function") {
        Ok("Function")
    } else if str_eq(kind, "class") {
        Ok("Class")
    } else if str_eq(kind, "struct") {
        Ok("Struct")
    } else if str_eq(kind, "interface") {
        Ok("Interface")
    } else if str_eq(kind, "method") {
        Ok("Method")
    } else if str_eq(kind, "trait") {
        Ok("Trait")
    } else if str_eq(kind, "enum") {
        Ok("Enum")
    } else {
        Err(String::from_str("Unknown symbol kind: ").concat(kind))
    }
}

/// The condition on a symbol's language, if one is asked for.
pub open spec fn language_condition(language: Option<Seq<char>>) -> Seq<char> {
    match language {
        Some(l) => "AND s.language = '"@ + escaped(unicode_uppercase(l)) + "'"@,
        None => Seq::empty(),
    }
}

/// The query that finds symbols: of one label or of every label of a
/// symbol, by a condition on the name and, if asked for, on the language;
/// ordered by name and limited in number.
pub open spec fn find_query_text(
    label: Option<Seq<char>>,
    condition: Seq<char>,
    language: Option<Seq<char>>,
    limit: usize,
) -> Seq<char> {
    match label {
        None => "\n            MATCH (s)\n            WHERE (s:Function OR s:Class OR s:Struct OR s:Interface OR s:Method OR s:Trait OR s:Enum)\n              AND "@
            + condition + "\n              "@ + language_condition(language)
            + "\n            RETURN s.name, labels(s)[0], s.file_path, s.start_line\n            ORDER BY s.name\n            LIMIT "@
            + decimal(limit as nat) + "\n            "@,
        Some(l) => "\n            MATCH (s:"@ + l + ")\n            WHERE "@ + condition
            + "\n              "@ + language_condition(language) + "\n            RETURN s.name, '"@
            + l + "', s.file_path, s.start_line\n            ORDER BY s.name\n            LIMIT "@
            + decimal(limit as nat) + "\n            "@,
    }
}

fn push_language_condition(out: &mut Vec<char>, language: Option<&str>)
    ensures
        final(out)@ == old(out)@ + language_condition(
            match language {
                Some(l) => Some(l@),
                None => None,
            },
        ),
{
    match language {
        Some(l) => {
            let ghost before = out@;
            let upper = uppercase(l);
            push_str(out, "AND s.language = '");
            push_escaped(out, upper.as_str());
            push_str(out, "'");
            assert(out@ == before + ("AND s.language = '"@ + escaped(unicode_uppercase(l@))
                + "'"@));
        },
        None => {
            assert(out@ == old(out)@ + Seq::<char>::empty());
        },
    }
}

/// Builds the query that finds symbols.
pub fn find_query(label: Option<&str>, condition: &str, language: Option<&str>, limit: usize) -> (r:
    String)
    ensures
        r@ == find_query_text(
            match label {
                Some(l) => Some(l@),
                None => None,
            },
            condition@,
            match language {
                Some(l) => Some(l@),
                None => None,
            },
            limit,
        ),
{
    let mut out: Vec<char> = Vec::new();
    match label {
        None => {
            push_str(
                &mut out,
                "\n            MATCH (s)\n            WHERE (s:Function OR s:Class OR s:Struct OR s:Interface OR s:Method OR s:Trait OR s:Enum)\n              AND ",
            );
            push_str(&mut out, condition);
            push_str(&mut out, "\n              ");
            push_language_condition(&mut out, language);
            push_str(
                &mut out,
                "\n            RETURN s.name, labels(s)[0], s.file_path, s.start_line\n            ORDER BY s.name\n            LIMIT ",
            );
            push_decimal(&mut out, limit as u64);
            push_str(&mut out, "\n            ");
        },
        Some(l) => {
            push_str(&mut out, "\n            MATCH (s:");
            push_str(&mut out, l);
            push_str(&mut out, ")\n            WHERE ");
            push_str(&mut out, condition);
            push_str(&mut out, "\n              ");
            push_language_condition(&mut out, language);
            push_str(&mut out, "\n            RETURN s.name, '");
            push_str(&mut out, l);
            push_str(
                &mut out,
                "', s.file_path, s.start_line\n            ORDER BY s.name\n            LIMIT ",
            );
            push_decimal(&mut out, limit as u64);
            push_str(&mut out, "\n            ");
        },
    }
    string_of(out.as_slice())
}

/// The query that finds the functions that call a function, over at most
/// `depth` calls.
pub open spec fn callers_query_text(function: Seq<char>, depth: u32) -> Seq<char> {
    "\n        MATCH (target:Function {name: '"@ + escaped(function)
        + "'})\n        MATCH path = (caller:Function)-[:CALLS*1.."@ + decimal(depth as nat)
        + "]->(target)\n        RETURN caller.name, caller.file_path, length(path)\n        ORDER BY length(path), caller.name\n        LIMIT 50\n        "@
}

/// The query that finds the functions that a function calls, over at most
/// `depth` calls.
pub open spec fn callees_query_text(function: Seq<char>, depth: u32) -> Seq<char> {
    "\n        MATCH (source:Function {name: '"@ + escaped(function)
        + "'})\n        MATCH path = (source)-[:CALLS*1.."@ + decimal(depth as nat)
        + "]->(callee:Function)\n        RETURN callee.name, callee.file_path, length(path)\n        ORDER BY length(path), callee.name\n        LIMIT 50\n        "@
}

/// Builds the query that finds the callers of a function.
pub fn callers_query(function: &str, depth: u32) -> (r: String)
    ensures
        r@ == callers_query_text(function@, depth),
{
    let mut out = chars_of("\n        MATCH (target:Function {name: '");
    push_escaped(&mut out, function);
    push_str(&mut out, "'})\n        MATCH path = (caller:Function)-[:CALLS*1..");
    push_decimal(&mut out, depth as u64);
    push_str(
        &mut out,
        "]->(target)\n        RETURN caller.name, caller.file_path, length(path)\n        ORDER BY length(path), caller.name\n        LIMIT 50\n        ",
    );
    string_of(out.as_slice())
}

/// Builds the query that finds the callees of a function.
pub fn callees_query(function: &str, depth: u32) -> (r: String)
    ensures
        r@ == callees_query_text(function@, depth),
{
    let mut out = chars_of("\n        MATCH (source:Function {name: '");
    push_escaped(&mut out, function);
    push_str(&mut out, "'})\n        MATCH path = (source)-[:CALLS*1..");
    push_decimal(&mut out, depth as u64);
    push_str(
        &mut out,
        "]->(callee:Function)\n        RETURN callee.name, callee.file_path, length(path)\n        ORDER BY length(path), callee.name\n        LIMIT 50\n        ",
    );
    string_of(out.as_slice())
}

} // verus!
