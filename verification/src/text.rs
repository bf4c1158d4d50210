//! Text as sequences of Unicode scalar values.
//!
//! Every operation has a specification over `Seq<char>` and an executable
//! counterpart over `[char]` that is proved against it.

use vstd::prelude::*;
use vstd::std_specs::iter::IteratorSpec;

verus! {

// ---------------------------------------------------------------------------
// Trusted: std functions that vstd does not specify
// ---------------------------------------------------------------------------
/// `String::push` appends one character to the end of the string.
pub assume_specification[ String::push ](s: &mut String, c: char)
    ensures
        final(s)@ == old(s)@.push(c),
;

/// `str`'s `==` compares two string slices character by character.
#[verifier::external_body]
pub(crate) fn str_eq(a: &str, b: &str) -> (r: bool)
    ensures
        r == (a@ == b@),
{
    a == b
}

/// What `str::to_lowercase` returns for a text: its Unicode lower-case form.
pub uninterp spec fn unicode_lowercase(s: Seq<char>) -> Seq<char>;

/// `str::to_lowercase` returns the lower-case form of the text; the Unicode
/// tables that decide it are not restated here, the result is only named.
#[verifier::external_body]
pub(crate) fn lowercase(s: &str) -> (r: String)
    ensures
        r@ == unicode_lowercase(s@),
{
    s.to_lowercase()
}

/// What `str::to_uppercase` returns for a text: its Unicode upper-case form.
pub uninterp spec fn unicode_uppercase(s: Seq<char>) -> Seq<char>;

/// `str::to_uppercase` returns the upper-case form of the text; the result is
/// only named.
#[verifier::external_body]
pub(crate) fn uppercase(s: &str) -> (r: String)
    ensures
        r@ == unicode_uppercase(s@),
{
    s.to_uppercase()
}

/// Whether `char::is_uppercase` holds of a character (the Unicode property
/// `Uppercase`).
pub uninterp spec fn unicode_is_uppercase(c: char) -> bool;

/// `char::is_uppercase` tells whether the character has the Unicode property
/// `Uppercase`; the result is only named.
#[verifier::external_body]
pub(crate) fn is_uppercase(c: char) -> (r: bool)
    ensures
        r == unicode_is_uppercase(c),
{
    c.is_uppercase()
}

/// `core::str::from_utf8` succeeds exactly on well-formed UTF-8 and then
/// returns a string slice over the same bytes.
#[verifier::external_body]
pub(crate) fn utf8_str(bytes: &[u8]) -> (r: Option<&str>)
    ensures
        r is Some <==> vstd::utf8::valid_utf8(bytes@),
        r is Some ==> vstd::utf8::encode_utf8(r->0@) == bytes@,
{
    core::str::from_utf8(bytes).ok()
}

// ---------------------------------------------------------------------------
// Conversions
// ---------------------------------------------------------------------------
/// The characters of a string slice.
pub fn chars_of(s: &str) -> (v: Vec<char>)
    ensures
        v@ == s@,
{
    broadcast use vstd::string::group_string_axioms;

    let mut v: Vec<char> = Vec::new();
    let mut it = s.chars();
    loop
        invariant
            v@ + it.remaining() == s@,
            it.decrease() is Some,
        ensures
            v@ == s@,
        decreases it.decrease()->0,
    {
        match it.next() {
            Some(c) => {
                v.push(c);
            },
            None => {
                break ;
            },
        }
    }
    v
}

/// A string holding the given characters.
pub fn string_of(v: &[char]) -> (s: String)
    ensures
        s@ == v@,
{
    let mut s = String::new();
    let mut i: usize = 0;
    while i < v.len()
        invariant
            i <= v.len(),
            s@ == v@.take(i as int),
        decreases v.len() - i,
    {
        s.push(v[i]);
        i += 1;
    }
    s
}

/// The text that a byte string encodes, if it is well-formed UTF-8.
pub open spec fn decoded(bytes: Seq<u8>) -> Option<Seq<char>> {
    if vstd::utf8::valid_utf8(bytes) {
        Some(vstd::utf8::decode_utf8(bytes))
    } else {
        None
    }
}

/// Decodes a byte string as UTF-8.
pub fn decode(bytes: &[u8]) -> (r: Option<Vec<char>>)
    ensures
        match r {
            Some(v) => decoded(bytes@) == Some(v@),
            None => decoded(bytes@) is None,
        },
{
    match utf8_str(bytes) {
        Some(s) => {
            proof {
                vstd::utf8::encode_utf8_decode_utf8(s@);
            }
            Some(chars_of(s))
        },
        None => None,
    }
}

/// Copies `s[from..to]`.
pub fn copy_range(s: &[char], from: usize, to: usize) -> (r: Vec<char>)
    requires
        from <= to <= s.len(),
    ensures
        r@ == s@.subrange(from as int, to as int),
{
    let mut r: Vec<char> = Vec::new();
    let mut i: usize = from;
    while i < to
        invariant
            from <= i <= to <= s.len(),
            r@ == s@.subrange(from as int, i as int),
        decreases to - i,
    {
        r.push(s[i]);
        i += 1;
    }
    r
}

/// Appends all of `s` to `out`.
pub fn push_all(out: &mut Vec<char>, s: &[char])
    ensures
        final(out)@ == old(out)@ + s@,
{
    let mut i: usize = 0;
    while i < s.len()
        invariant
            i <= s.len(),
            out@ == old(out)@ + s@.take(i as int),
        decreases s.len() - i,
    {
        out.push(s[i]);
        i += 1;
    }
    assert(s@.take(s.len() as int) == s@);
}

/// Appends the characters of `s` to `out`.
pub fn push_str(out: &mut Vec<char>, s: &str)
    ensures
        final(out)@ == old(out)@ + s@,
{
    let v = chars_of(s);
    push_all(out, v.as_slice());
}

// ---------------------------------------------------------------------------
// White space and trimming
// ---------------------------------------------------------------------------
/// The characters with the Unicode property `White_Space`.
pub open spec fn is_space(c: char) -> bool {
    let u = c as u32;
    (0x09 <= u <= 0x0D) || u == 0x20 || u == 0x85 || u == 0xA0 || u == 0x1680 || (0x2000 <= u
        <= 0x200A) || u == 0x2028 || u == 0x2029 || u == 0x202F || u == 0x205F || u == 0x3000
}

/// Decides [`is_space`].
pub fn is_space_char(c: char) -> (r: bool)
    ensures
        r == is_space(c),
{
    let u: u32 = c as u32;
    (0x09 <= u && u <= 0x0D) || u == 0x20 || u == 0x85 || u == 0xA0 || u == 0x1680 || (0x2000 <= u
        && u <= 0x200A) || u == 0x2028 || u == 0x2029 || u == 0x202F || u == 0x205F || u == 0x3000
}

/// Index of the first character at or after `i` that is not white space
/// (the length if there is none).
pub open spec fn skip_space(s: Seq<char>, i: int) -> int
    decreases s.len() - i,
{
    if 0 <= i < s.len() && is_space(s[i]) {
        skip_space(s, i + 1)
    } else {
        i
    }
}

/// Index just after the last character before `j` that is not white space
/// (zero if there is none).
pub open spec fn back_space(s: Seq<char>, j: int) -> int
    decreases j,
{
    if 0 < j <= s.len() && is_space(s[j - 1]) {
        back_space(s, j - 1)
    } else {
        j
    }
}

/// `s` without its leading white space.
pub open spec fn trimmed_start(s: Seq<char>) -> Seq<char> {
    s.subrange(skip_space(s, 0), s.len() as int)
}

/// `s` without its trailing white space.
pub open spec fn trimmed_end(s: Seq<char>) -> Seq<char> {
    s.subrange(0, back_space(s, s.len() as int))
}

/// `s` without leading and trailing white space.
pub open spec fn trimmed(s: Seq<char>) -> Seq<char> {
    trimmed_end(trimmed_start(s))
}

/// Removes leading white space.
pub fn trim_start(s: &[char]) -> (r: Vec<char>)
    ensures
        r@ == trimmed_start(s@),
{
    let mut i: usize = 0;
    while i < s.len() && is_space_char(s[i])
        invariant
            i <= s.len(),
            skip_space(s@, 0) == skip_space(s@, i as int),
        decreases s.len() - i,
    {
        i += 1;
    }
    copy_range(s, i, s.len())
}

/// Removes trailing white space.
pub fn trim_end(s: &[char]) -> (r: Vec<char>)
    ensures
        r@ == trimmed_end(s@),
{
    let mut j: usize = s.len();
    while j > 0 && is_space_char(s[j - 1])
        invariant
            j <= s.len(),
            back_space(s@, s.len() as int) == back_space(s@, j as int),
        decreases j,
    {
        j -= 1;
    }
    copy_range(s, 0, j)
}

/// Removes leading and trailing white space.
pub fn trim(s: &[char]) -> (r: Vec<char>)
    ensures
        r@ == trimmed(s@),
{
    let a = trim_start(s);
    trim_end(a.as_slice())
}

// ---------------------------------------------------------------------------
// Searching
// ---------------------------------------------------------------------------
/// `pat` occurs in `s` at index `i`.
pub open spec fn occurs_at(s: Seq<char>, pat: Seq<char>, i: int) -> bool {
    0 <= i && i + pat.len() <= s.len() && s.subrange(i, i + pat.len()) == pat
}

/// `s` begins with `pat`.
pub open spec fn has_prefix(s: Seq<char>, pat: Seq<char>) -> bool {
    occurs_at(s, pat, 0)
}

/// `s` ends with `pat`.
pub open spec fn has_suffix(s: Seq<char>, pat: Seq<char>) -> bool {
    occurs_at(s, pat, s.len() - pat.len())
}

/// The least index at or after `i` where `pat` occurs in `s`, or -1.
pub open spec fn find_from(s: Seq<char>, pat: Seq<char>, i: int) -> int
    decreases s.len() - i,
{
    if i < 0 || i + pat.len() > s.len() {
        -1
    } else if occurs_at(s, pat, i) {
        i
    } else if i >= s.len() {
        -1
    } else {
        find_from(s, pat, i + 1)
    }
}

/// The least index where `pat` occurs in `s`, or -1.
pub open spec fn find(s: Seq<char>, pat: Seq<char>) -> int {
    find_from(s, pat, 0)
}

/// `pat` occurs somewhere in `s`.
pub open spec fn has_infix(s: Seq<char>, pat: Seq<char>) -> bool {
    find(s, pat) >= 0
}

/// The least index at or after `i` where `c` stands in `s`, or -1.
pub open spec fn index_from(s: Seq<char>, c: char, i: int) -> int
    decreases s.len() - i,
{
    if i < 0 || i >= s.len() {
        -1
    } else if s[i] == c {
        i
    } else {
        index_from(s, c, i + 1)
    }
}

/// The least index where `c` stands in `s`, or -1.
pub open spec fn index_of(s: Seq<char>, c: char) -> int {
    index_from(s, c, 0)
}

/// Decides whether `pat` occurs in `s` at index `i`.
pub fn matches_at(s: &[char], pat: &[char], i: usize) -> (r: bool)
    ensures
        r == occurs_at(s@, pat@, i as int),
{
    if pat.len() > s.len() || i > s.len() - pat.len() {
        return false;
    }
    let mut k: usize = 0;
    while k < pat.len()
        invariant
            k <= pat.len(),
            i + pat.len() <= s.len(),
            s@.subrange(i as int, i + k) == pat@.take(k as int),
        decreases pat.len() - k,
    {
        if s[i + k] != pat[k] {
            assert(s@.subrange(i as int, i + pat.len())[k as int] != pat@[k as int]);
            return false;
        }
        assert(s@.subrange(i as int, i + k + 1) == s@.subrange(i as int, i + k).push(
            s@[i + k],
        ));
        assert(pat@.take(k + 1) == pat@.take(k as int).push(pat@[k as int]));
        k += 1;
    }
    assert(pat@.take(pat.len() as int) == pat@);
    true
}

/// Decides whether `s` begins with `pat`.
pub fn starts_with(s: &[char], pat: &[char]) -> (r: bool)
    ensures
        r == has_prefix(s@, pat@),
{
    matches_at(s, pat, 0)
}

/// Decides whether `s` ends with `pat`.
pub fn ends_with(s: &[char], pat: &[char]) -> (r: bool)
    ensures
        r == has_suffix(s@, pat@),
{
    if pat.len() > s.len() {
        return false;
    }
    matches_at(s, pat, s.len() - pat.len())
}

/// Finds the first occurrence of `pat` in `s`.
pub fn find_sub(s: &[char], pat: &[char]) -> (r: Option<usize>)
    ensures
        match r {
            Some(i) => find(s@, pat@) == i && i + pat.len() <= s.len(),
            None => find(s@, pat@) == -1,
        },
{
    if pat.len() > s.len() {
        return None;
    }
    let last: usize = s.len() - pat.len();
    let mut i: usize = 0;
    loop
        invariant
            last == s.len() - pat.len(),
            i <= last,
            find(s@, pat@) == find_from(s@, pat@, i as int),
        decreases last - i,
    {
        if matches_at(s, pat, i) {
            return Some(i);
        }
        if i == last {
            assert(find_from(s@, pat@, i + 1) == -1);
            return None;
        }
        i += 1;
    }
}

/// Decides whether `pat` occurs somewhere in `s`.
pub fn contains(s: &[char], pat: &[char]) -> (r: bool)
    ensures
        r == has_infix(s@, pat@),
{
    find_sub(s, pat).is_some()
}

/// Finds the first occurrence of the character `c` in `s`.
pub fn find_char(s: &[char], c: char) -> (r: Option<usize>)
    ensures
        match r {
            Some(i) => index_of(s@, c) == i && i < s.len(),
            None => index_of(s@, c) == -1,
        },
{
    let mut i: usize = 0;
    while i < s.len()
        invariant
            i <= s.len(),
            index_of(s@, c) == index_from(s@, c, i as int),
        decreases s.len() - i,
    {
        if s[i] == c {
            return Some(i);
        }
        i += 1;
    }
    None
}

/// The greatest index below `j` where `c` stands in `s`, or -1.
pub open spec fn last_index_upto(s: Seq<char>, c: char, j: int) -> int
    decreases j,
{
    if j <= 0 || j > s.len() {
        -1
    } else if s[j - 1] == c {
        j - 1
    } else {
        last_index_upto(s, c, j - 1)
    }
}

/// The greatest index where `c` stands in `s`, or -1.
pub open spec fn last_index_of(s: Seq<char>, c: char) -> int {
    last_index_upto(s, c, s.len() as int)
}

/// Finds the last occurrence of the character `c` in `s`.
pub fn rfind_char(s: &[char], c: char) -> (r: Option<usize>)
    ensures
        match r {
            Some(i) => last_index_of(s@, c) == i && i < s.len(),
            None => last_index_of(s@, c) == -1,
        },
{
    let mut j: usize = s.len();
    while j > 0
        invariant
            j <= s.len(),
            last_index_of(s@, c) == last_index_upto(s@, c, j as int),
        decreases j,
    {
        if s[j - 1] == c {
            return Some(j - 1);
        }
        j -= 1;
    }
    None
}

// ---------------------------------------------------------------------------
// Paths
// ---------------------------------------------------------------------------
/// The last component of a `/`-separated path.
pub open spec fn file_name_of(path: Seq<char>) -> Seq<char> {
    path.subrange(last_index_of(path, '/') + 1, path.len() as int)
}

/// The extension of a `/`-separated path: what follows the last dot of its
/// last component, unless that component has no dot or only a leading one.
pub open spec fn extension_of(path: Seq<char>) -> Option<Seq<char>> {
    let name = file_name_of(path);
    let dot = last_index_of(name, '.');
    if dot <= 0 {
        None
    } else {
        Some(name.subrange(dot + 1, name.len() as int))
    }
}

/// Computes [`extension_of`].
pub fn extension(path: &[char]) -> (r: Option<Vec<char>>)
    ensures
        match r {
            Some(e) => extension_of(path@) == Some(e@),
            None => extension_of(path@) is None,
        },
{
    let start: usize = match rfind_char(path, '/') {
        Some(i) => i + 1,
        None => 0,
    };
    let name = copy_range(path, start, path.len());
    match rfind_char(name.as_slice(), '.') {
        Some(dot) => {
            if dot == 0 {
                None
            } else {
                Some(copy_range(name.as_slice(), dot + 1, name.len()))
            }
        },
        None => None,
    }
}

/// Finds the first occurrence of the character `c` in `s` at or after
/// `from`.
pub fn find_char_from(s: &[char], c: char, from: usize) -> (r: Option<usize>)
    ensures
        match r {
            Some(i) => index_from(s@, c, from as int) == i && from <= i < s.len(),
            None => index_from(s@, c, from as int) == -1,
        },
{
    let mut i: usize = from;
    while i < s.len()
        invariant
            from <= i,
            index_from(s@, c, from as int) == index_from(s@, c, i as int),
        decreases s.len() - i,
    {
        if s[i] == c {
            return Some(i);
        }
        i += 1;
    }
    None
}

// ---------------------------------------------------------------------------
// Lists of texts
// ---------------------------------------------------------------------------
/// The texts of a list of string slices.
pub open spec fn slice_texts(v: Seq<&str>) -> Seq<Seq<char>> {
    Seq::new(v.len(), |i: int| v[i]@)
}

/// Decides whether `list` holds the text `s`.
pub fn contains_text(list: &[&str], s: &str) -> (r: bool)
    ensures
        r == slice_texts(list@).contains(s@),
{
    let mut i: usize = 0;
    while i < list.len()
        invariant
            i <= list.len(),
            forall|k: int| 0 <= k < i ==> slice_texts(list@)[k] != s@,
        decreases list.len() - i,
    {
        if str_eq(list[i], s) {
            assert(slice_texts(list@)[i as int] == s@);
            return true;
        }
        i += 1;
    }
    false
}

// ---------------------------------------------------------------------------
// Lines
// ---------------------------------------------------------------------------
/// The first line of `s`, without its line ending (`\n` or `\r\n`); nothing
/// if `s` is empty.
pub open spec fn first_line_of(s: Seq<char>) -> Option<Seq<char>> {
    let n = index_of(s, '\n');
    if s.len() == 0 {
        None
    } else if n < 0 {
        Some(s)
    } else if n > 0 && s[n - 1] == '\r' {
        Some(s.subrange(0, n - 1))
    } else {
        Some(s.subrange(0, n))
    }
}

/// Computes [`first_line_of`].
pub fn first_line(s: &[char]) -> (r: Option<Vec<char>>)
    ensures
        match r {
            Some(v) => first_line_of(s@) == Some(v@),
            None => first_line_of(s@) is None,
        },
{
    if s.len() == 0 {
        return None;
    }
    match find_char(s, '\n') {
        None => {
            let v = copy_range(s, 0, s.len());
            assert(s@.subrange(0, s.len() as int) == s@);
            Some(v)
        },
        Some(n) => {
            if n > 0 && s[n - 1] == '\r' {
                Some(copy_range(s, 0, n - 1))
            } else {
                Some(copy_range(s, 0, n))
            }
        },
    }
}

// ---------------------------------------------------------------------------
// Stripping a repeated character or text from the ends
// ---------------------------------------------------------------------------
/// Index of the first character at or after `i` that differs from `c`.
pub open spec fn skip_char(s: Seq<char>, c: char, i: int) -> int
    decreases s.len() - i,
{
    if 0 <= i < s.len() && s[i] == c {
        skip_char(s, c, i + 1)
    } else {
        i
    }
}

/// Index just after the last character before `j` that differs from `c`.
pub open spec fn back_char(s: Seq<char>, c: char, j: int) -> int
    decreases j,
{
    if 0 < j <= s.len() && s[j - 1] == c {
        back_char(s, c, j - 1)
    } else {
        j
    }
}

/// `s` without the run of `c` at its start.
pub open spec fn without_leading(s: Seq<char>, c: char) -> Seq<char> {
    s.subrange(skip_char(s, c, 0), s.len() as int)
}

/// `s` without the run of `c` at its end.
pub open spec fn without_trailing(s: Seq<char>, c: char) -> Seq<char> {
    s.subrange(0, back_char(s, c, s.len() as int))
}

/// `s` without the runs of `c` at both ends.
pub open spec fn without_surrounding(s: Seq<char>, c: char) -> Seq<char> {
    without_trailing(without_leading(s, c), c)
}

/// Removes the run of `c` at the start of `s`.
pub fn strip_leading(s: &[char], c: char) -> (r: Vec<char>)
    ensures
        r@ == without_leading(s@, c),
{
    let mut i: usize = 0;
    while i < s.len() && s[i] == c
        invariant
            i <= s.len(),
            skip_char(s@, c, 0) == skip_char(s@, c, i as int),
        decreases s.len() - i,
    {
        i += 1;
    }
    copy_range(s, i, s.len())
}

/// Removes the run of `c` at the end of `s`.
pub fn strip_trailing(s: &[char], c: char) -> (r: Vec<char>)
    ensures
        r@ == without_trailing(s@, c),
{
    let mut j: usize = s.len();
    while j > 0 && s[j - 1] == c
        invariant
            j <= s.len(),
            back_char(s@, c, s.len() as int) == back_char(s@, c, j as int),
        decreases j,
    {
        j -= 1;
    }
    copy_range(s, 0, j)
}

/// Removes the runs of `c` at both ends of `s`.
pub fn strip_surrounding(s: &[char], c: char) -> (r: Vec<char>)
    ensures
        r@ == without_surrounding(s@, c),
{
    let a = strip_leading(s, c);
    strip_trailing(a.as_slice(), c)
}

/// Index after the repetitions of `pat` that start at `i`.
pub open spec fn skip_text(s: Seq<char>, pat: Seq<char>, i: int) -> int
    decreases s.len() - i,
{
    if pat.len() > 0 && occurs_at(s, pat, i) {
        skip_text(s, pat, i + pat.len())
    } else {
        i
    }
}

/// Index before the repetitions of `pat` that end at `j`.
pub open spec fn back_text(s: Seq<char>, pat: Seq<char>, j: int) -> int
    decreases j,
{
    if pat.len() > 0 && occurs_at(s, pat, j - pat.len()) {
        back_text(s, pat, j - pat.len())
    } else {
        j
    }
}

/// `s` without the repetitions of `pat` at its start.
pub open spec fn without_prefixes(s: Seq<char>, pat: Seq<char>) -> Seq<char> {
    s.subrange(skip_text(s, pat, 0), s.len() as int)
}

/// `s` without the repetitions of `pat` at its end.
pub open spec fn without_suffixes(s: Seq<char>, pat: Seq<char>) -> Seq<char> {
    s.subrange(0, back_text(s, pat, s.len() as int))
}

/// Removes the repetitions of `pat` at the start of `s`.
pub fn strip_prefixes(s: &[char], pat: &[char]) -> (r: Vec<char>)
    ensures
        r@ == without_prefixes(s@, pat@),
{
    let mut i: usize = 0;
    if pat.len() > 0 {
        while matches_at(s, pat, i)
            invariant
                i <= s.len(),
                pat.len() > 0,
                skip_text(s@, pat@, 0) == skip_text(s@, pat@, i as int),
            decreases s.len() - i,
        {
            i += pat.len();
        }
    }
    copy_range(s, i, s.len())
}

/// Removes the repetitions of `pat` at the end of `s`.
pub fn strip_suffixes(s: &[char], pat: &[char]) -> (r: Vec<char>)
    ensures
        r@ == without_suffixes(s@, pat@),
{
    let mut j: usize = s.len();
    if pat.len() > 0 {
        while j >= pat.len() && matches_at(s, pat, j - pat.len())
            invariant
                j <= s.len(),
                pat.len() > 0,
                back_text(s@, pat@, s.len() as int) == back_text(s@, pat@, j as int),
            decreases j,
        {
            j -= pat.len();
        }
    }
    copy_range(s, 0, j)
}

// ---------------------------------------------------------------------------
// Decimal numbers
// ---------------------------------------------------------------------------
/// The character for a decimal digit.
pub open spec fn digit(d: nat) -> char {
    if d == 0 {
        '0'
    } else if d == 1 {
        '1'
    } else if d == 2 {
        '2'
    } else if d == 3 {
        '3'
    } else if d == 4 {
        '4'
    } else if d == 5 {
        '5'
    } else if d == 6 {
        '6'
    } else if d == 7 {
        '7'
    } else if d == 8 {
        '8'
    } else {
        '9'
    }
}

/// The decimal notation of `n`, without leading zeros.
pub open spec fn decimal(n: nat) -> Seq<char>
    decreases n,
{
    if n < 10 {
        seq![digit(n)]
    } else {
        decimal(n / 10).push(digit(n % 10))
    }
}

/// Computes [`digit`].
pub fn digit_char(d: u64) -> (c: char)
    requires
        d < 10,
    ensures
        c == digit(d as nat),
{
    if d == 0 {
        '0'
    } else if d == 1 {
        '1'
    } else if d == 2 {
        '2'
    } else if d == 3 {
        '3'
    } else if d == 4 {
        '4'
    } else if d == 5 {
        '5'
    } else if d == 6 {
        '6'
    } else if d == 7 {
        '7'
    } else if d == 8 {
        '8'
    } else {
        '9'
    }
}

/// Appends the decimal notation of `n` to `out`.
pub fn push_decimal(out: &mut Vec<char>, n: u64)
    ensures
        final(out)@ == old(out)@ + decimal(n as nat),
    decreases n,
{
    if n < 10 {
        out.push(digit_char(n));
        assert(old(out)@.push(digit(n as nat)) == old(out)@ + decimal(n as nat));
    } else {
        push_decimal(out, n / 10);
        out.push(digit_char(n % 10));
        assert((old(out)@ + decimal((n / 10) as nat)).push(digit((n % 10) as nat)) == old(out)@
            + decimal(n as nat));
    }
}

} // verus!
