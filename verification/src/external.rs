//! Calls into std and into the outside crates, with the contracts the rest of
//! the library relies on. Nothing in this file is proved: each contract is
//! what the called function's documentation or source states.
use vstd::prelude::*;
use vstd::utf8::encode_utf8;

verus! {

/// Appends one character to a `String` (`String::push`).
///
/// Trusted: claims that the character is added at the end and nothing else
/// changes, as std documents.
#[verifier::external_body]
pub fn push_char(s: &mut String, c: char)
    ensures
        final(s)@ == old(s)@.push(c),
{
    s.push(c);
}

/// The unicode lower-case form of a string, as `str::to_lowercase` gives it.
/// The mapping follows the Unicode case tables and is a function of the text
/// alone.
pub uninterp spec fn unicode_lowercase(s: Seq<char>) -> Seq<char>;

/// Lower-cases a string with `str::to_lowercase`.
///
/// Trusted: claims only that the result is `unicode_lowercase` of the input;
/// the Unicode tables behind it are not restated here.
#[verifier::external_body]
pub fn to_lowercase(s: &str) -> (r: String)
    ensures
        r@ == unicode_lowercase(s@),
{
    s.to_lowercase()
}

/// A byte that `urlencoding` passes through unchanged: ASCII letters, digits
/// and `-`, `.`, `_`, `~`.
pub open spec fn is_url_safe_byte(b: u8) -> bool {
    (0x30 <= b <= 0x39) || (0x41 <= b <= 0x5a) || (0x61 <= b <= 0x7a) || b == 0x2d || b == 0x2e
        || b == 0x5f || b == 0x7e
}

/// Upper-case hexadecimal digit for a value below 16.
pub open spec fn hex_upper(d: u8) -> char {
    if d < 10 {
        (('0' as u32) + d) as char
    } else {
        (('A' as u32) + d - 10) as char
    }
}

/// The text that `urlencoding` writes for one byte.
pub open spec fn url_encode_byte(b: u8) -> Seq<char> {
    if is_url_safe_byte(b) {
        seq![b as char]
    } else {
        seq!['%', hex_upper(b / 16), hex_upper(b % 16)]
    }
}

/// Percent-encoding of a byte sequence, byte by byte.
pub open spec fn url_encode_bytes(bytes: Seq<u8>) -> Seq<char>
    decreases bytes.len(),
{
    if bytes.len() == 0 {
        Seq::empty()
    } else {
        url_encode_byte(bytes[0]) + url_encode_bytes(bytes.drop_first())
    }
}

/// Percent-encoding of a string: its UTF-8 bytes, each encoded on its own.
pub open spec fn url_encoded(s: Seq<char>) -> Seq<char> {
    url_encode_bytes(encode_utf8(s))
}

/// `urlencoding::encode`.
///
/// Trusted: claims the documented behaviour, "percent-encodes every byte
/// except alphanumerics and `-`, `_`, `.`, `~`", over the UTF-8 bytes of the
/// input, with upper-case hexadecimal digits (as in the crate's source).
#[verifier::external_body]
pub fn url_encode(s: &str) -> (r: String)
    ensures
        r@ == url_encoded(s@),
{
    urlencoding::encode(s).into_owned()
}

/// A character that `regex::escape` prefixes with a backslash.
pub open spec fn is_regex_meta(c: char) -> bool {
    c == '\\' || c == '.' || c == '+' || c == '*' || c == '?' || c == '(' || c == ')' || c == '|'
        || c == '[' || c == ']' || c == '{' || c == '}' || c == '^' || c == '$' || c == '#'
        || c == '&' || c == '-' || c == '~'
}

/// The text that `regex::escape` produces.
pub open spec fn regex_escaped(s: Seq<char>) -> Seq<char>
    decreases s.len(),
{
    if s.len() == 0 {
        Seq::empty()
    } else {
        (if is_regex_meta(s[0]) {
            seq!['\\', s[0]]
        } else {
            seq![s[0]]
        }) + regex_escaped(s.drop_first())
    }
}

/// `regex::escape`.
///
/// Trusted: claims that every meta character (the fixed set of
/// `regex_syntax::is_meta_character`) gets a backslash in front of it and
/// all other characters are copied, as the crate's source shows.
#[verifier::external_body]
pub fn regex_escape(s: &str) -> (r: String)
    ensures
        r@ == regex_escaped(s@),
{
    regex::escape(s)
}

/// What compiling `pattern` with `regex::Regex::new` and asking `is_match` on
/// `haystack` gives: `None` when the pattern does not compile, otherwise
/// whether some part of the haystack matches. A function of the two texts.
pub uninterp spec fn regex_search(pattern: Seq<char>, haystack: Seq<char>) -> Option<bool>;

/// `regex::Regex::new(pattern)` followed by `Regex::is_match(haystack)`.
///
/// Trusted: claims only that the result is `regex_search` of the two texts;
/// the regular-expression semantics are not restated.
#[verifier::external_body]
pub fn regex_is_match(pattern: &str, haystack: &str) -> (r: Option<bool>)
    ensures
        r == regex_search(pattern@, haystack@),
{
    match regex::Regex::new(pattern) {
        Ok(re) => Some(re.is_match(haystack)),
        Err(_) => None,
    }
}

/// The position of the last `.` in `name`, if any.
pub open spec fn last_dot(name: Seq<char>) -> Option<int>
    decreases name.len(),
{
    if name.len() == 0 {
        None
    } else if name.last() == '.' {
        Some(name.len() - 1)
    } else {
        last_dot(name.drop_last())
    }
}

/// The extension of a file name without path separators, as `Path`
/// documents it: none for an empty name, `.` or `..`, none without a `.`
/// or when the only leading `.` starts the name, otherwise what follows the
/// final `.`.
pub open spec fn name_extension(name: Seq<char>) -> Option<Seq<char>> {
    if name.len() == 0 || name == seq!['.'] || name == seq!['.', '.'] {
        None
    } else {
        match last_dot(name) {
            Some(i) => if i == 0 {
                None
            } else {
                Some(name.skip(i + 1))
            },
            None => None,
        }
    }
}

/// The part of `name` after its last `/` (all of it when there is none).
pub open spec fn last_component(name: Seq<char>) -> Seq<char>
    decreases name.len(),
{
    if name.len() == 0 {
        name
    } else if name.last() == '/' {
        Seq::empty()
    } else {
        last_component(name.drop_last()).push(name.last())
    }
}

/// Whether `Path` takes the part after the last `/` as the file name: there
/// is no `/`, or that part is neither empty nor `.` nor `..` (otherwise
/// trailing separators and `.`/`..` components change which component is
/// last).
pub open spec fn file_name_is_last_component(name: Seq<char>) -> bool {
    let base = last_component(name);
    !name.contains('/') || (base.len() > 0 && base != seq!['.'] && base != seq!['.', '.'])
}

/// `Path::new(name).extension()`, as text.
///
/// Trusted: where the file name is the part after the last `/`
/// (`file_name_is_last_component`), claims the rule of the documentation of
/// `Path::extension` and `Path::file_name` for that part (`name_extension`);
/// for other names (ending in `/`, `.` or `..` after a separator) nothing is
/// claimed. A part of the name that is not valid text cannot occur, the input
/// being a `&str`.
#[verifier::external_body]
pub fn path_extension(name: &str) -> (r: Option<String>)
    ensures
        file_name_is_last_component(name@) ==> (match r {
            Some(e) => name_extension(last_component(name@)) == Some(e@),
            None => name_extension(last_component(name@)) is None,
        }),
{
    std::path::Path::new(name).extension().and_then(|e| e.to_str()).map(|e| e.to_string())
}

/// One of the date layouts the pages show: `%Y-%m-%d %H:%M:%S`,
/// `%Y-%m-%d %H:%M` or `%Y-%m-%d %H:%M UTC` (every specifier in them is one
/// chrono knows).
pub open spec fn is_date_layout(pattern: Seq<char>) -> bool {
    pattern == "%Y-%m-%d %H:%M:%S"@ || pattern == "%Y-%m-%d %H:%M"@ || pattern == "%Y-%m-%d %H:%M UTC"@
}

/// What chrono writes for the UTC date and time `secs` seconds after the
/// Unix epoch in the layout `pattern`: `None` when
/// `DateTime::from_timestamp` has no date for those seconds. A function of
/// the two arguments.
pub uninterp spec fn utc_datetime_text(secs: int, pattern: Seq<char>) -> Option<Seq<char>>;

/// `chrono::DateTime::from_timestamp(secs, 0)`, then `NaiveDateTime::format`
/// of its UTC date and time with `pattern`, written out with `to_string`.
///
/// Trusted: claims only that the result is `utc_datetime_text` of the two
/// arguments; the calendar arithmetic is not restated. The layout is one of
/// the fixed ones, so the formatting cannot fail.
#[verifier::external_body]
pub fn format_utc_timestamp(secs: i64, pattern: &str) -> (r: Option<String>)
    requires
        is_date_layout(pattern@),
    ensures
        match r {
            Some(t) => utc_datetime_text(secs as int, pattern@) == Some(t@),
            None => utc_datetime_text(secs as int, pattern@) is None,
        },
{
    match chrono::DateTime::from_timestamp(secs, 0) {
        Some(dt) => Some(dt.naive_utc().format(pattern).to_string()),
        None => None,
    }
}

} // verus!
