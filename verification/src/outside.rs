//! Calls into std and outside crates whose results this crate does not compute
//! itself. Each contract here is believed, not proved; the doc comment of each item
//! says what it claims.
use vstd::prelude::*;
use vstd::utf8::is_ascii_chars;
use crate::words::ascii_lower_seq;
use crate::text::bytes_of;
use base64::Engine;

verus! {

/// What `str::to_lowercase` returns for a string with the characters `s`
/// (lowercase mapping by the Unicode `Lowercase` property).
pub uninterp spec fn lowercase_of(s: Seq<char>) -> Seq<char>;

/// `str::to_lowercase`. Claims the result is `lowercase_of` of the input, and that
/// for an all-ASCII input it is the input with `A`..`Z` mapped to `a`..`z`
/// (the Unicode lowercase mapping of the ASCII range).
#[verifier::external_body]
pub(crate) fn to_lowercase(s: &str) -> (r: String)
    ensures
        r@ == lowercase_of(s@),
        is_ascii_chars(s@) ==> r@ == ascii_lower_seq(s@),
{
    s.to_lowercase()
}

/// What `String::from_utf8_lossy` returns for the bytes `b`.
pub uninterp spec fn utf8_lossy_of(b: Seq<u8>) -> Seq<char>;

/// `String::from_utf8_lossy`. Claims the result is `utf8_lossy_of` of the bytes,
/// and that bytes that are valid UTF-8 decode to exactly their characters (only
/// invalid sequences are replaced).
#[verifier::external_body]
pub(crate) fn utf8_lossy(b: &[u8]) -> (r: String)
    ensures
        r@ == utf8_lossy_of(b@),
        vstd::utf8::valid_utf8(b@) ==> r@ == vstd::utf8::decode_utf8(b@),
{
    String::from_utf8_lossy(b).into_owned()
}

/// What `Path::new(base).join(part)` is, written out as a string.
pub uninterp spec fn path_join_of(base: Seq<char>, part: Seq<char>) -> Seq<char>;

/// `Path::join`, with the result written out as a string (lossless, as both inputs
/// are UTF-8). Claims the result is `path_join_of` of the two arguments.
#[verifier::external_body]
pub(crate) fn path_join(base: &str, part: &str) -> (r: String)
    ensures
        r@ == path_join_of(base@, part@),
{
    std::path::Path::new(base).join(part).to_string_lossy().into_owned()
}

/// What `Path::new(p).parent()` is, written out as a string.
pub uninterp spec fn path_parent_of(p: Seq<char>) -> Option<Seq<char>>;

/// `Path::parent`, with the result written out as a string. Claims the result is
/// `path_parent_of` of the argument.
#[verifier::external_body]
pub(crate) fn path_parent(p: &str) -> (r: Option<String>)
    ensures
        r matches Some(s) ==> path_parent_of(p@) == Some(s@),
        r is None ==> path_parent_of(p@) is None,
{
    std::path::Path::new(p).parent().map(|q| q.to_string_lossy().into_owned())
}

/// What `Path::new(p).file_name()` is, written out as a string.
pub uninterp spec fn path_file_name_of(p: Seq<char>) -> Option<Seq<char>>;

/// `Path::file_name`, with the result written out as a string. Claims the result is
/// `path_file_name_of` of the argument.
#[verifier::external_body]
pub(crate) fn path_file_name(p: &str) -> (r: Option<String>)
    ensures
        r matches Some(s) ==> path_file_name_of(p@) == Some(s@),
        r is None ==> path_file_name_of(p@) is None,
{
    std::path::Path::new(p).file_name().map(|q| q.to_string_lossy().into_owned())
}

/// The capture groups (group 0 first; `None` for a group that took no part in the
/// match) of the first match of the regular expression `pattern` in `haystack`;
/// `None` when there is no match or `pattern` is not a valid expression.
pub uninterp spec fn regex_captures_of(pattern: Seq<char>, haystack: Seq<char>) -> Option<
    Seq<Option<Seq<char>>>,
>;

/// The plain values held by an optional string.
pub open spec fn opt_text(o: Option<String>) -> Option<Seq<char>> {
    match o {
        Some(x) => Some(x@),
        None => None,
    }
}

/// The groups of one match, as plain values.
pub open spec fn groups_view(v: Seq<Option<String>>) -> Seq<Option<Seq<char>>> {
    v.map_values(|g: Option<String>| opt_text(g))
}

/// The plain values held by a capture result.
pub open spec fn captures_view(r: Option<Vec<Option<String>>>) -> Option<Seq<Option<Seq<char>>>> {
    match r {
        Some(v) => Some(groups_view(v@)),
        None => None,
    }
}

/// `regex::Regex::new(pattern)` followed by `Regex::captures(haystack)`, each group
/// read with `Captures::get` and `Match::as_str`. Claims the result is
/// `regex_captures_of` of the two arguments.
#[verifier::external_body]
pub(crate) fn regex_captures(pattern: &str, haystack: &str) -> (r: Option<Vec<Option<String>>>)
    ensures
        regex_captures_of(pattern@, haystack@) == captures_view(r),
{
    let re = regex::Regex::new(pattern).ok()?;
    let caps = re.captures(haystack)?;
    Some((0..caps.len()).map(|i| caps.get(i).map(|m| m.as_str().to_string())).collect())
}

/// The host (if any), the path, and the path segments (if the URL can be a base)
/// of the URL `s` as `url::Url::parse` reads it, or the text of its parse error.
pub uninterp spec fn url_parse_of(s: Seq<char>) -> Result<
    (Option<Seq<char>>, Seq<char>, Option<Seq<Seq<char>>>),
    Seq<char>,
>;

/// The parts of a parsed URL that this crate reads.
pub struct UrlParts {
    /// `Url::host_str`
    pub host: Option<String>,
    /// `Url::path`
    pub path: String,
    /// `Url::path_segments`, collected
    pub segments: Option<Vec<String>>,
}

/// The plain values held by `p`.
pub open spec fn url_parts_view(p: UrlParts) -> (Option<Seq<char>>, Seq<char>, Option<Seq<Seq<char>>>) {
    (
        match p.host {
            Some(h) => Some(h@),
            None => None,
        },
        p.path@,
        match p.segments {
            Some(v) => Some(v@.map_values(|x: String| x@)),
            None => None,
        },
    )
}

/// The plain values held by a URL parse result.
pub open spec fn url_result_view(r: Result<UrlParts, String>) -> Result<
    (Option<Seq<char>>, Seq<char>, Option<Seq<Seq<char>>>),
    Seq<char>,
> {
    match r {
        Ok(p) => Ok(url_parts_view(p)),
        Err(e) => Err(e@),
    }
}

/// `url::Url::parse`, read through `host_str`, `path` and `path_segments`; on
/// failure the `Display` text of the `url::ParseError`. Claims the result is
/// `url_parse_of` of the input.
#[verifier::external_body]
pub(crate) fn url_parse(s: &str) -> (r: Result<UrlParts, String>)
    ensures
        url_parse_of(s@) == url_result_view(r),
{
    match url::Url::parse(s) {
        Ok(u) => Ok(UrlParts {
            host: u.host_str().map(|h| h.to_string()),
            path: u.path().to_string(),
            segments: u.path_segments().map(|it| it.map(|x| x.to_string()).collect()),
        }),
        Err(e) => Err(e.to_string()),
    }
}

/// The character of the standard base64 alphabet for the value `v < 64`:
/// `A`..`Z`, `a`..`z`, `0`..`9`, `+`, `/`.
pub open spec fn base64_char(v: int) -> char {
    if v < 26 {
        (65 + v) as char
    } else if v < 52 {
        (97 + v - 26) as char
    } else if v < 62 {
        (48 + v - 52) as char
    } else if v == 62 {
        '+'
    } else {
        '/'
    }
}

/// Standard base64 with padding (RFC 4648, section 4) of the bytes `b`: each
/// group of three bytes gives four characters of six bits each; a last group of
/// one or two bytes is padded with `=`.
pub open spec fn base64_standard(b: Seq<u8>) -> Seq<char>
    decreases b.len(),
{
    if b.len() == 0 {
        Seq::empty()
    } else if b.len() == 1 {
        let n = b[0] as int;
        seq![base64_char(n / 4), base64_char((n % 4) * 16), '=', '=']
    } else if b.len() == 2 {
        let n = b[0] as int * 256 + b[1] as int;
        seq![base64_char(n / 1024), base64_char((n / 16) % 64), base64_char((n % 16) * 4), '=']
    } else {
        let n = b[0] as int * 65536 + b[1] as int * 256 + b[2] as int;
        seq![
            base64_char(n / 262144),
            base64_char((n / 4096) % 64),
            base64_char((n / 64) % 64),
            base64_char(n % 64),
        ] + base64_standard(b.skip(3))
    }
}

/// `base64::Engine::encode` with the `STANDARD` engine (padded, standard alphabet),
/// applied to the UTF-8 bytes of the text. Claims the result is the standard
/// padded base64 of those bytes.
#[verifier::external_body]
pub(crate) fn base64_encode(input: &str) -> (r: String)
    ensures
        r@ == base64_standard(bytes_of(input@)),
{
    base64::engine::general_purpose::STANDARD.encode(input)
}

} // verus!
