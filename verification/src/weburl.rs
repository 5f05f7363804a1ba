//! URLs and byte strings as plain text.
//!
//! The URL grammar belongs to the `url` crate. A URL is held here by its
//! serialization, and each operation on it names the text that comes out.

use vstd::prelude::*;

use crate::text::{chars_of, same_text};

verus! {

/// The parts of a URL that the browser decides by.
pub struct UrlParts {
    /// The serialization.
    pub text: String,
    /// The scheme, in lower case and without the colon.
    pub scheme: String,
    /// The path, percent-encoded.
    pub path: String,
    /// The query without its question mark, if there is one.
    pub query: Option<String>,
}

/// [`UrlParts`] as a value.
pub struct UrlView {
    pub text: Seq<char>,
    pub scheme: Seq<char>,
    pub path: Seq<char>,
    pub query: Option<Seq<char>>,
}

impl View for UrlParts {
    type V = UrlView;

    open spec fn view(&self) -> UrlView {
        UrlView {
            text: self.text@,
            scheme: self.scheme@,
            path: self.path@,
            query: match self.query {
                Some(q) => Some(q@),
                None => None,
            },
        }
    }
}

impl UrlView {
    /// What a parse says, by its values: the parts, or the reason why there
    /// are none.
    pub open spec fn outcome(r: Result<UrlParts, String>) -> Result<UrlView, Seq<char>> {
        match r {
            Ok(u) => Ok(u@),
            Err(e) => Err(e@),
        }
    }

    /// The optional text as a value.
    pub open spec fn optional(r: Option<String>) -> Option<Seq<char>> {
        match r {
            Some(t) => Some(t@),
            None => None,
        }
    }
}

/// What `url::Url::parse` makes of a text: serialization, scheme, path and
/// query of the URL, or the message of the parse error.
pub uninterp spec fn parsed_url(input: Seq<char>) -> Result<UrlView, Seq<char>>;

/// What `url::Url::join` makes of a reference relative to a base URL, as a
/// serialization; `None` where the base or the reference does not parse.
pub uninterp spec fn joined_url(base: Seq<char>, input: Seq<char>) -> Option<Seq<char>>;

/// Whether `url::Url::origin` gives the two texts equal origins. An opaque
/// origin equals no other, and a text that is no URL has none.
pub uninterp spec fn same_origin_texts(a: Seq<char>, b: Seq<char>) -> bool;

/// What `url::Url::set_query` makes of a URL and a new query, as a
/// serialization; `None` where the text is no URL.
pub uninterp spec fn url_with_query(input: Seq<char>, query: Seq<char>) -> Option<Seq<char>>;

/// What `String::from_utf8_lossy` makes of bytes.
pub uninterp spec fn lossy_text(bytes: Seq<u8>) -> Seq<char>;

/// Calls `url::Url::parse` and takes the result apart: the serialization, the
/// scheme, the path and the query, or the text of the error. The contract says
/// that all of it depends on `input` alone; what it is, it leaves to the crate.
/// Of the query it adds that percent-encoding at most triples its length.
#[verifier::external_body]
pub(crate) fn parse_url(input: &str) -> (r: Result<UrlParts, String>)
    ensures
        UrlView::outcome(r) == parsed_url(input@),
        r matches Ok(parts) ==> (parts.query matches Some(query) ==> vstd::utf8::encode_utf8(
            query@,
        ).len() <= 3 * vstd::utf8::encode_utf8(input@).len()),
{
    match url::Url::parse(input) {
        Ok(u) => Ok(UrlParts {
            text: u.as_str().to_owned(),
            scheme: u.scheme().to_owned(),
            path: u.path().to_owned(),
            query: u.query().map(str::to_owned),
        }),
        Err(e) => Err(e.to_string()),
    }
}

/// Calls `url::Url::join` on a URL given by its serialization. The contract
/// says that the result depends on the two texts alone.
#[verifier::external_body]
pub(crate) fn join_url(base: &str, input: &str) -> (r: Option<String>)
    ensures
        UrlView::optional(r) == joined_url(base@, input@),
{
    url::Url::parse(base).ok()?.join(input).ok().map(String::from)
}

/// The text is a `blob` URL.
pub open spec fn is_blob(text: Seq<char>) -> bool {
    parsed_url(text) matches Ok(url) && url.scheme == "blob"@
}

/// What is left of a text once `layers` `blob` URLs, or all there are, have been
/// taken off: the path of a `blob` URL is a URL again, and its origin is that
/// of the `blob` URL.
pub open spec fn unwrapped(text: Seq<char>, layers: nat) -> Seq<char>
    decreases layers,
{
    if layers > 0 && is_blob(text) {
        unwrapped(parsed_url(text)->Ok_0.path, (layers - 1) as nat)
    } else {
        text
    }
}

/// The text without the `blob` URLs around it. There are no more of them than
/// characters.
pub open spec fn innermost(text: Seq<char>) -> Seq<char> {
    unwrapped(text, text.len())
}

/// Takes the `blob` URLs off a text; `None` where a `blob` URL is left.
fn unwrap_blobs(text: &str) -> (r: Option<String>)
    ensures
        match r {
            Some(inner) => inner@ == innermost(text@) && !is_blob(inner@),
            None => is_blob(innermost(text@)),
        },
{
    let mut layers: usize = chars_of(text).len();
    let mut inner = text.to_owned();
    loop
        invariant
            innermost(text@) == unwrapped(inner@, layers as nat),
        decreases layers,
    {
        match parse_url(inner.as_str()) {
            Ok(parts) => {
                if !same_text(parts.scheme.as_str(), "blob") {
                    return Some(inner);
                }
                if layers == 0 {
                    return None;
                }
                inner = parts.path;
                layers -= 1;
            },
            Err(_) => {
                return Some(inner);
            },
        }
    }
}

/// Two texts are URLs of one origin.
pub open spec fn one_origin(a: Seq<char>, b: Seq<char>) -> bool {
    let (x, y) = (innermost(a), innermost(b));
    !is_blob(x) && !is_blob(y) && same_origin_texts(x, y)
}

/// Whether two texts are URLs of one origin.
pub(crate) fn share_origin(a: &str, b: &str) -> (r: bool)
    ensures
        r == one_origin(a@, b@),
{
    match (unwrap_blobs(a), unwrap_blobs(b)) {
        (Some(x), Some(y)) => same_origin(x.as_str(), y.as_str()),
        _ => false,
    }
}

/// Calls `url::Url::origin` on two URLs given by their texts and compares. The
/// contract says that the answer depends on the two texts alone. On a `blob`
/// URL the call recurses once for each layer, so there is none here.
#[verifier::external_body]
fn same_origin(a: &str, b: &str) -> (r: bool)
    requires
        !is_blob(a@),
        !is_blob(b@),
    ensures
        r == same_origin_texts(a@, b@),
{
    match (url::Url::parse(a), url::Url::parse(b)) {
        (Ok(a), Ok(b)) => a.origin() == b.origin(),
        _ => false,
    }
}

/// The largest offset in a `url::Url`, with some room to spare: it has 32 bits.
pub const MAX_URL_OFFSET: u64 = 0xFFFF_FF00;

/// A URL of `input` bytes has room for a new query of `query` bytes.
/// Percent-encoding triples the bytes of a query; a host name grows most when
/// it is parsed, and stays below sixty-four times its length.
pub open spec fn query_fits(input: nat, query: nat) -> bool {
    64 * input + 3 * query <= MAX_URL_OFFSET
}

/// Calls `url::Url::set_query` on a URL given by its text. The contract says
/// that the result depends on the two texts alone, and that there is one where
/// the text is a URL. The call panics where an
/// offset leaves 32 bits, which the bound on both texts rules out.
#[verifier::external_body]
pub(crate) fn with_query(input: &str, query: &str) -> (r: Option<String>)
    requires
        query_fits(
            vstd::utf8::encode_utf8(input@).len(),
            vstd::utf8::encode_utf8(query@).len(),
        ),
    ensures
        UrlView::optional(r) == url_with_query(input@, query@),
        r is Some <==> parsed_url(input@) is Ok,
{
    let mut u = url::Url::parse(input).ok()?;
    u.set_query(Some(query));
    Some(u.into())
}

/// Calls `String::from_utf8_lossy` of std. Valid UTF-8 becomes the text that it
/// encodes; of other bytes the contract says that the text depends on them
/// alone. Each invalid sequence becomes one character of three bytes, so the
/// text has at most three times as many bytes.
#[verifier::external_body]
pub(crate) fn utf8_lossy(bytes: &[u8]) -> (r: String)
    ensures
        r@ == lossy_text(bytes@),
        vstd::utf8::valid_utf8(bytes@) ==> vstd::utf8::encode_utf8(r@) == bytes@,
        vstd::utf8::encode_utf8(r@).len() <= 3 * bytes@.len(),
{
    String::from_utf8_lossy(bytes).into_owned()
}

/// Calls `String::from_utf8` of std: valid UTF-8 becomes the text that it
/// encodes, and anything else is refused.
#[verifier::external_body]
pub(crate) fn utf8_text(bytes: Vec<u8>) -> (r: Option<String>)
    ensures
        r is Some <==> vstd::utf8::valid_utf8(bytes@),
        r matches Some(t) ==> vstd::utf8::encode_utf8(t@) == bytes@,
{
    String::from_utf8(bytes).ok()
}

/// How `serde_json::to_string` writes one character of a string.
pub open spec fn json_char(c: char) -> Seq<char> {
    if c == '"' {
        seq!['\\', '"']
    } else if c == '\\' {
        seq!['\\', '\\']
    } else if c == '\u{8}' {
        seq!['\\', 'b']
    } else if c == '\u{c}' {
        seq!['\\', 'f']
    } else if c == '\n' {
        seq!['\\', 'n']
    } else if c == '\r' {
        seq!['\\', 'r']
    } else if c == '\t' {
        seq!['\\', 't']
    } else if 32 > c as nat {
        seq!['\\', 'u', '0', '0', hex_char(c as nat / 16), hex_char(c as nat % 16)]
    } else {
        seq![c]
    }
}

/// The lower-case hexadecimal digit of `d`.
pub open spec fn hex_char(d: nat) -> char {
    if d < 10 {
        (48 + d) as char
    } else {
        (87 + d) as char
    }
}

/// The characters of a JSON string, escaped one by one.
pub open spec fn json_chars(s: Seq<char>) -> Seq<char>
    decreases s.len(),
{
    if s.len() == 0 {
        s
    } else {
        json_chars(s.subrange(0, s.len() - 1)) + json_char(s[s.len() - 1])
    }
}

/// `s` as a JSON string.
pub open spec fn json_text(s: Seq<char>) -> Seq<char> {
    seq!['"'] + json_chars(s) + seq!['"']
}

/// Calls `serde_json::to_string` on a string. Writing a string to memory does
/// not fail, and the text is the string in quotes with quote, backslash and the
/// control characters below the space escaped.
#[verifier::external_body]
pub(crate) fn json_encode(value: &str) -> (r: Result<String, String>)
    ensures
        r is Ok,
        r->Ok_0@ == json_text(value@),
{
    serde_json::to_string(value).map_err(|e| e.to_string())
}

} // verus!
