//! The calls into the url, serde_urlencoded and http crates, each with what it
//! is relied on to do.
use vstd::prelude::*;

use crate::protocol::STEAM_URL;

verus! {

#[verifier::external_type_specification]
#[verifier::external_body]
#[verifier::reject_recursive_types(T)]
pub struct ExHttpRequest<T>(http::Request<T>);

#[verifier::external_type_specification]
#[verifier::external_body]
#[verifier::reject_recursive_types(T)]
pub struct ExHttpResponse<T>(http::Response<T>);

/// The characters of each name and value of a list of form fields.
pub open spec fn pairs_view(v: Seq<(String, String)>) -> Seq<(Seq<char>, Seq<char>)> {
    v.map_values(|p: (String, String)| (p.0@, p.1@))
}

/// The serialisation of the URL that `site` denotes, with `path` resolved
/// against it; `None` where either step fails.
pub uninterp spec fn joined_url(site: Seq<char>, path: Seq<char>) -> Option<Seq<char>>;

/// The serialisation of the URL that `base` denotes, with its query replaced by
/// `query`; `None` where `base` is no valid URL.
pub uninterp spec fn url_with_query(base: Seq<char>, query: Seq<char>) -> Option<Seq<char>>;

/// The last segment of the path of the URL that `s` denotes; `None` where `s` is
/// no valid URL or its URL has no path segments.
pub uninterp spec fn url_last_segment(s: Seq<char>) -> Option<Seq<char>>;

/// The `application/x-www-form-urlencoded` encoding of a list of fields, in their
/// order.
pub uninterp spec fn form_encoded(pairs: Seq<(Seq<char>, Seq<char>)>) -> Seq<char>;

/// The fields, in order, that an `application/x-www-form-urlencoded` text decodes
/// to; `None` where the decoder refuses it.
pub uninterp spec fn form_decoded(query: Seq<char>) -> Option<Seq<(Seq<char>, Seq<char>)>>;

/// Whether `uri` parses as an HTTP request target.
pub uninterp spec fn uri_ok(uri: Seq<char>) -> bool;

/// The status code of a response.
pub uninterp spec fn response_status(r: http::Response<()>) -> u16;

/// The value, as text, of the first header of a response whose name is `name`
/// (names compared without regard to case).
pub uninterp spec fn response_header(r: http::Response<()>, name: Seq<char>) -> Option<Seq<char>>;

/// The method of a request, as text.
pub uninterp spec fn request_method(r: http::Request<Vec<u8>>) -> Seq<char>;

/// The target URI of a request, serialised.
pub uninterp spec fn request_uri(r: http::Request<Vec<u8>>) -> Seq<char>;

/// The value, as text, of the first header of a request whose name is `name`
/// (names compared without regard to case).
pub uninterp spec fn request_header(r: http::Request<Vec<u8>>, name: Seq<char>) -> Option<
    Seq<char>,
>;

/// The body of a request, read as UTF-8 text.
pub uninterp spec fn request_body_text(r: http::Request<Vec<u8>>) -> Seq<char>;

/// Whether `c` may stand in form-encoded text: a letter, a digit, one of `*-._`
/// left as is, `+` for a space, `%` of a percent-encoded byte, or the separators
/// `=` and `&`.
pub open spec fn is_form_char(c: char) -> bool {
    ('a' <= c && c <= 'z') || ('A' <= c && c <= 'Z') || ('0' <= c && c <= '9') || c == '*' || c
        == '-' || c == '.' || c == '_' || c == '+' || c == '%' || c == '=' || c == '&'
}

/// Whether `t` is made of characters of form-encoded text only.
pub open spec fn form_text(t: Seq<char>) -> bool {
    forall|i: int| 0 <= i < t.len() ==> is_form_char(#[trigger] t[i])
}

/// Whether `c` is a character that may stand in an HTTP header name: a letter, a
/// digit, or one of ``!#$%&'*+-.^_`|~``.
pub open spec fn is_token_char(c: char) -> bool {
    ('a' <= c && c <= 'z') || ('A' <= c && c <= 'Z') || ('0' <= c && c <= '9') || c == '!' || c
        == '#' || c == '$' || c == '%' || c == '&' || c == '\'' || c == '*' || c == '+' || c
        == '-' || c == '.' || c == '^' || c == '_' || c == '`' || c == '|' || c == '~'
}

/// Whether `name` is a valid HTTP header name: one to 65535 token characters.
pub open spec fn header_name_ok(name: Seq<char>) -> bool {
    0 < name.len() <= 65535 && forall|i: int| 0 <= i < name.len() ==> is_token_char(#[trigger] name[i])
}

/// Whether `value` is a valid HTTP header value: no control character but the
/// tab. Characters beyond ASCII are encoded in bytes of 128 and more, all valid.
pub open spec fn header_value_ok(value: Seq<char>) -> bool {
    forall|i: int|
        0 <= i < value.len() ==> #[trigger] value[i] == '\t' || (value[i] as u32 >= 32
            && value[i] as u32 != 127)
}

/// Whether a header of this name and value is valid.
pub open spec fn header_ok(name: Seq<char>, value: Seq<char>) -> bool {
    header_name_ok(name) && header_value_ok(value)
}

/// Whether a request to `uri` with a header of this name and value can be built.
pub open spec fn request_builds(uri: Seq<char>, name: Seq<char>, value: Seq<char>) -> bool {
    uri_ok(uri) && header_ok(name, value)
}

/// Whether `s` holds only printable ASCII characters and spaces.
pub open spec fn printable_ascii(s: Seq<char>) -> bool {
    forall|i: int| 0 <= i < s.len() ==> 32 <= #[trigger] s[i] as u32 && s[i] as u32 <= 126
}

/// Relies on url's `Url::parse` and `Url::join`: parses `site`, resolves `path`
/// against it and serialises the result, which depends on the two strings alone.
#[verifier::external_body]
pub(crate) fn join_url(site: &str, path: &str) -> (r: Result<String, url::ParseError>)
    ensures
        r is Ok <==> joined_url(site@, path@) is Some,
        r matches Ok(u) ==> joined_url(site@, path@) == Some(u@),
{
    match url::Url::parse(site) {
        Ok(base) => base.join(path).map(String::from),
        Err(e) => Err(e),
    }
}

/// Relies on url's `Url::parse` and `Url::set_query`: parses `base`, sets its
/// query to `query` and serialises the result, which depends on the two strings
/// alone. The serialisation is percent-encoded ASCII: the parser drops tabs and
/// line breaks and percent-encodes other control characters, DEL and all that is
/// not ASCII. The login endpoint parses, and serialises as written; a query of
/// form-encoded text holds nothing that the query is encoded for, so it is
/// appended after a `?` as it is.
#[verifier::external_body]
pub(crate) fn set_url_query(base: &str, query: &str) -> (r: Result<String, url::ParseError>)
    ensures
        r is Ok <==> url_with_query(base@, query@) is Some,
        r matches Ok(u) ==> url_with_query(base@, query@) == Some(u@),
        r matches Ok(u) ==> printable_ascii(u@),
        base@ == STEAM_URL@ ==> r is Ok,
        r matches Ok(u) ==> (base@ == STEAM_URL@ && form_text(query@) ==> u@ == base@ + seq!['?']
            + query@),
{
    let mut url = url::Url::parse(base)?;
    url.set_query(Some(query));
    Ok(String::from(url))
}

/// Relies on url's `Url::parse` and `Url::path_segments`: the last segment of the
/// path of the URL that `s` denotes, which depends on `s` alone.
#[verifier::external_body]
pub(crate) fn last_path_segment(s: &str) -> (r: Option<String>)
    ensures
        r is Some <==> url_last_segment(s@) is Some,
        r matches Some(t) ==> url_last_segment(s@) == Some(t@),
{
    let url = url::Url::parse(s).ok()?;
    let mut segments = url.path_segments()?;
    segments.next_back().map(String::from)
}

/// Relies on `serde_urlencoded::to_string`: form-encodes a list of fields, which
/// depends on the fields alone. Pairs of strings are always accepted, and
/// `serde_urlencoded::from_str` reads the text back into the same pairs: names
/// and values are percent-encoded byte for byte, with `+` for a space.
#[verifier::external_body]
pub(crate) fn encode_form(pairs: &Vec<(String, String)>) -> (r: Result<
    String,
    serde_urlencoded::ser::Error,
>)
    ensures
        r is Ok,
        r matches Ok(t) ==> t@ == form_encoded(pairs_view(pairs@)),
        r matches Ok(t) ==> form_decoded(t@) == Some(pairs_view(pairs@)),
        r matches Ok(t) ==> form_text(t@),
{
    serde_urlencoded::to_string(pairs)
}

/// Relies on `serde_urlencoded::from_str`: decodes a form-encoded text into its
/// list of fields, which depends on the text alone.
#[verifier::external_body]
pub(crate) fn decode_form(query: &str) -> (r: Result<
    Vec<(String, String)>,
    serde_urlencoded::de::Error,
>)
    ensures
        r is Ok <==> form_decoded(query@) is Some,
        r matches Ok(v) ==> form_decoded(query@) == Some(pairs_view(v@)),
{
    serde_urlencoded::from_str(query)
}

/// Relies on serde's `de::Error::missing_field`: the decoding error that reports
/// an absent required field.
#[verifier::external_body]
pub(crate) fn missing_field_error(field: &'static str) -> serde_urlencoded::de::Error {
    <serde_urlencoded::de::Error as serde::de::Error>::missing_field(field)
}

/// Relies on serde's `de::Error::duplicate_field`: the decoding error that
/// reports a field given twice.
#[verifier::external_body]
pub(crate) fn duplicate_field_error(field: &'static str) -> serde_urlencoded::de::Error {
    <serde_urlencoded::de::Error as serde::de::Error>::duplicate_field(field)
}

/// Relies on http's `request::Builder`: a POST request to `uri` with one header
/// and the given body. It is built exactly when `uri` parses and the header's
/// name and value are valid. The login endpoint parses, and serialises as
/// written.
#[verifier::external_body]
pub(crate) fn post_request(uri: &str, header: &str, value: &str, body: &str) -> (r: Result<
    http::Request<Vec<u8>>,
    http::Error,
>)
    ensures
        r is Ok <==> request_builds(uri@, header@, value@),
        r is Ok ==> uri_ok(uri@),
        uri@ == STEAM_URL@ && header_ok(header@, value@) ==> r is Ok,
        r matches Ok(q) ==> request_method(q) == seq!['P', 'O', 'S', 'T'],
        r matches Ok(q) ==> request_header(q, header@) == Some(value@),
        r matches Ok(q) ==> request_body_text(q) == body@,
        r matches Ok(q) ==> (uri@ == STEAM_URL@ ==> request_uri(q) == uri@),
{
    let bytes = body.as_bytes().to_vec();
    http::Request::builder().method(http::Method::POST).uri(uri).header(header, value).body(bytes)
}

/// Relies on http's `response::Builder`: an empty `302 Found` response with one
/// header. It is built exactly when the header's name and value are valid.
#[verifier::external_body]
pub(crate) fn found_response(header: &str, value: &str) -> (r: Result<
    http::Response<()>,
    http::Error,
>)
    ensures
        r is Ok <==> header_ok(header@, value@),
        r matches Ok(p) ==> response_status(p) == 302,
        r matches Ok(p) ==> response_header(p, header@) == Some(value@),
{
    http::Response::builder().status(http::StatusCode::FOUND).header(header, value).body(())
}

} // verus!
