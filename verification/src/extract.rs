//! What the request extractors decide: whether a body is a JSON:API
//! document, and how refused bodies, headers and tokens are answered.
use vstd::prelude::*;
use crate::jsonapi::SerializableError;
use crate::text::{copy_string, opt_view, to_owned_string};

verus! {

/// A JSON:API request or response body.
pub struct Json<T>(pub T);

/// A typed request header.
pub struct TypedHeader<T>(pub T);

/// Values taken from the request path.
pub struct Path<T>(pub T);

/// What a token is for: access, or getting a new access token.
#[derive(PartialEq, Eq, Structural, Clone, Copy, Debug)]
pub enum ClaimsSubject {
    Token,
    Refresh,
}

/// What a token claims: whose it is, until when it holds (seconds since the
/// Unix epoch) and what it is for.
pub struct Claims {
    pub username: String,
    pub exp: usize,
    pub sub: ClaimsSubject,
}

/// The type, subtype and suffix of a media type as the `mime` crate reads
/// `text`, or `None` when it does not parse.
pub uninterp spec fn mime_parts_of(text: Seq<char>) -> Option<(Seq<char>, Seq<char>, Option<Seq<char>>)>;

/// `str::parse::<mime::Mime>` followed by `type_`, `subtype` and `suffix`:
/// the three names as the crate gives them, or `None` when the text is not a
/// media type. Its result is named `mime_parts_of`.
#[verifier::external_body]
pub(crate) fn mime_parts(text: &str) -> (r: Option<(String, String, Option<String>)>)
    ensures
        match r {
            Some(p) => mime_parts_of(text@) == Some((p.0@, p.1@, opt_view(p.2))),
            None => mime_parts_of(text@) is None,
        },
{
    match text.parse::<mime::Mime>() {
        Ok(m) => Some((
            m.type_().as_str().to_string(),
            m.subtype().as_str().to_string(),
            m.suffix().map(|s| s.as_str().to_string()),
        )),
        Err(_) => None,
    }
}

/// The code of the character with ASCII upper-case letters made
/// lower-case.
pub open spec fn ascii_lower(c: char) -> int {
    if 'A' <= c <= 'Z' {
        (c as int) + 32
    } else {
        c as int
    }
}

/// Whether two texts are equal when ASCII letters are compared without
/// regard to case, as media type names are compared.
pub open spec fn eq_ignore_ascii_case(a: Seq<char>, b: Seq<char>) -> bool {
    a.len() == b.len() && forall|i: int| 0 <= i < a.len() ==> ascii_lower(#[trigger] a[i]) == ascii_lower(b[i])
}

fn lower(c: char) -> (r: u32)
    ensures
        r as int == ascii_lower(c),
{
    if 'A' <= c && c <= 'Z' {
        (c as u32) + 32
    } else {
        c as u32
    }
}

/// Whether two texts are equal when ASCII letters are compared without
/// regard to case.
pub fn names_equal(a: &str, b: &str) -> (r: bool)
    ensures
        r == eq_ignore_ascii_case(a@, b@),
{
    let n = a.unicode_len();
    if n != b.unicode_len() {
        return false;
    }
    let mut i: usize = 0;
    while i < n
        invariant
            n == a@.len(),
            n == b@.len(),
            i <= n,
            forall|j: int| 0 <= j < i ==> ascii_lower(#[trigger] a@[j]) == ascii_lower(b@[j]),
        decreases n - i,
    {
        if lower(a.get_char(i)) != lower(b.get_char(i)) {
            return false;
        }
        i = i + 1;
    }
    true
}

/// Whether a content type names a JSON:API document: media type
/// `application/vnd.api` with the suffix `json`.
pub open spec fn is_jsonapi_content_type(content_type: Option<Seq<char>>) -> bool {
    match content_type {
        Some(text) => match mime_parts_of(text) {
            Some(parts) => eq_ignore_ascii_case(parts.0, "application"@) && eq_ignore_ascii_case(parts.1, "vnd.api"@)
                && match parts.2 {
                Some(suffix) => eq_ignore_ascii_case(suffix, "json"@),
                None => false,
            },
            None => false,
        },
        None => false,
    }
}

/// Whether the content type of a request names a JSON:API document; a
/// missing or unreadable header does not.
pub fn jsonapi_content_type(content_type: Option<&str>) -> (r: bool)
    ensures
        r == is_jsonapi_content_type(match content_type {
            Some(t) => Some(t@),
            None => None,
        }),
{
    match content_type {
        None => false,
        Some(text) => match mime_parts(text) {
            None => false,
            Some((media_type, subtype, suffix)) => {
                names_equal(media_type.as_str(), "application") && names_equal(subtype.as_str(), "vnd.api")
                    && match suffix {
                    Some(s) => names_equal(s.as_str(), "json"),
                    None => false,
                }
            },
        },
    }
}

/// Why a request body was refused.
pub enum JsonError {
    Mime,
    BodyRead(String),
    Data(String),
    Syntax(String),
    Io,
}

impl JsonError {
    /// The HTTP status a refused body is answered with: bad request for a
    /// wrong media type or malformed JSON, an internal error otherwise.
    pub fn status(&self) -> (r: u16)
        ensures
            r == match self {
                JsonError::Io | JsonError::BodyRead(_) => 500u16,
                _ => 400u16,
            },
    {
        match self {
            JsonError::Io | JsonError::BodyRead(_) => 500,
            JsonError::Mime | JsonError::Syntax(_) | JsonError::Data(_) => 400,
        }
    }

    /// The message of the error.
    pub fn message(&self) -> (r: String)
        ensures
            r@ == match self {
                JsonError::Mime => "Invalid mime type, expected application/vnd.api+json"@,
                JsonError::BodyRead(m) => "Could not read body bytes: "@ + m@,
                JsonError::Data(m) => "Invalid JSON structure: "@ + m@,
                JsonError::Syntax(m) => "Invalid JSON syntax: "@ + m@,
                JsonError::Io => "IO error"@,
            },
    {
        match self {
            JsonError::Mime => to_owned_string("Invalid mime type, expected application/vnd.api+json"),
            JsonError::BodyRead(m) => {
                let mut s = to_owned_string("Could not read body bytes: ");
                s.append(m.as_str());
                s
            },
            JsonError::Data(m) => {
                let mut s = to_owned_string("Invalid JSON structure: ");
                s.append(m.as_str());
                s
            },
            JsonError::Syntax(m) => {
                let mut s = to_owned_string("Invalid JSON syntax: ");
                s.append(m.as_str());
                s
            },
            JsonError::Io => to_owned_string("IO error"),
        }
    }

    /// The error as it is sent to the client.
    pub fn to_serializable(&self) -> (r: SerializableError)
        ensures
            r.status == self.status_spec(),
            r.title@ == "Could not parse JSON request body"@,
            r.detail is Some,
    {
        SerializableError {
            status: self.status(),
            title: to_owned_string("Could not parse JSON request body"),
            detail: Some(self.message()),
        }
    }

    /// The HTTP status a refused body is answered with.
    pub open spec fn status_spec(&self) -> u16 {
        match self {
            JsonError::Io | JsonError::BodyRead(_) => 500u16,
            _ => 400u16,
        }
    }
}

/// Why the claims of a request could not be read.
pub enum ClaimsError {
    Settings(String),
    Missing,
    Unauthorized(String),
}

impl ClaimsError {
    /// The error as it is sent to the client: an internal error when the
    /// settings could not be read, unauthorized otherwise.
    pub fn to_serializable(&self) -> (r: SerializableError)
        ensures
            r.status == match self {
                ClaimsError::Settings(_) => 500u16,
                _ => 401u16,
            },
            r.title@ == match self {
                ClaimsError::Settings(_) => "Could not get the settings"@,
                ClaimsError::Missing => "Missing Authorization header"@,
                ClaimsError::Unauthorized(_) => "Invalid authentication token"@,
            },
            opt_view(r.detail) == match self {
                ClaimsError::Settings(m) => Some(m@),
                ClaimsError::Missing => Some("No Authorization header or query parameter found"@),
                ClaimsError::Unauthorized(m) => Some(m@),
            },
    {
        match self {
            ClaimsError::Settings(m) => SerializableError {
                status: 500,
                title: to_owned_string("Could not get the settings"),
                detail: Some(copy_string(m)),
            },
            ClaimsError::Missing => SerializableError {
                status: 401,
                title: to_owned_string("Missing Authorization header"),
                detail: Some(to_owned_string("No Authorization header or query parameter found")),
            },
            ClaimsError::Unauthorized(m) => SerializableError {
                status: 401,
                title: to_owned_string("Invalid authentication token"),
                detail: Some(copy_string(m)),
            },
        }
    }
}

} // verus!
