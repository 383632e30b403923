//! The authenticated session: credentials, the transport client that
//! carries them, the addresses of the service's resources and the
//! classification of its answers.

use vstd::prelude::*;
use vstd::string::*;
use base64::Engine;
use reqwest::header::{HeaderMap, HeaderValue, InvalidHeaderValue, AUTHORIZATION};
use reqwest::{Client, ClientBuilder};
use crate::text::{decimal, strip_page, strip_page_segments, to_decimal};

verus! {

#[verifier::external_type_specification]
#[verifier::external_body]
pub struct ExClient(Client);

#[verifier::external_type_specification]
#[verifier::external_body]
pub struct ExClientBuilder(ClientBuilder);

#[verifier::external_type_specification]
#[verifier::external_body]
pub struct ExReqwestError(reqwest::Error);

#[verifier::external_type_specification]
#[verifier::external_body]
pub struct ExHeaderValue(HeaderValue);

#[verifier::external_type_specification]
#[verifier::external_body]
pub struct ExInvalidHeaderValue(InvalidHeaderValue);

#[verifier::external_type_specification]
#[verifier::external_body]
#[verifier::reject_recursive_types(T)]
pub struct ExHeaderMap<T>(HeaderMap<T>);

/// The standard base64 encoding, with padding, of the UTF-8 bytes of `s`.
pub uninterp spec fn base64_standard(s: Seq<char>) -> Seq<char>;

/// A character of the standard base64 alphabet or its padding.
pub open spec fn is_base64_char(c: char) -> bool {
    ('A' <= c && c <= 'Z') || ('a' <= c && c <= 'z') || ('0' <= c && c <= '9') || c == '+' || c
        == '/' || c == '='
}

/// Relies on `base64::engine::general_purpose::STANDARD.encode`: the padded
/// standard encoding of the string's bytes, written with the alphabet
/// `A-Z a-z 0-9 + /` and the pad `=`.
#[verifier::external_body]
fn encode_base64(s: &str) -> (r: String)
    ensures
        r@ == base64_standard(s@),
        forall|i: int| 0 <= i < r@.len() ==> is_base64_char(#[trigger] r@[i]),
{
    base64::engine::general_purpose::STANDARD.encode(s)
}

/// A character whose UTF-8 bytes may all stand in a header value: a tab,
/// or anything from the space up but the DEL control.
pub open spec fn is_header_char(c: char) -> bool {
    c == '\t' || (' ' <= c && c != '\u{7f}')
}

/// Relies on `HeaderValue::from_str`, which accepts a string exactly when
/// each of its bytes is a tab or at least 32 and not 127.
pub assume_specification[ HeaderValue::from_str ](src: &str) -> (r: Result<
    HeaderValue,
    InvalidHeaderValue,
>)
    ensures
        r is Ok <==> forall|i: int| 0 <= i < src@.len() ==> is_header_char(#[trigger] src@[i]),
;

/// Relies on `HeaderMap`'s `FromIterator`: a header map that holds `value`
/// under `Authorization`.
#[verifier::external_body]
fn authorization_headers(value: HeaderValue) -> HeaderMap {
    HeaderMap::from_iter([(AUTHORIZATION, value)])
}

/// Relies on `reqwest::Client::builder`: a builder with the default settings.
pub assume_specification[ Client::builder ]() -> ClientBuilder;

/// Relies on `ClientBuilder::default_headers`: the builder, now adding
/// `headers` to every request.
pub assume_specification[ ClientBuilder::default_headers ](
    builder: ClientBuilder,
    headers: HeaderMap,
) -> ClientBuilder;

/// Relies on `ClientBuilder::build`: the client, or the error of a
/// transport that could not be set up.
pub assume_specification[ ClientBuilder::build ](builder: ClientBuilder) -> Result<
    Client,
    reqwest::Error,
>;

/// Why an operation on the service failed.
#[derive(Clone, Debug)]
pub enum ApiError {
    /// No answer came: the connection or the transport failed.
    Transport(String),
    /// The service answered with a client or server error status; `body`
    /// is the text it sent.
    Remote { status: u16, body: String },
    /// The service answered with success, but its body does not have the
    /// expected shape.
    Decode(String),
}

/// The value of the `Authorization` header for a user and an API key.
pub open spec fn basic_auth(username: Seq<char>, api_key: Seq<char>) -> Seq<char> {
    "Basic "@ + base64_standard(username + ":"@ + api_key)
}

/// A status that reports a client error (4xx) or a server error (5xx).
pub open spec fn is_error_status(status: u16) -> bool {
    400 <= status && status < 600
}

/// The fields that every read and write asks the service to expand.
pub const EXPAND_FIELDS: &'static str = "body.view,space,children.page,version";

/// The space type that the space listing asks for.
pub const SPACE_TYPE: &'static str = "global";

/// The `Authorization` header value for credentials already encoded:
/// `Basic ` followed by `encoded`.
pub fn basic_header_value(encoded: &str) -> (r: String)
    ensures
        r@ == "Basic "@ + encoded@,
{
    let mut header = String::from_str("Basic ");
    header.append(encoded);
    header
}

/// The `Authorization` header value for `username` and `api_key`: `Basic `
/// followed by the base64 encoding of `username:api_key`.
pub fn basic_auth_header(username: &str, api_key: &str) -> (r: String)
    ensures
        r@ == basic_auth(username@, api_key@),
        forall|i: int| 0 <= i < r@.len() ==> is_header_char(#[trigger] r@[i]),
{
    let mut pair = String::from_str(username);
    pair.append(":");
    pair.append(api_key);
    let encoded = encode_base64(pair.as_str());
    let header = basic_header_value(encoded.as_str());
    proof {
        reveal_strlit("Basic ");
        assert forall|i: int| 0 <= i < header@.len() implies is_header_char(
            #[trigger] header@[i],
        ) by {
            if i >= 6 {
                assert(header@[i] == encoded@[i - 6]);
                assert(is_base64_char(encoded@[i - 6]));
            }
        }
    }
    header
}

/// Classifies an answer of the service by its status: a client or server
/// error becomes `ApiError::Remote` with the text of the answer, anything
/// else hands the text on.
pub fn check_status(status: u16, body: String) -> (r: Result<String, ApiError>)
    ensures
        is_error_status(status) ==> r == Err::<String, ApiError>(ApiError::Remote { status, body }),
        !is_error_status(status) ==> r == Ok::<String, ApiError>(body),
{
    if 400 <= status && status < 600 {
        Err(ApiError::Remote { status, body })
    } else {
        Ok(body)
    }
}

/// A session with the service: its base address and a client that sends
/// the credentials with every request. Nothing in it changes once built.
pub struct Session {
    base_url: String,
    auth_header: String,
    client: Client,
}

impl Session {
    /// The base address of the service, without a trailing path.
    pub closed spec fn base(&self) -> Seq<char> {
        self.base_url@
    }

    /// The `Authorization` header value that every request carries.
    pub closed spec fn authorization(&self) -> Seq<char> {
        self.auth_header@
    }

    /// A session for `username` with `api_key` on the service at
    /// `base_url`. It fails only where the transport cannot be set up.
    pub fn new(username: String, api_key: String, base_url: String) -> (r: Result<
        Session,
        ApiError,
    >)
        ensures
            r matches Ok(s) ==> s.base() == base_url@ && s.authorization() == basic_auth(
                username@,
                api_key@,
            ),
            r matches Err(e) ==> e is Transport,
    {
        let auth_header = basic_auth_header(username.as_str(), api_key.as_str());
        let value = HeaderValue::from_str(auth_header.as_str());
        match value {
            Ok(value) => match Client::builder().default_headers(authorization_headers(value)).build() {
                Ok(client) => Ok(Session { base_url, auth_header, client }),
                Err(_) => Err(ApiError::Transport(String::from_str("the HTTP client could not be set up"))),
            },
            Err(_) => {
                proof {
                    assert(false);
                }
                Err(ApiError::Transport(String::from_str("the authorization header is not valid")))
            },
        }
    }

    /// The base address of the service.
    pub fn base_url(&self) -> (r: &String)
        ensures
            r@ == self.base(),
    {
        &self.base_url
    }

    /// The `Authorization` header value that every request carries.
    pub fn auth_header(&self) -> (r: &String)
        ensures
            r@ == self.authorization(),
    {
        &self.auth_header
    }

    /// The client that sends the requests of this session.
    pub fn client(&self) -> &Client {
        &self.client
    }

    /// The address of page `id`: `{base}/rest/api/content/{id}`.
    pub fn page_url(&self, id: u64) -> (r: String)
        ensures
            r@ == self.base() + "/rest/api/content/"@ + decimal(id as nat),
    {
        let mut url = self.base_url.clone();
        url.append("/rest/api/content/");
        let id_text = to_decimal(id);
        url.append(id_text.as_str());
        url
    }

    /// The address that new pages are posted to: `{base}/rest/api/content`.
    pub fn content_url(&self) -> (r: String)
        ensures
            r@ == self.base() + "/rest/api/content"@,
    {
        let mut url = self.base_url.clone();
        url.append("/rest/api/content");
        url
    }

    /// The address of the space listing: `{base}/rest/api/space`.
    pub fn spaces_url(&self) -> (r: String)
        ensures
            r@ == self.base() + "/rest/api/space"@,
    {
        let mut url = self.base_url.clone();
        url.append("/rest/api/space");
        url
    }

    /// The address of the first batch of a space's pages:
    /// `{base}/rest/api/space/{space_key}/content`.
    pub fn space_content_url(&self, space_key: &str) -> (r: String)
        ensures
            r@ == self.base() + "/rest/api/space/"@ + space_key@ + "/content"@,
    {
        let mut url = self.base_url.clone();
        url.append("/rest/api/space/");
        url.append(space_key);
        url.append("/content");
        url
    }

    /// The address of the batch that a continuation link points at: the
    /// link with every `/page` segment removed, after the base address.
    pub fn continuation_url(&self, link: &str) -> (r: String)
        ensures
            r@ == self.base() + strip_page(link@),
    {
        let mut url = self.base_url.clone();
        let path = strip_page_segments(link);
        url.append(path.as_str());
        url
    }
}

} // verus!
