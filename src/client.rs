use vstd::prelude::*;
use vstd::string::StringExecFns;

use crate::error::RealDebridError;
use crate::model::{AddMagnetResponse, ErrorResponse};

verus! {

/// Base of the provider's versioned REST API.
pub const API_BASE_URL: &'static str = "https://api.real-debrid.com/rest/1.0";

/// Base of the provider's OAuth2 endpoints.
pub const OAUTH_BASE_URL: &'static str = "https://api.real-debrid.com/oauth/v2";

/// The grant type of the device-code token exchange.
pub const DEVICE_GRANT_TYPE: &'static str = "http://oauth.net/grant_type/device/1.0";

/// The file selection that takes every file of a torrent.
pub const SELECT_ALL: &'static str = "all";

/// Prefix of the message made up when a provider error body cannot be decoded.
pub const UNKNOWN_API_ERROR: &'static str = "Unknown API error: ";

/// The body decoded in place of an empty success body.
pub const EMPTY_OBJECT: &'static str = "{}";

#[derive(Debug, Clone, Copy, PartialEq, Eq, Structural)]
pub enum Method {
    Get,
    Post,
}

/// One call to the provider, ready to be sent: the form is sent
/// form-encoded, and `bearer` goes in an `Authorization: Bearer` header.
#[derive(Debug, Clone)]
pub struct ApiRequest {
    pub method: Method,
    pub url: String,
    pub bearer: Option<String>,
    pub form: Vec<(String, String)>,
}

/// A request as plain values.
pub struct RequestView {
    pub method: Method,
    pub url: Seq<char>,
    pub bearer: Option<Seq<char>>,
    pub form: Seq<(Seq<char>, Seq<char>)>,
}

pub open spec fn opt_view(o: Option<String>) -> Option<Seq<char>> {
    match o {
        Some(s) => Some(s@),
        None => None,
    }
}

pub open spec fn pair_view(p: (String, String)) -> (Seq<char>, Seq<char>) {
    (p.0@, p.1@)
}

impl View for ApiRequest {
    type V = RequestView;

    open spec fn view(&self) -> RequestView {
        RequestView {
            method: self.method,
            url: self.url@,
            bearer: opt_view(self.bearer),
            form: self.form@.map_values(|p: (String, String)| pair_view(p)),
        }
    }
}

/// `a` followed by `b`, as a new string.
fn join(a: &str, b: &str) -> (r: String)
    ensures
        r@ == a@ + b@,
{
    let mut s = a.to_owned();
    s.append(b);
    s
}

fn field(name: &str, value: &str) -> (r: (String, String))
    ensures
        pair_view(r) == (name@, value@),
{
    (name.to_owned(), value.to_owned())
}

/// The request that asks for a device code for `client_id`.
pub fn device_code_request(client_id: &str) -> (r: ApiRequest)
    ensures
        r@.method == Method::Get,
        r@.url == OAUTH_BASE_URL@ + "/device/code?client_id="@ + client_id@,
        r@.bearer is None,
        r@.form.len() == 0,
{
    let mut url = join(OAUTH_BASE_URL, "/device/code?client_id=");
    url.append(client_id);
    let r = ApiRequest { method: Method::Get, url, bearer: None, form: Vec::new() };
    assert(r@.form =~= Seq::empty());
    r
}

/// The request that exchanges an approved device code for tokens.
pub fn token_request(client_id: &str, device_code: &str) -> (r: ApiRequest)
    ensures
        r@.method == Method::Post,
        r@.url == OAUTH_BASE_URL@ + "/token"@,
        r@.bearer is None,
        r@.form == seq![
            ("client_id"@, client_id@),
            ("code"@, device_code@),
            ("grant_type"@, DEVICE_GRANT_TYPE@),
        ],
{
    let mut form: Vec<(String, String)> = Vec::new();
    form.push(field("client_id", client_id));
    form.push(field("code", device_code));
    form.push(field("grant_type", DEVICE_GRANT_TYPE));
    let r = ApiRequest { method: Method::Post, url: join(OAUTH_BASE_URL, "/token"), bearer: None, form };
    assert(r@.form =~= seq![
        ("client_id"@, client_id@),
        ("code"@, device_code@),
        ("grant_type"@, DEVICE_GRANT_TYPE@),
    ]);
    r
}

/// An authenticated request on the REST API; `path` follows the base URL.
fn authorized(method: Method, path: String, access_token: &str, form: Vec<(String, String)>) -> (r: ApiRequest)
    ensures
        r@.method == method,
        r@.url == API_BASE_URL@ + path@,
        r@.bearer == Some(access_token@),
        r.form@ == form@,
{
    ApiRequest { method, url: join(API_BASE_URL, path.as_str()), bearer: Some(access_token.to_owned()), form }
}

fn one_field(name: &str, value: &str) -> (r: Vec<(String, String)>)
    ensures
        r@.map_values(|p: (String, String)| pair_view(p)) == seq![(name@, value@)],
{
    let mut form: Vec<(String, String)> = Vec::new();
    form.push(field(name, value));
    assert(form@.map_values(|p: (String, String)| pair_view(p)) =~= seq![(name@, value@)]);
    form
}

/// The request that adds a magnet link to the account.
pub fn add_magnet_request(magnet_link: &str, access_token: &str) -> (r: ApiRequest)
    ensures
        r@.method == Method::Post,
        r@.url == API_BASE_URL@ + "/torrents/addMagnet"@,
        r@.bearer == Some(access_token@),
        r@.form == seq![("magnet"@, magnet_link@)],
{
    authorized(Method::Post, "/torrents/addMagnet".to_owned(), access_token, one_field("magnet", magnet_link))
}

/// The request that reads what the provider knows of a torrent.
pub fn torrent_info_request(torrent_id: &str, access_token: &str) -> (r: ApiRequest)
    ensures
        r@.method == Method::Get,
        r@.url == API_BASE_URL@ + "/torrents/info/"@ + torrent_id@,
        r@.bearer == Some(access_token@),
        r@.form.len() == 0,
{
    let r = authorized(Method::Get, join("/torrents/info/", torrent_id), access_token, Vec::new());
    assert(API_BASE_URL@ + ("/torrents/info/"@ + torrent_id@) =~= API_BASE_URL@ + "/torrents/info/"@ + torrent_id@);
    r
}

/// The request that selects which files of a torrent to download: `files`
/// is `"all"` or a comma-separated list of file ids.
pub fn select_files_request(torrent_id: &str, files: &str, access_token: &str) -> (r: ApiRequest)
    ensures
        r@.method == Method::Post,
        r@.url == API_BASE_URL@ + "/torrents/selectFiles/"@ + torrent_id@,
        r@.bearer == Some(access_token@),
        r@.form == seq![("files"@, files@)],
{
    let r = authorized(Method::Post, join("/torrents/selectFiles/", torrent_id), access_token, one_field("files", files));
    assert(API_BASE_URL@ + ("/torrents/selectFiles/"@ + torrent_id@) =~= API_BASE_URL@ + "/torrents/selectFiles/"@ + torrent_id@);
    r
}

/// The request that follows adding a magnet: select every file of the
/// torrent just added, so that its download starts.
pub fn select_all_request(added: &AddMagnetResponse, access_token: &str) -> (r: ApiRequest)
    ensures
        r@.method == Method::Post,
        r@.url == API_BASE_URL@ + "/torrents/selectFiles/"@ + added.id@,
        r@.bearer == Some(access_token@),
        r@.form == seq![("files"@, SELECT_ALL@)],
{
    select_files_request(added.id.as_str(), SELECT_ALL, access_token)
}

/// The request that turns a hosted link into a direct download link.
pub fn unrestrict_link_request(link: &str, access_token: &str) -> (r: ApiRequest)
    ensures
        r@.method == Method::Post,
        r@.url == API_BASE_URL@ + "/unrestrict/link"@,
        r@.bearer == Some(access_token@),
        r@.form == seq![("link"@, link@)],
{
    authorized(Method::Post, "/unrestrict/link".to_owned(), access_token, one_field("link", link))
}

/// How a response is to be read.
#[derive(Debug, Clone)]
pub enum Reply {
    /// A success: decode this text as the expected type.
    Decode(String),
    /// A failure: decode the body as an `ErrorResponse`.
    Failure,
}

pub open spec fn is_success_status(status: u16) -> bool {
    status == 200 || status == 201 || status == 204
}

/// The text decoded for a success body: an empty body counts as an empty object.
pub open spec fn success_body(text: Seq<char>) -> Seq<char> {
    if text.len() == 0 {
        EMPTY_OBJECT@
    } else {
        text
    }
}

/// Sorts a response by its HTTP status, the same way for every call.
pub fn classify_response(status: u16, text: &str) -> (r: Reply)
    ensures
        is_success_status(status) ==> (r matches Reply::Decode(b) && b@ == success_body(text@)),
        !is_success_status(status) ==> r is Failure,
{
    if status == 200 || status == 201 || status == 204 {
        if text.is_empty() {
            proof {
                reveal_strlit("");
            }
            Reply::Decode(EMPTY_OBJECT.to_owned())
        } else {
            Reply::Decode(text.to_owned())
        }
    } else {
        Reply::Failure
    }
}

/// The error for a failed response whose body is `text`; `decoded` is that
/// body read as an `ErrorResponse`, if it could be.
pub fn api_error(text: &str, decoded: Option<ErrorResponse>) -> (r: RealDebridError)
    ensures
        match decoded {
            Some(e) => r matches RealDebridError::Api { message, code }
                && message@ == e.error@ && code == e.error_code,
            None => r matches RealDebridError::Api { message, code }
                && message@ == UNKNOWN_API_ERROR@ + text@ && code == 0,
        },
{
    match decoded {
        Some(e) => RealDebridError::Api { message: e.error, code: e.error_code },
        None => RealDebridError::Api { message: join(UNKNOWN_API_ERROR, text), code: 0 },
    }
}

} // verus!
