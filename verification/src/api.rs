//! The calls to the PureGym API: what is sent, what a reply means, and how
//! the entry code becomes a picture.
//!
//! Signing in is an OAuth2 password grant; its reply carries the access token
//! with which the entry code is asked for. Every function here works on
//! values: a driver sends each [`HttpRequest`] and reports the
//! [`HttpOutcome`].

use crate::form::{form_urlencoded, urlencode};
use crate::http::{HttpOutcome, HttpOutcomeView, HttpRequest, HttpRequestView, Method, STATUS_OK};
use crate::json::{find_text, json_members, members_view, parse_members, text_member, Member};
use crate::qr::{
    encode_png, encode_symbol, png_encoding, qr_symbol, raster_of, rasterize, Symbol, SymbolView,
};
use vstd::prelude::*;

verus! {

/// One member's login for the remote service.
#[derive(Debug, Clone, PartialEq, Eq)]
pub struct LoginCredentials {
    pub email: String,
    pub password: String,
}

/// The mathematical content of [`LoginCredentials`].
pub struct LoginCredentialsView {
    pub email: Seq<char>,
    pub password: Seq<char>,
}

impl View for LoginCredentials {
    type V = LoginCredentialsView;

    open spec fn view(&self) -> LoginCredentialsView {
        LoginCredentialsView { email: self.email@, password: self.password@ }
    }
}

impl LoginCredentials {
    /// A copy with the same e-mail address and password.
    pub fn duplicate(&self) -> (r: LoginCredentials)
        ensures
            r@ == self@,
    {
        LoginCredentials { email: self.email.clone(), password: self.password.clone() }
    }
}

/// Why a payload did not become a picture.
#[derive(Debug, Clone, Copy, PartialEq, Eq, Structural)]
pub enum RenderError {
    /// The payload does not fit into any QR symbol.
    EncodingError,
    /// The picture could not be written as a PNG file.
    SerializationError,
}

/// Why a run for one member ended without a picture.
#[derive(Debug, Clone, Copy, PartialEq, Eq, Structural)]
pub enum APIError {
    /// No response arrived from the endpoint.
    RequestError,
    /// The endpoint answered, but not with the document that was asked for.
    ResponseError,
    /// The entry code could not be drawn.
    QRProcessingError(RenderError),
    /// The request could not be put together.
    InternalError,
}

impl APIError {
    /// What the error says of itself, as spec text.
    pub open spec fn spec_message(self) -> Seq<char> {
        match self {
            APIError::RequestError => "Failed to call PureGym API."@,
            APIError::ResponseError => "Failed to process response."@,
            APIError::QRProcessingError(_) => "Failed to create QR code."@,
            APIError::InternalError => "Something unexpected went wrong!"@,
        }
    }

    /// What the error says of itself.
    pub fn message(&self) -> (r: String)
        ensures
            r@ == self.spec_message(),
    {
        match self {
            APIError::RequestError => "Failed to call PureGym API.".to_owned(),
            APIError::ResponseError => "Failed to process response.".to_owned(),
            APIError::QRProcessingError(_) => "Failed to create QR code.".to_owned(),
            APIError::InternalError => "Something unexpected went wrong!".to_owned(),
        }
    }
}

/// Address of the sign-in endpoint.
pub open spec fn auth_url() -> Seq<char> {
    "https://auth.puregym.com/connect/token"@
}

/// Address of the entry-code endpoint.
pub open spec fn qr_url() -> Seq<char> {
    "https://capi.puregym.com/api/v2/member/qrcode"@
}

/// The fields of a password grant, borrowed from the credentials.
pub struct AuthRequest<'a> {
    pub grant_type: &'a str,
    pub username: &'a str,
    pub password: &'a str,
    pub scope: &'a str,
}

/// The form fields of the password grant for these credentials, in the order
/// in which they are sent.
pub open spec fn auth_fields(credentials: LoginCredentialsView) -> Seq<(Seq<char>, Seq<char>)> {
    seq![
        ("grant_type"@, "password"@),
        ("username"@, credentials.email),
        ("password"@, credentials.password),
        ("scope"@, "pgcapi offline_access"@),
    ]
}

impl<'a> AuthRequest<'a> {
    /// The password grant for these credentials, with the scope that the API
    /// asks of this client.
    pub fn from(value: &'a LoginCredentials) -> (r: AuthRequest<'a>)
        ensures
            r.grant_type@ == "password"@,
            r.username@ == value@.email,
            r.password@ == value@.password,
            r.scope@ == "pgcapi offline_access"@,
    {
        AuthRequest {
            grant_type: "password",
            username: value.email.as_str(),
            password: value.password.as_str(),
            scope: "pgcapi offline_access",
        }
    }

    /// The fields as name and value pairs, in the order of declaration.
    pub fn fields(&self) -> (r: Vec<(String, String)>)
        ensures
            r.deep_view() == seq![
                ("grant_type"@, self.grant_type@),
                ("username"@, self.username@),
                ("password"@, self.password@),
                ("scope"@, self.scope@),
            ],
    {
        let mut r: Vec<(String, String)> = Vec::new();
        r.push(("grant_type".to_owned(), self.grant_type.to_owned()));
        r.push(("username".to_owned(), self.username.to_owned()));
        r.push(("password".to_owned(), self.password.to_owned()));
        r.push(("scope".to_owned(), self.scope.to_owned()));
        assert(r.deep_view() =~= seq![
            ("grant_type"@, self.grant_type@),
            ("username"@, self.username@),
            ("password"@, self.password@),
            ("scope"@, self.scope@),
        ]);
        r
    }
}

/// The sign-in request that carries `body`.
pub open spec fn sign_in_with(body: Seq<char>) -> HttpRequestView {
    HttpRequestView {
        method: Method::Post,
        url: auth_url(),
        headers: seq![
            ("content-type"@, "application/x-www-form-urlencoded"@),
            ("authorization"@, "Basic cm8uY2xpZW50Og=="@),
        ],
        body: Some(body),
    }
}

/// The sign-in request for an encoded form body: a POST to the sign-in
/// endpoint, marked as a form, under the client's own fixed authorization.
pub fn sign_in_request(body: String) -> (r: HttpRequest)
    ensures
        r@ == sign_in_with(body@),
{
    let r = HttpRequest::new(Method::Post, "https://auth.puregym.com/connect/token").body(
        body,
    ).header("content-type", "application/x-www-form-urlencoded".to_owned()).header(
        "authorization",
        "Basic cm8uY2xpZW50Og==".to_owned(),
    );
    assert(r@.headers =~= sign_in_with(body@).headers);
    r
}

/// The request that signs these credentials in, or `InternalError` where the
/// form cannot be encoded.
pub open spec fn token_request_of(credentials: LoginCredentialsView) -> Result<
    HttpRequestView,
    APIError,
> {
    match form_urlencoded(auth_fields(credentials)) {
        Some(body) => Ok(sign_in_with(body)),
        None => Err(APIError::InternalError),
    }
}

/// Builds the request that exchanges the credentials for an access token.
pub fn token_request(credentials: &LoginCredentials) -> (r: Result<HttpRequest, APIError>)
    ensures
        match r {
            Ok(request) => token_request_of(credentials@) == Ok::<HttpRequestView, APIError>(
                request@,
            ),
            Err(e) => token_request_of(credentials@) == Err::<HttpRequestView, APIError>(e),
        },
{
    let fields = AuthRequest::from(credentials).fields();
    assert(fields.deep_view() =~= auth_fields(credentials@));
    match urlencode(&fields) {
        Ok(body) => Ok(sign_in_request(body)),
        Err(_) => Err(APIError::InternalError),
    }
}

/// The request for the entry code under this access token.
pub open spec fn qr_request_of(token: Seq<char>) -> HttpRequestView {
    HttpRequestView {
        method: Method::Get,
        url: qr_url(),
        headers: seq![("authorization"@, "Bearer "@ + token)],
        body: None,
    }
}

/// Builds the request for the entry code: a GET that presents the token as a
/// bearer.
pub fn qr_request(token: &str) -> (r: HttpRequest)
    ensures
        r@ == qr_request_of(token@),
{
    let r = HttpRequest::new(Method::Get, "https://capi.puregym.com/api/v2/member/qrcode").header(
        "authorization",
        "Bearer ".to_owned().concat(token),
    );
    assert(r@.headers =~= qr_request_of(token@).headers);
    r
}

/// The string member `field` of a parsed document, or `ResponseError` where
/// the document has no such member or the member is not a string.
pub open spec fn text_in(members: Seq<(Seq<char>, Option<Seq<char>>)>, field: Seq<char>) -> Result<
    Seq<char>,
    APIError,
> {
    match text_member(members, field) {
        Some(text) => Ok(text),
        None => Err(APIError::ResponseError),
    }
}

/// What an exchange yields for the string member `field`: `RequestError`
/// where no response arrived; `ResponseError` where the status is not 200, the
/// body is not a JSON object, or the member is missing or no string; the
/// member's text otherwise.
pub open spec fn decoded(outcome: HttpOutcomeView, field: Seq<char>) -> Result<Seq<char>, APIError> {
    match outcome {
        HttpOutcomeView::Unreachable => Err(APIError::RequestError),
        HttpOutcomeView::Response { status, body } => {
            if status != STATUS_OK {
                Err(APIError::ResponseError)
            } else {
                match json_members(body) {
                    Some(members) => text_in(members, field),
                    None => Err(APIError::ResponseError),
                }
            }
        },
    }
}

/// Reads the string member `field` out of a parsed document.
pub fn read_text(members: &Vec<Member>, field: &str) -> (r: Result<String, APIError>)
    ensures
        match r {
            Ok(text) => text_in(members_view(members@), field@) == Ok::<Seq<char>, APIError>(
                text@,
            ),
            Err(e) => text_in(members_view(members@), field@) == Err::<Seq<char>, APIError>(e),
        },
{
    match find_text(members, field) {
        Some(text) => Ok(text.clone()),
        None => Err(APIError::ResponseError),
    }
}

/// Judges an exchange and reads the string member `field` out of its body.
pub fn decode(outcome: &HttpOutcome, field: &str) -> (r: Result<String, APIError>)
    ensures
        match r {
            Ok(text) => decoded(outcome@, field@) == Ok::<Seq<char>, APIError>(text@),
            Err(e) => decoded(outcome@, field@) == Err::<Seq<char>, APIError>(e),
        },
{
    match outcome {
        HttpOutcome::Unreachable => Err(APIError::RequestError),
        HttpOutcome::Response { status, body } => {
            if *status != STATUS_OK {
                return Err(APIError::ResponseError);
            }
            match parse_members(body.as_slice()) {
                Ok(members) => read_text(&members, field),
                Err(_) => Err(APIError::ResponseError),
            }
        },
    }
}

/// The access token that the sign-in exchange yields.
pub open spec fn token_of(outcome: HttpOutcomeView) -> Result<Seq<char>, APIError> {
    decoded(outcome, "access_token"@)
}

/// The entry code that the entry-code exchange yields.
pub open spec fn qr_content_of(outcome: HttpOutcomeView) -> Result<Seq<char>, APIError> {
    decoded(outcome, "QrCode"@)
}

/// Takes the access token from the outcome of the sign-in request.
pub fn fetch_auth_token(outcome: &HttpOutcome) -> (r: Result<String, APIError>)
    ensures
        match r {
            Ok(token) => token_of(outcome@) == Ok::<Seq<char>, APIError>(token@),
            Err(e) => token_of(outcome@) == Err::<Seq<char>, APIError>(e),
        },
{
    decode(outcome, "access_token")
}

/// Takes the entry code from the outcome of the entry-code request.
pub fn fetch_qr_content(outcome: &HttpOutcome) -> (r: Result<String, APIError>)
    ensures
        match r {
            Ok(content) => qr_content_of(outcome@) == Ok::<Seq<char>, APIError>(content@),
            Err(e) => qr_content_of(outcome@) == Err::<Seq<char>, APIError>(e),
        },
{
    decode(outcome, "QrCode")
}

/// The PNG file of a symbol: `EncodingError` where the symbol is not a
/// well-formed square, `SerializationError` where the file cannot be written.
pub open spec fn picture_of(symbol: SymbolView) -> Result<Seq<u8>, APIError> {
    if !symbol.wf() {
        Err(APIError::QRProcessingError(RenderError::EncodingError))
    } else {
        let raster = raster_of(symbol);
        match png_encoding(raster.width, raster.height, raster.pixels) {
            Some(bytes) => Ok(bytes),
            None => Err(APIError::QRProcessingError(RenderError::SerializationError)),
        }
    }
}

/// The PNG file for a payload: `EncodingError` where no QR symbol holds the
/// payload, else the picture of its symbol.
pub open spec fn rendered(payload: Seq<char>) -> Result<Seq<u8>, APIError> {
    match qr_symbol(payload) {
        Some((width, modules)) => picture_of(SymbolView { width, modules }),
        None => Err(APIError::QRProcessingError(RenderError::EncodingError)),
    }
}

/// Draws a symbol and writes the picture as a PNG file.
pub fn render_symbol(width: usize, modules: Vec<bool>) -> (r: Result<Vec<u8>, APIError>)
    ensures
        match r {
            Ok(bytes) => picture_of(SymbolView { width: width as nat, modules: modules@ }) == Ok::<
                Seq<u8>,
                APIError,
            >(bytes@),
            Err(e) => picture_of(SymbolView { width: width as nat, modules: modules@ }) == Err::<
                Seq<u8>,
                APIError,
            >(e),
        },
{
    match Symbol::new(width, modules) {
        Some(symbol) => {
            let raster = rasterize(&symbol);
            match encode_png(&raster) {
                Ok(bytes) => Ok(bytes),
                Err(_) => Err(APIError::QRProcessingError(RenderError::SerializationError)),
            }
        },
        None => Err(APIError::QRProcessingError(RenderError::EncodingError)),
    }
}

/// Renders the entry code as a QR picture in a PNG file.
pub fn generate_qr(payload: &str) -> (r: Result<Vec<u8>, APIError>)
    ensures
        match r {
            Ok(bytes) => rendered(payload@) == Ok::<Seq<u8>, APIError>(bytes@),
            Err(e) => rendered(payload@) == Err::<Seq<u8>, APIError>(e),
        },
{
    match encode_symbol(payload) {
        Ok(symbol) => render_symbol(symbol.width, symbol.modules),
        Err(_) => Err(APIError::QRProcessingError(RenderError::EncodingError)),
    }
}

} // verus!
