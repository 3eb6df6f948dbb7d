use puregym_qr::api::{
    qr_request, sign_in_request, token_request, APIError, AuthRequest, LoginCredentials,
    RenderError,
};
use puregym_qr::http::{Header, HttpRequest, Method};

fn credentials(email: &str, password: &str) -> LoginCredentials {
    LoginCredentials { email: email.to_string(), password: password.to_string() }
}

fn header(name: &str, value: &str) -> Header {
    Header { name: name.to_string(), value: value.to_string() }
}

#[test]
fn auth_request_borrows_the_credentials() {
    let login = credentials("member@example.com", "hunter2");
    let request = AuthRequest::from(&login);
    assert_eq!(request.grant_type, "password");
    assert_eq!(request.username, "member@example.com");
    assert_eq!(request.password, "hunter2");
    assert_eq!(request.scope, "pgcapi offline_access");
}

#[test]
fn auth_request_fields_keep_their_order() {
    let login = credentials("a", "b");
    let fields = AuthRequest::from(&login).fields();
    assert_eq!(
        fields,
        vec![
            ("grant_type".to_string(), "password".to_string()),
            ("username".to_string(), "a".to_string()),
            ("password".to_string(), "b".to_string()),
            ("scope".to_string(), "pgcapi offline_access".to_string()),
        ]
    );
}

#[test]
fn token_request_is_a_form_post() {
    let request = token_request(&credentials("member@example.com", "p&ss word")).unwrap();
    assert_eq!(
        request,
        HttpRequest {
            method: Method::Post,
            url: "https://auth.puregym.com/connect/token".to_string(),
            headers: vec![
                header("content-type", "application/x-www-form-urlencoded"),
                header("authorization", "Basic cm8uY2xpZW50Og=="),
            ],
            body: Some(
                "grant_type=password&username=member%40example.com&password=p%26ss+word&scope=pgcapi+offline_access"
                    .to_string()
            ),
        }
    );
}

#[test]
fn token_request_encodes_text_outside_ascii() {
    let request = token_request(&credentials("zoë@example.com", "pä=ss")).unwrap();
    assert_eq!(
        request.body.unwrap(),
        "grant_type=password&username=zo%C3%AB%40example.com&password=p%C3%A4%3Dss&scope=pgcapi+offline_access"
    );
}

#[test]
fn token_request_with_empty_credentials() {
    let request = token_request(&credentials("", "")).unwrap();
    assert_eq!(
        request.body.unwrap(),
        "grant_type=password&username=&password=&scope=pgcapi+offline_access"
    );
}

#[test]
fn sign_in_request_carries_the_body_as_given() {
    let request = sign_in_request("a=b".to_string());
    assert_eq!(request.method, Method::Post);
    assert_eq!(request.url, "https://auth.puregym.com/connect/token");
    assert_eq!(request.headers.len(), 2);
    assert_eq!(request.body, Some("a=b".to_string()));
}

#[test]
fn qr_request_presents_the_token_as_bearer() {
    let request = qr_request("tok.en-123");
    assert_eq!(
        request,
        HttpRequest {
            method: Method::Get,
            url: "https://capi.puregym.com/api/v2/member/qrcode".to_string(),
            headers: vec![header("authorization", "Bearer tok.en-123")],
            body: None,
        }
    );
}

#[test]
fn qr_request_with_an_empty_token() {
    let request = qr_request("");
    assert_eq!(request.headers, vec![header("authorization", "Bearer ")]);
}

#[test]
fn request_builder_appends_in_order() {
    let request = HttpRequest::new(Method::Get, "https://example.com/")
        .header("a", "1".to_string())
        .header("b", "2".to_string())
        .body("text".to_string());
    assert_eq!(request.method, Method::Get);
    assert_eq!(request.url, "https://example.com/");
    assert_eq!(request.headers, vec![header("a", "1"), header("b", "2")]);
    assert_eq!(request.body, Some("text".to_string()));
}

#[test]
fn duplicate_copies_both_fields() {
    let login = credentials("member@example.com", "hunter2");
    assert_eq!(login.duplicate(), login);
}

#[test]
fn every_error_has_its_message() {
    assert_eq!(APIError::RequestError.message(), "Failed to call PureGym API.");
    assert_eq!(APIError::ResponseError.message(), "Failed to process response.");
    assert_eq!(
        APIError::QRProcessingError(RenderError::EncodingError).message(),
        "Failed to create QR code."
    );
    assert_eq!(
        APIError::QRProcessingError(RenderError::SerializationError).message(),
        "Failed to create QR code."
    );
    assert_eq!(APIError::InternalError.message(), "Something unexpected went wrong!");
}
