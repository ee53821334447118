use resterror::text::{str_eq, to_snake_case, u64_to_string};
use resterror::status::resolve_keyword;
use resterror::ApiError;

#[test]
fn snake_case_derivation() {
    assert_eq!(to_snake_case("MyVariant"), "my_variant");
    assert_eq!(to_snake_case("InvalidPassword"), "invalid_password");
    assert_eq!(to_snake_case("HTTPError"), "http_error");
    assert_eq!(to_snake_case("InvalidID"), "invalid_id");
    assert_eq!(to_snake_case("XMLHttpRequest"), "xml_http_request");
    assert_eq!(to_snake_case("Error404"), "error404");
    assert_eq!(to_snake_case("already_snake"), "already_snake");
    assert_eq!(to_snake_case(""), "");
}

#[test]
fn decimal_rendering() {
    assert_eq!(u64_to_string(0), "0");
    assert_eq!(u64_to_string(7), "7");
    assert_eq!(u64_to_string(100), "100");
    assert_eq!(u64_to_string(18446744073709551615), "18446744073709551615");
}

#[test]
fn string_equality() {
    assert!(str_eq("abc", "abc"));
    assert!(!str_eq("abc", "abd"));
    assert!(!str_eq("abc", "abcd"));
    assert!(str_eq("", ""));
}

#[test]
fn status_keyword_table() {
    assert_eq!(resolve_keyword("BadRequest"), Some(400));
    assert_eq!(resolve_keyword("Unauthorized"), Some(401));
    assert_eq!(resolve_keyword("Forbidden"), Some(403));
    assert_eq!(resolve_keyword("NotFound"), Some(404));
    assert_eq!(resolve_keyword("MethodNotAllowed"), Some(405));
    assert_eq!(resolve_keyword("Conflict"), Some(409));
    assert_eq!(resolve_keyword("Gone"), Some(410));
    assert_eq!(resolve_keyword("PayloadTooLarge"), Some(413));
    assert_eq!(resolve_keyword("UnsupportedMediaType"), Some(415));
    assert_eq!(resolve_keyword("UnprocessableEntity"), Some(422));
    assert_eq!(resolve_keyword("TooManyRequests"), Some(429));
    assert_eq!(resolve_keyword("InternalServerError"), Some(500));
    assert_eq!(resolve_keyword("NotImplemented"), Some(501));
    assert_eq!(resolve_keyword("BadGateway"), Some(502));
    assert_eq!(resolve_keyword("ServiceUnavailable"), Some(503));
    assert_eq!(resolve_keyword("GatewayTimeout"), Some(504));
    assert_eq!(resolve_keyword("Teapot"), None);
    assert_eq!(resolve_keyword(""), None);
}

#[test]
fn api_error_new_sets_fields() {
    let e = ApiError::new(404, "not_found", "missing".to_string(), None);
    assert_eq!(e.code, 404);
    assert_eq!(e.kind, "not_found");
    assert_eq!(e.message, "missing");
    assert!(e.details.is_none());
    assert_eq!(e.display_string(), "not_found: missing");
}
