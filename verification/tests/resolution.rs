use resterror::schema::{TaxonomySchema, VariantOptions, VariantSpec, ValidatedSchema};
use resterror::shape::{FieldShape, FieldTy};
use resterror::value::{ErrorValue, FieldValue};

fn variant(id: &str, shape: FieldShape, options: VariantOptions) -> VariantSpec {
    VariantSpec { id: id.to_string(), shape, options }
}

fn occur(id: &str, fields: Vec<FieldValue>, desc: &str) -> ErrorValue {
    ErrorValue { variant_id: id.to_string(), fields, description: desc.to_string() }
}

fn status(kw: &str) -> VariantOptions {
    let mut o = VariantOptions::default();
    o.status_keyword = Some(kw.to_string());
    o
}

fn status_msg(kw: &str, msg: &str) -> VariantOptions {
    let mut o = status(kw);
    o.message_template = Some(msg.to_string());
    o
}

fn code_msg(code: u16, msg: &str) -> VariantOptions {
    let mut o = VariantOptions::default();
    o.explicit_code = Some(code);
    o.message_template = Some(msg.to_string());
    o
}

/// The taxonomy that the resolution tests share: a mix of unit, positional,
/// named, payload-carrying and group variants.
fn test_schema() -> ValidatedSchema {
    let mut group = VariantOptions::default();
    group.is_group = true;
    let mut details_opts = status_msg("BadRequest", "Error with details");
    details_opts.ignore_interpolation = true;
    let mut direct_details_opts = status_msg("UnprocessableEntity", "Error with direct details");
    direct_details_opts.ignore_interpolation = true;
    let mut missing_msg = VariantOptions::default();
    missing_msg.explicit_code = Some(402);
    let schema = TaxonomySchema {
        variants: vec![
            variant("FirewallFail", FieldShape::Unit, status("InternalServerError")),
            variant("InvalidToken", FieldShape::Unit, status("BadRequest")),
            variant(
                "InvalidPassword",
                FieldShape::Unit,
                status_msg("BadRequest", "Invalid password"),
            ),
            variant(
                "InvalidId",
                FieldShape::Positional(vec![FieldTy::Int]),
                code_msg(404, "invalid id {}"),
            ),
            variant(
                "NamedError",
                FieldShape::Named(vec![
                    ("name".to_string(), FieldTy::Text),
                    ("age".to_string(), FieldTy::Int),
                ]),
                code_msg(500, "invalid name {name} and age {age}"),
            ),
            variant(
                "PostgresError",
                FieldShape::Positional(vec![FieldTy::Text]),
                status_msg("InternalServerError", "Internal database error {}"),
            ),
            variant("GroupError", FieldShape::Positional(vec![FieldTy::Nested]), group),
            variant(
                "ErrorWithDetails",
                FieldShape::Positional(vec![FieldTy::OptJson]),
                details_opts,
            ),
            variant(
                "ErrorWithDirectDetails",
                FieldShape::Positional(vec![FieldTy::Json]),
                direct_details_opts,
            ),
            variant("MissingMessageVariant", FieldShape::Unit, missing_msg),
        ],
        catalog: None,
    };
    schema.build().expect("the test taxonomy is valid")
}

fn json_details() -> serde_json::Value {
    let mut m = serde_json::Map::new();
    m.insert(
        "field".to_string(),
        serde_json::Value::String("test_field".to_string()),
    );
    m.insert(
        "issue".to_string(),
        serde_json::Value::String("is missing".to_string()),
    );
    serde_json::Value::Object(m)
}

fn json_direct_details() -> serde_json::Value {
    let mut m = serde_json::Map::new();
    m.insert(
        "error_code".to_string(),
        serde_json::Value::Number(serde_json::Number::from(123u32)),
    );
    m.insert(
        "description".to_string(),
        serde_json::Value::String("something went wrong".to_string()),
    );
    serde_json::Value::Object(m)
}

#[test]
fn test_error() {
    let schema = test_schema();

    let error = occur("InvalidPassword", vec![], "");
    let api_error = schema.resolve(&error, "en");
    assert_eq!(api_error.code, 400);
    assert_eq!(api_error.kind, "invalid_password");
    assert_eq!(api_error.message, "Invalid password");

    let error = occur("InvalidId", vec![FieldValue::Int(100)], "");
    let api_error = schema.resolve(&error, "en");
    assert_eq!(api_error.code, 404);
    assert_eq!(api_error.kind, "invalid_id");
    assert_eq!(api_error.message, "invalid id 100");

    let error = occur(
        "NamedError",
        vec![
            FieldValue::Text("test".to_string()),
            FieldValue::Int(100),
        ],
        "",
    );
    let api_error = schema.resolve(&error, "en");
    assert_eq!(api_error.code, 500);
    assert_eq!(api_error.kind, "named_error");
    assert_eq!(api_error.message, "invalid name test and age 100");

    let error = occur(
        "PostgresError",
        vec![FieldValue::Text("test_pg_error".to_string())],
        "",
    );
    let api_error = schema.resolve(&error, "en");
    assert_eq!(api_error.code, 500);
    assert_eq!(api_error.kind, "postgres_error");
    assert_eq!(api_error.message, "Internal database error test_pg_error");

    // Group error
    let inner = occur("FirewallFail", vec![], "Firewall fail");
    let error = occur("GroupError", vec![FieldValue::Nested(Box::new(inner))], "");
    let api_error = schema.resolve(&error, "en");
    assert_eq!(api_error.code, 500);
    assert_eq!(api_error.kind, "firewall_fail");

    // Error with an optional JSON payload
    let details_json = json_details();
    let error_with_details = occur(
        "ErrorWithDetails",
        vec![FieldValue::OptJson(Some(details_json.clone()))],
        "",
    );
    let api_error_details = schema.resolve(&error_with_details, "en");
    assert_eq!(api_error_details.code, 400);
    assert_eq!(api_error_details.kind, "error_with_details");
    assert_eq!(api_error_details.message, "Error with details");
    assert_eq!(api_error_details.details, Some(details_json));

    // Error with a direct JSON payload
    let direct_details_json = json_direct_details();
    let error_with_direct_details = occur(
        "ErrorWithDirectDetails",
        vec![FieldValue::Json(direct_details_json.clone())],
        "",
    );
    let api_error_direct_details = schema.resolve(&error_with_direct_details, "en");
    assert_eq!(api_error_direct_details.code, 422);
    assert_eq!(api_error_direct_details.kind, "error_with_direct_details");
    assert_eq!(api_error_direct_details.message, "Error with direct details");
    assert_eq!(api_error_direct_details.details, Some(direct_details_json));

    // Error with the payload absent
    let error_no_details = occur("ErrorWithDetails", vec![FieldValue::OptJson(None)], "");
    let api_error_no_details = schema.resolve(&error_no_details, "en");
    assert_eq!(api_error_no_details.code, 400);
    assert_eq!(api_error_no_details.kind, "error_with_details");
    assert_eq!(api_error_no_details.message, "Error with details");
    assert_eq!(api_error_no_details.details, None);

    // Variant without a message of its own, while others declare templates
    let error_missing_msg = occur("MissingMessageVariant", vec![], "");
    let api_error_missing_msg = schema.resolve(&error_missing_msg, "en");
    assert_eq!(api_error_missing_msg.code, 402);
    assert_eq!(api_error_missing_msg.kind, "missing_message_variant");
    assert_eq!(api_error_missing_msg.message, "MissingMessageVariant");
}

/// A taxonomy in which no variant declares a template: every message defers
/// to the caller-supplied description of the error value.
#[test]
fn test_thiserror_display_integration() {
    let schema = TaxonomySchema {
        variants: vec![
            variant(
                "ItemNotFound",
                FieldShape::Positional(vec![FieldTy::Text]),
                status("NotFound"),
            ),
            variant(
                "AuthFailure",
                FieldShape::Named(vec![("username".to_string(), FieldTy::Text)]),
                status("Unauthorized"),
            ),
            variant("SimpleError", FieldShape::Unit, status("InternalServerError")),
        ],
        catalog: None,
    }
    .build()
    .expect("the taxonomy is valid");

    let error1 = occur(
        "ItemNotFound",
        vec![FieldValue::Text("test_id_123".to_string())],
        "Item not found via thiserror: id test_id_123",
    );
    let api_error1 = schema.resolve(&error1, "en");
    assert_eq!(api_error1.code, 404);
    assert_eq!(api_error1.kind, "item_not_found");
    assert_eq!(api_error1.message, "Item not found via thiserror: id test_id_123");

    let error2 = occur(
        "AuthFailure",
        vec![FieldValue::Text("copilot".to_string())],
        "Authentication failed (user: copilot) - from thiserror",
    );
    let api_error2 = schema.resolve(&error2, "en");
    assert_eq!(api_error2.code, 401);
    assert_eq!(api_error2.kind, "auth_failure");
    assert_eq!(api_error2.message, "Authentication failed (user: copilot) - from thiserror");

    let error3 = occur("SimpleError", vec![], "Just a simple error from thiserror");
    let api_error3 = schema.resolve(&error3, "en");
    assert_eq!(api_error3.code, 500);
    assert_eq!(api_error3.kind, "simple_error");
    assert_eq!(api_error3.message, "Just a simple error from thiserror");
}

/// With interpolation switched off, an explicit template is used literally,
/// whatever the field values hold.
#[test]
fn ignored_template_is_literal() {
    let mut opts = status_msg("InternalServerError", "Internal database error");
    opts.ignore_interpolation = true;
    let schema = TaxonomySchema {
        variants: vec![variant(
            "PostgresError",
            FieldShape::Positional(vec![FieldTy::Text]),
            opts,
        )],
        catalog: None,
    }
    .build()
    .expect("the taxonomy is valid");
    let error = occur("PostgresError", vec![FieldValue::Text("test".to_string())], "");
    let api_error = schema.resolve(&error, "en");
    assert_eq!(api_error.code, 500);
    assert_eq!(api_error.kind, "postgres_error");
    assert_eq!(api_error.message, "Internal database error");
}

/// Resolution is deterministic: the same occurrence resolves to the same
/// descriptor every time, and the kind never depends on field values.
#[test]
fn resolution_is_deterministic() {
    let schema = test_schema();
    let error = occur("InvalidId", vec![FieldValue::Int(100)], "");
    let first = schema.resolve(&error, "en");
    let second = schema.resolve(&error, "en");
    assert_eq!(first.code, second.code);
    assert_eq!(first.kind, second.kind);
    assert_eq!(first.message, second.message);
    assert_eq!(first.details, second.details);

    let other = occur("InvalidId", vec![FieldValue::Int(7)], "different description");
    let third = schema.resolve(&other, "fr");
    assert_eq!(first.kind, third.kind);
}

/// Group delegation returns the nested descriptor unchanged, field for
/// field.
#[test]
fn group_delegates_wholly() {
    let schema = test_schema();
    let inner = occur("InvalidId", vec![FieldValue::Int(100)], "");
    let direct = schema.resolve(&inner, "en");
    let outer = occur("GroupError", vec![FieldValue::Nested(Box::new(inner))], "");
    let delegated = schema.resolve(&outer, "en");
    assert_eq!(delegated.code, direct.code);
    assert_eq!(delegated.kind, direct.kind);
    assert_eq!(delegated.message, direct.message);
    assert_eq!(delegated.details, direct.details);
}

/// Every resolved code is a valid HTTP status code.
#[test]
fn resolved_codes_in_range() {
    let schema = test_schema();
    let occurrences = vec![
        occur("FirewallFail", vec![], "Firewall fail"),
        occur("InvalidToken", vec![], "Invalid token"),
        occur("InvalidPassword", vec![], ""),
        occur("InvalidId", vec![FieldValue::Int(0)], ""),
        occur("MissingMessageVariant", vec![], ""),
    ];
    for o in &occurrences {
        let api_error = schema.resolve(o, "en");
        assert!(100 <= api_error.code && api_error.code <= 599);
    }
}

/// `resolve_checked` accepts exactly the occurrences that fit the schema.
#[test]
fn resolve_checked_guards_shape() {
    let schema = test_schema();
    let good = occur("InvalidId", vec![FieldValue::Int(1)], "");
    assert!(schema.resolve_checked(&good, "en").is_some());
    let unknown = occur("NoSuchVariant", vec![], "");
    assert!(schema.resolve_checked(&unknown, "en").is_none());
    let wrong_arity = occur("InvalidId", vec![], "");
    assert!(schema.resolve_checked(&wrong_arity, "en").is_none());
    let wrong_type = occur("InvalidId", vec![FieldValue::Text("1".to_string())], "");
    assert!(schema.resolve_checked(&wrong_type, "en").is_none());
}

/// The textual form of a descriptor is its kind and message.
#[test]
fn display_string_joins_kind_and_message() {
    let schema = test_schema();
    let error = occur("InvalidPassword", vec![], "");
    let api_error = schema.resolve(&error, "en");
    assert_eq!(api_error.display_string(), "invalid_password: Invalid password");
}
