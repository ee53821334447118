use resterror::catalog::MessageCatalog;
use resterror::schema::{SchemaError, TaxonomySchema, VariantOptions, VariantSpec};
use resterror::shape::{FieldShape, FieldTy};
use resterror::translate::Translation;

fn variant(id: &str, shape: FieldShape, options: VariantOptions) -> VariantSpec {
    VariantSpec { id: id.to_string(), shape, options }
}

fn with_template(msg: &str) -> VariantOptions {
    let mut o = VariantOptions::default();
    o.message_template = Some(msg.to_string());
    o
}

fn single(v: VariantSpec) -> TaxonomySchema {
    TaxonomySchema { variants: vec![v], catalog: None }
}

/// A mismatched positional marker count is rejected at build time.
#[test]
fn placeholder_count_mismatch_rejected() {
    let schema = single(variant(
        "InvalidId",
        FieldShape::Positional(vec![FieldTy::Int]),
        with_template("invalid id {} {}"),
    ));
    let r = schema.build();
    assert!(matches!(
        r,
        Err(SchemaError::PlaceholderCountMismatch { found: 2, expected: 1, .. })
    ));

    let schema = single(variant(
        "InvalidId",
        FieldShape::Positional(vec![FieldTy::Int]),
        with_template("invalid id"),
    ));
    let r = schema.build();
    assert!(matches!(
        r,
        Err(SchemaError::PlaceholderCountMismatch { found: 0, expected: 1, .. })
    ));
}

/// A placeholder naming no declared field is rejected at build time.
#[test]
fn unknown_placeholder_rejected() {
    let schema = single(variant(
        "NamedError",
        FieldShape::Named(vec![("name".to_string(), FieldTy::Text)]),
        with_template("hello {nope}"),
    ));
    match schema.build() {
        Err(SchemaError::UnknownPlaceholderName { variant_id, name }) => {
            assert_eq!(variant_id, "NamedError");
            assert_eq!(name, "nope");
        },
        other => panic!("expected an unknown placeholder error, got {:?}", other),
    }

    // On a positional shape, any named placeholder is unknown.
    let schema = single(variant(
        "InvalidId",
        FieldShape::Positional(vec![FieldTy::Int]),
        with_template("invalid id {0}"),
    ));
    assert!(matches!(
        schema.build(),
        Err(SchemaError::UnknownPlaceholderName { .. })
    ));
}

/// An unclosed placeholder is rejected at build time.
#[test]
fn unclosed_placeholder_rejected() {
    let schema = single(variant(
        "InvalidId",
        FieldShape::Positional(vec![FieldTy::Int]),
        with_template("invalid id {"),
    ));
    assert!(matches!(
        schema.build(),
        Err(SchemaError::UnclosedPlaceholder { .. })
    ));
}

/// A placeholder bound to a payload-typed field is rejected at build time.
#[test]
fn nontextual_placeholder_rejected() {
    let schema = single(variant(
        "ErrorWithDirectDetails",
        FieldShape::Positional(vec![FieldTy::Json]),
        with_template("payload: {}"),
    ));
    assert!(matches!(
        schema.build(),
        Err(SchemaError::NonTextualPlaceholder { field_index: 0, .. })
    ));
}

/// A status keyword outside the fixed table is rejected at build time.
#[test]
fn unknown_status_keyword_rejected() {
    let mut o = VariantOptions::default();
    o.status_keyword = Some("Teapot".to_string());
    let schema = single(variant("Odd", FieldShape::Unit, o));
    match schema.build() {
        Err(SchemaError::UnknownStatusKeyword { variant_id, keyword }) => {
            assert_eq!(variant_id, "Odd");
            assert_eq!(keyword, "Teapot");
        },
        other => panic!("expected an unknown status keyword error, got {:?}", other),
    }
}

/// An explicit code outside 100..=599 is rejected at build time.
#[test]
fn code_out_of_range_rejected() {
    let mut o = VariantOptions::default();
    o.explicit_code = Some(42);
    let schema = single(variant("Odd", FieldShape::Unit, o));
    assert!(matches!(
        schema.build(),
        Err(SchemaError::CodeOutOfRange { code: 42, .. })
    ));
    let mut o = VariantOptions::default();
    o.explicit_code = Some(600);
    let schema = single(variant("Odd", FieldShape::Unit, o));
    assert!(matches!(
        schema.build(),
        Err(SchemaError::CodeOutOfRange { code: 600, .. })
    ));
}

/// A group variant needs exactly one nested-error field.
#[test]
fn bad_group_shape_rejected() {
    let mut group = VariantOptions::default();
    group.is_group = true;
    let schema = single(variant(
        "GroupError",
        FieldShape::Positional(vec![FieldTy::Nested, FieldTy::Nested]),
        group.clone(),
    ));
    assert!(matches!(schema.build(), Err(SchemaError::BadGroupShape { .. })));

    let schema = single(variant(
        "GroupError",
        FieldShape::Positional(vec![FieldTy::Text]),
        group,
    ));
    assert!(matches!(schema.build(), Err(SchemaError::BadGroupShape { .. })));
}

/// Two variants sharing an identifier are rejected at build time.
#[test]
fn duplicate_variant_id_rejected() {
    let schema = TaxonomySchema {
        variants: vec![
            variant("Twice", FieldShape::Unit, VariantOptions::default()),
            variant("Twice", FieldShape::Unit, VariantOptions::default()),
        ],
        catalog: None,
    };
    match schema.build() {
        Err(SchemaError::DuplicateVariantId { id }) => assert_eq!(id, "Twice"),
        other => panic!("expected a duplicate identifier error, got {:?}", other),
    }
}

/// A declared message id that the catalog lacks is rejected at build time.
#[test]
fn missing_catalog_entry_rejected() {
    let mut o = VariantOptions::default();
    o.message_id = Some("no_such_id".to_string());
    let catalog = MessageCatalog::new(vec![(
        "other_id".to_string(),
        Translation::from_hashmap(vec![("en".to_string(), "hi".to_string())]),
    )]);
    let schema = TaxonomySchema {
        variants: vec![variant("Odd", FieldShape::Unit, o)],
        catalog: Some(catalog),
    };
    match schema.build() {
        Err(SchemaError::MissingCatalogEntry { variant_id, message_id }) => {
            assert_eq!(variant_id, "Odd");
            assert_eq!(message_id, "no_such_id");
        },
        other => panic!("expected a missing catalog entry error, got {:?}", other),
    }
}

/// A catalog template is validated against the variant's arity, per locale.
#[test]
fn catalog_template_arity_checked() {
    let mut o = VariantOptions::default();
    o.message_id = Some("invalid_id".to_string());
    let catalog = MessageCatalog::new(vec![(
        "invalid_id".to_string(),
        Translation::from_hashmap(vec![
            ("en".to_string(), "invalid id {}".to_string()),
            ("fr".to_string(), "id invalide {} {}".to_string()),
        ]),
    )]);
    let schema = TaxonomySchema {
        variants: vec![variant("InvalidId", FieldShape::Positional(vec![FieldTy::Int]), o)],
        catalog: Some(catalog),
    };
    assert!(matches!(
        schema.build(),
        Err(SchemaError::PlaceholderCountMismatch { found: 2, expected: 1, .. })
    ));
}

/// The first invalid variant, in declaration order, is the one reported.
#[test]
fn first_issue_wins() {
    let mut bad_code = VariantOptions::default();
    bad_code.explicit_code = Some(1);
    let schema = TaxonomySchema {
        variants: vec![
            variant("First", FieldShape::Unit, bad_code),
            variant(
                "Second",
                FieldShape::Positional(vec![FieldTy::Int]),
                with_template("{} {}"),
            ),
        ],
        catalog: None,
    };
    assert!(matches!(
        schema.build(),
        Err(SchemaError::CodeOutOfRange { code: 1, .. })
    ));
}

/// A unit variant's template is taken literally, even when it holds braces.
#[test]
fn unit_template_is_literal() {
    let schema = single(variant("Odd", FieldShape::Unit, with_template("braces {here}")));
    let built = schema.build().expect("the taxonomy is valid");
    let v = resterror::value::ErrorValue {
        variant_id: "Odd".to_string(),
        fields: vec![],
        description: String::new(),
    };
    let api_error = built.resolve(&v, "en");
    assert_eq!(api_error.message, "braces {here}");
    assert_eq!(api_error.code, 500);
}
