use resterror::catalog::MessageCatalog;
use resterror::schema::{TaxonomySchema, VariantOptions, VariantSpec};
use resterror::shape::{FieldShape, FieldTy};
use resterror::translate::Translation;
use resterror::value::{ErrorValue, FieldValue};

fn variant(id: &str, shape: FieldShape, options: VariantOptions) -> VariantSpec {
    VariantSpec { id: id.to_string(), shape, options }
}

fn occur(id: &str, fields: Vec<FieldValue>) -> ErrorValue {
    ErrorValue { variant_id: id.to_string(), fields, description: String::new() }
}

fn tr(pairs: &[(&str, &str)]) -> Translation {
    Translation::from_hashmap(
        pairs.iter().map(|(k, v)| (k.to_string(), v.to_string())).collect(),
    )
}

/// Catalog lookup by message id and locale, with the deterministic fallback
/// to the first catalog locale.
#[test]
fn catalog_lookup_and_locale_fallback() {
    let mut o = VariantOptions::default();
    o.explicit_code = Some(404);
    o.message_id = Some("invalid_id".to_string());
    let catalog = MessageCatalog::new(vec![(
        "invalid_id".to_string(),
        tr(&[("en", "invalid id {}"), ("fr", "id invalide {}")]),
    )]);
    let schema = TaxonomySchema {
        variants: vec![variant("InvalidId", FieldShape::Positional(vec![FieldTy::Int]), o)],
        catalog: Some(catalog),
    }
    .build()
    .expect("the taxonomy is valid");

    let v = occur("InvalidId", vec![FieldValue::Int(100)]);
    assert_eq!(schema.resolve(&v, "en").message, "invalid id 100");
    assert_eq!(schema.resolve(&v, "fr").message, "id invalide 100");
    // A locale the catalog lacks falls back to the first entry.
    assert_eq!(schema.resolve(&v, "de").message, "invalid id 100");
    assert_eq!(schema.resolve(&v, "en").kind, "invalid_id");
    assert_eq!(schema.resolve(&v, "en").code, 404);
}

/// When the message id is not declared, the variant identifier itself is
/// looked up; a variant absent from the catalog falls back to its bare
/// identifier once any other variant declares a template.
#[test]
fn catalog_defaults_to_variant_id() {
    let mut templated = VariantOptions::default();
    templated.message_template = Some("explicit".to_string());
    let catalog = MessageCatalog::new(vec![(
        "NamedByIdentity".to_string(),
        tr(&[("en", "found by identity")]),
    )]);
    let schema = TaxonomySchema {
        variants: vec![
            variant("NamedByIdentity", FieldShape::Unit, VariantOptions::default()),
            variant("AbsentFromCatalog", FieldShape::Unit, VariantOptions::default()),
            variant("Templated", FieldShape::Unit, templated),
        ],
        catalog: Some(catalog),
    }
    .build()
    .expect("the taxonomy is valid");

    let found = occur("NamedByIdentity", vec![]);
    assert_eq!(schema.resolve(&found, "en").message, "found by identity");
    let absent = occur("AbsentFromCatalog", vec![]);
    assert_eq!(schema.resolve(&absent, "en").message, "AbsentFromCatalog");
}

/// A multi-locale field value substitutes the text of the locale being
/// rendered.
#[test]
fn localized_field_follows_rendered_locale() {
    let mut o = VariantOptions::default();
    o.message_id = Some("bad_word".to_string());
    let catalog = MessageCatalog::new(vec![(
        "bad_word".to_string(),
        tr(&[("en", "bad {}"), ("fr", "mauvais {}")]),
    )]);
    let schema = TaxonomySchema {
        variants: vec![variant(
            "BadWord",
            FieldShape::Positional(vec![FieldTy::Localized]),
            o,
        )],
        catalog: Some(catalog),
    }
    .build()
    .expect("the taxonomy is valid");

    let word = tr(&[("en", "password"), ("fr", "mot de passe")]);
    let v = occur("BadWord", vec![FieldValue::Localized(word)]);
    assert_eq!(schema.resolve(&v, "en").message, "bad password");
    assert_eq!(schema.resolve(&v, "fr").message, "mauvais mot de passe");
    // An unknown locale renders the first catalog locale, and the field
    // follows it.
    assert_eq!(schema.resolve(&v, "de").message, "bad password");
}

/// Merging per-locale files mirrors loading a directory of PO files: ids in
/// first-appearance order, locales accumulated per id.
#[test]
fn from_files_merges_locales() {
    let files: Vec<(String, Vec<(String, String)>)> = vec![
        (
            "en".to_string(),
            vec![
                ("named_error".to_string(), "invalid name {name}".to_string()),
                ("invalid_id".to_string(), "invalid id {}".to_string()),
                ("invalid_password".to_string(), "Invalid password".to_string()),
                ("postgres_error".to_string(), "Internal database error".to_string()),
            ],
        ),
        (
            "fr".to_string(),
            vec![
                ("named_error".to_string(), "nom invalide {name}".to_string()),
                ("invalid_id".to_string(), "id invalide {}".to_string()),
            ],
        ),
    ];
    let catalog = MessageCatalog::from_files(&files);
    assert_eq!(catalog.entries.len(), 4);
    let named = catalog.lookup("named_error").expect("entry exists");
    assert_eq!(named.entries.len(), 2);
    let invalid = catalog.lookup("invalid_id").expect("entry exists");
    assert_eq!(invalid.entries.len(), 2);
    assert_eq!(invalid.get("fr"), "id invalide {}");
    let pg = catalog.lookup("postgres_error").expect("entry exists");
    assert_eq!(pg.entries.len(), 1);
    assert!(catalog.lookup("unknown_id").is_none());
}

/// A repeated `(id, locale)` pair keeps the last text.
#[test]
fn from_files_last_text_wins() {
    let files: Vec<(String, Vec<(String, String)>)> = vec![(
        "en".to_string(),
        vec![
            ("greeting".to_string(), "hello".to_string()),
            ("greeting".to_string(), "hello again".to_string()),
        ],
    )];
    let catalog = MessageCatalog::from_files(&files);
    assert_eq!(catalog.entries.len(), 1);
    let greeting = catalog.lookup("greeting").expect("entry exists");
    assert_eq!(greeting.entries.len(), 1);
    assert_eq!(greeting.get("en"), "hello again");
}

/// Translation lookup falls back to the first entry in insertion order, and
/// an empty translation yields the empty string.
#[test]
fn translation_get_fallback() {
    let t = tr(&[("en", "hello"), ("fr", "bonjour")]);
    assert_eq!(t.get("fr"), "bonjour");
    assert_eq!(t.get("de"), "hello");
    let empty = Translation::from_hashmap(vec![]);
    assert_eq!(empty.get("en"), "");
}
