//! The error taxonomy: variant declarations, their validation, and the
//! pre-resolved rules that validation produces.
//!
//! A [`TaxonomySchema`] is declared by the host application and passed through
//! [`TaxonomySchema::build`] exactly once, at startup. Build validates every
//! declaration — status codes, templates against field shapes, group shapes,
//! catalog entries — and either reports the first offending declaration as a
//! [`SchemaError`] or returns a [`ValidatedSchema`] of pre-resolved rules,
//! against which resolution is total.

use vstd::prelude::*;
use vstd::pervasive::unreached;
use crate::catalog::MessageCatalog;
use crate::catalog::cat_entry;
use crate::shape::FieldShape;
use crate::shape::FieldTy;
use crate::shape::ShapeModel;
use crate::shape::arity;
use crate::shape::is_textual;
use crate::shape::is_textual_exec;
use crate::shape::ty_at;
use crate::shape::details_idx_spec;
use crate::status::keyword_code;
use crate::status::resolve_keyword;
use crate::template::Segment;
use crate::template::TemplateIssue;
use crate::template::Tok;
use crate::template::TokView;
use crate::template::compile_named;
use crate::template::compile_positional;
use crate::template::first_named_ph;
use crate::template::first_unknown_ph;
use crate::template::lex_spec;
use crate::template::lex_template;
use crate::template::marker_count;
use crate::template::segs_named_upto;
use crate::template::segs_pos_upto;
use crate::template::toks_view;
use crate::text::snake_case;
use crate::text::str_eq;
use crate::text::to_snake_case;
use crate::translate::Translation;

verus! {

/// The options a taxonomy author declares on one variant.
#[derive(Debug, Clone)]
pub struct VariantOptions {
    /// A raw HTTP status code; takes precedence over `status_keyword`.
    pub explicit_code: Option<u16>,
    /// A symbolic status keyword from the fixed table.
    pub status_keyword: Option<String>,
    /// Replaces the derived snake_case `kind`.
    pub kind_override: Option<String>,
    /// An explicit message template.
    pub message_template: Option<String>,
    /// Use an explicit template literally, with no interpolation.
    pub ignore_interpolation: bool,
    /// Delegate wholly to the variant's single nested error field.
    pub is_group: bool,
    /// The catalog message id; defaults to the variant identifier.
    pub message_id: Option<String>,
}

impl Default for VariantOptions {
    fn default() -> (r: Self)
        ensures
            r.explicit_code is None,
            r.status_keyword is None,
            r.kind_override is None,
            r.message_template is None,
            !r.ignore_interpolation,
            !r.is_group,
            r.message_id is None,
    {
        VariantOptions {
            explicit_code: None,
            status_keyword: None,
            kind_override: None,
            message_template: None,
            ignore_interpolation: false,
            is_group: false,
            message_id: None,
        }
    }
}

/// One declared error variant: its identifier, field shape and options.
#[derive(Debug, Clone)]
pub struct VariantSpec {
    pub id: String,
    pub shape: FieldShape,
    pub options: VariantOptions,
}

/// A whole taxonomy: its variants, and the message catalog if one is in use.
#[derive(Debug, Clone)]
pub struct TaxonomySchema {
    pub variants: Vec<VariantSpec>,
    pub catalog: Option<MessageCatalog>,
}

/// Why a taxonomy was rejected at build time. Every error names the offending
/// variant.
#[derive(Debug, Clone, PartialEq)]
pub enum SchemaError {
    /// Two variants share an identifier.
    DuplicateVariantId { id: String },
    /// A status keyword outside the fixed table.
    UnknownStatusKeyword { variant_id: String, keyword: String },
    /// An explicit code outside 100..=599.
    CodeOutOfRange { variant_id: String, code: u16 },
    /// A template with a `{` that no `}` closes.
    UnclosedPlaceholder { variant_id: String },
    /// A positional template whose marker count differs from the field arity.
    PlaceholderCountMismatch { variant_id: String, found: usize, expected: usize },
    /// A placeholder that names no declared field.
    UnknownPlaceholderName { variant_id: String, name: String },
    /// A placeholder bound to a field with no textual representation.
    NonTextualPlaceholder { variant_id: String, field_index: usize },
    /// A group variant without exactly one nested error field.
    BadGroupShape { variant_id: String },
    /// A declared message id absent from the catalog.
    MissingCatalogEntry { variant_id: String, message_id: String },
}

/// Mathematical model of a [`SchemaError`].
pub ghost enum SchemaErrorModel {
    DuplicateVariantId { id: Seq<char> },
    UnknownStatusKeyword { variant_id: Seq<char>, keyword: Seq<char> },
    CodeOutOfRange { variant_id: Seq<char>, code: u16 },
    UnclosedPlaceholder { variant_id: Seq<char> },
    PlaceholderCountMismatch { variant_id: Seq<char>, found: int, expected: int },
    UnknownPlaceholderName { variant_id: Seq<char>, name: Seq<char> },
    NonTextualPlaceholder { variant_id: Seq<char>, field_index: int },
    BadGroupShape { variant_id: Seq<char> },
    MissingCatalogEntry { variant_id: Seq<char>, message_id: Seq<char> },
}

impl View for SchemaError {
    type V = SchemaErrorModel;

    open spec fn view(&self) -> SchemaErrorModel {
        match self {
            SchemaError::DuplicateVariantId { id } => SchemaErrorModel::DuplicateVariantId {
                id: id@,
            },
            SchemaError::UnknownStatusKeyword { variant_id, keyword } => {
                SchemaErrorModel::UnknownStatusKeyword { variant_id: variant_id@, keyword: keyword@ }
            },
            SchemaError::CodeOutOfRange { variant_id, code } => SchemaErrorModel::CodeOutOfRange {
                variant_id: variant_id@,
                code: *code,
            },
            SchemaError::UnclosedPlaceholder { variant_id } => {
                SchemaErrorModel::UnclosedPlaceholder { variant_id: variant_id@ }
            },
            SchemaError::PlaceholderCountMismatch { variant_id, found, expected } => {
                SchemaErrorModel::PlaceholderCountMismatch {
                    variant_id: variant_id@,
                    found: *found as int,
                    expected: *expected as int,
                }
            },
            SchemaError::UnknownPlaceholderName { variant_id, name } => {
                SchemaErrorModel::UnknownPlaceholderName { variant_id: variant_id@, name: name@ }
            },
            SchemaError::NonTextualPlaceholder { variant_id, field_index } => {
                SchemaErrorModel::NonTextualPlaceholder {
                    variant_id: variant_id@,
                    field_index: *field_index as int,
                }
            },
            SchemaError::BadGroupShape { variant_id } => SchemaErrorModel::BadGroupShape {
                variant_id: variant_id@,
            },
            SchemaError::MissingCatalogEntry { variant_id, message_id } => {
                SchemaErrorModel::MissingCatalogEntry {
                    variant_id: variant_id@,
                    message_id: message_id@,
                }
            },
        }
    }
}

/// How a rule produces its message.
#[derive(Debug, Clone)]
pub enum MessageRule {
    /// An explicit template used literally.
    Literal(String),
    /// A compiled explicit template, interpolated per occurrence.
    Template(Vec<Segment>),
    /// Compiled catalog templates, one per locale, in catalog order.
    Catalog(Vec<(String, Vec<Segment>)>),
    /// The bare variant identifier (some other variant declares a template).
    BareIdentifier,
    /// The caller-supplied textual description of the error value.
    CallerDescription,
}

/// Mathematical model of a [`MessageRule`].
pub ghost enum MessageRuleModel {
    Literal(Seq<char>),
    Template(Seq<Segment>),
    Catalog(Seq<(Seq<char>, Seq<Segment>)>),
    BareIdentifier,
    CallerDescription,
}

/// The views of compiled catalog entries.
pub open spec fn cat_segs_view(entries: Seq<(String, Vec<Segment>)>) -> Seq<
    (Seq<char>, Seq<Segment>),
> {
    entries.map_values(|p: (String, Vec<Segment>)| (p.0@, p.1@))
}

impl View for MessageRule {
    type V = MessageRuleModel;

    open spec fn view(&self) -> MessageRuleModel {
        match self {
            MessageRule::Literal(t) => MessageRuleModel::Literal(t@),
            MessageRule::Template(segs) => MessageRuleModel::Template(segs@),
            MessageRule::Catalog(entries) => MessageRuleModel::Catalog(cat_segs_view(entries@)),
            MessageRule::BareIdentifier => MessageRuleModel::BareIdentifier,
            MessageRule::CallerDescription => MessageRuleModel::CallerDescription,
        }
    }
}

/// One pre-resolved rule: everything resolution needs for one variant.
#[derive(Debug, Clone)]
pub struct ResolvedRule {
    pub variant_id: String,
    pub is_group: bool,
    pub code: u16,
    pub kind: String,
    pub shape: FieldShape,
    pub message: MessageRule,
    pub details_idx: Option<usize>,
}

/// Mathematical model of a [`ResolvedRule`].
pub ghost struct RuleModel {
    pub variant_id: Seq<char>,
    pub is_group: bool,
    pub code: u16,
    pub kind: Seq<char>,
    pub shape: ShapeModel,
    pub message: MessageRuleModel,
    pub details_idx: Option<int>,
}

impl View for ResolvedRule {
    type V = RuleModel;

    open spec fn view(&self) -> RuleModel {
        RuleModel {
            variant_id: self.variant_id@,
            is_group: self.is_group,
            code: self.code,
            kind: self.kind@,
            shape: self.shape@,
            message: self.message@,
            details_idx: match self.details_idx {
                Some(i) => Some(i as int),
                None => None,
            },
        }
    }
}

/// A validated taxonomy: one pre-resolved rule per variant, in declaration
/// order.
#[derive(Debug, Clone)]
pub struct ValidatedSchema {
    pub rules: Vec<ResolvedRule>,
}

impl View for ValidatedSchema {
    type V = Seq<RuleModel>;

    open spec fn view(&self) -> Seq<RuleModel> {
        self.rules@.map_values(|r: ResolvedRule| r@)
    }
}

/// The code a variant's status options resolve to, or why they are invalid:
/// an explicit code must lie in 100..=599 and takes precedence; then the
/// status keyword; with neither, 500.
pub open spec fn checked_code(v: VariantSpec) -> Result<u16, SchemaErrorModel> {
    match v.options.explicit_code {
        Some(c) => if 100 <= c <= 599 {
            Ok(c)
        } else {
            Err(SchemaErrorModel::CodeOutOfRange { variant_id: v.id@, code: c })
        },
        None => match v.options.status_keyword {
            Some(kw) => match keyword_code(kw@) {
                Some(c) => Ok(c),
                None => Err(
                    SchemaErrorModel::UnknownStatusKeyword { variant_id: v.id@, keyword: kw@ },
                ),
            },
            None => Ok(500u16),
        },
    }
}

/// The resolved code of a variant whose status options are valid.
pub open spec fn code_of(v: VariantSpec) -> u16 {
    match checked_code(v) {
        Ok(c) => c,
        Err(_) => 500u16,
    }
}

/// The `kind` of a variant: the override verbatim, else the snake_case form
/// of the identifier.
pub open spec fn kind_of(v: VariantSpec) -> Seq<char> {
    match v.options.kind_override {
        Some(k) => k@,
        None => snake_case(v.id@),
    }
}

/// The catalog message id of a variant: the declared id, else the variant
/// identifier.
pub open spec fn msg_id_of(v: VariantSpec) -> Seq<char> {
    match v.options.message_id {
        Some(m) => m@,
        None => v.id@,
    }
}

/// A group variant must have exactly one field, of nested-error type.
pub open spec fn group_shape_ok(sm: ShapeModel) -> bool {
    arity(sm) == 1 && ty_at(sm, 0) is Nested
}

/// Whether any variant declares an explicit message template. Computed once,
/// taxonomy-wide: when true, variants without a template (and without a
/// catalog entry) display as their bare identifier; when false, they defer to
/// the caller-supplied description.
pub open spec fn taxonomy_policy(s: TaxonomySchema) -> bool {
    exists|j: int|
        0 <= j < s.variants@.len() && (#[trigger] s.variants@[j]).options.message_template is Some
}

/// Whether an earlier variant already uses the identifier of variant `k`.
pub open spec fn dup_before(vs: Seq<VariantSpec>, k: int) -> bool {
    exists|l: int| 0 <= l < k && (#[trigger] vs[l]).id@ == vs[k].id@
}

/// The first segment index at or after `i` whose placeholder is bound to a
/// field with no textual representation.
pub open spec fn first_nontextual(segs: Seq<Segment>, sm: ShapeModel, i: int) -> Option<int>
    decreases segs.len() - i,
{
    if i < 0 || i >= segs.len() {
        None
    } else if segs[i] matches Segment::Arg(k) && !is_textual(ty_at(sm, k as int)) {
        Some(i)
    } else {
        first_nontextual(segs, sm, i + 1)
    }
}

/// The field position a segment refers to (literals: 0).
pub open spec fn arg_of(seg: Segment) -> int {
    match seg {
        Segment::Arg(k) => k as int,
        Segment::Lit(_) => 0,
    }
}

/// The name of the placeholder token at `k` (literal tokens: empty).
pub open spec fn ph_name(toks: Seq<TokView>, k: int) -> Seq<char> {
    match toks[k] {
        TokView::Ph(n) => n,
        TokView::C(_) => Seq::empty(),
    }
}

/// Rejects compiled segments that bind a field with no textual
/// representation.
pub open spec fn seg_check(vid: Seq<char>, segs: Seq<Segment>, sm: ShapeModel) -> Result<
    Seq<Segment>,
    SchemaErrorModel,
> {
    match first_nontextual(segs, sm, 0) {
        Some(si) => Err(
            SchemaErrorModel::NonTextualPlaceholder {
                variant_id: vid,
                field_index: arg_of(segs[si]),
            },
        ),
        None => Ok(segs),
    }
}

/// The compiled form of one template against a field shape, or the first
/// reason it is invalid. Named shapes resolve placeholder names; all other
/// shapes require exactly as many bare markers as there are fields.
pub open spec fn compiled_for_shape(vid: Seq<char>, t: Seq<char>, sm: ShapeModel) -> Result<
    Seq<Segment>,
    SchemaErrorModel,
> {
    match lex_spec(t) {
        None => Err(SchemaErrorModel::UnclosedPlaceholder { variant_id: vid }),
        Some(toks) => match sm {
            ShapeModel::Named(_) => {
                let names = crate::shape::names_of(sm);
                match first_unknown_ph(toks, names, 0) {
                    Some(k) => Err(
                        SchemaErrorModel::UnknownPlaceholderName {
                            variant_id: vid,
                            name: ph_name(toks, k),
                        },
                    ),
                    None => seg_check(vid, segs_named_upto(toks, names, toks.len() as int), sm),
                }
            },
            _ => {
                match first_named_ph(toks, 0) {
                    Some(k) => Err(
                        SchemaErrorModel::UnknownPlaceholderName {
                            variant_id: vid,
                            name: ph_name(toks, k),
                        },
                    ),
                    None => if marker_count(toks) != arity(sm) {
                        Err(
                            SchemaErrorModel::PlaceholderCountMismatch {
                                variant_id: vid,
                                found: marker_count(toks),
                                expected: arity(sm),
                            },
                        )
                    } else {
                        seg_check(vid, segs_pos_upto(toks, toks.len() as int), sm)
                    },
                }
            },
        },
    }
}

/// Compiles one template against a field shape (executable form).
pub fn compile_for_shape(vid: &str, t: &str, shape: &FieldShape) -> (r: Result<
    Vec<Segment>,
    SchemaError,
>)
    ensures
        match r {
            Ok(segs) => compiled_for_shape(vid@, t@, shape@) == Ok::<Seq<Segment>, SchemaErrorModel>(
                segs@,
            ),
            Err(e) => compiled_for_shape(vid@, t@, shape@) == Err::<Seq<Segment>, SchemaErrorModel>(
                e@,
            ),
        },
{
    let toks = match lex_template(t) {
        Some(tk) => tk,
        None => {
            return Err(SchemaError::UnclosedPlaceholder { variant_id: vid.to_owned() });
        },
    };
    let segs = match shape {
        FieldShape::Named(_) => {
            let names = shape.names_exec();
            match compile_named(&toks, &names) {
                Ok(s) => s,
                Err(TemplateIssue::UnknownName { name }) => {
                    return Err(
                        SchemaError::UnknownPlaceholderName { variant_id: vid.to_owned(), name },
                    );
                },
                Err(_) => unreached(),
            }
        },
        _ => {
            let ar = shape.arity_exec();
            match compile_positional(&toks, ar) {
                Ok(s) => s,
                Err(TemplateIssue::UnknownName { name }) => {
                    return Err(
                        SchemaError::UnknownPlaceholderName { variant_id: vid.to_owned(), name },
                    );
                },
                Err(TemplateIssue::CountMismatch { found, expected }) => {
                    return Err(
                        SchemaError::PlaceholderCountMismatch {
                            variant_id: vid.to_owned(),
                            found,
                            expected,
                        },
                    );
                },
                Err(TemplateIssue::Unclosed) => unreached(),
            }
        },
    };
    proof {
        assert(compiled_for_shape(vid@, t@, shape@) == seg_check(vid@, segs@, shape@));
    }
    let n = segs.len();
    let mut i: usize = 0;
    while i < n
        invariant
            n == segs@.len(),
            i <= n,
            compiled_for_shape(vid@, t@, shape@) == seg_check(vid@, segs@, shape@),
            first_nontextual(segs@, shape@, 0) == first_nontextual(segs@, shape@, i as int),
        decreases n - i,
    {
        match segs[i] {
            Segment::Arg(k) => {
                if !is_textual_exec(shape.ty_at_exec(k)) {
                    return Err(
                        SchemaError::NonTextualPlaceholder {
                            variant_id: vid.to_owned(),
                            field_index: k,
                        },
                    );
                }
            },
            Segment::Lit(_) => {},
        }
        i += 1;
    }
    Ok(segs)
}

/// The segments of a successful compilation (failures: empty).
pub open spec fn segs_of(r: Result<Seq<Segment>, SchemaErrorModel>) -> Seq<Segment> {
    match r {
        Ok(s) => s,
        Err(_) => Seq::empty(),
    }
}

/// The error of a failed compilation.
pub open spec fn err_of(r: Result<Seq<Segment>, SchemaErrorModel>) -> SchemaErrorModel {
    match r {
        Err(e) => e,
        Ok(_) => SchemaErrorModel::DuplicateVariantId { id: Seq::empty() },
    }
}

/// The first catalog entry at or after `i` whose template does not compile
/// against the shape.
pub open spec fn cat_first_bad(
    vid: Seq<char>,
    entries: Seq<(String, String)>,
    sm: ShapeModel,
    i: int,
) -> Option<int>
    decreases entries.len() - i,
{
    if i < 0 || i >= entries.len() {
        None
    } else if compiled_for_shape(vid, entries[i].1@, sm) is Err {
        Some(i)
    } else {
        cat_first_bad(vid, entries, sm, i + 1)
    }
}

/// The compiled forms of the first `i` catalog entries.
pub open spec fn cat_segs_upto(
    vid: Seq<char>,
    entries: Seq<(String, String)>,
    sm: ShapeModel,
    i: int,
) -> Seq<(Seq<char>, Seq<Segment>)>
    decreases i,
{
    if i <= 0 {
        Seq::empty()
    } else {
        cat_segs_upto(vid, entries, sm, i - 1).push(
            (entries[i - 1].0@, segs_of(compiled_for_shape(vid, entries[i - 1].1@, sm))),
        )
    }
}

/// The message rule a catalog entry produces: every locale's template
/// compiled, or the first locale's compilation error.
pub open spec fn catalog_rule(
    vid: Seq<char>,
    entries: Seq<(String, String)>,
    sm: ShapeModel,
) -> Result<MessageRuleModel, SchemaErrorModel> {
    match cat_first_bad(vid, entries, sm, 0) {
        Some(b) => Err(err_of(compiled_for_shape(vid, entries[b].1@, sm))),
        None => Ok(
            MessageRuleModel::Catalog(cat_segs_upto(vid, entries, sm, entries.len() as int)),
        ),
    }
}

/// The taxonomy-wide fallback for a variant with no template and no catalog
/// entry.
pub open spec fn fallback_rule(policy: bool) -> MessageRuleModel {
    if policy {
        MessageRuleModel::BareIdentifier
    } else {
        MessageRuleModel::CallerDescription
    }
}

/// A missing catalog entry: an error when the message id was declared, the
/// taxonomy-wide fallback when it was only defaulted.
pub open spec fn missing_or_fallback(v: VariantSpec, policy: bool) -> Result<
    MessageRuleModel,
    SchemaErrorModel,
> {
    if v.options.message_id is Some {
        Err(SchemaErrorModel::MissingCatalogEntry { variant_id: v.id@, message_id: msg_id_of(v) })
    } else {
        Ok(fallback_rule(policy))
    }
}

/// How a non-group variant's message is produced, or why its declaration is
/// invalid. An explicit template comes first (literal on unit shapes or with
/// interpolation switched off); then the catalog; then the taxonomy-wide
/// fallback.
pub open spec fn message_rule_model(
    v: VariantSpec,
    policy: bool,
    cat: Option<MessageCatalog>,
) -> Result<MessageRuleModel, SchemaErrorModel> {
    match v.options.message_template {
        Some(t) => if v.shape@ is Unit || v.options.ignore_interpolation {
            Ok(MessageRuleModel::Literal(t@))
        } else {
            match compiled_for_shape(v.id@, t@, v.shape@) {
                Ok(segs) => Ok(MessageRuleModel::Template(segs)),
                Err(e) => Err(e),
            }
        },
        None => match cat {
            Some(c) => match cat_entry(c, msg_id_of(v)) {
                Some(tr) => if tr.entries@.len() > 0 {
                    catalog_rule(v.id@, tr.entries@, v.shape@)
                } else {
                    missing_or_fallback(v, policy)
                },
                None => missing_or_fallback(v, policy),
            },
            None => Ok(fallback_rule(policy)),
        },
    }
}

/// The message rule of a variant whose declaration is valid.
pub open spec fn message_of(v: VariantSpec, policy: bool, cat: Option<MessageCatalog>) -> MessageRuleModel {
    match message_rule_model(v, policy, cat) {
        Ok(m) => m,
        Err(_) => MessageRuleModel::CallerDescription,
    }
}

/// The pre-resolved rule of one variant. A group variant keeps only its
/// identity and shape: its descriptor comes wholly from the nested error.
pub open spec fn rule_model(v: VariantSpec, policy: bool, cat: Option<MessageCatalog>) -> RuleModel {
    if v.options.is_group {
        RuleModel {
            variant_id: v.id@,
            is_group: true,
            code: 500u16,
            kind: snake_case(v.id@),
            shape: v.shape@,
            message: MessageRuleModel::CallerDescription,
            details_idx: None,
        }
    } else {
        RuleModel {
            variant_id: v.id@,
            is_group: false,
            code: code_of(v),
            kind: kind_of(v),
            shape: v.shape@,
            message: message_of(v, policy, cat),
            details_idx: details_idx_spec(v.shape@, 0),
        }
    }
}

/// The first reason variant `k` is invalid, if any: a duplicate identifier,
/// then (for groups) the group shape, else the status options and then the
/// message declaration.
pub open spec fn variant_issue(s: TaxonomySchema, k: int) -> Option<SchemaErrorModel> {
    let v = s.variants@[k];
    if dup_before(s.variants@, k) {
        Some(SchemaErrorModel::DuplicateVariantId { id: v.id@ })
    } else if v.options.is_group {
        if group_shape_ok(v.shape@) {
            None
        } else {
            Some(SchemaErrorModel::BadGroupShape { variant_id: v.id@ })
        }
    } else {
        match checked_code(v) {
            Err(e) => Some(e),
            Ok(_) => match message_rule_model(v, taxonomy_policy(s), s.catalog) {
                Err(e) => Some(e),
                Ok(_) => None,
            },
        }
    }
}

/// The first invalid variant's issue, looking from `k` on.
pub open spec fn first_issue_from(s: TaxonomySchema, k: int) -> Option<SchemaErrorModel>
    decreases s.variants@.len() - k,
{
    if k < 0 || k >= s.variants@.len() {
        None
    } else {
        match variant_issue(s, k) {
            Some(e) => Some(e),
            None => first_issue_from(s, k + 1),
        }
    }
}

/// The first issue of the whole taxonomy, if any.
pub open spec fn first_issue(s: TaxonomySchema) -> Option<SchemaErrorModel> {
    first_issue_from(s, 0)
}

/// A taxonomy is valid when no variant has an issue.
pub open spec fn schema_valid(s: TaxonomySchema) -> bool {
    first_issue(s) is None
}

/// The rules a valid taxonomy builds to: one per variant, in order.
pub open spec fn schema_model(s: TaxonomySchema) -> Seq<RuleModel> {
    Seq::new(
        s.variants@.len(),
        |k: int| rule_model(s.variants@[k], taxonomy_policy(s), s.catalog),
    )
}

/// Compiles every locale's template of one catalog entry.
fn compile_catalog(vid: &str, tr: &Translation, shape: &FieldShape) -> (r: Result<
    Vec<(String, Vec<Segment>)>,
    SchemaError,
>)
    ensures
        match r {
            Ok(list) => cat_first_bad(vid@, tr.entries@, shape@, 0) is None && cat_segs_view(list@)
                == cat_segs_upto(vid@, tr.entries@, shape@, tr.entries@.len() as int),
            Err(e) => cat_first_bad(vid@, tr.entries@, shape@, 0) matches Some(b) && e@ == err_of(
                compiled_for_shape(vid@, tr.entries@[b].1@, shape@),
            ),
        },
{
    let n = tr.entries.len();
    let mut out: Vec<(String, Vec<Segment>)> = Vec::new();
    let mut i: usize = 0;
    while i < n
        invariant
            n == tr.entries@.len(),
            i <= n,
            cat_first_bad(vid@, tr.entries@, shape@, 0) == cat_first_bad(
                vid@,
                tr.entries@,
                shape@,
                i as int,
            ),
            cat_segs_view(out@) == cat_segs_upto(vid@, tr.entries@, shape@, i as int),
        decreases n - i,
    {
        let ghost pre = cat_segs_view(out@);
        match compile_for_shape(vid, tr.entries[i].1.as_str(), shape) {
            Ok(segs) => {
                let ghost segs_model = segs@;
                out.push((tr.entries[i].0.clone(), segs));
                proof {
                    assert(cat_segs_view(out@) =~= pre.push(
                        (tr.entries@[i as int].0@, segs_model),
                    ));
                }
            },
            Err(e) => {
                return Err(e);
            },
        }
        i += 1;
    }
    Ok(out)
}

impl TaxonomySchema {
    /// Whether any variant declares an explicit message template.
    fn any_explicit_template(&self) -> (r: bool)
        ensures
            r == taxonomy_policy(*self),
    {
        let n = self.variants.len();
        let mut j: usize = 0;
        while j < n
            invariant
                n == self.variants@.len(),
                j <= n,
                forall|l: int|
                    0 <= l < j ==> (#[trigger] self.variants@[l]).options.message_template is None,
            decreases n - j,
        {
            match &self.variants[j].options.message_template {
                Some(_) => {
                    proof {
                        assert(taxonomy_policy(*self));
                    }
                    return true;
                },
                None => {},
            }
            j += 1;
        }
        proof {
            assert(!taxonomy_policy(*self)) by {
                if taxonomy_policy(*self) {
                    let jj = choose|jj: int|
                        0 <= jj < self.variants@.len() && (#[trigger] self.variants@[jj]).options.message_template is Some;
                    assert(self.variants@[jj].options.message_template is None);
                }
            }
        }
        false
    }

    /// Whether an earlier variant already uses the identifier of variant `k`.
    fn dup_check(&self, k: usize) -> (r: bool)
        requires
            k < self.variants@.len(),
        ensures
            r == dup_before(self.variants@, k as int),
    {
        let mut l: usize = 0;
        while l < k
            invariant
                k < self.variants@.len(),
                l <= k,
                forall|m: int|
                    0 <= m < l ==> (#[trigger] self.variants@[m]).id@ != self.variants@[k as int].id@,
            decreases k - l,
        {
            if str_eq(self.variants[l].id.as_str(), self.variants[k].id.as_str()) {
                proof {
                    assert(dup_before(self.variants@, k as int));
                }
                return true;
            }
            l += 1;
        }
        proof {
            assert(!dup_before(self.variants@, k as int)) by {
                if dup_before(self.variants@, k as int) {
                    let m = choose|m: int|
                        0 <= m < k && (#[trigger] self.variants@[m]).id@ == self.variants@[k as int].id@;
                    assert(self.variants@[m].id@ != self.variants@[k as int].id@);
                }
            }
        }
        false
    }

    /// Validates the taxonomy and pre-resolves one rule per variant.
    ///
    /// Returns the rules exactly when no variant has an issue; otherwise
    /// reports the first issue, in declaration order. Within one variant the
    /// checks run in a fixed order: duplicate identifier, then (for groups)
    /// the group shape, else status options, then the message declaration.
    pub fn build(&self) -> (r: Result<ValidatedSchema, SchemaError>)
        ensures
            match r {
                Ok(vs) => schema_valid(*self) && vs@ == schema_model(*self),
                Err(e) => first_issue(*self) == Some(e@),
            },
            (r is Ok) == schema_valid(*self),
    {
        let policy = self.any_explicit_template();
        let n = self.variants.len();
        let mut rules: Vec<ResolvedRule> = Vec::new();
        let mut k: usize = 0;
        proof {
            assert(rules@.map_values(|r: ResolvedRule| r@) =~= schema_model(*self).subrange(0, 0));
        }
        while k < n
            invariant
                n == self.variants@.len(),
                k <= n,
                policy == taxonomy_policy(*self),
                first_issue(*self) == first_issue_from(*self, k as int),
                rules@.map_values(|r: ResolvedRule| r@) == schema_model(*self).subrange(
                    0,
                    k as int,
                ),
            decreases n - k,
        {
            if self.dup_check(k) {
                return Err(SchemaError::DuplicateVariantId { id: self.variants[k].id.clone() });
            }
            let v = &self.variants[k];
            let rule: ResolvedRule;
            if v.options.is_group {
                let ar = v.shape.arity_exec();
                let shape_ok = if ar != 1 {
                    false
                } else {
                    match v.shape.ty_at_exec(0) {
                        FieldTy::Nested => true,
                        _ => false,
                    }
                };
                if !shape_ok {
                    return Err(SchemaError::BadGroupShape { variant_id: v.id.clone() });
                }
                rule = ResolvedRule {
                    variant_id: v.id.clone(),
                    is_group: true,
                    code: 500,
                    kind: to_snake_case(v.id.as_str()),
                    shape: v.shape.clone(),
                    message: MessageRule::CallerDescription,
                    details_idx: None,
                };
            } else {
                let code: u16 = match v.options.explicit_code {
                    Some(c) => {
                        if 100 <= c && c <= 599 {
                            c
                        } else {
                            return Err(
                                SchemaError::CodeOutOfRange { variant_id: v.id.clone(), code: c },
                            );
                        }
                    },
                    None => match &v.options.status_keyword {
                        Some(kw) => match resolve_keyword(kw.as_str()) {
                            Some(c) => c,
                            None => {
                                return Err(
                                    SchemaError::UnknownStatusKeyword {
                                        variant_id: v.id.clone(),
                                        keyword: kw.clone(),
                                    },
                                );
                            },
                        },
                        None => 500,
                    },
                };
                let message: MessageRule = match &v.options.message_template {
                    Some(t) => {
                        if matches!(&v.shape, FieldShape::Unit) || v.options.ignore_interpolation {
                            MessageRule::Literal(t.clone())
                        } else {
                            match compile_for_shape(v.id.as_str(), t.as_str(), &v.shape) {
                                Ok(segs) => MessageRule::Template(segs),
                                Err(e) => {
                                    return Err(e);
                                },
                            }
                        }
                    },
                    None => match &self.catalog {
                        Some(c) => {
                            let mid: &str = match &v.options.message_id {
                                Some(m) => m.as_str(),
                                None => v.id.as_str(),
                            };
                            match c.lookup(mid) {
                                Some(tr) => {
                                    if tr.entries.len() > 0 {
                                        match compile_catalog(v.id.as_str(), tr, &v.shape) {
                                            Ok(list) => MessageRule::Catalog(list),
                                            Err(e) => {
                                                return Err(e);
                                            },
                                        }
                                    } else {
                                        if v.options.message_id.is_some() {
                                            return Err(
                                                SchemaError::MissingCatalogEntry {
                                                    variant_id: v.id.clone(),
                                                    message_id: mid.to_owned(),
                                                },
                                            );
                                        }
                                        if policy {
                                            MessageRule::BareIdentifier
                                        } else {
                                            MessageRule::CallerDescription
                                        }
                                    }
                                },
                                None => {
                                    if v.options.message_id.is_some() {
                                        return Err(
                                            SchemaError::MissingCatalogEntry {
                                                variant_id: v.id.clone(),
                                                message_id: mid.to_owned(),
                                            },
                                        );
                                    }
                                    if policy {
                                        MessageRule::BareIdentifier
                                    } else {
                                        MessageRule::CallerDescription
                                    }
                                },
                            }
                        },
                        None => {
                            if policy {
                                MessageRule::BareIdentifier
                            } else {
                                MessageRule::CallerDescription
                            }
                        },
                    },
                };
                let kind: String = match &v.options.kind_override {
                    Some(kv) => kv.clone(),
                    None => to_snake_case(v.id.as_str()),
                };
                let didx = v.shape.details_index();
                rule = ResolvedRule {
                    variant_id: v.id.clone(),
                    is_group: false,
                    code,
                    kind,
                    shape: v.shape.clone(),
                    message,
                    details_idx: didx,
                };
            }
            let ghost pre = rules@.map_values(|r: ResolvedRule| r@);
            proof {
                assert(rule@ == rule_model(self.variants@[k as int], policy, self.catalog));
                assert(variant_issue(*self, k as int) is None);
            }
            rules.push(rule);
            k += 1;
            proof {
                assert(rules@.map_values(|r: ResolvedRule| r@) =~= pre.push(
                    rule_model(self.variants@[k as int - 1], policy, self.catalog),
                ));
                assert(pre.push(rule_model(self.variants@[k as int - 1], policy, self.catalog))
                    =~= schema_model(*self).subrange(0, k as int));
            }
        }
        proof {
            assert(rules@.map_values(|r: ResolvedRule| r@) =~= schema_model(*self));
        }
        Ok(ValidatedSchema { rules })
    }
}

} // verus!
