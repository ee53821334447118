//! The library's laws: properties of validation and resolution, stated and
//! proved once over the mathematical models.

use vstd::prelude::*;
use crate::schema::RuleModel;
use crate::schema::TaxonomySchema;
use crate::schema::checked_code;
use crate::schema::compiled_for_shape;
use crate::schema::dup_before;
use crate::schema::first_issue_from;
use crate::schema::schema_model;
use crate::schema::schema_valid;
use crate::schema::variant_issue;
use crate::status::lemma_keyword_code_in_range;
use crate::resolve::lemma_rule_idx_bounds;
use crate::resolve::resolve_model;
use crate::resolve::rule_idx;
use crate::resolve::value_wf;
use crate::value::ErrorValue;
use crate::value::FieldValue;

verus! {

/// Every rule's code is a valid HTTP status code.
pub open spec fn rules_wf(rules: Seq<RuleModel>) -> bool {
    forall|i: int| 0 <= i < rules.len() ==> 100 <= (#[trigger] rules[i]).code <= 599
}

/// The rules any taxonomy builds to carry only valid HTTP status codes:
/// explicit codes are range-checked, the keyword table lies within range,
/// and the default is 500.
pub proof fn lemma_schema_model_codes_in_range(s: TaxonomySchema)
    ensures
        rules_wf(schema_model(s)),
{
    assert forall|i: int| 0 <= i < schema_model(s).len() implies 100 <= (#[trigger] schema_model(
        s,
    )[i]).code <= 599 by {
        let v = s.variants@[i];
        if !v.options.is_group {
            match v.options.explicit_code {
                Some(_) => {},
                None => match v.options.status_keyword {
                    Some(kw) => {
                        lemma_keyword_code_in_range(kw@);
                    },
                    None => {},
                },
            }
        }
    }
}

/// Every resolved descriptor's code lies in 100..=599, group delegation
/// included.
pub proof fn lemma_resolved_code_in_range(rules: Seq<RuleModel>, v: ErrorValue, loc: Seq<char>)
    requires
        rules_wf(rules),
        value_wf(rules, v),
    ensures
        100 <= resolve_model(rules, v, loc).code <= 599,
    decreases v,
{
    lemma_rule_idx_bounds(rules, v.variant_id@, 0);
    let ri = rule_idx(rules, v.variant_id@, 0)->Some_0;
    let rm = rules[ri];
    if rm.is_group && v.fields@.len() == 1 {
        match v.fields@[0] {
            FieldValue::Nested(b) => {
                lemma_resolved_code_in_range(rules, *b, loc);
            },
            _ => {},
        }
    }
}

/// Resolution is deterministic: the descriptor is a function of the rules,
/// the occurrence and the locale alone, so two resolutions of the same
/// occurrence are equal in every field.
pub proof fn lemma_resolution_deterministic(
    rules: Seq<RuleModel>,
    v1: ErrorValue,
    v2: ErrorValue,
    l1: Seq<char>,
    l2: Seq<char>,
)
    requires
        v1 == v2,
        l1 == l2,
    ensures
        resolve_model(rules, v1, l1) == resolve_model(rules, v2, l2),
{
}

/// The `kind` of a non-group variant is stable: it depends only on the
/// variant's rule, never on field values, locale or description. (A group
/// variant's kind is that of whatever nested error it carries.)
pub proof fn lemma_kind_stable(
    rules: Seq<RuleModel>,
    v1: ErrorValue,
    v2: ErrorValue,
    l1: Seq<char>,
    l2: Seq<char>,
)
    requires
        value_wf(rules, v1),
        value_wf(rules, v2),
        v1.variant_id@ == v2.variant_id@,
        !(rules[rule_idx(rules, v1.variant_id@, 0)->Some_0].is_group),
    ensures
        resolve_model(rules, v1, l1).kind == resolve_model(rules, v2, l2).kind,
{
    lemma_rule_idx_bounds(rules, v1.variant_id@, 0);
}

/// `details` round-trips: the first payload-typed field of a non-group
/// variant appears in the descriptor exactly — a JSON value as `Some` of
/// that value, an optional one as itself (so an absent payload yields
/// `None`).
pub proof fn lemma_details_round_trip(rules: Seq<RuleModel>, v: ErrorValue, loc: Seq<char>)
    requires
        value_wf(rules, v),
        ({
            &&& rule_idx(rules, v.variant_id@, 0) matches Some(ri)
            &&& !rules[ri].is_group
            &&& rules[ri].details_idx matches Some(di)
            &&& 0 <= di < v.fields@.len()
        }),
    ensures
        (v.fields@[rules[rule_idx(rules, v.variant_id@, 0)->Some_0].details_idx->Some_0] matches
            FieldValue::Json(val) ==> resolve_model(rules, v, loc).details == Some(val)),
        (v.fields@[rules[rule_idx(rules, v.variant_id@, 0)->Some_0].details_idx->Some_0] matches
            FieldValue::OptJson(o) ==> resolve_model(rules, v, loc).details == o),
{
    lemma_rule_idx_bounds(rules, v.variant_id@, 0);
}

/// The nested error value carried by a group occurrence.
pub open spec fn nested_of(v: ErrorValue) -> ErrorValue {
    match v.fields@[0] {
        FieldValue::Nested(b) => *b,
        _ => v,
    }
}

/// Group delegation: a group occurrence resolves to exactly the descriptor
/// of its nested error value — all four fields, nothing merged in.
pub proof fn lemma_group_delegation(rules: Seq<RuleModel>, v: ErrorValue, loc: Seq<char>)
    requires
        value_wf(rules, v),
        rule_idx(rules, v.variant_id@, 0) matches Some(ri) && rules[ri].is_group,
    ensures
        resolve_model(rules, v, loc) == resolve_model(rules, nested_of(v), loc),
{
    lemma_rule_idx_bounds(rules, v.variant_id@, 0);
}

proof fn lemma_issue_propagates(s: TaxonomySchema, j: int, k: int)
    requires
        0 <= j <= k < s.variants@.len(),
        variant_issue(s, k) is Some,
    ensures
        first_issue_from(s, j) is Some,
    decreases k - j,
{
    if j < k {
        if variant_issue(s, j) is Some {
        } else {
            lemma_issue_propagates(s, j + 1, k);
        }
    }
}

/// A valid taxonomy has no per-variant issue at all.
pub proof fn lemma_valid_schema_variants_ok(s: TaxonomySchema, k: int)
    requires
        schema_valid(s),
        0 <= k < s.variants@.len(),
    ensures
        variant_issue(s, k) is None,
{
    if variant_issue(s, k) is Some {
        lemma_issue_propagates(s, 0, k);
    }
}

/// Placeholder validation happens at build time: a taxonomy holding a
/// non-group variant whose explicit template does not compile against its
/// field shape (a mismatched marker count, an unknown name, an unclosed or
/// non-textual placeholder) is invalid, so no resolution ever sees it.
pub proof fn lemma_invalid_template_rejected(s: TaxonomySchema, k: int)
    requires
        0 <= k < s.variants@.len(),
        ({
            let v = s.variants@[k];
            &&& !v.options.is_group
            &&& checked_code(v) is Ok
            &&& v.options.message_template matches Some(t)
            &&& !(v.shape@ is Unit)
            &&& !v.options.ignore_interpolation
            &&& compiled_for_shape(v.id@, t@, v.shape@) is Err
        }),
    ensures
        !schema_valid(s),
{
    let v = s.variants@[k];
    if !dup_before(s.variants@, k) {
        assert(variant_issue(s, k) is Some);
    }
    lemma_issue_propagates(s, 0, k);
}

} // verus!
