//! Resolution: turning one error occurrence into its descriptor through the
//! pre-resolved rule of its variant.
//!
//! Resolution is a pure, total function of the validated schema, the
//! occurrence and the requested locale: once a schema has been built, it
//! never fails. A group variant's descriptor is wholly that of its nested
//! error value, resolved recursively.

use vstd::prelude::*;
use crate::ApiError;
use crate::ApiErrorModel;
use crate::payload::clone_opt_value;
use crate::schema::MessageRule;
use crate::schema::MessageRuleModel;
use crate::schema::RuleModel;
use crate::schema::ValidatedSchema;
use crate::schema::cat_segs_view;
use crate::template::Segment;
use crate::template::render_segments;
use crate::template::render_segs;
use crate::text::str_eq;
use crate::value::ErrorValue;
use crate::value::FieldValue;
use crate::value::build_texts;
use crate::value::fields_match;
use crate::value::fields_match_exec;
use crate::value::texts_model;

verus! {

/// The first rule index at or after `i` whose variant identifier equals
/// `id`.
pub open spec fn rule_idx(rules: Seq<RuleModel>, id: Seq<char>, i: int) -> Option<int>
    decreases rules.len() - i,
{
    if i < 0 || i >= rules.len() {
        None
    } else if rules[i].variant_id == id {
        Some(i)
    } else {
        rule_idx(rules, id, i + 1)
    }
}

pub proof fn lemma_rule_idx_bounds(rules: Seq<RuleModel>, id: Seq<char>, i: int)
    ensures
        rule_idx(rules, id, i) matches Some(j) ==> i <= j < rules.len() && rules[j].variant_id
            == id,
    decreases rules.len() - i,
{
    if i < 0 || i >= rules.len() {
    } else if rules[i].variant_id == id {
    } else {
        lemma_rule_idx_bounds(rules, id, i + 1);
    }
}

/// An occurrence is well-formed against a rule set when its variant has a
/// rule, its fields fit that rule's shape, and — for group variants — its
/// single nested error value is well-formed in turn.
pub open spec fn value_wf(rules: Seq<RuleModel>, v: ErrorValue) -> bool
    decreases v,
{
    match rule_idx(rules, v.variant_id@, 0) {
        None => false,
        Some(ri) => {
            &&& fields_match(rules[ri].shape, v.fields@)
            &&& (rules[ri].is_group ==> v.fields@.len() == 1 && match v.fields@[0] {
                FieldValue::Nested(b) => value_wf(rules, *b),
                _ => false,
            })
        },
    }
}

/// The first compiled catalog locale at or after `i` matching `loc`.
pub open spec fn loc_idx(
    entries: Seq<(Seq<char>, Seq<Segment>)>,
    loc: Seq<char>,
    i: int,
) -> Option<int>
    decreases entries.len() - i,
{
    if i < 0 || i >= entries.len() {
        None
    } else if entries[i].0 == loc {
        Some(i)
    } else {
        loc_idx(entries, loc, i + 1)
    }
}

/// The catalog locale actually rendered: the requested one when present,
/// else the first in catalog order.
pub open spec fn chosen_locale(entries: Seq<(Seq<char>, Seq<Segment>)>, loc: Seq<char>) -> int {
    match loc_idx(entries, loc, 0) {
        Some(i) => i,
        None => 0,
    }
}

/// The message a rule produces for an occurrence under a locale.
pub open spec fn message_model(rm: RuleModel, v: ErrorValue, loc: Seq<char>) -> Seq<char> {
    match rm.message {
        MessageRuleModel::Literal(t) => t,
        MessageRuleModel::Template(segs) => render_segs(segs, texts_model(v.fields@, loc)),
        MessageRuleModel::Catalog(entries) => if entries.len() == 0 {
            Seq::empty()
        } else {
            let li = chosen_locale(entries, loc);
            render_segs(entries[li].1, texts_model(v.fields@, entries[li].0))
        },
        MessageRuleModel::BareIdentifier => rm.variant_id,
        MessageRuleModel::CallerDescription => v.description@,
    }
}

/// The `details` a rule extracts from an occurrence: the first
/// payload-typed field, copied; group rules extract nothing.
pub open spec fn details_model(rm: RuleModel, v: ErrorValue) -> Option<serde_json::Value> {
    match rm.details_idx {
        None => None,
        Some(i) => if 0 <= i < v.fields@.len() {
            match v.fields@[i] {
                FieldValue::Json(val) => Some(val),
                FieldValue::OptJson(o) => o,
                _ => None,
            }
        } else {
            None
        },
    }
}

/// The descriptor a non-group rule produces.
pub open spec fn non_group_model(rm: RuleModel, v: ErrorValue, loc: Seq<char>) -> ApiErrorModel {
    ApiErrorModel {
        code: rm.code,
        kind: rm.kind,
        message: message_model(rm, v, loc),
        details: details_model(rm, v),
    }
}

/// The descriptor an occurrence resolves to: its variant's rule applied,
/// with group variants delegating wholly to their nested error value.
pub open spec fn resolve_model(rules: Seq<RuleModel>, v: ErrorValue, loc: Seq<char>) -> ApiErrorModel
    decreases v,
{
    match rule_idx(rules, v.variant_id@, 0) {
        None => ApiErrorModel {
            code: 500u16,
            kind: Seq::empty(),
            message: v.description@,
            details: None,
        },
        Some(ri) => {
            let rm = rules[ri];
            if rm.is_group && v.fields@.len() == 1 {
                match v.fields@[0] {
                    FieldValue::Nested(b) => resolve_model(rules, *b, loc),
                    _ => non_group_model(rm, v, loc),
                }
            } else {
                non_group_model(rm, v, loc)
            }
        },
    }
}

impl ValidatedSchema {
    /// The position of the rule for a variant identifier.
    fn find_rule(&self, id: &str) -> (r: Option<usize>)
        ensures
            match r {
                Some(i) => rule_idx(self@, id@, 0) == Some(i as int) && i < self.rules@.len(),
                None => rule_idx(self@, id@, 0) is None,
            },
    {
        let n = self.rules.len();
        let mut i: usize = 0;
        while i < n
            invariant
                n == self.rules@.len(),
                i <= n,
                rule_idx(self@, id@, 0) == rule_idx(self@, id@, i as int),
            decreases n - i,
        {
            if str_eq(self.rules[i].variant_id.as_str(), id) {
                return Some(i);
            }
            i += 1;
        }
        None
    }

    /// Whether an occurrence is well-formed against this schema.
    pub fn check_value(&self, v: &ErrorValue) -> (r: bool)
        ensures
            r == value_wf(self@, *v),
        decreases *v,
    {
        match self.find_rule(v.variant_id.as_str()) {
            None => false,
            Some(ri) => {
                let rule = &self.rules[ri];
                if !fields_match_exec(&rule.shape, &v.fields) {
                    return false;
                }
                if rule.is_group {
                    if v.fields.len() != 1 {
                        return false;
                    }
                    match &v.fields[0] {
                        FieldValue::Nested(b) => self.check_value(&**b),
                        _ => false,
                    }
                } else {
                    true
                }
            },
        }
    }

    /// Resolves one well-formed error occurrence to its descriptor under a
    /// locale. Total: once the schema is built, resolution never fails.
    pub fn resolve(&self, v: &ErrorValue, locale: &str) -> (r: ApiError)
        requires
            value_wf(self@, *v),
        ensures
            r@ == resolve_model(self@, *v, locale@),
        decreases *v,
    {
        match self.find_rule(v.variant_id.as_str()) {
            None => {
                proof {
                    reveal_strlit("");
                    assert(""@ =~= Seq::<char>::empty());
                }
                ApiError::new(500, "", v.description.clone(), None)
            },
            Some(ri) => {
                let rule = &self.rules[ri];
                if rule.is_group && v.fields.len() == 1 {
                    match &v.fields[0] {
                        FieldValue::Nested(b) => {
                            let inner: &ErrorValue = &**b;
                            return self.resolve(inner, locale);
                        },
                        _ => {},
                    }
                }
                let message: String = match &rule.message {
                    MessageRule::Literal(t) => t.clone(),
                    MessageRule::Template(segs) => {
                        let texts = build_texts(&v.fields, locale);
                        render_segments(segs, &texts)
                    },
                    MessageRule::Catalog(entries) => {
                        if entries.len() == 0 {
                            String::new()
                        } else {
                            let li = find_locale(entries, locale);
                            let texts = build_texts(&v.fields, entries[li].0.as_str());
                            render_segments(&entries[li].1, &texts)
                        }
                    },
                    MessageRule::BareIdentifier => rule.variant_id.clone(),
                    MessageRule::CallerDescription => v.description.clone(),
                };
                let details: Option<serde_json::Value> = match rule.details_idx {
                    None => None,
                    Some(i) => {
                        if i < v.fields.len() {
                            match &v.fields[i] {
                                FieldValue::Json(val) => Some(val.clone()),
                                FieldValue::OptJson(o) => clone_opt_value(o),
                                _ => None,
                            }
                        } else {
                            None
                        }
                    },
                };
                ApiError { kind: rule.kind.clone(), code: rule.code, message, details }
            },
        }
    }

    /// Checks an occurrence and resolves it; `None` exactly when it is not
    /// well-formed against this schema.
    pub fn resolve_checked(&self, v: &ErrorValue, locale: &str) -> (r: Option<ApiError>)
        ensures
            match r {
                Some(a) => value_wf(self@, *v) && a@ == resolve_model(self@, *v, locale@),
                None => !value_wf(self@, *v),
            },
    {
        if self.check_value(v) {
            Some(self.resolve(v, locale))
        } else {
            None
        }
    }
}

/// The compiled catalog entry to render for a requested locale.
fn find_locale(entries: &Vec<(String, Vec<Segment>)>, loc: &str) -> (r: usize)
    requires
        entries@.len() > 0,
    ensures
        r < entries@.len(),
        r as int == chosen_locale(cat_segs_view(entries@), loc@),
{
    let ghost cv = cat_segs_view(entries@);
    let n = entries.len();
    let mut i: usize = 0;
    while i < n
        invariant
            cv == cat_segs_view(entries@),
            n == entries@.len(),
            i <= n,
            loc_idx(cv, loc@, 0) == loc_idx(cv, loc@, i as int),
        decreases n - i,
    {
        if str_eq(entries[i].0.as_str(), loc) {
            return i;
        }
        i += 1;
    }
    0
}

} // verus!
