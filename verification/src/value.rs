//! Runtime error occurrences: a variant identifier, the variant's field
//! values, and a caller-supplied textual description.

use vstd::prelude::*;
use crate::shape::FieldShape;
use crate::shape::FieldTy;
use crate::shape::ShapeModel;
use crate::shape::arity;
use crate::shape::ty_at;
use crate::text::dec_str;
use crate::text::strings_view;
use crate::text::u64_to_string;
use crate::translate::Translation;
use crate::translate::tr_get;

verus! {

/// One field value of an error occurrence, tagged by its declared type.
#[derive(Debug)]
pub enum FieldValue {
    /// A plain textual field.
    Text(String),
    /// An unsigned integer field, rendered in decimal.
    Int(u64),
    /// A structured JSON payload, fed to `details`.
    Json(serde_json::Value),
    /// An optional structured JSON payload.
    OptJson(Option<serde_json::Value>),
    /// A multi-locale text value; interpolation substitutes the text of the
    /// locale being rendered.
    Localized(Translation),
    /// A nested error value, resolved in place of a group variant.
    Nested(Box<ErrorValue>),
}

/// One error occurrence: which variant it is, its field values in
/// declaration order, and the caller-supplied textual rendering used when the
/// taxonomy synthesizes no description of its own.
#[derive(Debug)]
pub struct ErrorValue {
    pub variant_id: String,
    pub fields: Vec<FieldValue>,
    pub description: String,
}

/// The textual representation of one field value under a locale. Payload and
/// nested fields have none; validation keeps placeholders off them.
pub open spec fn field_text_model(f: FieldValue, loc: Seq<char>) -> Seq<char> {
    match f {
        FieldValue::Text(s) => s@,
        FieldValue::Int(n) => dec_str(n as nat),
        FieldValue::Localized(t) => tr_get(t.entries@, loc),
        _ => Seq::empty(),
    }
}

/// The textual representations of all fields, in order.
pub open spec fn texts_model(fields: Seq<FieldValue>, loc: Seq<char>) -> Seq<Seq<char>> {
    fields.map_values(|f: FieldValue| field_text_model(f, loc))
}

/// Renders every field's textual representation under a locale.
pub fn build_texts(fields: &Vec<FieldValue>, loc: &str) -> (r: Vec<String>)
    ensures
        strings_view(r@) == texts_model(fields@, loc@),
{
    let n = fields.len();
    let mut out: Vec<String> = Vec::new();
    let mut i: usize = 0;
    while i < n
        invariant
            n == fields@.len(),
            i <= n,
            out@.len() == i,
            forall|j: int|
                0 <= j < i ==> (#[trigger] out@[j])@ == field_text_model(fields@[j], loc@),
        decreases n - i,
    {
        let s: String = match &fields[i] {
            FieldValue::Text(s) => s.clone(),
            FieldValue::Int(v) => u64_to_string(*v),
            FieldValue::Localized(t) => t.get(loc).to_owned(),
            _ => String::new(),
        };
        out.push(s);
        i += 1;
    }
    proof {
        assert(strings_view(out@) =~= texts_model(fields@, loc@));
    }
    out
}

/// Whether a field value has the declared type.
pub open spec fn ty_matches(f: FieldValue, ty: FieldTy) -> bool {
    match f {
        FieldValue::Text(_) => ty is Text,
        FieldValue::Int(_) => ty is Int,
        FieldValue::Json(_) => ty is Json,
        FieldValue::OptJson(_) => ty is OptJson,
        FieldValue::Localized(_) => ty is Localized,
        FieldValue::Nested(_) => ty is Nested,
    }
}

/// Whether an occurrence's field values fit a declared shape: same arity,
/// each value of its declared type.
pub open spec fn fields_match(sm: ShapeModel, fields: Seq<FieldValue>) -> bool {
    &&& fields.len() == arity(sm)
    &&& forall|i: int| 0 <= i < fields.len() ==> ty_matches(#[trigger] fields[i], ty_at(sm, i))
}

/// Whether a field value has the declared type (executable form).
pub fn ty_matches_exec(f: &FieldValue, ty: FieldTy) -> (r: bool)
    ensures
        r == ty_matches(*f, ty),
{
    match f {
        FieldValue::Text(_) => matches!(ty, FieldTy::Text),
        FieldValue::Int(_) => matches!(ty, FieldTy::Int),
        FieldValue::Json(_) => matches!(ty, FieldTy::Json),
        FieldValue::OptJson(_) => matches!(ty, FieldTy::OptJson),
        FieldValue::Localized(_) => matches!(ty, FieldTy::Localized),
        FieldValue::Nested(_) => matches!(ty, FieldTy::Nested),
    }
}

/// Whether an occurrence's field values fit a declared shape (executable
/// form).
pub fn fields_match_exec(shape: &FieldShape, fields: &Vec<FieldValue>) -> (r: bool)
    ensures
        r == fields_match(shape@, fields@),
{
    let n = fields.len();
    if n != shape.arity_exec() {
        return false;
    }
    let mut i: usize = 0;
    while i < n
        invariant
            n == fields@.len(),
            n == arity(shape@),
            i <= n,
            forall|j: int| 0 <= j < i ==> ty_matches(#[trigger] fields@[j], ty_at(shape@, j)),
        decreases n - i,
    {
        if !ty_matches_exec(&fields[i], shape.ty_at_exec(i)) {
            return false;
        }
        i += 1;
    }
    true
}

} // verus!
