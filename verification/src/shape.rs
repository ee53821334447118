//! Field shapes of a variant: no fields, an ordered list of anonymous typed
//! fields, or a list of named typed fields.

use vstd::prelude::*;

verus! {

/// The declared type of one field of a variant.
///
/// `Text`, `Int` and `Localized` fields have a defined textual representation
/// and may be bound by message placeholders; `Json` and `OptJson` fields feed
/// the descriptor's `details`; a `Nested` field holds another resolvable
/// error value and is only legal as the single field of a group variant.
#[derive(Clone, Copy, Debug)]
pub enum FieldTy {
    Text,
    Int,
    Json,
    OptJson,
    Localized,
    Nested,
}

/// The field shape of a variant.
#[derive(Debug)]
pub enum FieldShape {
    Unit,
    Positional(Vec<FieldTy>),
    Named(Vec<(String, FieldTy)>),
}

/// Mathematical model of a [`FieldShape`], with names as character sequences.
pub ghost enum ShapeModel {
    Unit,
    Positional(Seq<FieldTy>),
    Named(Seq<(Seq<char>, FieldTy)>),
}

impl View for FieldShape {
    type V = ShapeModel;

    open spec fn view(&self) -> ShapeModel {
        match self {
            FieldShape::Unit => ShapeModel::Unit,
            FieldShape::Positional(tys) => ShapeModel::Positional(tys@),
            FieldShape::Named(fs) => ShapeModel::Named(
                fs@.map_values(|p: (String, FieldTy)| (p.0@, p.1)),
            ),
        }
    }
}

impl Clone for FieldShape {
    fn clone(&self) -> (r: Self)
        ensures
            r@ == self@,
    {
        match self {
            FieldShape::Unit => FieldShape::Unit,
            FieldShape::Positional(tys) => {
                let mut out: Vec<FieldTy> = Vec::new();
                let n = tys.len();
                let mut i: usize = 0;
                while i < n
                    invariant
                        n == tys@.len(),
                        i <= n,
                        out@ =~= tys@.subrange(0, i as int),
                    decreases n - i,
                {
                    out.push(tys[i]);
                    i += 1;
                }
                proof {
                    assert(out@ =~= tys@);
                }
                FieldShape::Positional(out)
            },
            FieldShape::Named(fs) => {
                let mut out: Vec<(String, FieldTy)> = Vec::new();
                let n = fs.len();
                let mut i: usize = 0;
                while i < n
                    invariant
                        n == fs@.len(),
                        i <= n,
                        out@ =~= fs@.subrange(0, i as int),
                    decreases n - i,
                {
                    out.push((fs[i].0.clone(), fs[i].1));
                    i += 1;
                }
                proof {
                    assert(out@ =~= fs@);
                    assert(out@.map_values(|p: (String, FieldTy)| (p.0@, p.1)) =~= fs@.map_values(
                        |p: (String, FieldTy)| (p.0@, p.1),
                    ));
                }
                FieldShape::Named(out)
            },
        }
    }
}

/// How many fields a shape declares.
pub open spec fn arity(sm: ShapeModel) -> int {
    match sm {
        ShapeModel::Unit => 0,
        ShapeModel::Positional(tys) => tys.len() as int,
        ShapeModel::Named(fs) => fs.len() as int,
    }
}

/// The declared type of the field at a position; out-of-range positions count
/// as `Text`.
pub open spec fn ty_at(sm: ShapeModel, i: int) -> FieldTy {
    match sm {
        ShapeModel::Unit => FieldTy::Text,
        ShapeModel::Positional(tys) => if 0 <= i < tys.len() {
            tys[i]
        } else {
            FieldTy::Text
        },
        ShapeModel::Named(fs) => if 0 <= i < fs.len() {
            fs[i].1
        } else {
            FieldTy::Text
        },
    }
}

/// The declared field names, in order (empty unless the shape is named).
pub open spec fn names_of(sm: ShapeModel) -> Seq<Seq<char>> {
    match sm {
        ShapeModel::Named(fs) => fs.map_values(|p: (Seq<char>, FieldTy)| p.0),
        _ => Seq::empty(),
    }
}

/// Whether a field type has a defined textual representation.
pub open spec fn is_textual(ty: FieldTy) -> bool {
    match ty {
        FieldTy::Text => true,
        FieldTy::Int => true,
        FieldTy::Localized => true,
        _ => false,
    }
}

/// Whether a field type has a defined textual representation (executable
/// form).
pub fn is_textual_exec(ty: FieldTy) -> (r: bool)
    ensures
        r == is_textual(ty),
{
    match ty {
        FieldTy::Text => true,
        FieldTy::Int => true,
        FieldTy::Localized => true,
        _ => false,
    }
}

/// The position of the first field whose type feeds `details`, looking from
/// `i` on.
pub open spec fn details_idx_spec(sm: ShapeModel, i: int) -> Option<int>
    decreases arity(sm) - i,
{
    if i < 0 || i >= arity(sm) {
        None
    } else if ty_at(sm, i) is Json || ty_at(sm, i) is OptJson {
        Some(i)
    } else {
        details_idx_spec(sm, i + 1)
    }
}

impl FieldShape {
    /// The number of fields.
    pub fn arity_exec(&self) -> (r: usize)
        ensures
            r == arity(self@),
    {
        match self {
            FieldShape::Unit => 0,
            FieldShape::Positional(tys) => tys.len(),
            FieldShape::Named(fs) => fs.len(),
        }
    }

    /// The declared type of the field at a position (out of range: `Text`).
    pub fn ty_at_exec(&self, i: usize) -> (r: FieldTy)
        ensures
            r == ty_at(self@, i as int),
    {
        match self {
            FieldShape::Unit => FieldTy::Text,
            FieldShape::Positional(tys) => if i < tys.len() {
                tys[i]
            } else {
                FieldTy::Text
            },
            FieldShape::Named(fs) => if i < fs.len() {
                fs[i].1
            } else {
                FieldTy::Text
            },
        }
    }

    /// The declared field names, cloned in order.
    pub fn names_exec(&self) -> (r: Vec<String>)
        ensures
            crate::text::strings_view(r@) == names_of(self@),
    {
        let mut out: Vec<String> = Vec::new();
        match self {
            FieldShape::Named(fs) => {
                let n = fs.len();
                let mut i: usize = 0;
                while i < n
                    invariant
                        n == fs@.len(),
                        i <= n,
                        out@.len() == i,
                        forall|j: int| 0 <= j < i ==> out@[j]@ == fs@[j].0@,
                    decreases n - i,
                {
                    out.push(fs[i].0.clone());
                    i += 1;
                }
                proof {
                    assert(crate::text::strings_view(out@) =~= names_of(self@));
                }
            },
            _ => {
                proof {
                    assert(crate::text::strings_view(out@) =~= names_of(self@));
                }
            },
        }
        out
    }

    /// The position of the first field whose type feeds `details`.
    pub fn details_index(&self) -> (r: Option<usize>)
        ensures
            match r {
                Some(i) => details_idx_spec(self@, 0) == Some(i as int),
                None => details_idx_spec(self@, 0) is None,
            },
    {
        let n = self.arity_exec();
        let mut i: usize = 0;
        while i < n
            invariant
                n == arity(self@),
                i <= n,
                details_idx_spec(self@, 0) == details_idx_spec(self@, i as int),
            decreases n - i,
        {
            let ty = self.ty_at_exec(i);
            match ty {
                FieldTy::Json => {
                    return Some(i);
                },
                FieldTy::OptJson => {
                    return Some(i);
                },
                _ => {},
            }
            i += 1;
        }
        None
    }
}

} // verus!
