//! Message templates: lexing placeholder markers, compiling a template against
//! a variant's field shape, and rendering the compiled form.
//!
//! The grammar is small: `{` opens a placeholder, the characters up to the
//! first `}` are its name, and an empty name is the positional marker `{}`.
//! A `{` with no closing `}` (or with another `{` before it) makes the
//! template malformed. Any other character, `}` included, stands for itself.

use vstd::prelude::*;
use vstd::string::StrSliceExecFns;
use crate::text::push_char;
use crate::text::str_eq;
use crate::text::strings_view;

verus! {

/// One token of a template: a literal character or a placeholder name.
pub ghost enum TokView {
    C(char),
    Ph(Seq<char>),
}

/// Executable form of a template token.
pub enum Tok {
    C(char),
    Ph(String),
}

impl View for Tok {
    type V = TokView;

    open spec fn view(&self) -> TokView {
        match self {
            Tok::C(c) => TokView::C(*c),
            Tok::Ph(s) => TokView::Ph(s@),
        }
    }
}

/// The views of a token sequence.
pub open spec fn toks_view(toks: Seq<Tok>) -> Seq<TokView> {
    toks.map_values(|tk: Tok| tk@)
}

/// One compiled piece of a template: a literal character or a reference to a
/// field by position.
#[derive(Clone, Copy, Debug)]
pub enum Segment {
    Lit(char),
    Arg(usize),
}

/// The index of the `}` that closes a placeholder whose name starts at `i`;
/// `None` when the template ends, or another `{` appears, first.
pub open spec fn ph_end(t: Seq<char>, i: int) -> Option<int>
    decreases t.len() - i,
{
    if i < 0 || i >= t.len() {
        None
    } else if t[i] == '}' {
        Some(i)
    } else if t[i] == '{' {
        None
    } else {
        ph_end(t, i + 1)
    }
}

/// The tokens of the template from position `i` on; `None` when some
/// placeholder is left unclosed.
pub open spec fn lex_from(t: Seq<char>, i: int) -> Option<Seq<TokView>>
    decreases t.len() - i,
{
    if i < 0 || i >= t.len() {
        Some(Seq::empty())
    } else if t[i] == '{' {
        match ph_end(t, i + 1) {
            None => None,
            Some(j) => if i + 1 <= j && j < t.len() {
                match lex_from(t, j + 1) {
                    None => None,
                    Some(rest) => Some(seq![TokView::Ph(t.subrange(i + 1, j))] + rest),
                }
            } else {
                None
            },
        }
    } else {
        match lex_from(t, i + 1) {
            None => None,
            Some(rest) => Some(seq![TokView::C(t[i])] + rest),
        }
    }
}

/// The tokens of a whole template, or `None` when it is malformed.
pub open spec fn lex_spec(t: Seq<char>) -> Option<Seq<TokView>> {
    lex_from(t, 0)
}

/// Appends a lexer's remaining output to what it has already produced.
pub open spec fn lex_join(done: Seq<TokView>, rest: Option<Seq<TokView>>) -> Option<Seq<TokView>> {
    match rest {
        None => None,
        Some(r) => Some(done + r),
    }
}

/// Finds the `}` that closes a placeholder whose name starts at `start`.
fn scan_close(t: &str, start: usize, len: usize) -> (r: Option<usize>)
    requires
        len == t@.len(),
        start <= len,
    ensures
        match r {
            Some(j) => start <= j < len && t@[j as int] == '}' && ph_end(t@, start as int) == Some(
                j as int,
            ),
            None => ph_end(t@, start as int) is None,
        },
{
    let mut j = start;
    while j < len
        invariant
            start <= j <= len,
            len == t@.len(),
            ph_end(t@, start as int) == ph_end(t@, j as int),
        decreases len - j,
    {
        let cj = t.get_char(j);
        if cj == '}' {
            return Some(j);
        }
        if cj == '{' {
            return None;
        }
        j += 1;
    }
    None
}

/// Splits a template into tokens; `None` when a placeholder is left unclosed.
pub fn lex_template(t: &str) -> (r: Option<Vec<Tok>>)
    ensures
        match r {
            Some(toks) => lex_spec(t@) == Some(toks_view(toks@)),
            None => lex_spec(t@) is None,
        },
{
    let len = t.unicode_len();
    let mut out: Vec<Tok> = Vec::new();
    let mut i: usize = 0;
    while i < len
        invariant
            len == t@.len(),
            i <= len,
            lex_spec(t@) == lex_join(toks_view(out@), lex_from(t@, i as int)),
        decreases len - i,
    {
        let ghost prev_toks = toks_view(out@);
        let c = t.get_char(i);
        if c == '{' {
            if let Some(j) = scan_close(t, i + 1, len) {
                let name = t.substring_char(i + 1, j);
                out.push(Tok::Ph(name.to_owned()));
                proof {
                    assert(toks_view(out@) =~= prev_toks + seq![
                        TokView::Ph(t@.subrange(i as int + 1, j as int)),
                    ]);
                    match lex_from(t@, j as int + 1) {
                        Some(rest) => {
                            assert((prev_toks + seq![
                                TokView::Ph(t@.subrange(i as int + 1, j as int)),
                            ]) + rest =~= prev_toks + (seq![
                                TokView::Ph(t@.subrange(i as int + 1, j as int)),
                            ] + rest));
                        },
                        None => {},
                    }
                }
                i = j + 1;
            } else {
                return None;
            }
        } else {
            out.push(Tok::C(c));
            proof {
                assert(toks_view(out@) =~= prev_toks + seq![TokView::C(t@[i as int])]);
                match lex_from(t@, i as int + 1) {
                    Some(rest) => {
                        assert((prev_toks + seq![TokView::C(t@[i as int])]) + rest =~= prev_toks
                            + (seq![TokView::C(t@[i as int])] + rest));
                    },
                    None => {},
                }
            }
            i += 1;
        }
    }
    proof {
        assert(toks_view(out@) + Seq::<TokView>::empty() =~= toks_view(out@));
    }
    Some(out)
}

/// The first token index at or after `i` that is a named (non-empty)
/// placeholder.
pub open spec fn first_named_ph(toks: Seq<TokView>, i: int) -> Option<int>
    decreases toks.len() - i,
{
    if i < 0 || i >= toks.len() {
        None
    } else if toks[i] matches TokView::Ph(n) && n.len() > 0 {
        Some(i)
    } else {
        first_named_ph(toks, i + 1)
    }
}

/// How many of the first `i` tokens are placeholders.
pub open spec fn marker_count_upto(toks: Seq<TokView>, i: int) -> int
    decreases i,
{
    if i <= 0 {
        0
    } else {
        marker_count_upto(toks, i - 1) + (if toks[i - 1] is Ph {
            1int
        } else {
            0int
        })
    }
}

/// The number of placeholders in a token sequence.
pub open spec fn marker_count(toks: Seq<TokView>) -> int {
    marker_count_upto(toks, toks.len() as int)
}

/// The compiled form of the first `i` tokens of a positional template: the
/// `k`-th marker becomes a reference to field `k`.
pub open spec fn segs_pos_upto(toks: Seq<TokView>, i: int) -> Seq<Segment>
    decreases i,
{
    if i <= 0 {
        Seq::empty()
    } else {
        segs_pos_upto(toks, i - 1).push(
            match toks[i - 1] {
                TokView::C(c) => Segment::Lit(c),
                TokView::Ph(_) => Segment::Arg(marker_count_upto(toks, i - 1) as usize),
            },
        )
    }
}

/// The first index at or after `i` that equals `name`.
pub open spec fn name_idx(names: Seq<Seq<char>>, name: Seq<char>, i: int) -> Option<int>
    decreases names.len() - i,
{
    if i < 0 || i >= names.len() {
        None
    } else if names[i] == name {
        Some(i)
    } else {
        name_idx(names, name, i + 1)
    }
}

/// The first token index at or after `i` whose placeholder name is not a
/// declared field name (the empty positional marker included).
pub open spec fn first_unknown_ph(toks: Seq<TokView>, names: Seq<Seq<char>>, i: int) -> Option<int>
    decreases toks.len() - i,
{
    if i < 0 || i >= toks.len() {
        None
    } else if toks[i] matches TokView::Ph(n) && name_idx(names, n, 0) is None {
        Some(i)
    } else {
        first_unknown_ph(toks, names, i + 1)
    }
}

/// The compiled form of the first `i` tokens of a named template: each
/// placeholder becomes a reference to the first field of that name.
pub open spec fn segs_named_upto(toks: Seq<TokView>, names: Seq<Seq<char>>, i: int) -> Seq<Segment>
    decreases i,
{
    if i <= 0 {
        Seq::empty()
    } else {
        segs_named_upto(toks, names, i - 1).push(
            match toks[i - 1] {
                TokView::C(c) => Segment::Lit(c),
                TokView::Ph(n) => match name_idx(names, n, 0) {
                    Some(k) => Segment::Arg(k as usize),
                    None => Segment::Arg(0),
                },
            },
        )
    }
}

/// Why a template was rejected against a variant's field shape.
#[derive(Debug, Clone)]
pub enum TemplateIssue {
    /// A `{` with no closing `}`.
    Unclosed,
    /// The number of positional markers differs from the field arity.
    CountMismatch { found: usize, expected: usize },
    /// A placeholder names no declared field (on a positional shape, any
    /// named placeholder).
    UnknownName { name: String },
}

/// Compiles the tokens of a positional template: every placeholder must be
/// the bare marker `{}` and their number must equal the field arity.
pub fn compile_positional(toks: &Vec<Tok>, arity: usize) -> (r: Result<Vec<Segment>, TemplateIssue>)
    ensures
        match r {
            Ok(segs) => {
                &&& first_named_ph(toks_view(toks@), 0) is None
                &&& marker_count(toks_view(toks@)) == arity
                &&& segs@ == segs_pos_upto(toks_view(toks@), toks@.len() as int)
            },
            Err(e) => match e {
                TemplateIssue::UnknownName { name } => {
                    &&& first_named_ph(toks_view(toks@), 0) matches Some(k)
                    &&& toks_view(toks@)[first_named_ph(toks_view(toks@), 0)->Some_0] matches
                        TokView::Ph(n) && name@ == n
                },
                TemplateIssue::CountMismatch { found, expected } => {
                    &&& first_named_ph(toks_view(toks@), 0) is None
                    &&& expected == arity
                    &&& found == marker_count(toks_view(toks@))
                    &&& found != arity
                },
                TemplateIssue::Unclosed => false,
            },
        },
{
    let ghost tv = toks_view(toks@);
    let n = toks.len();
    let mut segs: Vec<Segment> = Vec::new();
    let mut next: usize = 0;
    let mut i: usize = 0;
    while i < n
        invariant
            tv == toks_view(toks@),
            n == toks@.len(),
            i <= n,
            next == marker_count_upto(tv, i as int),
            next <= i,
            first_named_ph(tv, 0) == first_named_ph(tv, i as int),
            segs@ == segs_pos_upto(tv, i as int),
        decreases n - i,
    {
        match &toks[i] {
            Tok::C(c) => {
                segs.push(Segment::Lit(*c));
            },
            Tok::Ph(name) => {
                if name.as_str().unicode_len() > 0 {
                    return Err(TemplateIssue::UnknownName { name: name.clone() });
                }
                segs.push(Segment::Arg(next));
                next += 1;
            },
        }
        i += 1;
    }
    if next != arity {
        return Err(TemplateIssue::CountMismatch { found: next, expected: arity });
    }
    Ok(segs)
}

/// Compiles the tokens of a named template: every placeholder must name a
/// declared field, and refers to the first field of that name.
pub fn compile_named(toks: &Vec<Tok>, names: &Vec<String>) -> (r: Result<
    Vec<Segment>,
    TemplateIssue,
>)
    ensures
        match r {
            Ok(segs) => {
                &&& first_unknown_ph(toks_view(toks@), strings_view(names@), 0) is None
                &&& segs@ == segs_named_upto(
                    toks_view(toks@),
                    strings_view(names@),
                    toks@.len() as int,
                )
            },
            Err(e) => match e {
                TemplateIssue::UnknownName { name } => {
                    &&& first_unknown_ph(toks_view(toks@), strings_view(names@), 0) matches Some(k)
                    &&& toks_view(toks@)[first_unknown_ph(
                        toks_view(toks@),
                        strings_view(names@),
                        0,
                    )->Some_0] matches TokView::Ph(n) && name@ == n
                },
                _ => false,
            },
        },
{
    let ghost tv = toks_view(toks@);
    let ghost nv = strings_view(names@);
    let n = toks.len();
    let mut segs: Vec<Segment> = Vec::new();
    let mut i: usize = 0;
    while i < n
        invariant
            tv == toks_view(toks@),
            nv == strings_view(names@),
            n == toks@.len(),
            i <= n,
            first_unknown_ph(tv, nv, 0) == first_unknown_ph(tv, nv, i as int),
            segs@ == segs_named_upto(tv, nv, i as int),
        decreases n - i,
    {
        match &toks[i] {
            Tok::C(c) => {
                segs.push(Segment::Lit(*c));
            },
            Tok::Ph(name) => {
                match find_name(names, name.as_str()) {
                    Some(k) => {
                        segs.push(Segment::Arg(k));
                    },
                    None => {
                        return Err(TemplateIssue::UnknownName { name: name.clone() });
                    },
                }
            },
        }
        i += 1;
    }
    Ok(segs)
}

/// The position of the first field with the given name.
pub fn find_name(names: &Vec<String>, name: &str) -> (r: Option<usize>)
    ensures
        match r {
            Some(k) => name_idx(strings_view(names@), name@, 0) == Some(k as int),
            None => name_idx(strings_view(names@), name@, 0) is None,
        },
{
    let ghost nv = strings_view(names@);
    let n = names.len();
    let mut i: usize = 0;
    while i < n
        invariant
            nv == strings_view(names@),
            n == names@.len(),
            i <= n,
            name_idx(nv, name@, 0) == name_idx(nv, name@, i as int),
        decreases n - i,
    {
        if str_eq(names[i].as_str(), name) {
            return Some(i);
        }
        i += 1;
    }
    None
}

/// What one compiled segment contributes to the message, given the fields'
/// textual representations.
pub open spec fn seg_text(seg: Segment, texts: Seq<Seq<char>>) -> Seq<char> {
    match seg {
        Segment::Lit(c) => seq![c],
        Segment::Arg(k) => if (k as int) < texts.len() {
            texts[k as int]
        } else {
            Seq::empty()
        },
    }
}

/// The message produced by the first `i` segments.
pub open spec fn render_upto(segs: Seq<Segment>, texts: Seq<Seq<char>>, i: int) -> Seq<char>
    decreases i,
{
    if i <= 0 {
        Seq::empty()
    } else {
        render_upto(segs, texts, i - 1) + seg_text(segs[i - 1], texts)
    }
}

/// The message produced by a compiled template against the fields' textual
/// representations.
pub open spec fn render_segs(segs: Seq<Segment>, texts: Seq<Seq<char>>) -> Seq<char> {
    render_upto(segs, texts, segs.len() as int)
}

/// Renders a compiled template: literal characters stand for themselves and
/// each field reference expands to that field's text (out-of-range references
/// expand to nothing).
pub fn render_segments(segs: &Vec<Segment>, texts: &Vec<String>) -> (r: String)
    ensures
        r@ == render_segs(segs@, strings_view(texts@)),
{
    let n = segs.len();
    let mut out = String::new();
    let mut i: usize = 0;
    while i < n
        invariant
            n == segs@.len(),
            i <= n,
            out@ == render_upto(segs@, strings_view(texts@), i as int),
        decreases n - i,
    {
        let ghost pre = out@;
        match segs[i] {
            Segment::Lit(c) => {
                push_char(&mut out, c);
                proof {
                    assert(out@ =~= pre + seg_text(segs@[i as int], strings_view(texts@)));
                }
            },
            Segment::Arg(k) => {
                if k < texts.len() {
                    vstd::string::StringExecFns::append(&mut out, texts[k].as_str());
                }
                proof {
                    assert(out@ =~= pre + seg_text(segs@[i as int], strings_view(texts@)));
                }
            },
        }
        i += 1;
    }
    out
}

} // verus!
