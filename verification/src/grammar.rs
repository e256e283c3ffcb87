//! The grammar of `path!{…}` and `method!{…}` bodies.
//!
//! Both bodies are comma-separated, trailing-comma-tolerant lists of arms;
//! a target expression extends to the next comma at the arm's own delimiter
//! depth (or to the end of the body). Each arm is outer
//! attributes, a head (a one-segment pattern for `path!`, an identifier for
//! `method!`), a fat arrow, and a target expression. A target that is itself
//! a `path!` or `method!` invocation is parsed recursively; any other macro
//! invocation used as a target is an error; anything else is a direct
//! target. The parser works on a flattened token sequence and returns a
//! [`Target`] whose arms refer to the input by index ranges.

use vstd::prelude::*;

use crate::target::{
    lemma_pathmap_tv, lemma_methodmap_tv, method_arms_tv, path_arms_tv, MethodArm, MethodArmV,
    PathArm, PathArmV, Target, TargetV,
};
use crate::text::{
    bytes_is, method_bytes, method_ident, path_bytes, path_ident, underscore_bytes,
    underscore_ident,
};
use crate::tok::{seq_sv, Delim, Tok, TokV};

verus! {

/// The number of tokens left before `hi` when standing at `i`; the
/// parser's termination measure.
pub open spec fn rem(hi: int, i: int) -> nat {
    if i < hi {
        (hi - i) as nat
    } else {
        0
    }
}

/// `j`, but at least `min`; used to make the parser's progress obvious.
pub open spec fn clamp_min(j: int, min: int) -> int {
    if j < min {
        min
    } else {
        j
    }
}

/// A punctuation token with the given character.
pub open spec fn is_punct(t: TokV, c: u8) -> bool {
    t matches TokV::Punct(cc, _) && cc == c
}

/// A punctuation token with the given character, joint with the next one.
pub open spec fn is_joint_punct(t: TokV, c: u8) -> bool {
    t matches TokV::Punct(cc, j) && cc == c && j
}

/// The wildcard identifier token `_`.
pub open spec fn is_underscore_tok(t: TokV) -> bool {
    t matches TokV::Ident(s) && s == underscore_bytes()
}

/// The bytes of an identifier token.
pub open spec fn ident_bytes(t: TokV) -> Seq<u8> {
    match t {
        TokV::Ident(s) => s,
        _ => Seq::empty(),
    }
}

/// A fat arrow `=>` stands at `i`.
pub open spec fn arrow_at(text: Seq<TokV>, i: int) -> bool {
    &&& 0 <= i
    &&& i + 1 < text.len()
    &&& is_joint_punct(text[i], 61)
    &&& is_punct(text[i + 1], 62)
}

/// Position just past the closing delimiter matching an opening one that
/// stands just before `i`; `None` if the tokens are not balanced.
pub open spec fn spec_skip_group(text: Seq<TokV>, i: int, d: Delim) -> Option<int>
    decreases rem(text.len() as int, i),
{
    if i < 0 || i >= text.len() {
        None
    } else {
        match text[i] {
            TokV::Close(d2) => if d2 == d {
                Some(i + 1)
            } else {
                None
            },
            TokV::Open(d2) => match spec_skip_group(text, i + 1, d2) {
                Some(j) => spec_skip_group(text, clamp_min(j, i + 2), d),
                None => None,
            },
            _ => spec_skip_group(text, i + 1, d),
        }
    }
}

/// Position just past the outer attributes (`#[…]` pairs) starting at `i`;
/// `None` if a `#` is not followed by a balanced bracket group.
pub open spec fn spec_skip_attrs(text: Seq<TokV>, i: int) -> Option<int>
    decreases rem(text.len() as int, i),
{
    if i < 0 || i >= text.len() {
        Some(i)
    } else if is_punct(text[i], 35) {
        if i + 1 < text.len() && text[i + 1] matches TokV::Open(Delim::Bracket) {
            match spec_skip_group(text, i + 2, Delim::Bracket) {
                Some(j) => spec_skip_attrs(text, clamp_min(j, i + 2)),
                None => None,
            }
        } else {
            None
        }
    } else {
        Some(i)
    }
}

/// Position of the `=` of the first fat arrow at the arm's own delimiter
/// depth, at or after `i`; `None` if a comma, a closing delimiter or the end
/// of the tokens comes first.
pub open spec fn spec_find_arrow(text: Seq<TokV>, i: int) -> Option<int>
    decreases rem(text.len() as int, i),
{
    if i < 0 || i >= text.len() {
        None
    } else if arrow_at(text, i) {
        Some(i)
    } else if is_punct(text[i], 44) {
        None
    } else {
        match text[i] {
            TokV::Close(_) => None,
            TokV::Open(d) => match spec_skip_group(text, i + 1, d) {
                Some(j) => spec_find_arrow(text, clamp_min(j, i + 1)),
                None => None,
            },
            _ => spec_find_arrow(text, i + 1),
        }
    }
}

/// Position of the end of a target expression starting at `i`: the first
/// comma or closing delimiter at the expression's own depth, or the end of
/// the tokens; `None` if the tokens are not balanced.
pub open spec fn spec_target_end(text: Seq<TokV>, i: int) -> Option<int>
    decreases rem(text.len() as int, i),
{
    if i < 0 || i >= text.len() {
        Some(i)
    } else if is_punct(text[i], 44) {
        Some(i)
    } else {
        match text[i] {
            TokV::Close(_) => Some(i),
            TokV::Open(d) => match spec_skip_group(text, i + 1, d) {
                Some(j) => spec_target_end(text, clamp_min(j, i + 1)),
                None => None,
            },
            _ => spec_target_end(text, i + 1),
        }
    }
}

/// Position of the `!` ending a macro path (identifiers separated by `::`)
/// that starts at `i`, all before `hi`; `None` if the tokens have no such
/// shape.
pub open spec fn spec_macro_bang(text: Seq<TokV>, i: int, hi: int) -> Option<int>
    decreases rem(hi, i),
{
    if i < 0 || i >= hi || hi > text.len() {
        None
    } else if !(text[i] matches TokV::Ident(_)) {
        None
    } else if i + 1 < hi && is_punct(text[i + 1], 33) {
        Some(i + 1)
    } else if i + 3 < hi && is_joint_punct(text[i + 1], 58) && is_punct(text[i + 2], 58) && text[i
        + 3] matches TokV::Ident(_) {
        spec_macro_bang(text, i + 3, hi)
    } else {
        None
    }
}

/// The shape of a target expression run `[lo, hi)`: not a macro invocation,
/// a macro invocation with a one-identifier path (its name and body range
/// given), or one with a longer path.
pub enum MacroForm {
    NotMacro,
    Single { name: Seq<u8>, body_lo: int, body_hi: int },
    Multi,
}

/// Classify a target expression run as a whole-run macro invocation or not.
pub open spec fn spec_macro_form(text: Seq<TokV>, lo: int, hi: int) -> MacroForm {
    match spec_macro_bang(text, lo, hi) {
        None => MacroForm::NotMacro,
        Some(bang) => if bang + 1 < hi && (text[bang + 1] matches TokV::Open(d)
            && spec_skip_group(text, bang + 2, d) == Some(hi)) {
            if bang == lo + 1 {
                MacroForm::Single { name: ident_bytes(text[lo]), body_lo: bang + 2, body_hi: hi - 1 }
            } else {
                MacroForm::Multi
            }
        } else {
            MacroForm::NotMacro
        },
    }
}

/// Parse the arms of a `path!` body starting at `i`; arms end at the end of
/// the tokens or at a closing delimiter, whose position is returned with
/// them.
pub open spec fn spec_parse_path_arms(text: Seq<TokV>, i: int, first: bool) -> Option<
    (Seq<PathArmV>, int),
>
    decreases rem(text.len() as int, i),
{
    if i < 0 || i >= text.len() || text[i] matches TokV::Close(_) {
        Some((Seq::empty(), i))
    } else {
        let i0 = if !first && is_punct(text[i], 44) {
            i + 1
        } else {
            i
        };
        if i0 >= text.len() || text[i0] matches TokV::Close(_) {
            Some((Seq::empty(), i0))
        } else {
            match spec_skip_attrs(text, i0) {
                None => None,
                Some(ah0) => {
                    let ah = clamp_min(ah0, i0);
                    match spec_find_arrow(text, ah) {
                        None => None,
                        Some(ar0) => if ar0 < ah + 1 {
                            None
                        } else {
                            let ar = ar0;
                            let wild = ar == ah + 1 && is_underscore_tok(text[ah]);
                            match spec_parse_target(text, ar + 2) {
                                None => None,
                                Some((tgt, j0)) => {
                                    let j = clamp_min(j0, ar + 3);
                                    let arm = PathArmV {
                                        attrs_lo: i0,
                                        attrs_hi: ah,
                                        head_lo: ah,
                                        head_hi: ar,
                                        wild,
                                        target: tgt,
                                    };
                                    match spec_parse_path_arms(text, j, false) {
                                        None => None,
                                        Some((rest, end)) => Some((seq![arm] + rest, end)),
                                    }
                                },
                            }
                        },
                    }
                },
            }
        }
    }
}

/// Parse the arms of a `method!` body starting at `i`.
pub open spec fn spec_parse_method_arms(text: Seq<TokV>, i: int, first: bool) -> Option<
    (Seq<MethodArmV>, int),
>
    decreases rem(text.len() as int, i),
{
    if i < 0 || i >= text.len() || text[i] matches TokV::Close(_) {
        Some((Seq::empty(), i))
    } else {
        let i0 = if !first && is_punct(text[i], 44) {
            i + 1
        } else {
            i
        };
        if i0 >= text.len() || text[i0] matches TokV::Close(_) {
            Some((Seq::empty(), i0))
        } else {
            match spec_skip_attrs(text, i0) {
                None => None,
                Some(ah0) => {
                    let ah = clamp_min(ah0, i0);
                    if !(ah < text.len() && text[ah] matches TokV::Ident(_)) {
                        None
                    } else if !arrow_at(text, ah + 1) {
                        None
                    } else {
                        let wild = is_underscore_tok(text[ah]);
                        match spec_parse_target(text, ah + 3) {
                            None => None,
                            Some((tgt, j0)) => {
                                let j = clamp_min(j0, ah + 4);
                                let arm = MethodArmV {
                                    attrs_lo: i0,
                                    attrs_hi: ah,
                                    name_at: ah,
                                    wild,
                                    target: tgt,
                                };
                                match spec_parse_method_arms(text, j, false) {
                                    None => None,
                                    Some((rest, end)) => Some((seq![arm] + rest, end)),
                                }
                            },
                        }
                    }
                },
            }
        }
    }
}

/// Parse one target expression starting at `i`: the whole run up to the
/// first comma or closing delimiter at its own depth, classified as a direct
/// target, a nested `path!`/`method!` map, or an error for any other macro.
pub open spec fn spec_parse_target(text: Seq<TokV>, i: int) -> Option<(TargetV, int)>
    decreases rem(text.len() as int, i),
{
    if i < 0 || i >= text.len() || text[i] matches TokV::Close(_) || is_punct(text[i], 44) {
        None
    } else {
        match spec_target_end(text, i) {
            None => None,
            Some(hi0) => {
                let hi = clamp_min(hi0, i + 1);
                match spec_macro_form(text, i, hi) {
                    MacroForm::NotMacro => Some((TargetV::Direct { lo: i, hi }, hi)),
                    MacroForm::Multi => None,
                    MacroForm::Single { name, body_lo, body_hi } => if name == path_bytes() {
                        match spec_parse_path_arms(text, clamp_min(body_lo, i + 1), true) {
                            None => None,
                            Some((arms, j)) => if j == body_hi {
                                Some((TargetV::PathMap(arms), hi))
                            } else {
                                None
                            },
                        }
                    } else if name == method_bytes() {
                        match spec_parse_method_arms(text, clamp_min(body_lo, i + 1), true) {
                            None => None,
                            Some((arms, j)) => if j == body_hi {
                                Some((TargetV::MethodMap(arms), hi))
                            } else {
                                None
                            },
                        }
                    } else {
                        None
                    },
                }
            },
        }
    }
}

/// The dispatch tree of a whole macro body: the body of `path!{…}` is a path
/// map, the body of `method!{…}` a method map, and an arm list must consume
/// the body exactly; any other macro name is an error.
pub open spec fn spec_parse_macro(name: Seq<u8>, text: Seq<TokV>) -> Option<TargetV> {
    if name == path_bytes() {
        match spec_parse_path_arms(text, 0, true) {
            None => None,
            Some((arms, j)) => if j == text.len() {
                Some(TargetV::PathMap(arms))
            } else {
                None
            },
        }
    } else if name == method_bytes() {
        match spec_parse_method_arms(text, 0, true) {
            None => None,
            Some((arms, j)) => if j == text.len() {
                Some(TargetV::MethodMap(arms))
            } else {
                None
            },
        }
    } else {
        None
    }
}

/// Room for the parser's bounded look-ahead without overflowing `usize`.
pub open spec fn fits(toks: Seq<Tok>) -> bool {
    toks.len() + 8 <= usize::MAX
}

/// An `Option<usize>` as an `Option<int>`.
pub open spec fn opt_int(r: Option<usize>) -> Option<int> {
    match r {
        Some(j) => Some(j as int),
        None => None,
    }
}

fn tok_is_punct(t: &Tok, c: u8) -> (r: bool)
    ensures
        r == is_punct(t.sv(), c),
{
    match t {
        Tok::Punct(cc, _) => *cc == c,
        _ => false,
    }
}

fn tok_is_close(t: &Tok) -> (r: bool)
    ensures
        r == (t.sv() matches TokV::Close(_)),
{
    match t {
        Tok::Close(_) => true,
        _ => false,
    }
}

fn tok_is_underscore(t: &Tok) -> (r: bool)
    ensures
        r == is_underscore_tok(t.sv()),
{
    match t {
        Tok::Ident(v) => bytes_is(v, &underscore_ident()),
        _ => false,
    }
}

fn has_arrow_at(toks: &Vec<Tok>, i: usize) -> (r: bool)
    requires
        fits(toks@),
        i <= toks@.len() + 4,
    ensures
        r == arrow_at(seq_sv(toks@), i as int),
{
    if i + 1 >= toks.len() {
        return false;
    }
    let fst = match &toks[i] {
        Tok::Punct(cc, j) => *cc == 61 && *j,
        _ => false,
    };
    fst && tok_is_punct(&toks[i + 1], 62)
}

/// Step over one balanced group, as [`spec_skip_group`].
pub fn skip_group(toks: &Vec<Tok>, i: usize, d: Delim) -> (r: Option<usize>)
    requires
        fits(toks@),
        i <= toks@.len() + 4,
    ensures
        opt_int(r) == spec_skip_group(seq_sv(toks@), i as int, d),
        r matches Some(j) ==> i < j && j <= toks@.len(),
    decreases rem(toks@.len() as int, i as int),
{
    if i >= toks.len() {
        return None;
    }
    match &toks[i] {
        Tok::Close(d2) => if *d2 == d {
            Some(i + 1)
        } else {
            None
        },
        Tok::Open(d2) => {
            let d2c = *d2;
            match skip_group(toks, i + 1, d2c) {
                Some(j) => {
                    let j1 = if j < i + 2 {
                        i + 2
                    } else {
                        j
                    };
                    skip_group(toks, j1, d)
                },
                None => None,
            }
        },
        _ => skip_group(toks, i + 1, d),
    }
}

/// Step over outer attributes, as [`spec_skip_attrs`].
pub fn skip_attrs(toks: &Vec<Tok>, i: usize) -> (r: Option<usize>)
    requires
        fits(toks@),
        i <= toks@.len() + 4,
    ensures
        opt_int(r) == spec_skip_attrs(seq_sv(toks@), i as int),
        r matches Some(j) ==> i <= j && j <= toks@.len() + 4,
    decreases rem(toks@.len() as int, i as int),
{
    if i >= toks.len() {
        return Some(i);
    }
    if !tok_is_punct(&toks[i], 35) {
        return Some(i);
    }
    let bracket = i + 1 < toks.len() && match &toks[i + 1] {
        Tok::Open(Delim::Bracket) => true,
        _ => false,
    };
    if !bracket {
        return None;
    }
    match skip_group(toks, i + 2, Delim::Bracket) {
        Some(j) => {
            let j1 = if j < i + 2 {
                i + 2
            } else {
                j
            };
            skip_attrs(toks, j1)
        },
        None => None,
    }
}

/// Find the next fat arrow at the arm's own depth, as [`spec_find_arrow`].
pub fn find_arrow(toks: &Vec<Tok>, i: usize) -> (r: Option<usize>)
    requires
        fits(toks@),
        i <= toks@.len() + 4,
    ensures
        opt_int(r) == spec_find_arrow(seq_sv(toks@), i as int),
        r matches Some(a) ==> i <= a && a + 1 < toks@.len(),
    decreases rem(toks@.len() as int, i as int),
{
    if i >= toks.len() {
        return None;
    }
    if has_arrow_at(toks, i) {
        return Some(i);
    }
    if tok_is_punct(&toks[i], 44) {
        return None;
    }
    match &toks[i] {
        Tok::Close(_) => None,
        Tok::Open(d) => {
            let dc = *d;
            match skip_group(toks, i + 1, dc) {
                Some(j) => {
                    let j1 = if j < i + 1 {
                        i + 1
                    } else {
                        j
                    };
                    find_arrow(toks, j1)
                },
                None => None,
            }
        },
        _ => find_arrow(toks, i + 1),
    }
}

/// Find the end of a target expression, as [`spec_target_end`].
pub fn target_end(toks: &Vec<Tok>, i: usize) -> (r: Option<usize>)
    requires
        fits(toks@),
        i <= toks@.len() + 4,
    ensures
        opt_int(r) == spec_target_end(seq_sv(toks@), i as int),
        r matches Some(h) ==> i <= h && h <= toks@.len() + 4,
        i <= toks@.len() ==> (r matches Some(h) ==> h <= toks@.len()),
    decreases rem(toks@.len() as int, i as int),
{
    if i >= toks.len() {
        return Some(i);
    }
    if tok_is_punct(&toks[i], 44) {
        return Some(i);
    }
    match &toks[i] {
        Tok::Close(_) => Some(i),
        Tok::Open(d) => {
            let dc = *d;
            match skip_group(toks, i + 1, dc) {
                Some(j) => {
                    let j1 = if j < i + 1 {
                        i + 1
                    } else {
                        j
                    };
                    target_end(toks, j1)
                },
                None => None,
            }
        },
        _ => target_end(toks, i + 1),
    }
}

/// Find the `!` of a macro path, as [`spec_macro_bang`].
pub fn macro_bang(toks: &Vec<Tok>, i: usize, hi: usize) -> (r: Option<usize>)
    requires
        fits(toks@),
        hi <= toks@.len(),
        i <= toks@.len() + 4,
    ensures
        opt_int(r) == spec_macro_bang(seq_sv(toks@), i as int, hi as int),
        r matches Some(b) ==> i < b && b < hi,
    decreases rem(hi as int, i as int),
{
    if i >= hi {
        return None;
    }
    let ident = match &toks[i] {
        Tok::Ident(_) => true,
        _ => false,
    };
    if !ident {
        return None;
    }
    if i + 1 < hi && tok_is_punct(&toks[i + 1], 33) {
        return Some(i + 1);
    }
    if i + 3 < hi {
        let sep = match &toks[i + 1] {
            Tok::Punct(cc, j) => *cc == 58 && *j,
            _ => false,
        };
        let sep2 = sep && tok_is_punct(&toks[i + 2], 58);
        let seg = sep2 && match &toks[i + 3] {
            Tok::Ident(_) => true,
            _ => false,
        };
        if seg {
            return macro_bang(toks, i + 3, hi);
        }
    }
    None
}

/// The shape of a target run, decided as [`spec_macro_form`]; for a
/// one-identifier macro the name's comparison against `path` and `method` is
/// already made.
pub enum MacroFormE {
    NotMacro,
    Single { is_path: bool, is_method: bool, body_lo: usize, body_hi: usize },
    Multi,
}

/// Classify a target run, as [`spec_macro_form`].
pub fn macro_form(toks: &Vec<Tok>, lo: usize, hi: usize) -> (r: MacroFormE)
    requires
        fits(toks@),
        hi <= toks@.len(),
        lo <= toks@.len() + 4,
    ensures
        ({
            let s = spec_macro_form(seq_sv(toks@), lo as int, hi as int);
            match r {
                MacroFormE::NotMacro => s is NotMacro,
                MacroFormE::Multi => s is Multi,
                MacroFormE::Single { is_path, is_method, body_lo, body_hi } => {
                    &&& s matches MacroForm::Single { name, body_lo: bl, body_hi: bh }
                    &&& bl == body_lo as int
                    &&& bh == body_hi as int
                    &&& is_path == (name == path_bytes())
                    &&& is_method == (name == method_bytes())
                    &&& body_lo <= toks@.len()
                    &&& body_hi < hi
                },
            }
        }),
{
    let ghost text = seq_sv(toks@);
    let bang = match macro_bang(toks, lo, hi) {
        Some(b) => b,
        None => {
            return MacroFormE::NotMacro;
        },
    };
    if !(bang + 1 < hi) {
        return MacroFormE::NotMacro;
    }
    let d = match &toks[bang + 1] {
        Tok::Open(d) => Some(*d),
        _ => None,
    };
    let d = match d {
        Some(d) => d,
        None => {
            return MacroFormE::NotMacro;
        },
    };
    let ok = match skip_group(toks, bang + 2, d) {
        Some(j) => j == hi,
        None => false,
    };
    if !ok {
        return MacroFormE::NotMacro;
    }
    if bang != lo + 1 {
        return MacroFormE::Multi;
    }
    proof {
        assert(text[lo as int] matches TokV::Ident(_)) by {
            reveal_with_fuel(spec_macro_bang, 2);
        }
    }
    match &toks[lo] {
        Tok::Ident(v) => {
            let is_path = bytes_is(v, &path_ident());
            let is_method = bytes_is(v, &method_ident());
            MacroFormE::Single { is_path, is_method, body_lo: bang + 2, body_hi: hi - 1 }
        },
        _ => {
            proof {
                assert(false);
            }
            MacroFormE::NotMacro
        },
    }
}

/// Parse the arms of a `path!` body, as [`spec_parse_path_arms`].
pub fn parse_path_arms(toks: &Vec<Tok>, i: usize, first: bool) -> (r: Option<
    (Vec<PathArm>, usize),
>)
    requires
        fits(toks@),
        i <= toks@.len() + 4,
    ensures
        ({
            let s = spec_parse_path_arms(seq_sv(toks@), i as int, first);
            match r {
                Some((arms, j)) => s == Some((path_arms_tv(arms@), j as int)) && i <= j && j
                    <= toks@.len() + 4,
                None => s is None,
            }
        }),
    decreases rem(toks@.len() as int, i as int),
{
    let ghost text = seq_sv(toks@);
    if i >= toks.len() || tok_is_close(&toks[i]) {
        let arms: Vec<PathArm> = Vec::new();
        proof {
            assert(path_arms_tv(arms@) =~= Seq::<PathArmV>::empty());
        }
        return Some((arms, i));
    }
    let i0 = if !first && tok_is_punct(&toks[i], 44) {
        i + 1
    } else {
        i
    };
    if i0 >= toks.len() || tok_is_close(&toks[i0]) {
        let arms: Vec<PathArm> = Vec::new();
        proof {
            assert(path_arms_tv(arms@) =~= Seq::<PathArmV>::empty());
        }
        return Some((arms, i0));
    }
    let ah0 = match skip_attrs(toks, i0) {
        Some(a) => a,
        None => {
            return None;
        },
    };
    let ah = if ah0 < i0 {
        i0
    } else {
        ah0
    };
    let ar = match find_arrow(toks, ah) {
        Some(a) => a,
        None => {
            return None;
        },
    };
    if ar < ah + 1 {
        return None;
    }
    let wild = ar == ah + 1 && tok_is_underscore(&toks[ah]);
    let (tgt, j0) = match parse_target(toks, ar + 2) {
        Some(x) => x,
        None => {
            return None;
        },
    };
    let j = if j0 < ar + 3 {
        ar + 3
    } else {
        j0
    };
    let arm = PathArm { attrs_lo: i0, attrs_hi: ah, head_lo: ah, head_hi: ar, wild, target: tgt };
    match parse_path_arms(toks, j, false) {
        None => None,
        Some((mut arms, end)) => {
            let ghost rest_s = arms@;
            let ghost armv = arm.tv();
            arms.insert(0, arm);
            proof {
                assert(path_arms_tv(arms@) =~= seq![armv] + path_arms_tv(rest_s));
            }
            Some((arms, end))
        },
    }
}

/// Parse the arms of a `method!` body, as [`spec_parse_method_arms`].
pub fn parse_method_arms(toks: &Vec<Tok>, i: usize, first: bool) -> (r: Option<
    (Vec<MethodArm>, usize),
>)
    requires
        fits(toks@),
        i <= toks@.len() + 4,
    ensures
        ({
            let s = spec_parse_method_arms(seq_sv(toks@), i as int, first);
            match r {
                Some((arms, j)) => s == Some((method_arms_tv(arms@), j as int)) && i <= j && j
                    <= toks@.len() + 4,
                None => s is None,
            }
        }),
    decreases rem(toks@.len() as int, i as int),
{
    let ghost text = seq_sv(toks@);
    if i >= toks.len() || tok_is_close(&toks[i]) {
        let arms: Vec<MethodArm> = Vec::new();
        proof {
            assert(method_arms_tv(arms@) =~= Seq::<MethodArmV>::empty());
        }
        return Some((arms, i));
    }
    let i0 = if !first && tok_is_punct(&toks[i], 44) {
        i + 1
    } else {
        i
    };
    if i0 >= toks.len() || tok_is_close(&toks[i0]) {
        let arms: Vec<MethodArm> = Vec::new();
        proof {
            assert(method_arms_tv(arms@) =~= Seq::<MethodArmV>::empty());
        }
        return Some((arms, i0));
    }
    let ah0 = match skip_attrs(toks, i0) {
        Some(a) => a,
        None => {
            return None;
        },
    };
    let ah = if ah0 < i0 {
        i0
    } else {
        ah0
    };
    let ident = ah < toks.len() && match &toks[ah] {
        Tok::Ident(_) => true,
        _ => false,
    };
    if !ident {
        return None;
    }
    if !has_arrow_at(toks, ah + 1) {
        return None;
    }
    let wild = tok_is_underscore(&toks[ah]);
    let (tgt, j0) = match parse_target(toks, ah + 3) {
        Some(x) => x,
        None => {
            return None;
        },
    };
    let j = if j0 < ah + 4 {
        ah + 4
    } else {
        j0
    };
    let arm = MethodArm { attrs_lo: i0, attrs_hi: ah, name_at: ah, wild, target: tgt };
    match parse_method_arms(toks, j, false) {
        None => None,
        Some((mut arms, end)) => {
            let ghost rest_s = arms@;
            let ghost armv = arm.tv();
            arms.insert(0, arm);
            proof {
                assert(method_arms_tv(arms@) =~= seq![armv] + method_arms_tv(rest_s));
            }
            Some((arms, end))
        },
    }
}

/// Parse one target expression, as [`spec_parse_target`].
pub fn parse_target(toks: &Vec<Tok>, i: usize) -> (r: Option<(Target, usize)>)
    requires
        fits(toks@),
        i <= toks@.len() + 4,
    ensures
        ({
            let s = spec_parse_target(seq_sv(toks@), i as int);
            match r {
                Some((t, j)) => s == Some((t.tv(), j as int)) && i < j && j <= toks@.len(),
                None => s is None,
            }
        }),
    decreases rem(toks@.len() as int, i as int),
{
    let ghost text = seq_sv(toks@);
    if i >= toks.len() || tok_is_close(&toks[i]) || tok_is_punct(&toks[i], 44) {
        return None;
    }
    let hi0 = match target_end(toks, i) {
        Some(h) => h,
        None => {
            return None;
        },
    };
    let hi = if hi0 < i + 1 {
        i + 1
    } else {
        hi0
    };
    match macro_form(toks, i, hi) {
        MacroFormE::NotMacro => Some((Target::Direct { lo: i, hi }, hi)),
        MacroFormE::Multi => None,
        MacroFormE::Single { is_path, is_method, body_lo, body_hi } => {
            let bl = if body_lo < i + 1 {
                i + 1
            } else {
                body_lo
            };
            if is_path {
                match parse_path_arms(toks, bl, true) {
                    None => None,
                    Some((arms, j)) => if j == body_hi {
                        proof {
                            lemma_pathmap_tv(arms);
                        }
                        Some((Target::PathMap(arms), hi))
                    } else {
                        None
                    },
                }
            } else if is_method {
                match parse_method_arms(toks, bl, true) {
                    None => None,
                    Some((arms, j)) => if j == body_hi {
                        proof {
                            lemma_methodmap_tv(arms);
                        }
                        Some((Target::MethodMap(arms), hi))
                    } else {
                        None
                    },
                }
            } else {
                None
            }
        },
    }
}

/// Parse the whole body of a dispatch macro with the given name, as
/// [`spec_parse_macro`]: `path!` gives a path map, `method!` a method map,
/// any other name an error.
pub fn parse_macro(name: &Vec<u8>, toks: &Vec<Tok>) -> (r: Option<Target>)
    requires
        fits(toks@),
    ensures
        ({
            let s = spec_parse_macro(name@, seq_sv(toks@));
            match r {
                Some(t) => s == Some(t.tv()),
                None => s is None,
            }
        }),
{
    if bytes_is(name, &path_ident()) {
        match parse_path_arms(toks, 0, true) {
            None => None,
            Some((arms, j)) => if j == toks.len() {
                proof {
                    lemma_pathmap_tv(arms);
                }
                Some(Target::PathMap(arms))
            } else {
                None
            },
        }
    } else if bytes_is(name, &method_ident()) {
        match parse_method_arms(toks, 0, true) {
            None => None,
            Some((arms, j)) => if j == toks.len() {
                proof {
                    lemma_methodmap_tv(arms);
                }
                Some(Target::MethodMap(arms))
            } else {
                None
            },
        }
    } else {
        None
    }
}

} // verus!
