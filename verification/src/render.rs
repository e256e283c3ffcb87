//! Rendering a dispatch tree to the tokens of a nested `match` expression.
//!
//! A direct target renders to `expr::handler(&mut cx).await.into_response(
//! &*app, &cx.req)`. A path map renders to a `match` on
//! `cx.next_path().as_deref()`; a wildcard arm calls `cx.rewind()` before its
//! target, and when no arm is a wildcard an implicit fall-through arm
//! converts `PathNotFound`. A method map renders to a `match` on
//! `cx.req.method`; when no arm's identifier is `_`, an implicit fall-through
//! arm converts `MethodNotAllowed`. Arms keep their source order and their
//! attributes.

use vstd::prelude::*;

use crate::grammar::rem;
use crate::target::{MethodArm, MethodArmV, PathArm, PathArmV, Target, TargetV, path_arms_tv,
    method_arms_tv};
use crate::tok::{seq_sv, Delim, Kw, Tok, TokV};

verus! {

broadcast use crate::tok::lemma_seq_sv_push, crate::tok::lemma_seq_sv_add,
    crate::tok::lemma_seq_sv_subrange, vstd::seq::axiom_seq_index_decreases;

/// A joint punctuation token.
pub open spec fn pj(c: u8) -> TokV {
    TokV::Punct(c, true)
}

/// A lone punctuation token.
pub open spec fn pa(c: u8) -> TokV {
    TokV::Punct(c, false)
}

/// A fixed identifier token.
pub open spec fn kw(k: Kw) -> TokV {
    TokV::Fixed(k)
}

/// The tokens of the range `[lo, hi)`, or nothing when the range is not a
/// range of the text.
pub open spec fn run_of(text: Seq<TokV>, lo: int, hi: int) -> Seq<TokV> {
    if 0 <= lo <= hi <= text.len() {
        text.subrange(lo, hi)
    } else {
        Seq::empty()
    }
}

/// `::handler(&mut cx).await.into_response(&*app, &cx.req)`, appended to a
/// direct target's expression.
pub open spec fn direct_suffix() -> Seq<TokV> {
    seq![
        pj(58),
        pa(58),
        kw(Kw::KwHandler),
        TokV::Open(Delim::Paren),
        pa(38),
        kw(Kw::KwMut),
        kw(Kw::KwCx),
        TokV::Close(Delim::Paren),
        pa(46),
        kw(Kw::KwAwait),
        pa(46),
        kw(Kw::KwIntoResponse),
        TokV::Open(Delim::Paren),
        pa(38),
        pa(42),
        kw(Kw::KwApp),
        pa(44),
        pa(38),
        kw(Kw::KwCx),
        pa(46),
        kw(Kw::KwReq),
        TokV::Close(Delim::Paren),
    ]
}

/// `match cx.next_path().as_deref() {`.
pub open spec fn path_header() -> Seq<TokV> {
    seq![
        kw(Kw::KwMatch),
        kw(Kw::KwCx),
        pa(46),
        kw(Kw::KwNextPath),
        TokV::Open(Delim::Paren),
        TokV::Close(Delim::Paren),
        pa(46),
        kw(Kw::KwAsDeref),
        TokV::Open(Delim::Paren),
        TokV::Close(Delim::Paren),
        TokV::Open(Delim::Brace),
    ]
}

/// `.into_response(&*app, &cx.req),` — the tail shared by the two implicit
/// fall-through arms.
pub open spec fn into_response_tail() -> Seq<TokV> {
    seq![
        pa(46),
        kw(Kw::KwIntoResponse),
        TokV::Open(Delim::Paren),
        pa(38),
        pa(42),
        kw(Kw::KwApp),
        pa(44),
        pa(38),
        kw(Kw::KwCx),
        pa(46),
        kw(Kw::KwReq),
        TokV::Close(Delim::Paren),
        pa(44),
    ]
}

/// `_ => ::mendes::Error::` — the head shared by the two implicit
/// fall-through arms.
pub open spec fn fallthrough_head() -> Seq<TokV> {
    seq![
        kw(Kw::KwUnderscore),
        pj(61),
        pa(62),
        pj(58),
        pa(58),
        kw(Kw::KwMendes),
        pj(58),
        pa(58),
        kw(Kw::KwError),
        pj(58),
        pa(58),
    ]
}

/// `_ => ::mendes::Error::PathNotFound.into_response(&*app, &cx.req),`.
pub open spec fn path_fallthrough() -> Seq<TokV> {
    fallthrough_head() + seq![kw(Kw::KwPathNotFound)] + into_response_tail()
}

/// `match cx.req.method {`.
pub open spec fn method_header() -> Seq<TokV> {
    seq![
        kw(Kw::KwMatch),
        kw(Kw::KwCx),
        pa(46),
        kw(Kw::KwReq),
        pa(46),
        kw(Kw::KwMethodField),
        TokV::Open(Delim::Brace),
    ]
}

/// `_ => ::mendes::Error::MethodNotAllowed.into_response(&*app, &cx.req),`.
pub open spec fn method_fallthrough() -> Seq<TokV> {
    fallthrough_head() + seq![kw(Kw::KwMethodNotAllowed)] + into_response_tail()
}

/// `mendes::http::Method::` — prefixed to a method arm's identifier.
pub open spec fn method_path_prefix() -> Seq<TokV> {
    seq![
        kw(Kw::KwMendes),
        pj(58),
        pa(58),
        kw(Kw::KwHttp),
        pj(58),
        pa(58),
        kw(Kw::KwMethod),
        pj(58),
        pa(58),
    ]
}

/// `=>`.
pub open spec fn arrow_toks() -> Seq<TokV> {
    seq![pj(61), pa(62)]
}

/// `cx.rewind();`.
pub open spec fn rewind_stmt() -> Seq<TokV> {
    seq![
        kw(Kw::KwCx),
        pa(46),
        kw(Kw::KwRewind),
        TokV::Open(Delim::Paren),
        TokV::Close(Delim::Paren),
        pa(59),
    ]
}

/// Some arm of the path map is the wildcard.
pub open spec fn path_has_wild(arms: Seq<PathArmV>) -> bool {
    exists|m: int| 0 <= m < arms.len() && arms[m].wild
}

/// Some arm of the method map names the identifier `_`.
pub open spec fn method_has_wild(arms: Seq<MethodArmV>) -> bool {
    exists|m: int| 0 <= m < arms.len() && arms[m].wild
}

/// The tokens a dispatch tree renders to.
pub open spec fn spec_render_target(text: Seq<TokV>, t: TargetV) -> Seq<TokV>
    decreases t, 0int,
{
    match t {
        TargetV::Direct { lo, hi } => run_of(text, lo, hi) + direct_suffix(),
        TargetV::PathMap(arms) => path_header() + spec_render_path_arms(text, arms, 0) + (
        if path_has_wild(arms) {
            Seq::<TokV>::empty()
        } else {
            path_fallthrough()
        }) + seq![TokV::Close(Delim::Brace)],
        TargetV::MethodMap(arms) => method_header() + spec_render_method_arms(text, arms, 0) + (
        if method_has_wild(arms) {
            Seq::<TokV>::empty()
        } else {
            method_fallthrough()
        }) + seq![TokV::Close(Delim::Brace)],
    }
}

/// The tokens one path arm renders to: its attributes, its pattern, and
/// either `=> { cx.rewind(); target }` for the wildcard or `=> target,`.
pub open spec fn spec_render_path_arm(text: Seq<TokV>, arm: PathArmV) -> Seq<TokV>
    decreases arm, 0int,
{
    run_of(text, arm.attrs_lo, arm.attrs_hi) + run_of(text, arm.head_lo, arm.head_hi) + arrow_toks() + (
    if arm.wild {
        seq![TokV::Open(Delim::Brace)] + rewind_stmt() + spec_render_target(text, arm.target)
            + seq![TokV::Close(Delim::Brace)]
    } else {
        spec_render_target(text, arm.target) + seq![pa(44)]
    })
}

/// The tokens the path arms from `k` on render to, in source order.
pub open spec fn spec_render_path_arms(text: Seq<TokV>, arms: Seq<PathArmV>, k: int) -> Seq<TokV>
    decreases arms, rem(arms.len() as int, k),
{
    if k < 0 || k >= arms.len() {
        Seq::empty()
    } else {
        spec_render_path_arm(text, arms[k]) + spec_render_path_arms(text, arms, k + 1)
    }
}

/// The tokens one method arm renders to: its attributes, then either the
/// bare `_` or `mendes::http::Method::NAME`, then `=> target,`.
pub open spec fn spec_render_method_arm(text: Seq<TokV>, arm: MethodArmV) -> Seq<TokV>
    decreases arm, 0int,
{
    run_of(text, arm.attrs_lo, arm.attrs_hi) + (if arm.wild {
        run_of(text, arm.name_at, arm.name_at + 1)
    } else {
        method_path_prefix() + run_of(text, arm.name_at, arm.name_at + 1)
    }) + arrow_toks() + spec_render_target(text, arm.target) + seq![pa(44)]
}

/// The tokens the method arms from `k` on render to, in source order.
pub open spec fn spec_render_method_arms(text: Seq<TokV>, arms: Seq<MethodArmV>, k: int) -> Seq<
    TokV,
>
    decreases arms, rem(arms.len() as int, k),
{
    if k < 0 || k >= arms.len() {
        Seq::empty()
    } else {
        spec_render_method_arm(text, arms[k]) + spec_render_method_arms(text, arms, k + 1)
    }
}

/// Law: a path map with a wildcard arm renders that arm as a block that
/// calls `cx.rewind()` before its target, and gets no implicit fall-through
/// arm; a path map without one gets the implicit `PathNotFound`
/// fall-through arm.
pub proof fn lemma_wildcard_rewind(text: Seq<TokV>, arms: Seq<PathArmV>)
    ensures
        forall|i: int|
            0 <= i < arms.len() && (#[trigger] arms[i]).wild ==> spec_render_path_arm(text, arms[i])
                == run_of(text, arms[i].attrs_lo, arms[i].attrs_hi) + run_of(
                text,
                arms[i].head_lo,
                arms[i].head_hi,
            ) + arrow_toks() + seq![TokV::Open(Delim::Brace)] + rewind_stmt() + spec_render_target(
                text,
                arms[i].target,
            ) + seq![TokV::Close(Delim::Brace)],
        path_has_wild(arms) ==> spec_render_target(text, TargetV::PathMap(arms)) == path_header()
            + spec_render_path_arms(text, arms, 0) + seq![TokV::Close(Delim::Brace)],
        !path_has_wild(arms) ==> spec_render_target(text, TargetV::PathMap(arms)) == path_header()
            + spec_render_path_arms(text, arms, 0) + path_fallthrough() + seq![
            TokV::Close(Delim::Brace),
        ],
{
    assert forall|i: int| 0 <= i < arms.len() && (#[trigger] arms[i]).wild implies spec_render_path_arm(
        text,
        arms[i],
    ) == run_of(text, arms[i].attrs_lo, arms[i].attrs_hi) + run_of(
        text,
        arms[i].head_lo,
        arms[i].head_hi,
    ) + arrow_toks() + seq![TokV::Open(Delim::Brace)] + rewind_stmt() + spec_render_target(
        text,
        arms[i].target,
    ) + seq![TokV::Close(Delim::Brace)] by {
        assert(spec_render_path_arm(text, arms[i]) =~= run_of(
            text,
            arms[i].attrs_lo,
            arms[i].attrs_hi,
        ) + run_of(text, arms[i].head_lo, arms[i].head_hi) + arrow_toks() + seq![
            TokV::Open(Delim::Brace),
        ] + rewind_stmt() + spec_render_target(text, arms[i].target) + seq![
            TokV::Close(Delim::Brace),
        ]);
    }
    if path_has_wild(arms) {
        assert(spec_render_target(text, TargetV::PathMap(arms)) =~= path_header()
            + spec_render_path_arms(text, arms, 0) + seq![TokV::Close(Delim::Brace)]);
    }
}

/// Law: a method map with an arm naming the identifier `_` gets no implicit
/// fall-through arm; one without such an arm gets the implicit
/// `MethodNotAllowed` fall-through arm.
pub proof fn lemma_method_wildcard(text: Seq<TokV>, arms: Seq<MethodArmV>)
    ensures
        method_has_wild(arms) ==> spec_render_target(text, TargetV::MethodMap(arms))
            == method_header() + spec_render_method_arms(text, arms, 0) + seq![
            TokV::Close(Delim::Brace),
        ],
        !method_has_wild(arms) ==> spec_render_target(text, TargetV::MethodMap(arms))
            == method_header() + spec_render_method_arms(text, arms, 0) + method_fallthrough()
            + seq![TokV::Close(Delim::Brace)],
{
    if method_has_wild(arms) {
        assert(spec_render_target(text, TargetV::MethodMap(arms)) =~= method_header()
            + spec_render_method_arms(text, arms, 0) + seq![TokV::Close(Delim::Brace)]);
    }
}

/// Append copies of the tokens of the range `[lo, hi)`.
pub fn copy_range(toks: &Vec<Tok>, lo: usize, hi: usize, out: &mut Vec<Tok>)
    ensures
        seq_sv(final (out)@) == seq_sv(old(out)@) + run_of(seq_sv(toks@), lo as int, hi as int),
{
    let ghost base = seq_sv(old(out)@);
    if lo > hi || hi > toks.len() {
        proof {
            assert(seq_sv(out@) =~= base + run_of(seq_sv(toks@), lo as int, hi as int));
        }
        return ;
    }
    let mut k = lo;
    while k < hi
        invariant
            lo <= k <= hi <= toks@.len(),
            seq_sv(out@) =~= base + seq_sv(toks@).subrange(lo as int, k as int),
        decreases hi - k,
    {
        out.push(toks[k].dup());
        proof {
            assert(seq_sv(out@) =~= base + seq_sv(toks@).subrange(lo as int, k + 1 as int));
        }
        k += 1;
    }
    proof {
        assert(seq_sv(out@) =~= base + run_of(seq_sv(toks@), lo as int, hi as int));
    }
}

fn emit_arrow(out: &mut Vec<Tok>)
    ensures
        seq_sv(final (out)@) == seq_sv(old(out)@) + arrow_toks(),
{
    out.push(Tok::Punct(61, true));
    out.push(Tok::Punct(62, false));
    proof {
        assert(seq_sv(out@) =~= seq_sv(old(out)@) + arrow_toks());
    }
}

fn emit_rewind(out: &mut Vec<Tok>)
    ensures
        seq_sv(final (out)@) == seq_sv(old(out)@) + rewind_stmt(),
{
    out.push(Tok::Fixed(Kw::KwCx));
    out.push(Tok::Punct(46, false));
    out.push(Tok::Fixed(Kw::KwRewind));
    out.push(Tok::Open(Delim::Paren));
    out.push(Tok::Close(Delim::Paren));
    out.push(Tok::Punct(59, false));
    proof {
        assert(seq_sv(out@) =~= seq_sv(old(out)@) + rewind_stmt());
    }
}

fn emit_direct_suffix(out: &mut Vec<Tok>)
    ensures
        seq_sv(final (out)@) == seq_sv(old(out)@) + direct_suffix(),
{
    out.push(Tok::Punct(58, true));
    out.push(Tok::Punct(58, false));
    out.push(Tok::Fixed(Kw::KwHandler));
    out.push(Tok::Open(Delim::Paren));
    out.push(Tok::Punct(38, false));
    out.push(Tok::Fixed(Kw::KwMut));
    out.push(Tok::Fixed(Kw::KwCx));
    out.push(Tok::Close(Delim::Paren));
    out.push(Tok::Punct(46, false));
    out.push(Tok::Fixed(Kw::KwAwait));
    out.push(Tok::Punct(46, false));
    out.push(Tok::Fixed(Kw::KwIntoResponse));
    out.push(Tok::Open(Delim::Paren));
    out.push(Tok::Punct(38, false));
    out.push(Tok::Punct(42, false));
    out.push(Tok::Fixed(Kw::KwApp));
    out.push(Tok::Punct(44, false));
    out.push(Tok::Punct(38, false));
    out.push(Tok::Fixed(Kw::KwCx));
    out.push(Tok::Punct(46, false));
    out.push(Tok::Fixed(Kw::KwReq));
    out.push(Tok::Close(Delim::Paren));
    proof {
        assert(seq_sv(out@) =~= seq_sv(old(out)@) + direct_suffix());
    }
}

fn emit_path_header(out: &mut Vec<Tok>)
    ensures
        seq_sv(final (out)@) == seq_sv(old(out)@) + path_header(),
{
    out.push(Tok::Fixed(Kw::KwMatch));
    out.push(Tok::Fixed(Kw::KwCx));
    out.push(Tok::Punct(46, false));
    out.push(Tok::Fixed(Kw::KwNextPath));
    out.push(Tok::Open(Delim::Paren));
    out.push(Tok::Close(Delim::Paren));
    out.push(Tok::Punct(46, false));
    out.push(Tok::Fixed(Kw::KwAsDeref));
    out.push(Tok::Open(Delim::Paren));
    out.push(Tok::Close(Delim::Paren));
    out.push(Tok::Open(Delim::Brace));
    proof {
        assert(seq_sv(out@) =~= seq_sv(old(out)@) + path_header());
    }
}

fn emit_method_header(out: &mut Vec<Tok>)
    ensures
        seq_sv(final (out)@) == seq_sv(old(out)@) + method_header(),
{
    out.push(Tok::Fixed(Kw::KwMatch));
    out.push(Tok::Fixed(Kw::KwCx));
    out.push(Tok::Punct(46, false));
    out.push(Tok::Fixed(Kw::KwReq));
    out.push(Tok::Punct(46, false));
    out.push(Tok::Fixed(Kw::KwMethodField));
    out.push(Tok::Open(Delim::Brace));
    proof {
        assert(seq_sv(out@) =~= seq_sv(old(out)@) + method_header());
    }
}

fn emit_fallthrough(out: &mut Vec<Tok>, not_found: bool)
    ensures
        not_found ==> seq_sv(final (out)@) == seq_sv(old(out)@) + path_fallthrough(),
        !not_found ==> seq_sv(final (out)@) == seq_sv(old(out)@) + method_fallthrough(),
{
    out.push(Tok::Fixed(Kw::KwUnderscore));
    out.push(Tok::Punct(61, true));
    out.push(Tok::Punct(62, false));
    out.push(Tok::Punct(58, true));
    out.push(Tok::Punct(58, false));
    out.push(Tok::Fixed(Kw::KwMendes));
    out.push(Tok::Punct(58, true));
    out.push(Tok::Punct(58, false));
    out.push(Tok::Fixed(Kw::KwError));
    out.push(Tok::Punct(58, true));
    out.push(Tok::Punct(58, false));
    if not_found {
        out.push(Tok::Fixed(Kw::KwPathNotFound));
    } else {
        out.push(Tok::Fixed(Kw::KwMethodNotAllowed));
    }
    out.push(Tok::Punct(46, false));
    out.push(Tok::Fixed(Kw::KwIntoResponse));
    out.push(Tok::Open(Delim::Paren));
    out.push(Tok::Punct(38, false));
    out.push(Tok::Punct(42, false));
    out.push(Tok::Fixed(Kw::KwApp));
    out.push(Tok::Punct(44, false));
    out.push(Tok::Punct(38, false));
    out.push(Tok::Fixed(Kw::KwCx));
    out.push(Tok::Punct(46, false));
    out.push(Tok::Fixed(Kw::KwReq));
    out.push(Tok::Close(Delim::Paren));
    out.push(Tok::Punct(44, false));
    proof {
        if not_found {
            assert(seq_sv(out@) =~= seq_sv(old(out)@) + path_fallthrough());
        } else {
            assert(seq_sv(out@) =~= seq_sv(old(out)@) + method_fallthrough());
        }
    }
}

fn emit_method_prefix(out: &mut Vec<Tok>)
    ensures
        seq_sv(final (out)@) == seq_sv(old(out)@) + method_path_prefix(),
{
    out.push(Tok::Fixed(Kw::KwMendes));
    out.push(Tok::Punct(58, true));
    out.push(Tok::Punct(58, false));
    out.push(Tok::Fixed(Kw::KwHttp));
    out.push(Tok::Punct(58, true));
    out.push(Tok::Punct(58, false));
    out.push(Tok::Fixed(Kw::KwMethod));
    out.push(Tok::Punct(58, true));
    out.push(Tok::Punct(58, false));
    proof {
        assert(seq_sv(out@) =~= seq_sv(old(out)@) + method_path_prefix());
    }
}

/// Append the tokens a dispatch tree renders to.
pub fn render_target(toks: &Vec<Tok>, t: &Target, out: &mut Vec<Tok>)
    ensures
        seq_sv(final (out)@) == seq_sv(old(out)@) + spec_render_target(seq_sv(toks@), t.tv()),
    decreases *t, 0int,
{
    let ghost text = seq_sv(toks@);
    let ghost base = seq_sv(old(out)@);
    match t {
        Target::Direct { lo, hi } => {
            copy_range(toks, *lo, *hi, out);
            emit_direct_suffix(out);
            proof {
                assert(seq_sv(out@) =~= base + spec_render_target(text, t.tv()));
            }
        },
        Target::PathMap(arms) => {
            emit_path_header(out);
            let wild = render_path_arms(toks, arms, 0, out);
            if !wild {
                emit_fallthrough(out, true);
            }
            out.push(Tok::Close(Delim::Brace));
            proof {
                crate::target::lemma_pathmap_tv(*arms);
                assert(path_has_wild(path_arms_tv(arms@)) == wild) by {
                    if path_has_wild(path_arms_tv(arms@)) {
                        let m = choose|m: int|
                            0 <= m < path_arms_tv(arms@).len() && path_arms_tv(arms@)[m].wild;
                        assert(arms@[m].wild);
                    }
                    if wild {
                        let m = choose|m: int| 0 <= m < arms@.len() && arms@[m].wild;
                        assert(path_arms_tv(arms@)[m].wild);
                    }
                }
                assert(seq_sv(out@) =~= base + spec_render_target(text, t.tv()));
            }
        },
        Target::MethodMap(arms) => {
            emit_method_header(out);
            let wild = render_method_arms(toks, arms, 0, out);
            if !wild {
                emit_fallthrough(out, false);
            }
            out.push(Tok::Close(Delim::Brace));
            proof {
                crate::target::lemma_methodmap_tv(*arms);
                assert(method_has_wild(method_arms_tv(arms@)) == wild) by {
                    if method_has_wild(method_arms_tv(arms@)) {
                        let m = choose|m: int|
                            0 <= m < method_arms_tv(arms@).len() && method_arms_tv(arms@)[m].wild;
                        assert(arms@[m].wild);
                    }
                    if wild {
                        let m = choose|m: int| 0 <= m < arms@.len() && arms@[m].wild;
                        assert(method_arms_tv(arms@)[m].wild);
                    }
                }
                assert(seq_sv(out@) =~= base + spec_render_target(text, t.tv()));
            }
        },
    }
}

/// Append the tokens of the path arms from `k` on; the result says whether
/// one of them is the wildcard.
fn render_path_arms(toks: &Vec<Tok>, arms: &Vec<PathArm>, k: usize, out: &mut Vec<Tok>) -> (wild:
    bool)
    ensures
        seq_sv(final (out)@) == seq_sv(old(out)@) + spec_render_path_arms(
            seq_sv(toks@),
            path_arms_tv(arms@),
            k as int,
        ),
        wild == exists|m: int| k <= m < arms@.len() && arms@[m].wild,
    decreases *arms, rem(arms@.len() as int, k as int),
{
    let ghost text = seq_sv(toks@);
    let ghost base = seq_sv(old(out)@);
    if k >= arms.len() {
        proof {
            assert(seq_sv(out@) =~= base + spec_render_path_arms(
                text,
                path_arms_tv(arms@),
                k as int,
            ));
        }
        return false;
    }
    let arm = &arms[k];
    copy_range(toks, arm.attrs_lo, arm.attrs_hi, out);
    copy_range(toks, arm.head_lo, arm.head_hi, out);
    emit_arrow(out);
    if arm.wild {
        out.push(Tok::Open(Delim::Brace));
        emit_rewind(out);
        render_target(toks, &arm.target, out);
        out.push(Tok::Close(Delim::Brace));
    } else {
        render_target(toks, &arm.target, out);
        out.push(Tok::Punct(44, false));
    }
    proof {
        assert(seq_sv(out@) =~= base + spec_render_path_arm(text, arms@[k as int].tv()));
    }
    let rest_wild = render_path_arms(toks, arms, k + 1, out);
    proof {
        assert(seq_sv(out@) =~= base + spec_render_path_arms(text, path_arms_tv(arms@), k as int));
    }
    let w = arm.wild || rest_wild;
    proof {
        if arm.wild {
            assert(arms@[k as int].wild);
        }
        if !w {
            assert forall|m: int| k <= m < arms@.len() implies !arms@[m].wild by {
                if m > k {
                    assert(k + 1 <= m < arms@.len());
                }
            }
        }
    }
    w
}

/// Append the tokens of the method arms from `k` on; the result says whether
/// one of them names the identifier `_`.
fn render_method_arms(toks: &Vec<Tok>, arms: &Vec<MethodArm>, k: usize, out: &mut Vec<Tok>) -> (
    wild: bool)
    ensures
        seq_sv(final (out)@) == seq_sv(old(out)@) + spec_render_method_arms(
            seq_sv(toks@),
            method_arms_tv(arms@),
            k as int,
        ),
        wild == exists|m: int| k <= m < arms@.len() && arms@[m].wild,
    decreases *arms, rem(arms@.len() as int, k as int),
{
    let ghost text = seq_sv(toks@);
    let ghost base = seq_sv(old(out)@);
    if k >= arms.len() {
        proof {
            assert(seq_sv(out@) =~= base + spec_render_method_arms(
                text,
                method_arms_tv(arms@),
                k as int,
            ));
        }
        return false;
    }
    let arm = &arms[k];
    copy_range(toks, arm.attrs_lo, arm.attrs_hi, out);
    let n_hi = if arm.name_at >= toks.len() {
        arm.name_at
    } else {
        arm.name_at + 1
    };
    if arm.wild {
        copy_range(toks, arm.name_at, n_hi, out);
    } else {
        emit_method_prefix(out);
        copy_range(toks, arm.name_at, n_hi, out);
    }
    proof {
        assert(run_of(text, arm.name_at as int, n_hi as int) =~= run_of(
            text,
            arm.name_at as int,
            arm.name_at as int + 1,
        ));
    }
    emit_arrow(out);
    render_target(toks, &arm.target, out);
    out.push(Tok::Punct(44, false));
    proof {
        assert(seq_sv(out@) =~= base + spec_render_method_arm(text, arms@[k as int].tv()));
    }
    let rest_wild = render_method_arms(toks, arms, k + 1, out);
    proof {
        assert(seq_sv(out@) =~= base + spec_render_method_arms(
            text,
            method_arms_tv(arms@),
            k as int,
        ));
    }
    let w = arm.wild || rest_wild;
    proof {
        if arm.wild {
            assert(arms@[k as int].wild);
        }
        if !w {
            assert forall|m: int| k <= m < arms@.len() implies !arms@[m].wild by {
                if m > k {
                    assert(k + 1 <= m < arms@.len());
                }
            }
        }
    }
    w
}

} // verus!
