//! A flattened model of the host language's token trees.
//!
//! A token is an identifier, a literal, a punctuation character (with its
//! spacing), or an opening or closing delimiter; groups are flattened into
//! balanced `Open`/`Close` pairs. Identifiers the renderer itself emits come
//! from the fixed set [`Kw`], so that specifications can name them directly.

use vstd::prelude::*;

verus! {

/// A group delimiter.
#[derive(Clone, Copy, PartialEq, Eq, Structural, Debug)]
pub enum Delim {
    Paren,
    Brace,
    Bracket,
}

/// The fixed identifiers that the rewrites emit.
#[derive(Clone, Copy, PartialEq, Eq, Structural, Debug)]
pub enum Kw {
    KwHandler,
    KwMut,
    KwCx,
    KwAwait,
    KwIntoResponse,
    KwApp,
    KwReq,
    KwMatch,
    KwNextPath,
    KwAsDeref,
    KwRewind,
    KwUnderscore,
    KwMendes,
    KwError,
    KwPathNotFound,
    KwMethodNotAllowed,
    KwHttp,
    KwMethod,
    KwMethodField,
    KwUse,
    KwApplicationTrait,
    KwApplicationMod,
    KwResponder,
    KwLet,
    KwClone,
    KwContext,
    KwNew,
}

/// One token of the flattened stream.
#[derive(Clone, PartialEq, Eq, Debug)]
pub enum Tok {
    /// An identifier written by the user, as its bytes.
    Ident(Vec<u8>),
    /// A literal, as the bytes of its source text (quotes included).
    Lit(Vec<u8>),
    /// A punctuation character; the flag says whether it is joint with the
    /// next punctuation character (as the `=` of `=>` is).
    Punct(u8, bool),
    /// An opening delimiter.
    Open(Delim),
    /// A closing delimiter.
    Close(Delim),
    /// One of the fixed identifiers the renderer emits.
    Fixed(Kw),
}

/// The mathematical value of one token.
pub enum TokV {
    Ident(Seq<u8>),
    Lit(Seq<u8>),
    Punct(u8, bool),
    Open(Delim),
    Close(Delim),
    Fixed(Kw),
}

impl Tok {
    /// The mathematical value of this token.
    pub open spec fn sv(self) -> TokV {
        match self {
            Tok::Ident(v) => TokV::Ident(v@),
            Tok::Lit(v) => TokV::Lit(v@),
            Tok::Punct(c, j) => TokV::Punct(c, j),
            Tok::Open(d) => TokV::Open(d),
            Tok::Close(d) => TokV::Close(d),
            Tok::Fixed(k) => TokV::Fixed(k),
        }
    }

    /// Copy a token.
    pub fn dup(&self) -> (r: Tok)
        ensures
            r.sv() == self.sv(),
    {
        match self {
            Tok::Ident(v) => Tok::Ident(crate::text::dup_bytes(v)),
            Tok::Lit(v) => Tok::Lit(crate::text::dup_bytes(v)),
            Tok::Punct(c, j) => Tok::Punct(*c, *j),
            Tok::Open(d) => Tok::Open(*d),
            Tok::Close(d) => Tok::Close(*d),
            Tok::Fixed(k) => Tok::Fixed(*k),
        }
    }
}

/// The mathematical value of a token sequence.
pub open spec fn seq_sv(s: Seq<Tok>) -> Seq<TokV> {
    s.map_values(|t: Tok| t.sv())
}

/// The value of a token sequence extended by one token.
pub broadcast proof fn lemma_seq_sv_push(s: Seq<Tok>, t: Tok)
    ensures
        #[trigger] seq_sv(s.push(t)) == seq_sv(s).push(t.sv()),
{
    assert(seq_sv(s.push(t)) =~= seq_sv(s).push(t.sv()));
}

/// The value of the concatenation of two token sequences.
pub broadcast proof fn lemma_seq_sv_add(a: Seq<Tok>, b: Seq<Tok>)
    ensures
        #[trigger] seq_sv(a + b) == seq_sv(a) + seq_sv(b),
{
    assert(seq_sv(a + b) =~= seq_sv(a) + seq_sv(b));
}

/// The value of a contiguous part of a token sequence.
pub broadcast proof fn lemma_seq_sv_subrange(s: Seq<Tok>, i: int, j: int)
    requires
        0 <= i <= j <= s.len(),
    ensures
        #[trigger] seq_sv(s.subrange(i, j)) == seq_sv(s).subrange(i, j),
{
    assert(seq_sv(s.subrange(i, j)) =~= seq_sv(s).subrange(i, j));
}

} // verus!
