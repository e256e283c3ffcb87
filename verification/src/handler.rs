//! The handler rewrite: wrapping one async function into a module that holds
//! a generated `handler` adapter and the user's function renamed `call`.
//!
//! The rewrite reads, from the function's syntax, only what the model here
//! holds: its visibility, its name, and for every parameter whether it is a
//! receiver, whether its pattern is a wildcard, the shape of its type, and
//! the names of its attributes. The result says everything the emitted
//! module depends on: the lifted visibility, the application type, the
//! upper-cased method set of the method guard, one extraction per parameter
//! after the first (in order, each with its binder and its extractor), and
//! which parameter attributes the `call` function keeps.

use vstd::prelude::*;

use crate::grammar::{fits, is_punct, rem};
use crate::text::{arc_bytes, bytes_is, dup_bytes, query_bytes, query_ident, rest_bytes,
    rest_ident, to_upper, upper_bytes};
use crate::tok::{seq_sv, Tok, TokV};
use crate::vis::{spec_lifted, nested_visibility, Visibility};

verus! {

/// A parameter pattern, as far as the rewrite reads it: the wildcard `_`, a
/// plain identifier, or anything else (kept as it stands).
#[derive(PartialEq, Eq, Debug)]
pub enum Pat {
    Wild,
    Named(Vec<u8>),
    Other,
}

/// One parameter attribute: the bytes of its path when the path is a single
/// identifier.
#[derive(PartialEq, Eq, Debug)]
pub struct Attr {
    pub name: Option<Vec<u8>>,
}

/// A path type, as far as the rewrite reads it: its first segment's
/// identifier and, when that segment has angle-bracketed arguments whose
/// first is a type, that type.
#[derive(PartialEq, Eq, Debug)]
pub struct TyPath {
    pub first_seg: Vec<u8>,
    pub first_arg: Option<Box<Ty>>,
}

/// A parameter type, as far as the rewrite reads it.
#[derive(PartialEq, Eq, Debug)]
pub enum Ty {
    Reference(Box<Ty>),
    Path(TyPath),
    Opaque,
}

/// One function parameter: pattern, type, attributes.
#[derive(PartialEq, Eq, Debug)]
pub struct Param {
    pub pat: Pat,
    pub ty: Ty,
    pub attrs: Vec<Attr>,
}

/// One function argument: a receiver (`self`) or a typed parameter.
#[derive(PartialEq, Eq, Debug)]
pub enum FnArg {
    Receiver,
    Typed(Param),
}

/// The function under rewrite: its visibility, its name, its arguments.
#[derive(Debug)]
pub struct HandlerFn {
    pub vis: Visibility,
    pub name: Vec<u8>,
    pub inputs: Vec<FnArg>,
}

/// How one parameter is extracted from the request context.
#[derive(Clone, Copy, PartialEq, Eq, Structural, Debug)]
pub enum ExtractKind {
    Plain,
    Rest,
    Query,
}

/// The binder an extraction is bound to and the tail call forwards: the
/// parameter's own pattern, or the synthesized identifier `_i` for a
/// wildcard at zero-based position `i`.
#[derive(Clone, Copy, PartialEq, Eq, Structural, Debug)]
pub enum Binder {
    FromPat,
    Synth(usize),
}

/// One step of the extraction prelude: the parameter it extracts (by its
/// position in the argument list), the extractor used, and the binder.
#[derive(Clone, Copy, PartialEq, Eq, Structural, Debug)]
pub struct Extraction {
    pub index: usize,
    pub kind: ExtractKind,
    pub binder: Binder,
}

/// The rewrite's failures, each a compile-time diagnostic.
#[derive(Clone, Copy, PartialEq, Eq, Structural, Debug)]
pub enum HandlerError {
    MissingApp,
    NotReference,
    Receiver,
    ArgsAfterRest,
}

/// The emitted module, in full: everything the host-syntax printer needs.
#[derive(Debug)]
pub struct HandlerOut {
    /// The module's name: the name of the function under rewrite.
    pub module_name: Vec<u8>,
    /// The module's visibility: the function's original visibility.
    pub module_vis: Visibility,
    /// The visibility of the two items inside the module: the lifted one.
    pub item_vis: Visibility,
    /// The application type threaded through every extractor.
    pub app_type: Ty,
    /// Whether the application type was unwrapped from a shared-owner
    /// (`Arc`) wrapper around the first parameter's referent.
    pub app_unwrapped: bool,
    /// The method guard's accepted methods, upper-cased, in order.
    pub methods: Vec<Vec<u8>>,
    /// The extraction prelude, one entry per parameter after the first.
    pub extractions: Vec<Extraction>,
    /// For every parameter, which of its attributes the `call` function
    /// keeps (`true`) and which recognized tags are stripped (`false`).
    pub attr_keep: Vec<Vec<bool>>,
}

impl HandlerError {
    /// The diagnostic text of this failure.
    pub fn message(&self) -> (r: &'static str)
        ensures
            *self == HandlerError::MissingApp ==> r@ == (
            "handler argument lists must have &App as their first type")@,
            *self == HandlerError::NotReference ==> r@ == (
            "handler's first argument must be a reference")@,
            *self == HandlerError::Receiver ==> r@ == (
            "did not expect receiver argument in handler")@,
            *self == HandlerError::ArgsAfterRest ==> r@ == (
            "more arguments after #[rest] not allowed")@,
    {
        match self {
            HandlerError::MissingApp => "handler argument lists must have &App as their first type",
            HandlerError::NotReference => "handler's first argument must be a reference",
            HandlerError::Receiver => "did not expect receiver argument in handler",
            HandlerError::ArgsAfterRest => "more arguments after #[rest] not allowed",
        }
    }
}

/// An attribute whose path is the given one-identifier name.
pub open spec fn attr_named(a: Attr, s: Seq<u8>) -> bool {
    a.name matches Some(n) && n@ == s
}

/// An attribute named `rest` or `query`: the tags the rewrite recognizes and
/// strips.
pub open spec fn attr_is_tag(a: Attr) -> bool {
    attr_named(a, rest_bytes()) || attr_named(a, query_bytes())
}

/// A parameter carries the `rest` tag.
pub open spec fn has_rest_attr(p: Param) -> bool {
    exists|j: int| 0 <= j < p.attrs@.len() && #[trigger] attr_named(p.attrs@[j], rest_bytes())
}

/// A parameter carries the `query` tag.
pub open spec fn has_query_attr(p: Param) -> bool {
    exists|j: int| 0 <= j < p.attrs@.len() && #[trigger] attr_named(p.attrs@[j], query_bytes())
}

/// The extractor a parameter is read with: `rest` wins over `query`, and a
/// parameter with neither tag is extracted by its own type.
pub open spec fn spec_param_kind(p: Param) -> ExtractKind {
    if has_rest_attr(p) {
        ExtractKind::Rest
    } else if has_query_attr(p) {
        ExtractKind::Query
    } else {
        ExtractKind::Plain
    }
}

/// The binder of the parameter at position `i`: a plainly extracted
/// wildcard gets the synthesized name `_i`, everything else keeps its own
/// pattern.
pub open spec fn spec_binder(p: Param, i: usize) -> Binder {
    if spec_param_kind(p) is Plain && p.pat is Wild {
        Binder::Synth(i)
    } else {
        Binder::FromPat
    }
}

/// The extraction prelude and the tagged-argument placement check, walking
/// the arguments from `i` on: a receiver is an error, any parameter after
/// one tagged `rest` is an error, and otherwise each parameter yields one
/// extraction in order.
pub open spec fn spec_build(inputs: Seq<FnArg>, i: int, rest_seen: bool) -> Result<
    Seq<Extraction>,
    HandlerError,
>
    decreases rem(inputs.len() as int, i),
{
    if i < 0 || i >= inputs.len() {
        Ok(Seq::empty())
    } else {
        match inputs[i] {
            FnArg::Receiver => Err(HandlerError::Receiver),
            FnArg::Typed(p) => if rest_seen {
                Err(HandlerError::ArgsAfterRest)
            } else {
                let e = Extraction {
                    index: i as usize,
                    kind: spec_param_kind(p),
                    binder: spec_binder(p, i as usize),
                };
                match spec_build(inputs, i + 1, spec_param_kind(p) is Rest) {
                    Ok(rest) => Ok(seq![e] + rest),
                    Err(er) => Err(er),
                }
            },
        }
    }
}

/// The first parameter's referent: the type behind the `&` of `&App`.
pub open spec fn spec_first_referent(inputs: Seq<FnArg>) -> Ty {
    match inputs[0] {
        FnArg::Typed(p) => match p.ty {
            Ty::Reference(b) => *b,
            _ => arbitrary(),
        },
        _ => arbitrary(),
    }
}

/// Whether a referent has the shared-owner shape `Arc<T>` whose inner type
/// is taken as the application type.
pub open spec fn spec_app_unwrapped(t: Ty) -> bool {
    t matches Ty::Path(tp) && tp.first_seg@ == arc_bytes() && tp.first_arg is Some
}

/// The application type read off a referent: the inner type of a
/// shared-owner wrapper, else the referent itself.
pub open spec fn spec_app_type(t: Ty) -> Ty {
    match t {
        Ty::Path(tp) => match tp.first_arg {
            Some(inner) => if tp.first_seg@ == arc_bytes() {
                *inner
            } else {
                Ty::Path(tp)
            },
            None => Ty::Path(tp),
        },
        _ => t,
    }
}

/// The rewrite's failure on a function, if any: a first argument that is
/// missing, a receiver, or not a reference, else the first failure of the
/// argument walk.
pub open spec fn spec_handler_err(f: HandlerFn) -> Option<HandlerError> {
    if f.inputs@.len() == 0 {
        Some(HandlerError::MissingApp)
    } else if (f.inputs@[0] matches FnArg::Receiver) {
        Some(HandlerError::Receiver)
    } else if !(f.inputs@[0] matches FnArg::Typed(p) && p.ty matches Ty::Reference(_)) {
        Some(HandlerError::NotReference)
    } else {
        match spec_build(f.inputs@, 1, false) {
            Ok(_) => None,
            Err(e) => Some(e),
        }
    }
}

/// Which attributes of one parameter the `call` function keeps: all but the
/// recognized tags.
pub open spec fn spec_keep_mask(attrs: Seq<Attr>) -> Seq<bool> {
    attrs.map_values(|a: Attr| !attr_is_tag(a))
}

/// The keep mask of one argument: a receiver has no attributes.
pub open spec fn spec_arg_keep(a: FnArg) -> Seq<bool> {
    match a {
        FnArg::Typed(p) => spec_keep_mask(p.attrs@),
        FnArg::Receiver => Seq::empty(),
    }
}

/// The method set of a `#[handler(GET, POST, …)]` attribute.
pub struct HandlerMethods {
    pub methods: Vec<Vec<u8>>,
}

/// The attribute's argument grammar: identifiers separated by commas, with
/// a trailing comma tolerated; anything else is an error.
pub open spec fn spec_parse_methods(text: Seq<TokV>, i: int) -> Option<Seq<Seq<u8>>>
    decreases rem(text.len() as int, i),
{
    if i < 0 || i >= text.len() {
        Some(Seq::empty())
    } else {
        match text[i] {
            TokV::Ident(n) => if i + 1 >= text.len() {
                Some(seq![n])
            } else if is_punct(text[i + 1], 44) {
                match spec_parse_methods(text, i + 2) {
                    Some(rest) => Some(seq![n] + rest),
                    None => None,
                }
            } else {
                None
            },
            _ => None,
        }
    }
}

fn parse_methods_at(toks: &Vec<Tok>, i: usize) -> (r: Option<Vec<Vec<u8>>>)
    requires
        fits(toks@),
        i <= toks@.len() + 4,
    ensures
        ({
            match r {
                Some(v) => spec_parse_methods(seq_sv(toks@), i as int) matches Some(s) && v@.len()
                    == s.len() && forall|k: int| 0 <= k < s.len() ==> (#[trigger] v@[k])@ == s[k],
                None => spec_parse_methods(seq_sv(toks@), i as int) is None,
            }
        }),
    decreases rem(toks@.len() as int, i as int),
{
    if i >= toks.len() {
        return Some(Vec::new());
    }
    let n = match &toks[i] {
        Tok::Ident(n) => dup_bytes(n),
        _ => {
            return None;
        },
    };
    if i + 1 >= toks.len() {
        let mut v: Vec<Vec<u8>> = Vec::new();
        v.push(n);
        return Some(v);
    }
    let comma = match &toks[i + 1] {
        Tok::Punct(c, _) => *c == 44,
        _ => false,
    };
    if !comma {
        return None;
    }
    match parse_methods_at(toks, i + 2) {
        Some(mut rest) => {
            rest.insert(0, n);
            Some(rest)
        },
        None => None,
    }
}

impl HandlerMethods {
    /// Parse the token list of the attribute's arguments.
    pub fn parse(toks: &Vec<Tok>) -> (r: Option<HandlerMethods>)
        requires
            fits(toks@),
        ensures
            ({
                match r {
                    Some(hm) => spec_parse_methods(seq_sv(toks@), 0) matches Some(s)
                        && hm.methods@.len() == s.len() && forall|k: int|
                        0 <= k < s.len() ==> (#[trigger] hm.methods@[k])@ == s[k],
                    None => spec_parse_methods(seq_sv(toks@), 0) is None,
                }
            }),
    {
        match parse_methods_at(toks, 0) {
            Some(v) => Some(HandlerMethods { methods: v }),
            None => None,
        }
    }
}

/// The plain extraction of the parameter at position `k`: extracted by its
/// own type, bound to its own pattern or a synthesized wildcard name.
pub open spec fn plain_extraction(inputs: Seq<FnArg>, k: int) -> Extraction {
    Extraction {
        index: k as usize,
        kind: ExtractKind::Plain,
        binder: spec_binder(inputs[k]->Typed_0, k as usize),
    }
}

/// Law: a function whose parameters after the first carry no `rest` or
/// `query` tag yields exactly one plain extraction per such parameter, in
/// order, each bound to the parameter's own pattern (or the synthesized
/// name of a wildcard), followed by nothing else.
pub proof fn lemma_untagged_extractions(inputs: Seq<FnArg>, i: int)
    requires
        0 <= i <= inputs.len(),
        forall|k: int|
            i <= k < inputs.len() ==> ((#[trigger] inputs[k]) matches FnArg::Typed(p)
                && !has_rest_attr(p) && !has_query_attr(p)),
    ensures
        spec_build(inputs, i, false) matches Ok(exts) && exts.len() == inputs.len() - i && (forall|
            k: int,
        | 0 <= k < exts.len() ==> #[trigger] exts[k] == plain_extraction(inputs, i + k)),
    decreases inputs.len() - i,
{
    if i < inputs.len() {
        lemma_untagged_extractions(inputs, i + 1);
        assert(inputs[i] matches FnArg::Typed(p) && !has_rest_attr(p) && !has_query_attr(p));
    }
}

/// Whether a method guard built from the given (already upper-cased) method
/// list accepts a method name; every name it does not accept falls through
/// to the guard's `MethodNotAllowed` arm.
pub open spec fn guard_accepts(methods: Seq<Vec<u8>>, m: Seq<u8>) -> bool {
    exists|k: int| 0 <= k < methods.len() && (#[trigger] methods[k])@ == m
}

/// Law: the emitted method guard covers exactly the upper-cased members of
/// the method set — it accepts a method name exactly when some member of
/// the set upper-cases to it.
pub proof fn lemma_method_guard_totality(methods: Seq<Vec<u8>>, emitted: Seq<Vec<u8>>, m: Seq<u8>)
    requires
        emitted.len() == methods.len(),
        forall|k: int|
            0 <= k < methods.len() ==> (#[trigger] emitted[k])@ == upper_bytes(methods[k]@),
    ensures
        guard_accepts(emitted, m) <==> exists|k: int|
            0 <= k < methods.len() && upper_bytes((#[trigger] methods[k])@) == m,
{
    if guard_accepts(emitted, m) {
        let k = choose|k: int| 0 <= k < emitted.len() && (#[trigger] emitted[k])@ == m;
        assert(upper_bytes(methods[k]@) == m);
    }
    if exists|k: int| 0 <= k < methods.len() && upper_bytes((#[trigger] methods[k])@) == m {
        let k = choose|k: int| 0 <= k < methods.len() && upper_bytes((#[trigger] methods[k])@) == m;
        assert(emitted[k]@ == m);
    }
}

/// Law: the `call` function keeps a parameter attribute exactly when it is
/// not a recognized `rest`/`query` tag; every other attribute is kept as it
/// stands.
pub proof fn lemma_tag_stripping(attrs: Seq<Attr>)
    ensures
        spec_keep_mask(attrs).len() == attrs.len(),
        forall|j: int|
            0 <= j < attrs.len() ==> spec_keep_mask(attrs)[j] == !attr_is_tag(#[trigger] attrs[j]),
{
}

fn attr_keep_exec(a: &Attr) -> (r: bool)
    ensures
        r == !attr_is_tag(*a),
{
    match &a.name {
        Some(n) => !(bytes_is(n, &rest_ident()) || bytes_is(n, &query_ident())),
        None => true,
    }
}

fn param_kind(p: &Param) -> (r: ExtractKind)
    ensures
        r == spec_param_kind(*p),
{
    let mut has_rest = false;
    let mut has_query = false;
    let mut j: usize = 0;
    while j < p.attrs.len()
        invariant
            j <= p.attrs@.len(),
            has_rest == exists|m: int|
                0 <= m < j && #[trigger] attr_named(p.attrs@[m], rest_bytes()),
            has_query == exists|m: int|
                0 <= m < j && #[trigger] attr_named(p.attrs@[m], query_bytes()),
        decreases p.attrs@.len() - j,
    {
        let named_rest = match &p.attrs[j].name {
            Some(n) => bytes_is(n, &rest_ident()),
            None => false,
        };
        let named_query = match &p.attrs[j].name {
            Some(n) => bytes_is(n, &query_ident()),
            None => false,
        };
        proof {
            assert(named_rest == attr_named(p.attrs@[j as int], rest_bytes()));
            assert(named_query == attr_named(p.attrs@[j as int], query_bytes()));
            if exists|m: int| 0 <= m < j + 1 && #[trigger] attr_named(p.attrs@[m], rest_bytes()) {
                let m = choose|m: int|
                    0 <= m < j + 1 && #[trigger] attr_named(p.attrs@[m], rest_bytes());
                if m < j {
                    assert(exists|m: int|
                        0 <= m < j && #[trigger] attr_named(p.attrs@[m], rest_bytes()));
                }
            }
            if exists|m: int| 0 <= m < j + 1 && #[trigger] attr_named(p.attrs@[m], query_bytes()) {
                let m = choose|m: int|
                    0 <= m < j + 1 && #[trigger] attr_named(p.attrs@[m], query_bytes());
                if m < j {
                    assert(exists|m: int|
                        0 <= m < j && #[trigger] attr_named(p.attrs@[m], query_bytes()));
                }
            }
        }
        if named_rest {
            has_rest = true;
        }
        if named_query {
            has_query = true;
        }
        j += 1;
    }
    if has_rest {
        ExtractKind::Rest
    } else if has_query {
        ExtractKind::Query
    } else {
        ExtractKind::Plain
    }
}

/// Rewrite one async function into the handler module: the method guard's
/// upper-cased methods, the extraction prelude, the tag stripping, the
/// application type (unwrapping a shared owner), and the lifted visibility;
/// or the rewrite's first failure.
#[verifier::loop_isolation(false)]
pub fn handler(methods: &Vec<Vec<u8>>, f: HandlerFn) -> (r: Result<HandlerOut, HandlerError>)
    ensures
        ({
            match r {
                Err(e) => spec_handler_err(f) == Some(e),
                Ok(out) => {
                    &&& spec_handler_err(f) is None
                    &&& out.module_name == f.name
                    &&& out.module_vis == f.vis
                    &&& out.item_vis == spec_lifted(f.vis)
                    &&& out.app_type == spec_app_type(spec_first_referent(f.inputs@))
                    &&& out.app_unwrapped == spec_app_unwrapped(spec_first_referent(f.inputs@))
                    &&& out.methods@.len() == methods@.len()
                    &&& forall|k: int|
                        0 <= k < methods@.len() ==> out.methods@[k]@ == upper_bytes(methods@[k]@)
                    &&& spec_build(f.inputs@, 1, false) matches Ok(exts) && out.extractions@
                        == exts
                    &&& out.attr_keep@.len() == f.inputs@.len()
                    &&& forall|k: int|
                        0 <= k < f.inputs@.len() ==> out.attr_keep@[k]@ == spec_arg_keep(
                            f.inputs@[k],
                        )
                },
            }
        }),
{
    let HandlerFn { vis, name, inputs } = f;
    if inputs.len() == 0 {
        return Err(HandlerError::MissingApp);
    }
    let first_err: Option<HandlerError> = match &inputs[0] {
        FnArg::Receiver => Some(HandlerError::Receiver),
        FnArg::Typed(p) => match &p.ty {
            Ty::Reference(_) => None,
            _ => Some(HandlerError::NotReference),
        },
    };
    match first_err {
        Some(e) => {
            return Err(e);
        },
        None => {},
    }
    proof {
        assert(inputs@[0] matches FnArg::Typed(p) && p.ty matches Ty::Reference(_));
    }
    // The argument walk: placement check and extraction prelude in one pass.
    let mut extractions: Vec<Extraction> = Vec::new();
    let mut rest_seen = false;
    let mut i: usize = 1;
    proof {
        assert(extractions@ + spec_build(inputs@, 1, false)->Ok_0 =~= spec_build(
            inputs@,
            1,
            false,
        )->Ok_0);
    }
    while i < inputs.len()
        invariant
            1 <= i <= inputs@.len(),
            ({
                match spec_build(inputs@, i as int, rest_seen) {
                    Ok(rest) => spec_build(inputs@, 1, false) == Ok::<_, HandlerError>(
                        extractions@ + rest,
                    ),
                    Err(e) => spec_build(inputs@, 1, false) == Err::<Seq<Extraction>, _>(e),
                }
            }),
        decreases inputs@.len() - i,
    {
        let ghost pre = extractions@;
        match &inputs[i] {
            FnArg::Receiver => {
                proof {
                    assert(spec_build(inputs@, i as int, rest_seen) == Err::<
                        Seq<Extraction>,
                        HandlerError,
                    >(HandlerError::Receiver));
                }
                return Err(HandlerError::Receiver);
            },
            FnArg::Typed(p) => {
                if rest_seen {
                    proof {
                        assert(spec_build(inputs@, i as int, rest_seen) == Err::<
                            Seq<Extraction>,
                            HandlerError,
                        >(HandlerError::ArgsAfterRest));
                    }
                    return Err(HandlerError::ArgsAfterRest);
                }
                let kind = param_kind(p);
                let wildp = match &p.pat {
                    Pat::Wild => true,
                    _ => false,
                };
                let binder = match kind {
                    ExtractKind::Plain => if wildp {
                        Binder::Synth(i)
                    } else {
                        Binder::FromPat
                    },
                    _ => Binder::FromPat,
                };
                let is_rest = match kind {
                    ExtractKind::Rest => true,
                    _ => false,
                };
                extractions.push(Extraction { index: i, kind, binder });
                proof {
                    let e = Extraction {
                        index: i as usize,
                        kind: spec_param_kind(inputs@[i as int]->Typed_0),
                        binder: spec_binder(inputs@[i as int]->Typed_0, i as usize),
                    };
                    assert(extractions@ =~= pre + seq![e]);
                    match spec_build(inputs@, i + 1, is_rest) {
                        Ok(rest) => {
                            assert(pre + (seq![e] + rest) =~= extractions@ + rest);
                        },
                        Err(_) => {},
                    }
                }
                rest_seen = is_rest;
            },
        }
        i += 1;
    }
    proof {
        assert(extractions@ + Seq::<Extraction>::empty() =~= extractions@);
    }
    // The method guard's methods, upper-cased, in order.
    let mut up: Vec<Vec<u8>> = Vec::new();
    let mut k: usize = 0;
    while k < methods.len()
        invariant
            k <= methods@.len(),
            up@.len() == k,
            forall|m: int| 0 <= m < k ==> up@[m]@ == upper_bytes(methods@[m]@),
        decreases methods@.len() - k,
    {
        up.push(to_upper(&methods[k]));
        k += 1;
    }
    // Which attributes each parameter keeps on the `call` function.
    let mut keep: Vec<Vec<bool>> = Vec::new();
    let mut k2: usize = 0;
    while k2 < inputs.len()
        invariant
            k2 <= inputs@.len(),
            keep@.len() == k2,
            forall|m: int| 0 <= m < k2 ==> keep@[m]@ == spec_arg_keep(inputs@[m]),
        decreases inputs@.len() - k2,
    {
        let mut mask: Vec<bool> = Vec::new();
        match &inputs[k2] {
            FnArg::Receiver => {
                proof {
                    assert(mask@ =~= spec_arg_keep(inputs@[k2 as int]));
                }
            },
            FnArg::Typed(p) => {
                let mut j: usize = 0;
                while j < p.attrs.len()
                    invariant
                        j <= p.attrs@.len(),
                        mask@.len() == j,
                        forall|m: int| 0 <= m < j ==> mask@[m] == !attr_is_tag(p.attrs@[m]),
                    decreases p.attrs@.len() - j,
                {
                    mask.push(attr_keep_exec(&p.attrs[j]));
                    j += 1;
                }
                proof {
                    assert(mask@ =~= spec_arg_keep(inputs@[k2 as int]));
                }
            },
        }
        keep.push(mask);
        k2 += 1;
    }
    // The application type: the first parameter's referent, unwrapped from a
    // shared owner when it has that shape.
    let mut inputs = inputs;
    let first = inputs.remove(0);
    let referent = match first {
        FnArg::Typed(p) => match p.ty {
            Ty::Reference(b) => *b,
            _ => {
                proof {
                    assert(false);
                }
                Ty::Opaque
            },
        },
        _ => {
            proof {
                assert(false);
            }
            Ty::Opaque
        },
    };
    let unwrapped = match &referent {
        Ty::Path(tp) => bytes_is(&tp.first_seg, &crate::text::arc_ident()) && match &tp.first_arg {
            Some(_) => true,
            None => false,
        },
        _ => false,
    };
    let app_type = if unwrapped {
        match referent {
            Ty::Path(tp) => match tp.first_arg {
                Some(bx) => *bx,
                None => {
                    proof {
                        assert(false);
                    }
                    Ty::Opaque
                },
            },
            _ => {
                proof {
                    assert(false);
                }
                Ty::Opaque
            },
        }
    } else {
        referent
    };
    let item_vis = nested_visibility(vis);
    Ok(
        HandlerOut {
            module_name: name,
            module_vis: vis,
            item_vis,
            app_type,
            app_unwrapped: unwrapped,
            methods: up,
            extractions,
            attr_keep: keep,
        },
    )
}

} // verus!
