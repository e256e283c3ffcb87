//! The route rewrite: replacing the `path!`/`method!` macro site inside a
//! routing function by the rendered dispatch expression, and splicing a
//! context-setup prelude just before it.
//!
//! The rewrite walks the function's body statements in order (descending
//! into an inner function when the first statement is one, as wrappers
//! around async trait methods produce); the first `let` initializer,
//! expression statement or item statement that is a `path!` or `method!`
//! invocation is the macro site. In root mode the prelude builds a fresh
//! context from the function's first two arguments and the function is
//! returned as it stands; otherwise the prelude rebinds the first argument
//! as the context, and the function is renamed `handler` and wrapped in a
//! module bearing its original name, with lifted visibility.

use vstd::prelude::*;

use crate::grammar::{fits, parse_macro, rem, spec_parse_macro};
use crate::render::{render_target, spec_render_target};
use crate::text::{bytes_is, dup_bytes, method_bytes, method_ident, path_bytes, path_ident};
use crate::tok::{seq_sv, Delim, Kw, Tok, TokV};
use crate::vis::{nested_visibility, spec_lifted, Visibility};

verus! {

/// A dispatch macro invocation: its path (the bytes of its identifier when
/// the path is a single identifier) and the tokens of its body.
#[derive(Debug)]
pub struct MacroCall {
    pub name: Option<Vec<u8>>,
    pub body: Vec<Tok>,
}

/// An expression, as far as the rewrite reads it.
#[derive(Debug)]
pub enum Expr {
    Macro(MacroCall),
    Other,
}

/// An inner function item: its argument names (for identifier patterns) and
/// its body statements.
#[derive(Debug)]
pub struct InnerFn {
    pub arg_names: Vec<Option<Vec<u8>>>,
    pub stmts: Vec<Stmt>,
}

/// An item, as far as the rewrite reads it.
#[derive(Debug)]
pub enum Item {
    Fn(InnerFn),
    Macro(MacroCall),
    Other,
}

/// One body statement, as far as the rewrite reads it.
#[derive(Debug)]
pub enum Stmt {
    Local { init: Option<Expr> },
    Expr(Expr),
    Item(Item),
    Other,
}

/// The routing function under rewrite: its visibility, its name, its
/// argument names (for identifier patterns), and its body statements.
pub struct RouteFn {
    pub vis: Visibility,
    pub name: Vec<u8>,
    pub arg_names: Vec<Option<Vec<u8>>>,
    pub stmts: Vec<Stmt>,
}

/// How the macro site is replaced: overwriting the expression (of a `let`
/// initializer or an expression statement), or replacing a whole item
/// statement by an expression statement.
#[derive(Clone, Copy, PartialEq, Eq, Structural, Debug)]
pub enum Site {
    ExprSite,
    ItemSite,
}

/// The rewrite's failures, each a compile-time diagnostic.
#[derive(Clone, Copy, PartialEq, Eq, Structural, Debug)]
pub enum RouteError {
    /// No statement of the chosen body is a `path!` or `method!` invocation.
    NoMacro,
    /// The dispatch macro's body does not parse, or a target names an
    /// unknown macro.
    BadDispatch,
}

/// The module a nested route is wrapped in.
#[derive(Debug)]
pub struct Wrap {
    pub module_name: Vec<u8>,
    pub module_vis: Visibility,
    pub item_vis: Visibility,
}

/// The rewrite's result: where the macro site stands, the rendered dispatch
/// expression, the prelude statements spliced before it, and for a nested
/// route the wrapping module.
#[derive(Debug)]
pub struct RouteOut {
    /// Whether the rewrite descended into an inner function item standing
    /// first in the body.
    pub descended: bool,
    /// The macro site's position in the chosen statement list.
    pub index: usize,
    /// How the site is replaced.
    pub site: Site,
    /// The tokens of the rendered dispatch expression.
    pub expr: Vec<Tok>,
    /// The tokens of the prelude statements.
    pub prelude: Vec<Tok>,
    /// The wrapping module of a nested route; a root route is not wrapped
    /// and keeps its name and visibility.
    pub wrap: Option<Wrap>,
}

impl RouteError {
    /// The diagnostic text of this failure.
    pub fn message(&self) -> (r: &'static str)
        ensures
            *self == RouteError::NoMacro ==> r@ == ("did not find 'path' or 'method' macro")@,
    {
        match self {
            RouteError::NoMacro => "did not find 'path' or 'method' macro",
            RouteError::BadDispatch => "could not parse dispatch macro body",
        }
    }
}

/// A macro invocation of `path!` or `method!`.
pub open spec fn is_dispatch(m: MacroCall) -> bool {
    m.name matches Some(n) && (n@ == path_bytes() || n@ == method_bytes())
}

/// The bytes of a dispatch macro's name.
pub open spec fn macro_name(m: MacroCall) -> Seq<u8> {
    match m.name {
        Some(n) => n@,
        None => Seq::empty(),
    }
}

/// The macro site one statement offers, if any: a `let` whose initializer is
/// a dispatch macro, an expression statement that is one, or an item
/// statement that is one.
pub open spec fn spec_stmt_site(s: Stmt) -> Option<(Site, MacroCall)> {
    match s {
        Stmt::Local { init: Some(Expr::Macro(m)) } => if is_dispatch(m) {
            Some((Site::ExprSite, m))
        } else {
            None
        },
        Stmt::Expr(Expr::Macro(m)) => if is_dispatch(m) {
            Some((Site::ExprSite, m))
        } else {
            None
        },
        Stmt::Item(Item::Macro(m)) => if is_dispatch(m) {
            Some((Site::ItemSite, m))
        } else {
            None
        },
        _ => None,
    }
}

/// The first macro site at or after `i`.
pub open spec fn spec_find_site(stmts: Seq<Stmt>, i: int) -> Option<(int, Site, MacroCall)>
    decreases rem(stmts.len() as int, i),
{
    if i < 0 || i >= stmts.len() {
        None
    } else {
        match spec_stmt_site(stmts[i]) {
            Some((site, m)) => Some((i, site, m)),
            None => spec_find_site(stmts, i + 1),
        }
    }
}

/// The first body statement is an inner function item, whose body is then
/// the one searched and spliced.
pub open spec fn spec_descends(stmts: Seq<Stmt>) -> bool {
    stmts.len() > 0 && stmts[0] matches Stmt::Item(Item::Fn(_))
}

/// The statement list the rewrite works on.
pub open spec fn spec_chosen_stmts(f: RouteFn) -> Seq<Stmt> {
    if spec_descends(f.stmts@) {
        match f.stmts@[0] {
            Stmt::Item(Item::Fn(inner)) => inner.stmts@,
            _ => Seq::empty(),
        }
    } else {
        f.stmts@
    }
}

/// The argument names the prelude reads.
pub open spec fn spec_chosen_args(f: RouteFn) -> Seq<Option<Vec<u8>>> {
    if spec_descends(f.stmts@) {
        match f.stmts@[0] {
            Stmt::Item(Item::Fn(inner)) => inner.arg_names@,
            _ => Seq::empty(),
        }
    } else {
        f.arg_names@
    }
}

/// The bytes of the argument name at `i`.
pub open spec fn spec_arg_name(args: Seq<Option<Vec<u8>>>, i: int) -> Seq<u8> {
    match args[i] {
        Some(n) => n@,
        None => Seq::empty(),
    }
}

/// The rendered dispatch expression of a statement list, when its macro site
/// is found and parses.
pub open spec fn spec_route_expr(stmts: Seq<Stmt>) -> Option<Seq<TokV>> {
    match spec_find_site(stmts, 0) {
        Some((i, site, m)) => match spec_parse_macro(macro_name(m), seq_sv(m.body@)) {
            Some(t) => Some(spec_render_target(seq_sv(m.body@), t)),
            None => None,
        },
        None => None,
    }
}

/// `use mendes::Application; use mendes::application::Responder;` — the
/// imports both preludes open with.
pub open spec fn use_lines() -> Seq<TokV> {
    seq![
        TokV::Fixed(Kw::KwUse),
        TokV::Fixed(Kw::KwMendes),
        TokV::Punct(58, true),
        TokV::Punct(58, false),
        TokV::Fixed(Kw::KwApplicationTrait),
        TokV::Punct(59, false),
        TokV::Fixed(Kw::KwUse),
        TokV::Fixed(Kw::KwMendes),
        TokV::Punct(58, true),
        TokV::Punct(58, false),
        TokV::Fixed(Kw::KwApplicationMod),
        TokV::Punct(58, true),
        TokV::Punct(58, false),
        TokV::Fixed(Kw::KwResponder),
        TokV::Punct(59, false),
    ]
}

/// The root prelude: `let app = A.clone(); let mut cx =
/// mendes::Context::new(A, R);` after the imports, for the application
/// argument `A` and the request argument `R`.
pub open spec fn root_prelude(app_name: Seq<u8>, req_name: Seq<u8>) -> Seq<TokV> {
    use_lines() + seq![
        TokV::Fixed(Kw::KwLet),
        TokV::Fixed(Kw::KwApp),
        TokV::Punct(61, false),
        TokV::Ident(app_name),
        TokV::Punct(46, false),
        TokV::Fixed(Kw::KwClone),
        TokV::Open(Delim::Paren),
        TokV::Close(Delim::Paren),
        TokV::Punct(59, false),
        TokV::Fixed(Kw::KwLet),
        TokV::Fixed(Kw::KwMut),
        TokV::Fixed(Kw::KwCx),
        TokV::Punct(61, false),
        TokV::Fixed(Kw::KwMendes),
        TokV::Punct(58, true),
        TokV::Punct(58, false),
        TokV::Fixed(Kw::KwContext),
        TokV::Punct(58, true),
        TokV::Punct(58, false),
        TokV::Fixed(Kw::KwNew),
        TokV::Open(Delim::Paren),
        TokV::Ident(app_name),
        TokV::Punct(44, false),
        TokV::Ident(req_name),
        TokV::Close(Delim::Paren),
        TokV::Punct(59, false),
    ]
}

/// The nested prelude: `let mut cx = C; let app = cx.app.clone();` after the
/// imports, for the context argument `C`.
pub open spec fn nested_prelude(cx_name: Seq<u8>) -> Seq<TokV> {
    use_lines() + seq![
        TokV::Fixed(Kw::KwLet),
        TokV::Fixed(Kw::KwMut),
        TokV::Fixed(Kw::KwCx),
        TokV::Punct(61, false),
        TokV::Ident(cx_name),
        TokV::Punct(59, false),
        TokV::Fixed(Kw::KwLet),
        TokV::Fixed(Kw::KwApp),
        TokV::Punct(61, false),
        TokV::Fixed(Kw::KwCx),
        TokV::Punct(46, false),
        TokV::Fixed(Kw::KwApp),
        TokV::Punct(46, false),
        TokV::Fixed(Kw::KwClone),
        TokV::Open(Delim::Paren),
        TokV::Close(Delim::Paren),
        TokV::Punct(59, false),
    ]
}

/// Law: the rendered dispatch expression depends on the chosen statement
/// list alone — two routing functions with the same chosen body render the
/// same dispatch match, whether rewritten as root or as nested routes, and
/// whatever their names, visibilities and arguments.
pub proof fn lemma_root_nested_parity(f1: RouteFn, f2: RouteFn)
    requires
        spec_chosen_stmts(f1) == spec_chosen_stmts(f2),
    ensures
        spec_route_expr(spec_chosen_stmts(f1)) == spec_route_expr(spec_chosen_stmts(f2)),
{
}

fn is_dispatch_exec(m: &MacroCall) -> (r: bool)
    ensures
        r == is_dispatch(*m),
{
    match &m.name {
        Some(n) => bytes_is(n, &path_ident()) || bytes_is(n, &method_ident()),
        None => false,
    }
}

fn stmt_site(s: &Stmt) -> (r: Option<(Site, &MacroCall)>)
    ensures
        ({
            match r {
                Some((site, m)) => spec_stmt_site(*s) == Some((site, *m)),
                None => spec_stmt_site(*s) is None,
            }
        }),
{
    match s {
        Stmt::Local { init: Some(Expr::Macro(m)) } => if is_dispatch_exec(m) {
            Some((Site::ExprSite, m))
        } else {
            None
        },
        Stmt::Expr(Expr::Macro(m)) => if is_dispatch_exec(m) {
            Some((Site::ExprSite, m))
        } else {
            None
        },
        Stmt::Item(Item::Macro(m)) => if is_dispatch_exec(m) {
            Some((Site::ItemSite, m))
        } else {
            None
        },
        _ => None,
    }
}

fn emit_use_lines(out: &mut Vec<Tok>)
    ensures
        seq_sv(final (out)@) == seq_sv(old(out)@) + use_lines(),
{
    out.push(Tok::Fixed(Kw::KwUse));
    out.push(Tok::Fixed(Kw::KwMendes));
    out.push(Tok::Punct(58, true));
    out.push(Tok::Punct(58, false));
    out.push(Tok::Fixed(Kw::KwApplicationTrait));
    out.push(Tok::Punct(59, false));
    out.push(Tok::Fixed(Kw::KwUse));
    out.push(Tok::Fixed(Kw::KwMendes));
    out.push(Tok::Punct(58, true));
    out.push(Tok::Punct(58, false));
    out.push(Tok::Fixed(Kw::KwApplicationMod));
    out.push(Tok::Punct(58, true));
    out.push(Tok::Punct(58, false));
    out.push(Tok::Fixed(Kw::KwResponder));
    out.push(Tok::Punct(59, false));
    proof {
        assert(seq_sv(out@) =~= seq_sv(old(out)@) + use_lines());
    }
}

fn build_root_prelude(app_name: &Vec<u8>, req_name: &Vec<u8>) -> (out: Vec<Tok>)
    ensures
        seq_sv(out@) == root_prelude(app_name@, req_name@),
{
    let mut out: Vec<Tok> = Vec::new();
    emit_use_lines(&mut out);
    out.push(Tok::Fixed(Kw::KwLet));
    out.push(Tok::Fixed(Kw::KwApp));
    out.push(Tok::Punct(61, false));
    out.push(Tok::Ident(dup_bytes(app_name)));
    out.push(Tok::Punct(46, false));
    out.push(Tok::Fixed(Kw::KwClone));
    out.push(Tok::Open(Delim::Paren));
    out.push(Tok::Close(Delim::Paren));
    out.push(Tok::Punct(59, false));
    out.push(Tok::Fixed(Kw::KwLet));
    out.push(Tok::Fixed(Kw::KwMut));
    out.push(Tok::Fixed(Kw::KwCx));
    out.push(Tok::Punct(61, false));
    out.push(Tok::Fixed(Kw::KwMendes));
    out.push(Tok::Punct(58, true));
    out.push(Tok::Punct(58, false));
    out.push(Tok::Fixed(Kw::KwContext));
    out.push(Tok::Punct(58, true));
    out.push(Tok::Punct(58, false));
    out.push(Tok::Fixed(Kw::KwNew));
    out.push(Tok::Open(Delim::Paren));
    out.push(Tok::Ident(dup_bytes(app_name)));
    out.push(Tok::Punct(44, false));
    out.push(Tok::Ident(dup_bytes(req_name)));
    out.push(Tok::Close(Delim::Paren));
    out.push(Tok::Punct(59, false));
    proof {
        assert(seq_sv(out@) =~= root_prelude(app_name@, req_name@));
    }
    out
}

fn build_nested_prelude(cx_name: &Vec<u8>) -> (out: Vec<Tok>)
    ensures
        seq_sv(out@) == nested_prelude(cx_name@),
{
    let mut out: Vec<Tok> = Vec::new();
    emit_use_lines(&mut out);
    out.push(Tok::Fixed(Kw::KwLet));
    out.push(Tok::Fixed(Kw::KwMut));
    out.push(Tok::Fixed(Kw::KwCx));
    out.push(Tok::Punct(61, false));
    out.push(Tok::Ident(dup_bytes(cx_name)));
    out.push(Tok::Punct(59, false));
    out.push(Tok::Fixed(Kw::KwLet));
    out.push(Tok::Fixed(Kw::KwApp));
    out.push(Tok::Punct(61, false));
    out.push(Tok::Fixed(Kw::KwCx));
    out.push(Tok::Punct(46, false));
    out.push(Tok::Fixed(Kw::KwApp));
    out.push(Tok::Punct(46, false));
    out.push(Tok::Fixed(Kw::KwClone));
    out.push(Tok::Open(Delim::Paren));
    out.push(Tok::Close(Delim::Paren));
    out.push(Tok::Punct(59, false));
    proof {
        assert(seq_sv(out@) =~= nested_prelude(cx_name@));
    }
    out
}

/// Rewrite a routing function: find the dispatch macro site in the chosen
/// body, parse and render its dispatch tree, and build the mode's prelude;
/// a nested route is additionally wrapped in a module under its original
/// name with lifted visibility.
#[verifier::loop_isolation(false)]
pub fn route(f: RouteFn, root: bool) -> (r: Result<RouteOut, RouteError>)
    requires
        root ==> spec_chosen_args(f).len() >= 2 && spec_chosen_args(f)[0] is Some
            && spec_chosen_args(f)[1] is Some,
        !root ==> spec_chosen_args(f).len() >= 1 && spec_chosen_args(f)[0] is Some,
        (match spec_find_site(spec_chosen_stmts(f), 0) {
            Some((i, s, m)) => fits(m.body@),
            None => true,
        }),
    ensures
        ({
            let stmts = spec_chosen_stmts(f);
            let args = spec_chosen_args(f);
            match r {
                Err(RouteError::NoMacro) => spec_find_site(stmts, 0) is None,
                Err(RouteError::BadDispatch) => spec_find_site(stmts, 0) matches Some((i, site, m))
                    && spec_parse_macro(macro_name(m), seq_sv(m.body@)) is None,
                Ok(out) => {
                    &&& spec_find_site(stmts, 0) matches Some((i, site, m)) && {
                        &&& out.index == i
                        &&& out.site == site
                        &&& spec_parse_macro(macro_name(m), seq_sv(m.body@)) matches Some(t)
                            && seq_sv(out.expr@) == spec_render_target(seq_sv(m.body@), t)
                    }
                    &&& out.descended == spec_descends(f.stmts@)
                    &&& root ==> out.wrap is None && seq_sv(out.prelude@) == root_prelude(
                        spec_arg_name(args, 0),
                        spec_arg_name(args, 1),
                    )
                    &&& !root ==> (out.wrap matches Some(w) && w.module_name == f.name
                        && w.module_vis == f.vis && w.item_vis == spec_lifted(f.vis)) && seq_sv(
                        out.prelude@,
                    ) == nested_prelude(spec_arg_name(args, 0))
                },
            }
        }),
{
    let use_inner = f.stmts.len() > 0 && match &f.stmts[0] {
        Stmt::Item(Item::Fn(_)) => true,
        _ => false,
    };
    let found: Option<(usize, Site, &MacroCall)> = {
        let chosen: &Vec<Stmt> = if use_inner {
            match &f.stmts[0] {
                Stmt::Item(Item::Fn(inner)) => &inner.stmts,
                _ => &f.stmts,
            }
        } else {
            &f.stmts
        };
        proof {
            assert(chosen@ == spec_chosen_stmts(f));
        }
        let mut i: usize = 0;
        let mut found: Option<(usize, Site, &MacroCall)> = None;
        while i < chosen.len() && found.is_none()
            invariant
                i <= chosen@.len(),
                ({
                    match found {
                        Some((j, site, m)) => spec_find_site(chosen@, 0) == Some(
                            (j as int, site, *m),
                        ) && is_dispatch(*m),
                        None => spec_find_site(chosen@, 0) == spec_find_site(chosen@, i as int),
                    }
                }),
            decreases
                    chosen@.len() - i,
                    (if found is Some {
                        0int
                    } else {
                        1int
                    }),
        {
            match stmt_site(&chosen[i]) {
                Some((site, m)) => {
                    proof {
                        assert(spec_stmt_site(chosen@[i as int]) == Some((site, *m)));
                        assert(is_dispatch(*m));
                        assert(spec_find_site(chosen@, i as int) == Some((i as int, site, *m)));
                    }
                    found = Some((i, site, m));
                },
                None => {
                    i += 1;
                },
            }
        }
        proof {
            match found {
                Some((j, site2, m)) => {
                    assert(spec_find_site(spec_chosen_stmts(f), 0) == Some((j as int, site2, *m)));
                },
                None => {
                    assert(i >= chosen@.len());
                    assert(spec_find_site(spec_chosen_stmts(f), 0) is None);
                },
            }
        }
        found
    };
    let (index, site, mac) = match found {
        Some(x) => x,
        None => {
            return Err(RouteError::NoMacro);
        },
    };
    let mac_name: &Vec<u8> = match &mac.name {
        Some(n) => n,
        None => {
            proof {
                assert(false);
            }
            return Err(RouteError::BadDispatch);
        },
    };
    proof {
        assert(spec_find_site(spec_chosen_stmts(f), 0) == Some((index as int, site, *mac)));
        assert(fits(mac.body@));
    }
    let target = match parse_macro(mac_name, &mac.body) {
        Some(t) => t,
        None => {
            return Err(RouteError::BadDispatch);
        },
    };
    let mut expr: Vec<Tok> = Vec::new();
    render_target(&mac.body, &target, &mut expr);
    proof {
        assert(seq_sv(expr@) =~= spec_render_target(seq_sv(mac.body@), target.tv()));
    }
    let prelude: Vec<Tok>;
    {
        let args: &Vec<Option<Vec<u8>>> = if use_inner {
            match &f.stmts[0] {
                Stmt::Item(Item::Fn(inner)) => &inner.arg_names,
                _ => &f.arg_names,
            }
        } else {
            &f.arg_names
        };
        proof {
            assert(args@ == spec_chosen_args(f));
        }
        if root {
            let a0: &Vec<u8> = match &args[0] {
                Some(n) => n,
                None => {
                    proof {
                        assert(false);
                    }
                    return Err(RouteError::BadDispatch);
                },
            };
            let a1: &Vec<u8> = match &args[1] {
                Some(n) => n,
                None => {
                    proof {
                        assert(false);
                    }
                    return Err(RouteError::BadDispatch);
                },
            };
            prelude = build_root_prelude(a0, a1);
        } else {
            let a0: &Vec<u8> = match &args[0] {
                Some(n) => n,
                None => {
                    proof {
                        assert(false);
                    }
                    return Err(RouteError::BadDispatch);
                },
            };
            prelude = build_nested_prelude(a0);
        }
    }
    let wrap = if root {
        None
    } else {
        let item_vis = nested_visibility(f.vis);
        Some(Wrap { module_name: f.name, module_vis: f.vis, item_vis })
    };
    Ok(RouteOut { descended: use_inner, index, site, expr, prelude, wrap })
}

} // verus!
