use mendes_macros::grammar::parse_macro;
use mendes_macros::handler::{
    handler, Attr, Binder, ExtractKind, Extraction, FnArg, HandlerError, HandlerFn,
    HandlerMethods, Param, Pat, Ty, TyPath,
};
use mendes_macros::render::render_target;
use mendes_macros::route::{route, Expr, InnerFn, Item, MacroCall, RouteError, RouteFn, Site, Stmt};
use mendes_macros::target::Target;
use mendes_macros::tok::{Delim, Kw, Tok};
use mendes_macros::vis::{nested_visibility, VisPath, Visibility};

fn id(s: &str) -> Tok {
    Tok::Ident(s.as_bytes().to_vec())
}

fn lit(s: &str) -> Tok {
    Tok::Lit(s.as_bytes().to_vec())
}

fn pj(c: u8) -> Tok {
    Tok::Punct(c, true)
}

fn pa(c: u8) -> Tok {
    Tok::Punct(c, false)
}

fn kw(k: Kw) -> Tok {
    Tok::Fixed(k)
}

fn arrow(out: &mut Vec<Tok>) {
    out.push(pj(b'='));
    out.push(pa(b'>'));
}

fn direct_suffix(out: &mut Vec<Tok>) {
    out.push(pj(b':'));
    out.push(pa(b':'));
    out.push(kw(Kw::KwHandler));
    out.push(Tok::Open(Delim::Paren));
    out.push(pa(b'&'));
    out.push(kw(Kw::KwMut));
    out.push(kw(Kw::KwCx));
    out.push(Tok::Close(Delim::Paren));
    out.push(pa(b'.'));
    out.push(kw(Kw::KwAwait));
    out.push(pa(b'.'));
    out.push(kw(Kw::KwIntoResponse));
    out.push(Tok::Open(Delim::Paren));
    out.push(pa(b'&'));
    out.push(pa(b'*'));
    out.push(kw(Kw::KwApp));
    out.push(pa(b','));
    out.push(pa(b'&'));
    out.push(kw(Kw::KwCx));
    out.push(pa(b'.'));
    out.push(kw(Kw::KwReq));
    out.push(Tok::Close(Delim::Paren));
}

fn path_header(out: &mut Vec<Tok>) {
    out.push(kw(Kw::KwMatch));
    out.push(kw(Kw::KwCx));
    out.push(pa(b'.'));
    out.push(kw(Kw::KwNextPath));
    out.push(Tok::Open(Delim::Paren));
    out.push(Tok::Close(Delim::Paren));
    out.push(pa(b'.'));
    out.push(kw(Kw::KwAsDeref));
    out.push(Tok::Open(Delim::Paren));
    out.push(Tok::Close(Delim::Paren));
    out.push(Tok::Open(Delim::Brace));
}

fn method_header(out: &mut Vec<Tok>) {
    out.push(kw(Kw::KwMatch));
    out.push(kw(Kw::KwCx));
    out.push(pa(b'.'));
    out.push(kw(Kw::KwReq));
    out.push(pa(b'.'));
    out.push(kw(Kw::KwMethodField));
    out.push(Tok::Open(Delim::Brace));
}

fn fallthrough(out: &mut Vec<Tok>, not_found: bool) {
    out.push(kw(Kw::KwUnderscore));
    arrow(out);
    out.push(pj(b':'));
    out.push(pa(b':'));
    out.push(kw(Kw::KwMendes));
    out.push(pj(b':'));
    out.push(pa(b':'));
    out.push(kw(Kw::KwError));
    out.push(pj(b':'));
    out.push(pa(b':'));
    out.push(kw(if not_found { Kw::KwPathNotFound } else { Kw::KwMethodNotAllowed }));
    out.push(pa(b'.'));
    out.push(kw(Kw::KwIntoResponse));
    out.push(Tok::Open(Delim::Paren));
    out.push(pa(b'&'));
    out.push(pa(b'*'));
    out.push(kw(Kw::KwApp));
    out.push(pa(b','));
    out.push(pa(b'&'));
    out.push(kw(Kw::KwCx));
    out.push(pa(b'.'));
    out.push(kw(Kw::KwReq));
    out.push(Tok::Close(Delim::Paren));
    out.push(pa(b','));
}

fn method_prefix(out: &mut Vec<Tok>) {
    out.push(kw(Kw::KwMendes));
    out.push(pj(b':'));
    out.push(pa(b':'));
    out.push(kw(Kw::KwHttp));
    out.push(pj(b':'));
    out.push(pa(b':'));
    out.push(kw(Kw::KwMethod));
    out.push(pj(b':'));
    out.push(pa(b':'));
}

fn rewind(out: &mut Vec<Tok>) {
    out.push(kw(Kw::KwCx));
    out.push(pa(b'.'));
    out.push(kw(Kw::KwRewind));
    out.push(Tok::Open(Delim::Paren));
    out.push(Tok::Close(Delim::Paren));
    out.push(pa(b';'));
}

fn path_ty(s: &str) -> Ty {
    Ty::Path(TyPath { first_seg: s.as_bytes().to_vec(), first_arg: None })
}

fn ref_to(t: Ty) -> Ty {
    Ty::Reference(Box::new(t))
}

fn plain_param(name: &str, ty: Ty) -> FnArg {
    FnArg::Typed(Param { pat: Pat::Named(name.as_bytes().to_vec()), ty, attrs: vec![] })
}

fn tagged_param(name: &str, ty: Ty, tag: &str) -> FnArg {
    FnArg::Typed(Param {
        pat: Pat::Named(name.as_bytes().to_vec()),
        ty,
        attrs: vec![Attr { name: Some(tag.as_bytes().to_vec()) }],
    })
}

// Visibility lifting: identity on public, crate-scoped and other-restricted
// visibilities; parent scope for module-private and self-scoped; grandparent
// scope for super-scoped.
#[test]
fn lift_public_and_crate_unchanged() {
    assert_eq!(nested_visibility(Visibility::Public), Visibility::Public);
    assert_eq!(nested_visibility(Visibility::Crate), Visibility::Crate);
    assert_eq!(
        nested_visibility(Visibility::Restricted(VisPath::Other)),
        Visibility::Restricted(VisPath::Other)
    );
}

#[test]
fn lift_inherited_and_self_to_super() {
    assert_eq!(
        nested_visibility(Visibility::Inherited),
        Visibility::Restricted(VisPath::InSuper)
    );
    assert_eq!(
        nested_visibility(Visibility::Restricted(VisPath::InSelf)),
        Visibility::Restricted(VisPath::InSuper)
    );
}

#[test]
fn lift_super_to_grandparent() {
    assert_eq!(
        nested_visibility(Visibility::Restricted(VisPath::InSuper)),
        Visibility::Restricted(VisPath::InSuperSuper)
    );
}

#[test]
fn lift_idempotent_on_lifted_values() {
    for v in [
        Visibility::Public,
        Visibility::Crate,
        Visibility::Inherited,
        Visibility::Restricted(VisPath::InSelf),
        Visibility::Restricted(VisPath::InSuper),
        Visibility::Restricted(VisPath::InSuperSuper),
        Visibility::Restricted(VisPath::Other),
    ] {
        let once = nested_visibility(v);
        let twice = nested_visibility(once);
        if matches!(once, Visibility::Restricted(VisPath::InSuper)) {
            // lifting a super-scoped result moves one level again
            assert_eq!(twice, Visibility::Restricted(VisPath::InSuperSuper));
        } else {
            assert_eq!(twice, once);
        }
    }
}

// Leaf handler accepting GET only: one plain extraction for `id`, methods
// upper-cased, module named after the function, inner items lifted.
#[test]
fn handler_leaf_get_only() {
    let f = HandlerFn {
        vis: Visibility::Inherited,
        name: b"show".to_vec(),
        inputs: vec![plain_param("app", ref_to(path_ty("App"))), plain_param("id", path_ty("u32"))],
    };
    let out = handler(&vec![b"GET".to_vec()], f).unwrap();
    assert_eq!(out.module_name, b"show".to_vec());
    assert_eq!(out.module_vis, Visibility::Inherited);
    assert_eq!(out.item_vis, Visibility::Restricted(VisPath::InSuper));
    assert_eq!(out.app_type, path_ty("App"));
    assert!(!out.app_unwrapped);
    assert_eq!(out.methods, vec![b"GET".to_vec()]);
    assert_eq!(
        out.extractions,
        vec![Extraction { index: 1, kind: ExtractKind::Plain, binder: Binder::FromPat }]
    );
    assert_eq!(out.attr_keep, vec![Vec::<bool>::new(), Vec::<bool>::new()]);
}

#[test]
fn handler_methods_uppercased() {
    let f = HandlerFn {
        vis: Visibility::Public,
        name: b"h".to_vec(),
        inputs: vec![plain_param("app", ref_to(path_ty("App")))],
    };
    let out = handler(&vec![b"get".to_vec(), b"Post".to_vec()], f).unwrap();
    assert_eq!(out.methods, vec![b"GET".to_vec(), b"POST".to_vec()]);
}

// Rest tail: the tagged parameter is extracted through the rest extractor,
// its tag is stripped from the call function, and a parameter after it is
// the placement error.
#[test]
fn handler_rest_tail() {
    let f = HandlerFn {
        vis: Visibility::Public,
        name: b"h".to_vec(),
        inputs: vec![
            plain_param("app", ref_to(path_ty("App"))),
            tagged_param("rest", path_ty("Path"), "rest"),
        ],
    };
    let out = handler(&vec![b"GET".to_vec()], f).unwrap();
    assert_eq!(
        out.extractions,
        vec![Extraction { index: 1, kind: ExtractKind::Rest, binder: Binder::FromPat }]
    );
    assert_eq!(out.attr_keep, vec![vec![], vec![false]]);
}

#[test]
fn handler_args_after_rest_rejected() {
    let f = HandlerFn {
        vis: Visibility::Public,
        name: b"h".to_vec(),
        inputs: vec![
            plain_param("app", ref_to(path_ty("App"))),
            tagged_param("rest", path_ty("Path"), "rest"),
            plain_param("id", path_ty("u32")),
        ],
    };
    let err = handler(&vec![b"GET".to_vec()], f).unwrap_err();
    assert_eq!(err, HandlerError::ArgsAfterRest);
    assert_eq!(err.message(), "more arguments after #[rest] not allowed");
}

#[test]
fn handler_query_extractor_and_unrecognized_attr_kept() {
    let f = HandlerFn {
        vis: Visibility::Public,
        name: b"h".to_vec(),
        inputs: vec![
            plain_param("app", ref_to(path_ty("App"))),
            FnArg::Typed(Param {
                pat: Pat::Named(b"q".to_vec()),
                ty: path_ty("Query"),
                attrs: vec![
                    Attr { name: Some(b"cfg".to_vec()) },
                    Attr { name: Some(b"query".to_vec()) },
                ],
            }),
        ],
    };
    let out = handler(&vec![b"GET".to_vec()], f).unwrap();
    assert_eq!(
        out.extractions,
        vec![Extraction { index: 1, kind: ExtractKind::Query, binder: Binder::FromPat }]
    );
    assert_eq!(out.attr_keep, vec![vec![], vec![true, false]]);
}

// Arc unwrap: the application type threaded through the extractors is the
// wrapper's inner type.
#[test]
fn handler_shared_owner_unwrapped() {
    let arc = Ty::Path(TyPath {
        first_seg: b"Arc".to_vec(),
        first_arg: Some(Box::new(path_ty("MyApp"))),
    });
    let f = HandlerFn {
        vis: Visibility::Public,
        name: b"h".to_vec(),
        inputs: vec![plain_param("app", ref_to(arc))],
    };
    let out = handler(&vec![b"GET".to_vec()], f).unwrap();
    assert!(out.app_unwrapped);
    assert_eq!(out.app_type, path_ty("MyApp"));
}

#[test]
fn handler_wildcard_binder_synthesized() {
    let f = HandlerFn {
        vis: Visibility::Public,
        name: b"h".to_vec(),
        inputs: vec![
            plain_param("app", ref_to(path_ty("App"))),
            plain_param("id", path_ty("u32")),
            FnArg::Typed(Param { pat: Pat::Wild, ty: path_ty("u64"), attrs: vec![] }),
        ],
    };
    let out = handler(&vec![b"GET".to_vec()], f).unwrap();
    assert_eq!(out.extractions.len(), 2);
    assert_eq!(out.extractions[1].binder, Binder::Synth(2));
}

#[test]
fn handler_first_argument_errors() {
    let no_args = HandlerFn { vis: Visibility::Public, name: b"h".to_vec(), inputs: vec![] };
    let err = handler(&vec![b"GET".to_vec()], no_args).unwrap_err();
    assert_eq!(err, HandlerError::MissingApp);
    assert_eq!(err.message(), "handler argument lists must have &App as their first type");

    let receiver = HandlerFn {
        vis: Visibility::Public,
        name: b"h".to_vec(),
        inputs: vec![FnArg::Receiver],
    };
    let err = handler(&vec![b"GET".to_vec()], receiver).unwrap_err();
    assert_eq!(err, HandlerError::Receiver);
    assert_eq!(err.message(), "did not expect receiver argument in handler");

    let by_value = HandlerFn {
        vis: Visibility::Public,
        name: b"h".to_vec(),
        inputs: vec![plain_param("app", path_ty("App"))],
    };
    let err = handler(&vec![b"GET".to_vec()], by_value).unwrap_err();
    assert_eq!(err, HandlerError::NotReference);
    assert_eq!(err.message(), "handler's first argument must be a reference");
}

#[test]
fn handler_methods_attribute_parses() {
    let toks = vec![id("GET"), pa(b','), id("POST"), pa(b',')];
    let hm = HandlerMethods::parse(&toks).unwrap();
    assert_eq!(hm.methods, vec![b"GET".to_vec(), b"POST".to_vec()]);
    assert!(HandlerMethods::parse(&vec![lit("\"GET\"")]).is_none());
    assert!(HandlerMethods::parse(&vec![id("GET"), id("POST")]).is_none());
    assert_eq!(HandlerMethods::parse(&vec![]).unwrap().methods.len(), 0);
}

// Path dispatch: two literal arms render to the match over
// `cx.next_path().as_deref()` with the implicit `PathNotFound` fall-through.
#[test]
fn path_dispatch_renders_match() {
    let toks = vec![
        lit("\"users\""),
        pj(b'='),
        pa(b'>'),
        id("users"),
        pa(b','),
        lit("\"posts\""),
        pj(b'='),
        pa(b'>'),
        id("posts"),
    ];
    let target = parse_macro(&b"path".to_vec(), &toks).unwrap();
    match &target {
        Target::PathMap(arms) => {
            assert_eq!(arms.len(), 2);
            assert!(!arms[0].wild && !arms[1].wild);
            assert_eq!(arms[0].target, Target::Direct { lo: 3, hi: 4 });
            assert_eq!(arms[1].target, Target::Direct { lo: 8, hi: 9 });
        },
        _ => panic!("expected a path map"),
    }
    let mut out = Vec::new();
    render_target(&toks, &target, &mut out);
    let mut expect = Vec::new();
    path_header(&mut expect);
    expect.push(lit("\"users\""));
    arrow(&mut expect);
    expect.push(id("users"));
    direct_suffix(&mut expect);
    expect.push(pa(b','));
    expect.push(lit("\"posts\""));
    arrow(&mut expect);
    expect.push(id("posts"));
    direct_suffix(&mut expect);
    expect.push(pa(b','));
    fallthrough(&mut expect, true);
    expect.push(Tok::Close(Delim::Brace));
    assert_eq!(out, expect);
}

// Wildcard rewind: the `_` arm rewinds the consumed segment before its
// target and suppresses the fall-through.
#[test]
fn path_wildcard_rewinds_and_suppresses_fallthrough() {
    let toks = vec![
        lit("\"api\""),
        pj(b'='),
        pa(b'>'),
        id("api"),
        pa(b','),
        id("_"),
        pj(b'='),
        pa(b'>'),
        id("fallback"),
    ];
    let target = parse_macro(&b"path".to_vec(), &toks).unwrap();
    match &target {
        Target::PathMap(arms) => {
            assert!(!arms[0].wild);
            assert!(arms[1].wild);
        },
        _ => panic!("expected a path map"),
    }
    let mut out = Vec::new();
    render_target(&toks, &target, &mut out);
    let mut expect = Vec::new();
    path_header(&mut expect);
    expect.push(lit("\"api\""));
    arrow(&mut expect);
    expect.push(id("api"));
    direct_suffix(&mut expect);
    expect.push(pa(b','));
    expect.push(id("_"));
    arrow(&mut expect);
    expect.push(Tok::Open(Delim::Brace));
    rewind(&mut expect);
    expect.push(id("fallback"));
    direct_suffix(&mut expect);
    expect.push(Tok::Close(Delim::Brace));
    expect.push(Tok::Close(Delim::Brace));
    assert_eq!(out, expect);
}

// Nested method map under a path arm: the inner match dispatches on the
// request method with its own `MethodNotAllowed` fall-through.
#[test]
fn nested_method_under_path() {
    let toks = vec![
        lit("\"x\""),
        pj(b'='),
        pa(b'>'),
        id("method"),
        pa(b'!'),
        Tok::Open(Delim::Brace),
        id("GET"),
        pj(b'='),
        pa(b'>'),
        id("g"),
        pa(b','),
        id("POST"),
        pj(b'='),
        pa(b'>'),
        id("p"),
        Tok::Close(Delim::Brace),
    ];
    let target = parse_macro(&b"path".to_vec(), &toks).unwrap();
    let mut out = Vec::new();
    render_target(&toks, &target, &mut out);
    let mut expect = Vec::new();
    path_header(&mut expect);
    expect.push(lit("\"x\""));
    arrow(&mut expect);
    method_header(&mut expect);
    method_prefix(&mut expect);
    expect.push(id("GET"));
    arrow(&mut expect);
    expect.push(id("g"));
    direct_suffix(&mut expect);
    expect.push(pa(b','));
    method_prefix(&mut expect);
    expect.push(id("POST"));
    arrow(&mut expect);
    expect.push(id("p"));
    direct_suffix(&mut expect);
    expect.push(pa(b','));
    fallthrough(&mut expect, false);
    expect.push(Tok::Close(Delim::Brace));
    expect.push(pa(b','));
    fallthrough(&mut expect, true);
    expect.push(Tok::Close(Delim::Brace));
    assert_eq!(out, expect);
}

// A method map arm naming `_` suppresses the implicit fall-through and is
// emitted as a bare wildcard arm.
#[test]
fn method_wildcard_suppresses_fallthrough() {
    let toks = vec![
        id("GET"),
        pj(b'='),
        pa(b'>'),
        id("g"),
        pa(b','),
        id("_"),
        pj(b'='),
        pa(b'>'),
        id("h"),
    ];
    let target = parse_macro(&b"method".to_vec(), &toks).unwrap();
    let mut out = Vec::new();
    render_target(&toks, &target, &mut out);
    let mut expect = Vec::new();
    method_header(&mut expect);
    method_prefix(&mut expect);
    expect.push(id("GET"));
    arrow(&mut expect);
    expect.push(id("g"));
    direct_suffix(&mut expect);
    expect.push(pa(b','));
    expect.push(id("_"));
    arrow(&mut expect);
    expect.push(id("h"));
    direct_suffix(&mut expect);
    expect.push(pa(b','));
    expect.push(Tok::Close(Delim::Brace));
    assert_eq!(out, expect);
}

#[test]
fn arm_attributes_kept_and_trailing_comma_tolerated() {
    let toks = vec![
        pa(b'#'),
        Tok::Open(Delim::Bracket),
        id("cfg"),
        Tok::Close(Delim::Bracket),
        lit("\"a\""),
        pj(b'='),
        pa(b'>'),
        id("a"),
        pa(b','),
    ];
    let target = parse_macro(&b"path".to_vec(), &toks).unwrap();
    let mut out = Vec::new();
    render_target(&toks, &target, &mut out);
    let mut expect = Vec::new();
    path_header(&mut expect);
    expect.push(pa(b'#'));
    expect.push(Tok::Open(Delim::Bracket));
    expect.push(id("cfg"));
    expect.push(Tok::Close(Delim::Bracket));
    expect.push(lit("\"a\""));
    arrow(&mut expect);
    expect.push(id("a"));
    direct_suffix(&mut expect);
    expect.push(pa(b','));
    fallthrough(&mut expect, true);
    expect.push(Tok::Close(Delim::Brace));
    assert_eq!(out, expect);
}

#[test]
fn unknown_macro_target_rejected() {
    let toks = vec![
        lit("\"a\""),
        pj(b'='),
        pa(b'>'),
        id("foo"),
        pa(b'!'),
        Tok::Open(Delim::Paren),
        Tok::Close(Delim::Paren),
    ];
    assert!(parse_macro(&b"path".to_vec(), &toks).is_none());
    assert!(parse_macro(&b"route".to_vec(), &vec![]).is_none());
}

fn dispatch_stmt(body: Vec<Tok>) -> Stmt {
    Stmt::Expr(Expr::Macro(MacroCall { name: Some(b"path".to_vec()), body }))
}

fn simple_body() -> Vec<Tok> {
    vec![lit("\"a\""), pj(b'='), pa(b'>'), id("a")]
}

fn rendered_simple_dispatch() -> Vec<Tok> {
    let toks = simple_body();
    let target = parse_macro(&b"path".to_vec(), &toks).unwrap();
    let mut out = Vec::new();
    render_target(&toks, &target, &mut out);
    out
}

fn use_lines(out: &mut Vec<Tok>) {
    out.push(kw(Kw::KwUse));
    out.push(kw(Kw::KwMendes));
    out.push(pj(b':'));
    out.push(pa(b':'));
    out.push(kw(Kw::KwApplicationTrait));
    out.push(pa(b';'));
    out.push(kw(Kw::KwUse));
    out.push(kw(Kw::KwMendes));
    out.push(pj(b':'));
    out.push(pa(b':'));
    out.push(kw(Kw::KwApplicationMod));
    out.push(pj(b':'));
    out.push(pa(b':'));
    out.push(kw(Kw::KwResponder));
    out.push(pa(b';'));
}

// Root mode: the prelude clones the application and builds a fresh context
// from the function's first two arguments; the function is not wrapped.
#[test]
fn route_root_prelude_and_site() {
    let f = RouteFn {
        vis: Visibility::Public,
        name: b"r".to_vec(),
        arg_names: vec![Some(b"self_".to_vec()), Some(b"req".to_vec())],
        stmts: vec![Stmt::Other, dispatch_stmt(simple_body())],
    };
    let out = route(f, true).unwrap();
    assert_eq!(out.index, 1);
    assert_eq!(out.site, Site::ExprSite);
    assert!(!out.descended);
    assert!(out.wrap.is_none());
    assert_eq!(out.expr, rendered_simple_dispatch());
    let mut expect = Vec::new();
    use_lines(&mut expect);
    expect.push(kw(Kw::KwLet));
    expect.push(kw(Kw::KwApp));
    expect.push(pa(b'='));
    expect.push(id("self_"));
    expect.push(pa(b'.'));
    expect.push(kw(Kw::KwClone));
    expect.push(Tok::Open(Delim::Paren));
    expect.push(Tok::Close(Delim::Paren));
    expect.push(pa(b';'));
    expect.push(kw(Kw::KwLet));
    expect.push(kw(Kw::KwMut));
    expect.push(kw(Kw::KwCx));
    expect.push(pa(b'='));
    expect.push(kw(Kw::KwMendes));
    expect.push(pj(b':'));
    expect.push(pa(b':'));
    expect.push(kw(Kw::KwContext));
    expect.push(pj(b':'));
    expect.push(pa(b':'));
    expect.push(kw(Kw::KwNew));
    expect.push(Tok::Open(Delim::Paren));
    expect.push(id("self_"));
    expect.push(pa(b','));
    expect.push(id("req"));
    expect.push(Tok::Close(Delim::Paren));
    expect.push(pa(b';'));
    assert_eq!(out.prelude, expect);
}

// Nested mode: the prelude rebinds the context argument, and the function is
// wrapped in a module under its name with lifted visibility.
#[test]
fn route_nested_wraps_and_lifts() {
    let f = RouteFn {
        vis: Visibility::Inherited,
        name: b"users".to_vec(),
        arg_names: vec![Some(b"cx_in".to_vec())],
        stmts: vec![dispatch_stmt(simple_body())],
    };
    let out = route(f, false).unwrap();
    assert_eq!(out.index, 0);
    let wrap = out.wrap.unwrap();
    assert_eq!(wrap.module_name, b"users".to_vec());
    assert_eq!(wrap.module_vis, Visibility::Inherited);
    assert_eq!(wrap.item_vis, Visibility::Restricted(VisPath::InSuper));
    let mut expect = Vec::new();
    use_lines(&mut expect);
    expect.push(kw(Kw::KwLet));
    expect.push(kw(Kw::KwMut));
    expect.push(kw(Kw::KwCx));
    expect.push(pa(b'='));
    expect.push(id("cx_in"));
    expect.push(pa(b';'));
    expect.push(kw(Kw::KwLet));
    expect.push(kw(Kw::KwApp));
    expect.push(pa(b'='));
    expect.push(kw(Kw::KwCx));
    expect.push(pa(b'.'));
    expect.push(kw(Kw::KwApp));
    expect.push(pa(b'.'));
    expect.push(kw(Kw::KwClone));
    expect.push(Tok::Open(Delim::Paren));
    expect.push(Tok::Close(Delim::Paren));
    expect.push(pa(b';'));
    assert_eq!(out.prelude, expect);
}

// Root and nested rewrites of the same body render the same dispatch match.
#[test]
fn route_root_nested_same_dispatch() {
    let root_fn = RouteFn {
        vis: Visibility::Public,
        name: b"r".to_vec(),
        arg_names: vec![Some(b"s".to_vec()), Some(b"q".to_vec())],
        stmts: vec![dispatch_stmt(simple_body())],
    };
    let nested_fn = RouteFn {
        vis: Visibility::Inherited,
        name: b"n".to_vec(),
        arg_names: vec![Some(b"c".to_vec())],
        stmts: vec![dispatch_stmt(simple_body())],
    };
    let a = route(root_fn, true).unwrap();
    let b = route(nested_fn, false).unwrap();
    assert_eq!(a.expr, b.expr);
}

// The rewrite descends into an inner function standing first in the body.
#[test]
fn route_descends_into_inner_fn() {
    let inner = InnerFn {
        arg_names: vec![Some(b"cx_in".to_vec())],
        stmts: vec![dispatch_stmt(simple_body())],
    };
    let f = RouteFn {
        vis: Visibility::Public,
        name: b"r".to_vec(),
        arg_names: vec![],
        stmts: vec![Stmt::Item(Item::Fn(inner))],
    };
    let out = route(f, false).unwrap();
    assert!(out.descended);
    assert_eq!(out.index, 0);
    assert_eq!(out.expr, rendered_simple_dispatch());
}

#[test]
fn route_let_and_item_sites() {
    let let_site = RouteFn {
        vis: Visibility::Public,
        name: b"r".to_vec(),
        arg_names: vec![Some(b"c".to_vec())],
        stmts: vec![Stmt::Local {
            init: Some(Expr::Macro(MacroCall { name: Some(b"path".to_vec()), body: simple_body() })),
        }],
    };
    assert_eq!(route(let_site, false).unwrap().site, Site::ExprSite);
    let item_site = RouteFn {
        vis: Visibility::Public,
        name: b"r".to_vec(),
        arg_names: vec![Some(b"c".to_vec())],
        stmts: vec![Stmt::Item(Item::Macro(MacroCall {
            name: Some(b"method".to_vec()),
            body: vec![id("GET"), pj(b'='), pa(b'>'), id("g")],
        }))],
    };
    assert_eq!(route(item_site, false).unwrap().site, Site::ItemSite);
}

#[test]
fn route_errors() {
    let no_macro = RouteFn {
        vis: Visibility::Public,
        name: b"r".to_vec(),
        arg_names: vec![Some(b"c".to_vec())],
        stmts: vec![Stmt::Other, Stmt::Expr(Expr::Other)],
    };
    let err = route(no_macro, false).unwrap_err();
    assert_eq!(err, RouteError::NoMacro);
    assert_eq!(err.message(), "did not find 'path' or 'method' macro");

    let other_macro = RouteFn {
        vis: Visibility::Public,
        name: b"r".to_vec(),
        arg_names: vec![Some(b"c".to_vec())],
        stmts: vec![Stmt::Expr(Expr::Macro(MacroCall {
            name: Some(b"vec".to_vec()),
            body: vec![],
        }))],
    };
    assert_eq!(route(other_macro, false).unwrap_err(), RouteError::NoMacro);

    let bad_body = RouteFn {
        vis: Visibility::Public,
        name: b"r".to_vec(),
        arg_names: vec![Some(b"c".to_vec())],
        stmts: vec![dispatch_stmt(vec![id("x")])],
    };
    assert_eq!(route(bad_body, false).unwrap_err(), RouteError::BadDispatch);
}

// Without a separating comma, the first arm's target expression extends to
// the end of the body: arms are comma-separated.
#[test]
fn target_extends_to_next_comma() {
    let toks = vec![
        lit("\"a\""),
        pj(b'='),
        pa(b'>'),
        id("a"),
        lit("\"b\""),
        pj(b'='),
        pa(b'>'),
        id("b"),
    ];
    match parse_macro(&b"path".to_vec(), &toks).unwrap() {
        Target::PathMap(arms) => {
            assert_eq!(arms.len(), 1);
            assert_eq!(arms[0].target, Target::Direct { lo: 3, hi: 8 });
        }
        _ => panic!("expected a path map"),
    }
}

// A path map nested as the target of another path map parses recursively.
#[test]
fn nested_path_in_path_parses() {
    let toks = vec![
        lit("\"a\""),
        pj(b'='),
        pa(b'>'),
        id("path"),
        pa(b'!'),
        Tok::Open(Delim::Brace),
        lit("\"b\""),
        pj(b'='),
        pa(b'>'),
        id("b"),
        Tok::Close(Delim::Brace),
    ];
    match parse_macro(&b"path".to_vec(), &toks).unwrap() {
        Target::PathMap(arms) => match &arms[0].target {
            Target::PathMap(inner) => {
                assert_eq!(inner.len(), 1);
                assert_eq!(inner[0].target, Target::Direct { lo: 9, hi: 10 });
            }
            _ => panic!("expected a nested path map"),
        },
        _ => panic!("expected a path map"),
    }
}

// An arm head that never reaches a fat arrow is a parse error.
#[test]
fn arm_without_arrow_rejected() {
    assert!(parse_macro(&b"path".to_vec(), &vec![lit("\"a\""), pa(b','), id("b")]).is_none());
    assert!(parse_macro(&b"method".to_vec(), &vec![lit("\"a\""), pj(b'='), pa(b'>'), id("b")])
        .is_none());
}
