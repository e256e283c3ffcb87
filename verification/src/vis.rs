//! Item visibilities and the "lift" applied when an item is moved one module
//! level deeper, so that its original callers still see it.

use vstd::prelude::*;

verus! {

/// A restricted visibility's path, as far as the rewrites read it: `self`,
/// `super`, `super::super`, or any other path (kept unchanged by the lift).
#[derive(Clone, Copy, PartialEq, Eq, Structural, Debug)]
pub enum VisPath {
    InSelf,
    InSuper,
    InSuperSuper,
    Other,
}

/// The visibility of an item.
#[derive(Clone, Copy, PartialEq, Eq, Structural, Debug)]
pub enum Visibility {
    Public,
    Crate,
    Inherited,
    Restricted(VisPath),
}

/// The visibility an item should receive when it is moved one module level
/// deeper: public, crate-scoped and restricted-to-another-path visibilities
/// are kept; module-private and `self`-scoped become `super`-scoped;
/// `super`-scoped becomes `super::super`-scoped.
pub open spec fn spec_lifted(v: Visibility) -> Visibility {
    match v {
        Visibility::Public => Visibility::Public,
        Visibility::Crate => Visibility::Crate,
        Visibility::Inherited => Visibility::Restricted(VisPath::InSuper),
        Visibility::Restricted(p) => match p {
            VisPath::InSelf => Visibility::Restricted(VisPath::InSuper),
            VisPath::InSuper => Visibility::Restricted(VisPath::InSuperSuper),
            VisPath::InSuperSuper => v,
            VisPath::Other => v,
        },
    }
}

/// Compute the lifted visibility of an item moved one module level deeper.
pub fn nested_visibility(v: Visibility) -> (r: Visibility)
    ensures
        r == spec_lifted(v),
{
    match v {
        Visibility::Public => Visibility::Public,
        Visibility::Crate => Visibility::Crate,
        Visibility::Inherited => Visibility::Restricted(VisPath::InSuper),
        Visibility::Restricted(p) => match p {
            VisPath::InSelf => Visibility::Restricted(VisPath::InSuper),
            VisPath::InSuper => Visibility::Restricted(VisPath::InSuperSuper),
            VisPath::InSuperSuper => v,
            VisPath::Other => v,
        },
    }
}

/// Law: lifting is idempotent on public, crate-scoped and
/// restricted-to-another-path visibilities; on them it is the identity.
pub proof fn lemma_lifted_idempotent(v: Visibility)
    requires
        v == Visibility::Public || v == Visibility::Crate || v == Visibility::Restricted(
            VisPath::InSuperSuper,
        ) || v == Visibility::Restricted(VisPath::Other),
    ensures
        spec_lifted(v) == v,
        spec_lifted(spec_lifted(v)) == spec_lifted(v),
{
}

/// Law: lifting a module-private or `self`-scoped visibility yields the
/// parent scope, and lifting a `super`-scoped one yields the grandparent
/// scope.
pub proof fn lemma_lifted_scopes()
    ensures
        spec_lifted(Visibility::Inherited) == Visibility::Restricted(VisPath::InSuper),
        spec_lifted(Visibility::Restricted(VisPath::InSelf)) == Visibility::Restricted(
            VisPath::InSuper,
        ),
        spec_lifted(Visibility::Restricted(VisPath::InSuper)) == Visibility::Restricted(
            VisPath::InSuperSuper,
        ),
{
}

} // verus!
