//! The dispatch tree parsed from a `path!`/`method!` macro body.
//!
//! Arms refer to the macro body's token sequence by index ranges, so the
//! parsed tree borrows nothing and copies nothing: an arm's attributes, its
//! pattern and a direct target's expression are the tokens of the given
//! ranges.

use vstd::prelude::*;

verus! {

broadcast use vstd::std_specs::vec::axiom_vec_index_decreases;

/// One arm of a `path!` map: outer attributes, a one-segment pattern, and a
/// target. `wild` says that the pattern is the single wildcard token `_`.
#[derive(PartialEq, Eq, Debug)]
pub struct PathArm {
    pub attrs_lo: usize,
    pub attrs_hi: usize,
    pub head_lo: usize,
    pub head_hi: usize,
    pub wild: bool,
    pub target: Target,
}

/// One arm of a `method!` map: outer attributes, the method identifier (the
/// token at `name_at`), and a target. `wild` says that the identifier is `_`.
#[derive(PartialEq, Eq, Debug)]
pub struct MethodArm {
    pub attrs_lo: usize,
    pub attrs_hi: usize,
    pub name_at: usize,
    pub wild: bool,
    pub target: Target,
}

/// A dispatch target: a direct path expression (the tokens of the range),
/// a nested match over path segments, or a nested match over HTTP methods.
#[derive(PartialEq, Eq, Debug)]
pub enum Target {
    Direct { lo: usize, hi: usize },
    PathMap(Vec<PathArm>),
    MethodMap(Vec<MethodArm>),
}

/// The mathematical value of a `path!` arm.
pub struct PathArmV {
    pub attrs_lo: int,
    pub attrs_hi: int,
    pub head_lo: int,
    pub head_hi: int,
    pub wild: bool,
    pub target: TargetV,
}

/// The mathematical value of a `method!` arm.
pub struct MethodArmV {
    pub attrs_lo: int,
    pub attrs_hi: int,
    pub name_at: int,
    pub wild: bool,
    pub target: TargetV,
}

/// The mathematical value of a dispatch target.
pub enum TargetV {
    Direct { lo: int, hi: int },
    PathMap(Seq<PathArmV>),
    MethodMap(Seq<MethodArmV>),
}

/// The mathematical values of a sequence of `path!` arms.
pub open spec fn path_arms_tv(arms: Seq<PathArm>) -> Seq<PathArmV> {
    Seq::new(
        arms.len(),
        |i: int|
            if 0 <= i < arms.len() {
                arms[i].tv()
            } else {
                arbitrary()
            },
    )
}

/// The mathematical values of a sequence of `method!` arms.
pub open spec fn method_arms_tv(arms: Seq<MethodArm>) -> Seq<MethodArmV> {
    Seq::new(
        arms.len(),
        |i: int|
            if 0 <= i < arms.len() {
                arms[i].tv()
            } else {
                arbitrary()
            },
    )
}

/// A path map's value is the value of its arms.
pub broadcast proof fn lemma_pathmap_tv(arms: Vec<PathArm>)
    ensures
        (#[trigger] Target::PathMap(arms).tv()) == TargetV::PathMap(path_arms_tv(arms@)),
{
    assert(Target::PathMap(arms).tv() matches TargetV::PathMap(s) && s =~= path_arms_tv(arms@));
}

/// A method map's value is the value of its arms.
pub broadcast proof fn lemma_methodmap_tv(arms: Vec<MethodArm>)
    ensures
        (#[trigger] Target::MethodMap(arms).tv()) == TargetV::MethodMap(method_arms_tv(arms@)),
{
    assert(Target::MethodMap(arms).tv() matches TargetV::MethodMap(s) && s =~= method_arms_tv(
        arms@,
    ));
}

impl Target {
    /// The mathematical value of this dispatch tree.
    pub open spec fn tv(self) -> TargetV
        decreases self,
    {
        match self {
            Target::Direct { lo, hi } => TargetV::Direct { lo: lo as int, hi: hi as int },
            Target::PathMap(arms) => TargetV::PathMap(
                Seq::new(
                    arms@.len(),
                    |i: int|
                        if 0 <= i < arms@.len() {
                            arms@[i].tv()
                        } else {
                            arbitrary()
                        },
                ),
            ),
            Target::MethodMap(arms) => TargetV::MethodMap(
                Seq::new(
                    arms@.len(),
                    |i: int|
                        if 0 <= i < arms@.len() {
                            arms@[i].tv()
                        } else {
                            arbitrary()
                        },
                ),
            ),
        }
    }
}

impl PathArm {
    /// The mathematical value of this arm.
    pub open spec fn tv(self) -> PathArmV
        decreases self,
    {
        PathArmV {
            attrs_lo: self.attrs_lo as int,
            attrs_hi: self.attrs_hi as int,
            head_lo: self.head_lo as int,
            head_hi: self.head_hi as int,
            wild: self.wild,
            target: self.target.tv(),
        }
    }
}

impl MethodArm {
    /// The mathematical value of this arm.
    pub open spec fn tv(self) -> MethodArmV
        decreases self,
    {
        MethodArmV {
            attrs_lo: self.attrs_lo as int,
            attrs_hi: self.attrs_hi as int,
            name_at: self.name_at as int,
            wild: self.wild,
            target: self.target.tv(),
        }
    }
}

} // verus!
