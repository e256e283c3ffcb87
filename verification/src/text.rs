//! Identifier text as ASCII byte strings: comparison, duplication, upper
//! casing, and the few identifiers the rewrites recognize.

use vstd::prelude::*;

verus! {

/// The bytes of the identifier `path`.
pub open spec fn path_bytes() -> Seq<u8> {
    seq![112u8, 97u8, 116u8, 104u8]
}

/// The bytes of the identifier `method`.
pub open spec fn method_bytes() -> Seq<u8> {
    seq![109u8, 101u8, 116u8, 104u8, 111u8, 100u8]
}

/// The bytes of the identifier `rest`.
pub open spec fn rest_bytes() -> Seq<u8> {
    seq![114u8, 101u8, 115u8, 116u8]
}

/// The bytes of the identifier `query`.
pub open spec fn query_bytes() -> Seq<u8> {
    seq![113u8, 117u8, 101u8, 114u8, 121u8]
}

/// The bytes of the identifier `Arc`.
pub open spec fn arc_bytes() -> Seq<u8> {
    seq![65u8, 114u8, 99u8]
}

/// The bytes of the wildcard identifier `_`.
pub open spec fn underscore_bytes() -> Seq<u8> {
    seq![95u8]
}

/// Build the identifier `path`.
pub fn path_ident() -> (r: Vec<u8>)
    ensures
        r@ == path_bytes(),
{
    let mut v: Vec<u8> = Vec::new();
    v.push(112);
    v.push(97);
    v.push(116);
    v.push(104);
    proof {
        assert(v@ =~= path_bytes());
    }
    v
}

/// Build the identifier `method`.
pub fn method_ident() -> (r: Vec<u8>)
    ensures
        r@ == method_bytes(),
{
    let mut v: Vec<u8> = Vec::new();
    v.push(109);
    v.push(101);
    v.push(116);
    v.push(104);
    v.push(111);
    v.push(100);
    proof {
        assert(v@ =~= method_bytes());
    }
    v
}

/// Build the identifier `rest`.
pub fn rest_ident() -> (r: Vec<u8>)
    ensures
        r@ == rest_bytes(),
{
    let mut v: Vec<u8> = Vec::new();
    v.push(114);
    v.push(101);
    v.push(115);
    v.push(116);
    proof {
        assert(v@ =~= rest_bytes());
    }
    v
}

/// Build the identifier `query`.
pub fn query_ident() -> (r: Vec<u8>)
    ensures
        r@ == query_bytes(),
{
    let mut v: Vec<u8> = Vec::new();
    v.push(113);
    v.push(117);
    v.push(101);
    v.push(114);
    v.push(121);
    proof {
        assert(v@ =~= query_bytes());
    }
    v
}

/// Build the identifier `Arc`.
pub fn arc_ident() -> (r: Vec<u8>)
    ensures
        r@ == arc_bytes(),
{
    let mut v: Vec<u8> = Vec::new();
    v.push(65);
    v.push(114);
    v.push(99);
    proof {
        assert(v@ =~= arc_bytes());
    }
    v
}

/// Build the wildcard identifier `_`.
pub fn underscore_ident() -> (r: Vec<u8>)
    ensures
        r@ == underscore_bytes(),
{
    let mut v: Vec<u8> = Vec::new();
    v.push(95);
    proof {
        assert(v@ =~= underscore_bytes());
    }
    v
}

/// Compare two byte strings for equality of their contents.
pub fn bytes_is(a: &Vec<u8>, b: &Vec<u8>) -> (r: bool)
    ensures
        r == (a@ == b@),
{
    if a.len() != b.len() {
        return false;
    }
    let mut i: usize = 0;
    while i < a.len()
        invariant
            i <= a.len(),
            a.len() == b.len(),
            forall|j: int| 0 <= j < i ==> a@[j] == b@[j],
        decreases a.len() - i,
    {
        if a[i] != b[i] {
            return false;
        }
        i += 1;
    }
    proof {
        assert(a@ =~= b@);
    }
    true
}

/// Copy a byte string.
pub fn dup_bytes(v: &Vec<u8>) -> (r: Vec<u8>)
    ensures
        r@ == v@,
{
    let mut out: Vec<u8> = Vec::new();
    let mut i: usize = 0;
    while i < v.len()
        invariant
            i <= v.len(),
            out@ =~= v@.subrange(0, i as int),
        decreases v.len() - i,
    {
        out.push(v[i]);
        i += 1;
    }
    proof {
        assert(out@ =~= v@);
    }
    out
}

/// ASCII upper case of one byte: lower-case letters are shifted, everything
/// else is kept.
pub open spec fn upper_byte(b: u8) -> u8 {
    if 97 <= b && b <= 122 {
        (b - 32) as u8
    } else {
        b
    }
}

/// ASCII upper case of a byte string.
pub open spec fn upper_bytes(s: Seq<u8>) -> Seq<u8> {
    s.map_values(|b: u8| upper_byte(b))
}

/// Upper-case an ASCII identifier, as HTTP method names are written in the
/// emitted method match.
pub fn to_upper(v: &Vec<u8>) -> (r: Vec<u8>)
    ensures
        r@ == upper_bytes(v@),
{
    let mut out: Vec<u8> = Vec::new();
    let mut i: usize = 0;
    while i < v.len()
        invariant
            i <= v.len(),
            out@.len() == i,
            forall|j: int| 0 <= j < i ==> out@[j] == upper_byte(v@[j]),
        decreases v.len() - i,
    {
        let b = v[i];
        if 97 <= b && b <= 122 {
            out.push(b - 32);
        } else {
            out.push(b);
        }
        i += 1;
    }
    proof {
        assert(out@ =~= upper_bytes(v@));
    }
    out
}

} // verus!
