//! The name that a close group gives to a joining node.

use crate::crypto::{hash_sha512, sha512};
use crate::error::RoutingError;
use crate::xor_name::{closer_to_target, distance, XorName};
use vstd::prelude::*;

verus! {

/// Among the first `n` names of `names`, the index of the first one with the
/// least distance to `target`, the index `skip` left out; `-1` if there is
/// no such name.
pub open spec fn nearest(names: Seq<XorName>, target: XorName, skip: int, n: int) -> int
    decreases n,
{
    if n <= 0 {
        -1
    } else {
        let before = nearest(names, target, skip, n - 1);
        if n - 1 == skip {
            before
        } else if before == -1 || distance(names[n - 1], target) < distance(
            names[before],
            target,
        ) {
            n - 1
        } else {
            before
        }
    }
}

/// The bytes that the relocated name is the digest of: the joining node's
/// name, then the name of the close group that is nearest to it, then the
/// second nearest if the group has two members.
pub open spec fn relocation_input(close_nodes: Seq<XorName>, joining: XorName) -> Seq<u8> {
    let first = nearest(close_nodes, joining, -1, close_nodes.len() as int);
    let second = nearest(close_nodes, joining, first, close_nodes.len() as int);
    if first == -1 {
        joining.0@
    } else if second == -1 {
        joining.0@ + close_nodes[first].0@
    } else {
        joining.0@ + close_nodes[first].0@ + close_nodes[second].0@
    }
}

/// Whether `name` is the name that a close group with these members gives
/// the node that joined as `joining`.
pub open spec fn is_relocated_name(close_nodes: Seq<XorName>, joining: XorName, name: XorName) -> bool {
    name.0@ == sha512(relocation_input(close_nodes, joining))
}

/// What `nearest` picks: an index within range other than `skip`, at which
/// no name is farther from the target than any other name that was
/// considered.
pub proof fn lemma_nearest(names: Seq<XorName>, target: XorName, skip: int, n: int)
    requires
        0 <= n <= names.len(),
    ensures
        -1 <= nearest(names, target, skip, n) < n,
        nearest(names, target, skip, n) != -1 ==> nearest(names, target, skip, n) != skip,
        nearest(names, target, skip, n) == -1 <==> n == 0 || (n == 1 && skip == 0),
        forall|i: int|
            0 <= i < n && i != skip ==> distance(names[nearest(names, target, skip, n)], target)
                <= distance(#[trigger] names[i], target),
    decreases n,
{
    if n > 0 {
        lemma_nearest(names, target, skip, n - 1);
        let before = nearest(names, target, skip, n - 1);
    }
}

/// The member of a list that `nearest` picks is the same member in whatever
/// order the list stands: of two lists without repetition, one of which
/// holds what the other holds but for the member that is left out, both
/// picks are the same name.
pub proof fn lemma_nearest_order_free(
    a: Seq<XorName>,
    b: Seq<XorName>,
    target: XorName,
    skip_a: int,
    skip_b: int,
)
    requires
        a.no_duplicates(),
        b.no_duplicates(),
        a.len() == b.len(),
        forall|i: int| 0 <= i < a.len() ==> b.contains(#[trigger] a[i]),
        forall|i: int| 0 <= i < b.len() ==> a.contains(#[trigger] b[i]),
        skip_a == -1 && skip_b == -1 || (0 <= skip_a < a.len() && 0 <= skip_b < b.len()
            && a[skip_a] == b[skip_b]),
        nearest(a, target, skip_a, a.len() as int) != -1,
    ensures
        nearest(b, target, skip_b, b.len() as int) != -1,
        a[nearest(a, target, skip_a, a.len() as int)] == b[nearest(
            b,
            target,
            skip_b,
            b.len() as int,
        )],
{
    let n = a.len() as int;
    lemma_nearest(a, target, skip_a, n);
    lemma_nearest(b, target, skip_b, n);
    let pa = nearest(a, target, skip_a, n);
    let pb = nearest(b, target, skip_b, n);
    let x = a[pa];
    let y = b[pb];
    assert(b.contains(x));
    let j = choose|j: int| 0 <= j < b.len() && b[j] == x;
    assert(j != skip_b) by {
        if j == skip_b {
            assert(a[skip_a] == a[pa]);
        }
    }
    assert(distance(y, target) <= distance(b[j], target));
    assert(a.contains(y));
    let i = choose|i: int| 0 <= i < a.len() && a[i] == y;
    assert(i != skip_a) by {
        if i == skip_a {
            assert(b[skip_b] == b[pb]);
        }
    }
    assert(distance(x, target) <= distance(a[i], target));
    crate::xor_name::lemma_distance_injective(x, y, target);
}

/// The relocated name does not depend on the order in which the members of
/// the close group are listed, as long as no member is listed twice.
pub proof fn lemma_relocation_order_free(a: Seq<XorName>, b: Seq<XorName>, joining: XorName)
    requires
        a.no_duplicates(),
        b.no_duplicates(),
        a.to_set() == b.to_set(),
    ensures
        relocation_input(a, joining) == relocation_input(b, joining),
        forall|name: XorName|
            is_relocated_name(a, joining, name) <==> is_relocated_name(b, joining, name),
{
    a.unique_seq_to_set();
    b.unique_seq_to_set();
    let n = a.len() as int;
    assert forall|i: int| 0 <= i < a.len() implies b.contains(#[trigger] a[i]) by {
        assert(a.contains(a[i]));
        assert(a.to_set().contains(a[i]));
    }
    assert forall|i: int| 0 <= i < b.len() implies a.contains(#[trigger] b[i]) by {
        assert(b.contains(b[i]));
        assert(b.to_set().contains(b[i]));
    }
    lemma_nearest(a, joining, -1, n);
    lemma_nearest(b, joining, -1, n);
    if n > 0 {
        lemma_nearest_order_free(a, b, joining, -1, -1);
        let fa = nearest(a, joining, -1, n);
        let fb = nearest(b, joining, -1, n);
        lemma_nearest(a, joining, fa, n);
        lemma_nearest(b, joining, fb, n);
        if n > 1 {
            lemma_nearest_order_free(a, b, joining, fa, fb);
        }
    }
}

/// Any two members that compute the relocated name from the same close group
/// and the same joining name arrive at the same name, byte for byte.
pub proof fn lemma_relocation_deterministic(
    close_nodes: Seq<XorName>,
    joining: XorName,
    first: XorName,
    second: XorName,
)
    requires
        is_relocated_name(close_nodes, joining, first),
        is_relocated_name(close_nodes, joining, second),
    ensures
        first == second,
        first.0@ == second.0@,
{
    assert(first.0 =~= second.0);
}

/// Index of the name of `names` that is nearest to `target`, the index
/// `skip` left out.
fn nearest_index(names: &Vec<XorName>, target: &XorName, skip: Option<usize>) -> (r: Option<usize>)
    ensures
        match r {
            Some(i) => i < names@.len() && i == nearest(
                names@,
                *target,
                match skip {
                    Some(s) => s as int,
                    None => -1,
                },
                names@.len() as int,
            ),
            None => nearest(
                names@,
                *target,
                match skip {
                    Some(s) => s as int,
                    None => -1,
                },
                names@.len() as int,
            ) == -1,
        },
{
    let ghost sk: int = match skip {
        Some(s) => s as int,
        None => -1,
    };
    let mut best: Option<usize> = None;
    let mut i: usize = 0;
    while i < names.len()
        invariant
            0 <= i <= names.len(),
            sk == (match skip {
                Some(s) => s as int,
                None => -1,
            }),
            match best {
                Some(b) => b < i && b == nearest(names@, *target, sk, i as int),
                None => nearest(names@, *target, sk, i as int) == -1,
            },
        decreases names.len() - i,
    {
        let skipped = match skip {
            Some(s) => s == i,
            None => false,
        };
        if !skipped {
            match best {
                None => {
                    best = Some(i);
                },
                Some(b) => {
                    if closer_to_target(&names[i], &names[b], target) {
                        best = Some(i);
                    }
                },
            }
        }
        i += 1;
    }
    best
}

/// The name that the close group `close_nodes` gives a node that joined as
/// `joining`: the digest of the joining name followed by the two names of
/// the group that are nearest to it. An empty group gives no name.
pub fn calculate_relocated_name(close_nodes: Vec<XorName>, joining: &XorName) -> (r: Result<
    XorName,
    RoutingError,
>)
    ensures
        match r {
            Ok(name) => close_nodes@.len() > 0 && is_relocated_name(close_nodes@, *joining, name),
            Err(e) => close_nodes@.len() == 0 && e == RoutingError::RoutingTableEmpty,
        },
{
    if close_nodes.len() == 0 {
        return Err(RoutingError::RoutingTableEmpty);
    }
    let mut combined: Vec<u8> = Vec::new();
    crate::bytes::append_bytes(&mut combined, joining.0.as_slice());
    assert(combined@ =~= joining.0@);
    let first = nearest_index(&close_nodes, joining, None);
    proof {
        lemma_nearest(close_nodes@, *joining, -1, close_nodes@.len() as int);
    }
    match first {
        None => {},
        Some(a) => {
            crate::bytes::append_bytes(&mut combined, close_nodes[a].0.as_slice());
            match nearest_index(&close_nodes, joining, Some(a)) {
                None => {},
                Some(b) => {
                    crate::bytes::append_bytes(&mut combined, close_nodes[b].0.as_slice());
                },
            }
        },
    }
    Ok(XorName(hash_sha512(combined.as_slice())))
}

} // verus!
