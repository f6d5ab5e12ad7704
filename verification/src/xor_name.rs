//! Names in the XOR metric space, their distance and their distance classes.

use vstd::prelude::*;

verus! {

/// Width of a node identifier in bytes.
pub const NAME_LEN: usize = 64;

/// A point in the identifier space. Closeness between two names is the
/// big-endian integer value of their bytewise XOR.
#[derive(Clone, Copy, Debug, PartialEq, Eq, Hash, PartialOrd, Ord)]
pub struct XorName(pub [u8; 64]);

/// Value of a byte string read as a big-endian number.
pub open spec fn be_value(s: Seq<u8>) -> nat
    decreases s.len(),
{
    if s.len() == 0 {
        0
    } else {
        be_value(s.drop_last()) * 256 + s.last() as nat
    }
}

/// Bytewise XOR of two strings of the same length.
pub open spec fn xor_bytes(a: Seq<u8>, b: Seq<u8>) -> Seq<u8> {
    Seq::new(a.len(), |i: int| a[i] ^ b[i])
}

/// The XOR metric on names.
pub open spec fn distance(a: XorName, b: XorName) -> nat {
    be_value(xor_bytes(a.0@, b.0@))
}

/// Number of leading zero bits of a byte.
pub open spec fn leading_zeros(x: u8) -> nat {
    if x >= 128 {
        0
    } else if x >= 64 {
        1
    } else if x >= 32 {
        2
    } else if x >= 16 {
        3
    } else if x >= 8 {
        4
    } else if x >= 4 {
        5
    } else if x >= 2 {
        6
    } else if x >= 1 {
        7
    } else {
        8
    }
}

/// Number of leading bits that `a` and `b` share, counted from byte `from`.
pub open spec fn common_bits_from(a: Seq<u8>, b: Seq<u8>, from: int) -> nat
    decreases a.len() - from,
{
    if from < 0 || from >= a.len() {
        0
    } else if a[from] == b[from] {
        8 + common_bits_from(a, b, from + 1)
    } else {
        leading_zeros(a[from] ^ b[from])
    }
}

/// The distance class of `b` as seen from `a`: the number of leading bits the
/// two names agree in. Equal names give `8 * NAME_LEN`.
pub open spec fn bucket_index(a: XorName, b: XorName) -> nat {
    common_bits_from(a.0@, b.0@, 0)
}

/// Two byte strings that first differ at `i` compare as their bytes at `i` do.
pub proof fn lemma_be_value_lex(x: Seq<u8>, y: Seq<u8>, i: int)
    requires
        x.len() == y.len(),
        0 <= i < x.len(),
        forall|j: int| 0 <= j < i ==> x[j] == y[j],
        x[i] < y[i],
    ensures
        be_value(x) < be_value(y),
    decreases x.len(),
{
    let xs = x.drop_last();
    let ys = y.drop_last();
    if i == x.len() - 1 {
        assert(xs =~= ys);
    } else {
        lemma_be_value_lex(xs, ys, i);
        assert(be_value(xs) + 1 <= be_value(ys));
        assert((be_value(xs) + 1) * 256 <= be_value(ys) * 256) by (nonlinear_arith)
            requires
                be_value(xs) + 1 <= be_value(ys),
        ;
    }
}

/// XOR with a fixed byte is injective.
pub proof fn lemma_xor_injective(a: u8, b: u8, t: u8)
    ensures
        (a ^ t) == (b ^ t) <==> a == b,
        (a ^ b) == 0 <==> a == b,
        (a ^ b) == (b ^ a),
{
    assert((a ^ t) == (b ^ t) <==> a == b) by (bit_vector);
    assert((a ^ b) == 0 <==> a == b) by (bit_vector);
    assert((a ^ b) == (b ^ a)) by (bit_vector);
}

/// A string of zero bytes has the value zero.
pub proof fn lemma_be_value_zero(s: Seq<u8>)
    requires
        forall|i: int| 0 <= i < s.len() ==> s[i] == 0,
    ensures
        be_value(s) == 0,
    decreases s.len(),
{
    if s.len() > 0 {
        lemma_be_value_zero(s.drop_last());
    }
}

/// A name is at distance zero from itself, and from no other name.
pub proof fn lemma_distance_zero(a: XorName, b: XorName)
    ensures
        distance(a, b) == 0 <==> a == b,
{
    let z = xor_bytes(a.0@, a.0@);
    assert forall|i: int| 0 <= i < z.len() implies z[i] == 0 by {
        lemma_xor_injective(a.0@[i], a.0@[i], 0);
    }
    lemma_be_value_zero(z);
    lemma_distance_symmetric(a, b);
    lemma_distance_injective(b, a, a);
}

/// The metric is symmetric.
pub proof fn lemma_distance_symmetric(a: XorName, b: XorName)
    ensures
        distance(a, b) == distance(b, a),
{
    assert forall|i: int| 0 <= i < 64 implies (#[trigger] a.0@[i] ^ b.0@[i]) == (b.0@[i]
        ^ a.0@[i]) by {
        lemma_xor_injective(a.0@[i], b.0@[i], 0);
    }
    assert(xor_bytes(a.0@, b.0@) =~= xor_bytes(b.0@, a.0@));
}

/// Index of the first byte at or after `from` in which `a` and `b` differ,
/// or their length if there is none.
pub open spec fn first_difference(a: Seq<u8>, b: Seq<u8>, from: int) -> int
    decreases a.len() - from,
{
    if from < 0 || from >= a.len() {
        a.len() as int
    } else if a[from] != b[from] {
        from
    } else {
        first_difference(a, b, from + 1)
    }
}

/// What `first_difference` finds.
pub proof fn lemma_first_difference(a: Seq<u8>, b: Seq<u8>, from: int)
    requires
        a.len() == b.len(),
        0 <= from <= a.len(),
    ensures
        from <= first_difference(a, b, from) <= a.len(),
        forall|j: int| from <= j < first_difference(a, b, from) ==> a[j] == b[j],
        first_difference(a, b, from) < a.len() ==> a[first_difference(a, b, from)]
            != b[first_difference(a, b, from)],
    decreases a.len() - from,
{
    if from < a.len() && a[from] == b[from] {
        lemma_first_difference(a, b, from + 1);
    }
}

/// Two names are at the same distance from a target only if they are equal.
pub proof fn lemma_distance_injective(a: XorName, b: XorName, t: XorName)
    ensures
        distance(a, t) == distance(b, t) <==> a == b,
{
    if a != b {
        let i = first_difference(a.0@, b.0@, 0);
        lemma_first_difference(a.0@, b.0@, 0);
        if i >= 64 {
            assert(a.0 =~= b.0);
        }
        let x = xor_bytes(a.0@, t.0@);
        let y = xor_bytes(b.0@, t.0@);
        lemma_xor_injective(a.0@[i], b.0@[i], t.0@[i]);
        if x[i] < y[i] {
            lemma_be_value_lex(x, y, i);
        } else {
            lemma_be_value_lex(y, x, i);
        }
    }
}

/// The name with the given bytes.
pub open spec fn name_with(bytes: Seq<u8>) -> XorName {
    choose|x: XorName| x.0@ == bytes
}

/// A name is the name with its bytes.
pub proof fn lemma_name_with(x: XorName)
    ensures
        name_with(x.0@) == x,
{
    let y = name_with(x.0@);
    assert(y.0 =~= x.0);
}

impl XorName {
    /// Wraps 64 bytes as a name.
    pub fn new(bytes: [u8; 64]) -> (name: XorName)
        ensures
            name == XorName(bytes),
    {
        XorName(bytes)
    }

    /// The name's bytes.
    pub fn get_id(&self) -> (bytes: [u8; 64])
        ensures
            bytes == self.0,
    {
        self.0
    }

    /// Whether two names are the same name.
    pub fn same(&self, other: &XorName) -> (r: bool)
        ensures
            r == (*self == *other),
    {
        let mut i: usize = 0;
        while i < 64
            invariant
                0 <= i <= 64,
                forall|j: int| 0 <= j < i ==> self.0@[j] == other.0@[j],
            decreases 64 - i,
        {
            if self.0[i] != other.0[i] {
                return false;
            }
            i += 1;
        }
        assert(self.0 =~= other.0);
        true
    }

    /// The distance class of `other` as seen from `self`.
    pub fn bucket_index(&self, other: &XorName) -> (r: usize)
        ensures
            r == bucket_index(*self, *other),
            r <= 512,
            r == 512 <==> *self == *other,
    {
        let mut i: usize = 0;
        while i < 64
            invariant
                0 <= i <= 64,
                forall|j: int| 0 <= j < i ==> self.0@[j] == other.0@[j],
                bucket_index(*self, *other) == 8 * i + common_bits_from(self.0@, other.0@, i as int),
            decreases 64 - i,
        {
            if self.0[i] != other.0[i] {
                let x: u8 = self.0[i] ^ other.0[i];
                proof {
                    lemma_xor_injective(self.0@[i as int], other.0@[i as int], 0);
                }
                let z: usize = if x >= 128 {
                    0
                } else if x >= 64 {
                    1
                } else if x >= 32 {
                    2
                } else if x >= 16 {
                    3
                } else if x >= 8 {
                    4
                } else if x >= 4 {
                    5
                } else if x >= 2 {
                    6
                } else {
                    7
                };
                return 8 * i + z;
            }
            i += 1;
        }
        assert(self.0 =~= other.0);
        512
    }
}

/// Whether `lhs` is strictly closer to `target` than `rhs` is.
pub fn closer_to_target(lhs: &XorName, rhs: &XorName, target: &XorName) -> (r: bool)
    ensures
        r == (distance(*lhs, *target) < distance(*rhs, *target)),
{
    let mut i: usize = 0;
    while i < 64
        invariant
            0 <= i <= 64,
            forall|j: int| 0 <= j < i ==> lhs.0@[j] == rhs.0@[j],
        decreases 64 - i,
    {
        if lhs.0[i] != rhs.0[i] {
            let x: u8 = lhs.0[i] ^ target.0[i];
            let y: u8 = rhs.0[i] ^ target.0[i];
            proof {
                let xs = xor_bytes(lhs.0@, target.0@);
                let ys = xor_bytes(rhs.0@, target.0@);
                lemma_xor_injective(lhs.0@[i as int], rhs.0@[i as int], target.0@[i as int]);
                if xs[i as int] < ys[i as int] {
                    lemma_be_value_lex(xs, ys, i as int);
                } else {
                    lemma_be_value_lex(ys, xs, i as int);
                }
            }
            return x < y;
        }
        i += 1;
    }
    assert(lhs.0 =~= rhs.0);
    false
}

} // verus!
