//! Byte strings: comparing, copying, joining.

use vstd::prelude::*;
use vstd::slice::*;

verus! {

/// The bytes of each key in a list.
pub open spec fn keys_view(keys: Seq<Vec<u8>>) -> Seq<Seq<u8>> {
    keys.map_values(|k: Vec<u8>| k@)
}

/// The bytes of an optional byte string.
pub open spec fn opt_bytes(o: Option<Vec<u8>>) -> Option<Seq<u8>> {
    match o {
        Some(b) => Some(b@),
        None => None,
    }
}

/// Whether two byte strings are equal.
pub fn same_bytes(a: &[u8], b: &[u8]) -> (r: bool)
    ensures
        r == (a@ == b@),
{
    if a.len() != b.len() {
        return false;
    }
    let n: usize = a.len();
    for i in 0..n
        invariant
            n == a@.len() == b@.len(),
            forall|j: int| 0 <= j < i ==> a@[j] == b@[j],
    {
        if a[i] != b[i] {
            return false;
        }
    }
    assert(a@ =~= b@);
    true
}

/// A copy of a byte string.
pub fn copy_bytes(a: &[u8]) -> (r: Vec<u8>)
    ensures
        r@ == a@,
{
    slice_to_vec(a)
}

/// A copy of an optional byte string.
pub fn copy_opt_bytes(a: &Option<Vec<u8>>) -> (r: Option<Vec<u8>>)
    ensures
        opt_bytes(r) == opt_bytes(*a),
{
    match a {
        Some(b) => Some(copy_bytes(b.as_slice())),
        None => None,
    }
}

/// Appends `tail` to `v`.
pub fn append(v: &mut Vec<u8>, tail: &[u8])
    ensures
        final(v)@ == old(v)@ + tail@,
{
    v.extend_from_slice(tail);
    assert(v@ =~= old(v)@ + tail@);
}

/// `a` followed by `b`.
pub fn concat(a: &[u8], b: &[u8]) -> (r: Vec<u8>)
    ensures
        r@ == a@ + b@,
{
    let mut v = copy_bytes(a);
    append(&mut v, b);
    v
}

/// The 32 bytes of a slice of that length.
pub fn to_array32(a: &[u8]) -> (r: [u8; 32])
    requires
        a@.len() == 32,
    ensures
        r@ == a@,
{
    let mut out = [0u8;32];
    for i in 0..32usize
        invariant
            a@.len() == 32,
            forall|j: int| 0 <= j < i ==> out@[j] == a@[j],
    {
        out[i] = a[i];
    }
    assert(out@ =~= a@);
    out
}

/// The 24 bytes of a slice of that length.
pub fn to_array24(a: &[u8]) -> (r: [u8; 24])
    requires
        a@.len() == 24,
    ensures
        r@ == a@,
{
    let mut out = [0u8;24];
    for i in 0..24usize
        invariant
            a@.len() == 24,
            forall|j: int| 0 <= j < i ==> out@[j] == a@[j],
    {
        out[i] = a[i];
    }
    assert(out@ =~= a@);
    out
}

/// The 64 bytes of a slice of that length.
pub fn to_array64(a: &[u8]) -> (r: [u8; 64])
    requires
        a@.len() == 64,
    ensures
        r@ == a@,
{
    let mut out = [0u8;64];
    for i in 0..64usize
        invariant
            a@.len() == 64,
            forall|j: int| 0 <= j < i ==> out@[j] == a@[j],
    {
        out[i] = a[i];
    }
    assert(out@ =~= a@);
    out
}

/// The lexicographic order on byte strings: `a` comes before `b`.
pub open spec fn bytes_less(a: Seq<u8>, b: Seq<u8>) -> bool
    decreases a.len(),
{
    if b.len() == 0 {
        false
    } else if a.len() == 0 {
        true
    } else if a[0] != b[0] {
        a[0] < b[0]
    } else {
        bytes_less(a.skip(1), b.skip(1))
    }
}

/// Whether `a` comes before `b` in lexicographic order.
pub fn comes_before(a: &[u8], b: &[u8]) -> (r: bool)
    ensures
        r == bytes_less(a@, b@),
{
    let mut i: usize = 0;
    assert(a@.skip(0) =~= a@);
    assert(b@.skip(0) =~= b@);
    while i < a.len() && i < b.len() && a[i] == b[i]
        invariant
            i <= a@.len(),
            i <= b@.len(),
            bytes_less(a@, b@) == bytes_less(a@.skip(i as int), b@.skip(i as int)),
        decreases a@.len() - i,
    {
        assert(a@.skip(i as int).skip(1) =~= a@.skip(i + 1));
        assert(b@.skip(i as int).skip(1) =~= b@.skip(i + 1));
        i = i + 1;
    }
    if i >= b.len() {
        false
    } else if i >= a.len() {
        true
    } else {
        a[i] < b[i]
    }
}

/// Of two different byte strings exactly one comes before the other.
pub proof fn lemma_bytes_less_total(a: Seq<u8>, b: Seq<u8>)
    ensures
        a != b ==> bytes_less(a, b) != bytes_less(b, a),
        a == b ==> !bytes_less(a, b),
    decreases a.len(),
{
    if a.len() > 0 && b.len() > 0 && a[0] == b[0] {
        lemma_bytes_less_total(a.skip(1), b.skip(1));
        if a.skip(1) == b.skip(1) {
            assert(a =~= seq![a[0]] + a.skip(1));
            assert(b =~= seq![b[0]] + b.skip(1));
        }
    } else if a.len() == 0 && b.len() == 0 {
        assert(a =~= b);
    }
}

/// Byte strings are in the order of a dictionary: where two begin alike, the first
/// byte in which they differ decides, and what is only the beginning of the
/// other comes first.
pub proof fn law_bytes_are_in_dictionary_order(
    head: Seq<u8>,
    x: u8,
    y: u8,
    a: Seq<u8>,
    b: Seq<u8>,
)
    ensures
        x < y ==> bytes_less(head + seq![x] + a, head + seq![y] + b) && !bytes_less(
            head + seq![y] + b,
            head + seq![x] + a,
        ),
        bytes_less(head, head + seq![x] + a),
        !bytes_less(head + seq![x] + a, head),
    decreases head.len(),
{
    let first = head + seq![x] + a;
    let second = head + seq![y] + b;
    if head.len() == 0 {
        assert(first[0] == x && second[0] == y);
    } else {
        law_bytes_are_in_dictionary_order(head.skip(1), x, y, a, b);
        assert(first.skip(1) =~= head.skip(1) + seq![x] + a);
        assert(second.skip(1) =~= head.skip(1) + seq![y] + b);
        assert(first[0] == head[0] && second[0] == head[0]);
    }
}

} // verus!
