//! Safety numbers and key fingerprints.
//!
//! A safety number is the same on both sides: 12 groups of 5 digits.

use vstd::prelude::*;
use vstd::utf8::*;

use crate::bytes;
use crate::crypto::primitives;
use crate::text;

verus! {

/// The two keys, the lower one first.
pub open spec fn ordered(a: Seq<u8>, b: Seq<u8>) -> Seq<u8> {
    if bytes::bytes_less(a, b) {
        a + b
    } else {
        b + a
    }
}

/// The number that the `k`-th pair of bytes of a digest stands for.
pub open spec fn pair(hash: Seq<u8>, k: int) -> int {
    hash[2 * k] * 256 + hash[2 * k + 1]
}

/// Ten to the power of `k`, for the five digits of a group.
pub open spec fn pow10(k: int) -> int {
    if k <= 0 {
        1
    } else if k == 1 {
        10
    } else if k == 2 {
        100
    } else if k == 3 {
        1000
    } else {
        10000
    }
}

/// The character at position `i` of a safety number: groups of five digits,
/// each followed by a space.
pub open spec fn safety_char(hash: Seq<u8>, i: int) -> char {
    if i % 6 == 5 {
        ' '
    } else {
        text::digit((pair(hash, i / 6) / pow10(4 - i % 6) % 10) as nat)
    }
}

/// The safety number of two identity keys: 60 digits in 12 groups, from the
/// digest of the keys.
pub open spec fn safety_text(a: Seq<u8>, b: Seq<u8>) -> Seq<char> {
    let hash = primitives::sha256_of(encode_utf8("ZeroSum_SafetyNumber_v1_"@) + ordered(a, b));
    Seq::new(71, |i: int| safety_char(hash, i))
}

/// Generate a safety number for a pair of identity keys.
/// Format: 12 groups of 5 digits (60 digits total).
pub fn safety_number(our_identity_key: &[u8], their_identity_key: &[u8]) -> (r: String)
    ensures
        r@ == safety_text(our_identity_key@, their_identity_key@),
{
    let keys = if bytes::comes_before(our_identity_key, their_identity_key) {
        bytes::concat(our_identity_key, their_identity_key)
    } else {
        bytes::concat(their_identity_key, our_identity_key)
    };
    let input = bytes::concat("ZeroSum_SafetyNumber_v1_".as_bytes(), keys.as_slice());
    let hash = primitives::sha256(input.as_slice());
    let mut digits = String::new();
    for i in 0..71usize
        invariant
            digits@.len() == i,
            hash@.len() == 32,
            forall|j: int| 0 <= j < i ==> #[trigger] digits@[j] == safety_char(hash@, j),
    {
        let k: usize = i / 6;
        let j: usize = i % 6;
        if j == 5 {
            digits.push(' ');
        } else {
            let value: u32 = hash[2 * k] as u32 * 256 + hash[2 * k + 1] as u32;
            let unit: u32 = if j == 4 {
                1
            } else if j == 3 {
                10
            } else if j == 2 {
                100
            } else if j == 1 {
                1000
            } else {
                10000
            };
            assert(unit == pow10(4 - j));
            digits.push(text::digit_char((value / unit % 10) as u8));
        }
        assert(digits@[i as int] == safety_char(hash@, i as int));
    }
    assert(digits@ =~= safety_text(our_identity_key@, their_identity_key@));
    digits
}

/// Both sides see the same safety number, whichever key is their own.
pub proof fn law_safety_number_is_symmetric(a: Seq<u8>, b: Seq<u8>)
    ensures
        safety_text(a, b) == safety_text(b, a),
{
    bytes::lemma_bytes_less_total(a, b);
    assert(ordered(a, b) =~= ordered(b, a));
}

/// A safety number is 12 groups of 5 digits, with single spaces between them.
pub proof fn law_safety_number_format(a: Seq<u8>, b: Seq<u8>, group: int)
    requires
        0 <= group < 12,
    ensures
        safety_text(a, b).len() == 71,
        forall|i: int|
            group * 6 <= i < group * 6 + 5 ==> text::is_digit(#[trigger] safety_text(a, b)[i]),
        group < 11 ==> safety_text(a, b)[group * 6 + 5] == ' ',
{
    let hash = primitives::sha256_of(encode_utf8("ZeroSum_SafetyNumber_v1_"@) + ordered(a, b));
    assert forall|i: int| group * 6 <= i < group * 6 + 5 implies text::is_digit(
        #[trigger] safety_text(a, b)[i],
    ) by {
        let d = pair(hash, i / 6) / pow10(4 - i % 6) % 10;
        assert(0 <= d < 10);
        assert(safety_text(a, b)[i] == safety_char(hash, i));
        assert(safety_char(hash, i) as u32 == 48 + d);
    }
}

// ── Hex ─────────────────────────────────────────────────────

/// The upper-case hexadecimal digit for a value below sixteen.
pub open spec fn hex_digit(n: int) -> char {
    if n < 10 {
        ('0' as u32 + n) as char
    } else {
        ('A' as u32 + (n - 10)) as char
    }
}

/// Bytes in hexadecimal, four to a group, groups apart by a space.
pub open spec fn hex_text(key: Seq<u8>) -> Seq<char>
    decreases key.len(),
{
    if key.len() == 0 {
        seq![]
    } else {
        let rest = hex_text(key.drop_last());
        let gap = if rest.len() > 0 && (key.len() - 1) % 4 == 0 {
            seq![' ']
        } else {
            seq![]
        };
        rest + gap + seq![hex_digit(key.last() as int / 16), hex_digit(key.last() as int % 16)]
    }
}

fn hex_char(n: u8) -> (c: char)
    requires
        n < 16,
    ensures
        c == hex_digit(n as int),
{
    if n < 10 {
        (48 + n) as char
    } else {
        (65 + (n - 10)) as char
    }
}

/// Format a public key as a hex fingerprint for display
pub fn hex_fingerprint(key: &[u8]) -> (r: String)
    ensures
        r@ == hex_text(key@),
{
    let mut out = String::new();
    let n: usize = key.len();
    for i in 0..n
        invariant
            n == key@.len(),
            out@ == hex_text(key@.take(i as int)),
            i > 0 ==> out@.len() > 0,
    {
        let ghost before = out@;
        if i > 0 && i % 4 == 0 {
            out.push(' ');
        }
        out.push(hex_char(key[i] / 16));
        out.push(hex_char(key[i] % 16));
        assert(key@.take(i + 1).drop_last() =~= key@.take(i as int));
        assert(out@ =~= hex_text(key@.take(i + 1)));
    }
    assert(key@.take(n as int) =~= key@);
    out
}

// ── Laws ────────────────────────────────────────────────────

/// The number that five digits stand for.
pub open spec fn five_digits(s: Seq<char>, at: int) -> int {
    (s[at] as int - '0' as int) * 10000 + (s[at + 1] as int - '0' as int) * 1000 + (s[at + 2] as int
        - '0' as int) * 100 + (s[at + 3] as int - '0' as int) * 10 + (s[at + 4] as int - '0' as int)
}

/// A safety number spells the digest of both keys: read as a number, each group
/// of five digits is the next two bytes of the digest of a label and the two
/// keys, the lower key first.
pub proof fn law_safety_number_spells_the_digest(a: Seq<u8>, b: Seq<u8>, group: int)
    requires
        0 <= group < 12,
        bytes::bytes_less(a, b),
    ensures
        ({
            let digest = primitives::sha256_of(
                encode_utf8("ZeroSum_SafetyNumber_v1_"@) + (a + b),
            );
            &&& five_digits(safety_text(a, b), 6 * group) == digest[2 * group] * 256 + digest[2
                * group + 1]
            &&& five_digits(safety_text(b, a), 6 * group) == digest[2 * group] * 256 + digest[2
                * group + 1]
        }),
{
    let hash = primitives::sha256_of(encode_utf8("ZeroSum_SafetyNumber_v1_"@) + (a + b));
    law_safety_number_is_symmetric(a, b);
    let s = safety_text(a, b);
    let v = pair(hash, group);
    lemma_digit_of_group(hash, group, 0);
    lemma_digit_of_group(hash, group, 1);
    lemma_digit_of_group(hash, group, 2);
    lemma_digit_of_group(hash, group, 3);
    lemma_digit_of_group(hash, group, 4);
    lemma_five_digits(v);
    assert(s[6 * group] == safety_char(hash, 6 * group));
    assert(s[6 * group + 1] == safety_char(hash, 6 * group + 1));
    assert(s[6 * group + 2] == safety_char(hash, 6 * group + 2));
    assert(s[6 * group + 3] == safety_char(hash, 6 * group + 3));
    assert(s[6 * group + 4] == safety_char(hash, 6 * group + 4));
}

proof fn lemma_five_digits(v: int)
    requires
        0 <= v < 65536,
    ensures
        v == (v / 10000 % 10) * 10000 + (v / 1000 % 10) * 1000 + (v / 100 % 10) * 100 + (v / 10
            % 10) * 10 + v % 10,
{
    let a = v / 10;
    let b = a / 10;
    let c = b / 10;
    let d = c / 10;
    assert(v / 100 == b);
    assert(v / 1000 == c);
    assert(v / 10000 == d);
    assert(d % 10 == d);
}

proof fn lemma_digit_of_group(hash: Seq<u8>, group: int, k: int)
    requires
        0 <= group < 12,
        0 <= k < 5,
    ensures
        0 <= pair(hash, group) < 65536,
        safety_char(hash, 6 * group + k) as int - '0' as int == pair(hash, group) / pow10(4 - k)
            % 10,
{
    let i = 6 * group + k;
    assert(i / 6 == group && i % 6 == k);
    let d = pair(hash, group) / pow10(4 - k) % 10;
    assert(0 <= d < 10);
}

/// Two digits stand for every byte of a key, four bytes to a group.
pub proof fn law_fingerprint_spells_every_byte(key: Seq<u8>)
    requires
        key.len() > 0,
    ensures
        ({
            let text = hex_text(key);
            let n = text.len();
            &&& n >= 2
            &&& text[n - 2] == hex_digit(key.last() as int / 16)
            &&& text[n - 1] == hex_digit(key.last() as int % 16)
            &&& n == hex_text(key.drop_last()).len() + if key.len() > 1 && key.len() % 4 == 1 {
                3int
            } else {
                2
            }
            &&& text.take(hex_text(key.drop_last()).len() as int) == hex_text(key.drop_last())
            &&& key.len() > 1 && key.len() % 4 == 1 ==> text[n - 3] == ' '
        }),
    decreases key.len(),
{
    let rest = hex_text(key.drop_last());
    if key.len() > 1 {
        law_fingerprint_spells_every_byte(key.drop_last());
    } else {
        assert(key.drop_last().len() == 0);
        assert(rest.len() == 0);
    }
    assert(hex_text(key).take(rest.len() as int) =~= rest);
}

/// A hexadecimal digit is one of the sixteen, and tells its value.
pub proof fn law_hex_digits_are_distinct(m: int, n: int)
    requires
        0 <= m < n < 16,
    ensures
        hex_digit(m) != hex_digit(n),
        n < 10 ==> hex_digit(n) as int == '0' as int + n,
        n >= 10 ==> hex_digit(n) as int == 'A' as int + n - 10,
{
}

} // verus!
