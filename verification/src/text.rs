//! Text as sequences of characters: trimming, splitting, comparing, joining.

use vstd::prelude::*;
use vstd::utf8::*;

verus! {

/// `String::push`: the character is appended, nothing else changes.
pub assume_specification[ String::push ](s: &mut String, c: char)
    ensures
        final(s)@ == old(s)@.push(c),
;

// ── Reading ─────────────────────────────────────────────────

/// The characters of `s`, in order.
pub fn chars_of(s: &str) -> (r: Vec<char>)
    ensures
        r@ == s@,
{
    let mut out: Vec<char> = Vec::new();
    for c in it: s.chars()
        invariant
            out@ == it.seq().take(it.index()),
    {
        out.push(c);
    }
    out
}

/// Two texts with the same UTF-8 bytes have the same characters.
pub proof fn lemma_utf8_injective(a: Seq<char>, b: Seq<char>)
    requires
        encode_utf8(a) == encode_utf8(b),
    ensures
        a == b,
{
    encode_utf8_decode_utf8(a);
    encode_utf8_decode_utf8(b);
}

/// Whether two texts are equal.
pub fn same_text(a: &str, b: &str) -> (r: bool)
    ensures
        r == (a@ == b@),
{
    let x = a.as_bytes();
    let y = b.as_bytes();
    if x.len() != y.len() {
        return false;
    }
    let n: usize = x.len();
    for i in 0..n
        invariant
            n == x@.len() == y@.len(),
            x@ == encode_utf8(a@),
            y@ == encode_utf8(b@),
            forall|j: int| 0 <= j < i ==> x@[j] == y@[j],
    {
        if x[i] != y[i] {
            return false;
        }
    }
    proof {
        assert(x@ =~= y@);
        lemma_utf8_injective(a@, b@);
    }
    true
}

/// Whether `s` begins with the character `c`.
pub fn begins_with(s: &str, c: char) -> (r: bool)
    ensures
        r == (s@.len() > 0 && s@[0] == c),
{
    if s.is_empty() {
        return false;
    }
    s.get_char(0) == c
}

/// `tail` is the end of `s`.
pub open spec fn ends_with_text(s: Seq<char>, tail: Seq<char>) -> bool {
    tail.len() <= s.len() && s.skip(s.len() - tail.len()) == tail
}

/// Whether `s` ends with `tail`.
pub fn ends_with(s: &str, tail: &str) -> (r: bool)
    ensures
        r == ends_with_text(s@, tail@),
{
    let n: usize = s.unicode_len();
    let m: usize = tail.unicode_len();
    if m > n {
        return false;
    }
    let end = s.substring_char(n - m, n);
    assert(end@ =~= s@.skip(n - m));
    same_text(end, tail)
}

/// `part` occurs somewhere inside `s`.
pub open spec fn contains_text(s: Seq<char>, part: Seq<char>) -> bool {
    exists|i: int|
        0 <= i && i + part.len() <= s.len() && #[trigger] s.subrange(i, i + part.len()) == part
}

/// Whether `part` occurs inside `s`.
pub fn contains(s: &str, part: &str) -> (r: bool)
    ensures
        r == contains_text(s@, part@),
{
    let n: usize = s.unicode_len();
    let m: usize = part.unicode_len();
    if m > n {
        return false;
    }
    let mut i: usize = 0;
    while i <= n - m
        invariant
            n == s@.len(),
            m == part@.len(),
            m <= n,
            i <= n - m + 1,
            forall|j: int| 0 <= j < i ==> #[trigger] s@.subrange(j, j + m) != part@,
        decreases n - m + 1 - i,
    {
        let here = s.substring_char(i, i + m);
        if same_text(here, part) {
            return true;
        }
        if i == n - m {
            return false;
        }
        i = i + 1;
    }
    false
}

// ── White space ─────────────────────────────────────────────

/// The characters with the Unicode property `White_Space`.
pub open spec fn is_space(c: char) -> bool {
    let v = c as u32;
    ||| 0x09 <= v <= 0x0d
    ||| v == 0x20
    ||| v == 0x85
    ||| v == 0xa0
    ||| v == 0x1680
    ||| 0x2000 <= v <= 0x200a
    ||| v == 0x2028
    ||| v == 0x2029
    ||| v == 0x202f
    ||| v == 0x205f
    ||| v == 0x3000
}

/// Whether `c` is white space.
pub fn is_whitespace(c: char) -> (r: bool)
    ensures
        r == is_space(c),
{
    let v: u32 = c as u32;
    (0x09 <= v && v <= 0x0d) || v == 0x20 || v == 0x85 || v == 0xa0 || v == 0x1680 || (0x2000 <= v
        && v <= 0x200a) || v == 0x2028 || v == 0x2029 || v == 0x202f || v == 0x205f || v == 0x3000
}

/// `s` without its leading white space.
pub open spec fn trim_start(s: Seq<char>) -> Seq<char>
    decreases s.len(),
{
    if s.len() > 0 && is_space(s[0]) {
        trim_start(s.skip(1))
    } else {
        s
    }
}

/// `s` without its trailing white space.
pub open spec fn trim_end(s: Seq<char>) -> Seq<char>
    decreases s.len(),
{
    if s.len() > 0 && is_space(s.last()) {
        trim_end(s.drop_last())
    } else {
        s
    }
}

/// `s` without white space at either end.
pub open spec fn trimmed(s: Seq<char>) -> Seq<char> {
    trim_end(trim_start(s))
}

proof fn lemma_trim_start(s: Seq<char>, i: int)
    requires
        0 <= i <= s.len(),
        forall|j: int| 0 <= j < i ==> is_space(#[trigger] s[j]),
        i < s.len() ==> !is_space(s[i]),
    ensures
        trim_start(s) == s.skip(i),
    decreases i,
{
    if i > 0 {
        assert(is_space(s[0]));
        assert forall|j: int| 0 <= j < i - 1 implies is_space(#[trigger] s.skip(1)[j]) by {
            assert(is_space(s[j + 1]));
        }
        lemma_trim_start(s.skip(1), i - 1);
        assert(s.skip(1).skip(i - 1) =~= s.skip(i));
    } else {
        assert(s.skip(0) =~= s);
    }
}

proof fn lemma_trim_end(s: Seq<char>, n: int)
    requires
        0 <= n <= s.len(),
        forall|j: int| n <= j < s.len() ==> is_space(#[trigger] s[j]),
        n > 0 ==> !is_space(s[n - 1]),
    ensures
        trim_end(s) == s.take(n),
    decreases s.len() - n,
{
    if n < s.len() {
        assert(is_space(s.last()));
        lemma_trim_end(s.drop_last(), n);
        assert(s.drop_last().take(n) =~= s.take(n));
    } else {
        assert(s.take(n) =~= s);
    }
}

/// `s` without white space at either end.
pub fn trim(s: &str) -> (r: String)
    ensures
        r@ == trimmed(s@),
{
    let v = chars_of(s);
    let len: usize = v.len();
    let mut i: usize = 0;
    while i < len && is_whitespace(v[i])
        invariant
            len == v@.len(),
            i <= len,
            forall|j: int| 0 <= j < i ==> is_space(#[trigger] v@[j]),
        decreases len - i,
    {
        i = i + 1;
    }
    let mut n: usize = len;
    while n > i && is_whitespace(v[n - 1])
        invariant
            len == v@.len(),
            i <= n <= len,
            forall|j: int| n <= j < len ==> is_space(#[trigger] v@[j]),
        decreases n,
    {
        n = n - 1;
    }
    proof {
        lemma_trim_start(v@, i as int);
        let t = v@.skip(i as int);
        assert forall|j: int| n - i <= j < t.len() implies is_space(#[trigger] t[j]) by {
            assert(is_space(v@[j + i]));
        }
        lemma_trim_end(t, n - i);
        assert(t.take(n - i) =~= v@.subrange(i as int, n as int));
    }
    s.substring_char(i, n).to_owned()
}

// ── Positions in bytes ──────────────────────────────────────

/// Whether a text can be cut at a position in its UTF-8 bytes.
pub open spec fn can_cut(s: Seq<char>, at: int) -> bool {
    is_char_boundary(encode_utf8(s), at)
}

/// The part of a text in front of a position in its UTF-8 bytes.
pub open spec fn front(s: Seq<char>, at: int) -> Seq<char> {
    decode_utf8(encode_utf8(s).subrange(0, at))
}

/// The part of a text behind a position in its UTF-8 bytes.
pub open spec fn back(s: Seq<char>, at: int) -> Seq<char> {
    decode_utf8(encode_utf8(s).subrange(at, encode_utf8(s).len() as int))
}

/// The length of a text in UTF-8 bytes.
pub open spec fn byte_len(s: Seq<char>) -> nat {
    encode_utf8(s).len()
}

/// The length of a text in UTF-8 bytes.
pub fn byte_count(s: &str) -> (r: usize)
    ensures
        r == byte_len(s@),
{
    s.as_bytes().len()
}

/// Whether a text can be cut at a position in its UTF-8 bytes.
pub fn is_cut(s: &str, at: usize) -> (r: bool)
    ensures
        r == can_cut(s@, at as int),
{
    s.is_char_boundary(at)
}

fn cut(s: &str, at: usize) -> (r: (&str, &str))
    requires
        can_cut(s@, at as int),
    ensures
        r.0@ == front(s@, at as int),
        r.1@ == back(s@, at as int),
{
    let (a, b) = s.split_at(at);
    proof {
        encode_utf8_decode_utf8(a@);
        encode_utf8_decode_utf8(b@);
    }
    (a, b)
}

/// The text with a character inserted at a position in its UTF-8 bytes.
pub fn insert_char(s: &str, at: usize, c: char) -> (r: String)
    requires
        can_cut(s@, at as int),
    ensures
        r@ == front(s@, at as int).push(c) + back(s@, at as int),
{
    let (a, b) = cut(s, at);
    let mut out = a.to_owned();
    out.push(c);
    out.append(b);
    out
}

/// The text without the character at a position in its UTF-8 bytes.
pub fn remove_char(s: &str, at: usize) -> (r: String)
    requires
        can_cut(s@, at as int),
        at < byte_len(s@),
    ensures
        back(s@, at as int).len() > 0,
        r@ == front(s@, at as int) + back(s@, at as int).skip(1),
{
    let (a, b) = cut(s, at);
    proof {
        lemma_back_not_empty(s@, at as int);
    }
    let n: usize = b.unicode_len();
    let rest = b.substring_char(1, n);
    assert(rest@ =~= b@.skip(1));
    join2(a, rest)
}

proof fn lemma_back_not_empty(s: Seq<char>, at: int)
    requires
        can_cut(s, at),
        0 <= at < byte_len(s),
    ensures
        back(s, at).len() > 0,
{
    let all = encode_utf8(s);
    let rest = all.subrange(at, all.len() as int);
    encode_utf8_valid_utf8(s);
    valid_utf8_split(all, at);
    assert(rest.len() > 0);
    reveal(decode_utf8);
}

/// In basic Latin a character is a byte: any position is fine for a cut, and
/// positions count characters.
pub proof fn lemma_latin_cut(s: Seq<char>, at: int)
    requires
        is_ascii_chars(s),
        0 <= at <= s.len(),
    ensures
        byte_len(s) == s.len(),
        can_cut(s, at),
        front(s, at) == s.take(at),
        back(s, at) == s.skip(at),
{
    is_ascii_chars_encode_utf8(s);
    let all = encode_utf8(s);
    encode_utf8_valid_utf8(s);
    let a = s.take(at);
    let b = s.skip(at);
    assert(is_ascii_chars(a));
    assert(is_ascii_chars(b));
    is_ascii_chars_encode_utf8(a);
    is_ascii_chars_encode_utf8(b);
    assert(encode_utf8(a) =~= all.subrange(0, at));
    assert(encode_utf8(b) =~= all.subrange(at, all.len() as int));
    encode_utf8_decode_utf8(a);
    encode_utf8_decode_utf8(b);
    if at < s.len() {
        is_char_boundary_iff_is_leading_byte(all, at);
        assert(all[at] == s[at] as u8);
        utf8_byte_ranges_bitwise(all[at]);
    } else {
        is_char_boundary_start_end_of_seq(all);
    }
}

/// The text that bytes stand for, with a replacement character for what is not
/// UTF-8.
pub uninterp spec fn lossy(data: Seq<u8>) -> Seq<char>;

/// `String::from_utf8_lossy`: the text that bytes stand for. Bytes that are
/// the UTF-8 form of a text give that text.
#[verifier::external_body]
pub(crate) fn from_utf8_lossy(data: &[u8]) -> (r: String)
    ensures
        r@ == lossy(data@),
        forall|t: Seq<char>| data@ == #[trigger] encode_utf8(t) ==> r@ == t,
{
    String::from_utf8_lossy(data).to_string()
}

/// `s` without its last character.
pub fn without_last(s: &str) -> (r: String)
    requires
        s@.len() > 0,
    ensures
        r@ == s@.drop_last(),
{
    let n: usize = chars_of(s).len();
    let r = s.substring_char(0, n - 1).to_owned();
    assert(r@ =~= s@.drop_last());
    r
}

// ── Case ────────────────────────────────────────────────────

/// A text in lower case, as Unicode defines it.
pub uninterp spec fn lowercase(s: Seq<char>) -> Seq<char>;

/// The small letter for a capital one of the basic Latin alphabet; any other
/// character itself.
pub open spec fn small_letter(c: char) -> char {
    if 'A' <= c && c <= 'Z' {
        (c as u32 + 32) as char
    } else {
        c
    }
}

/// A text with small letters for the capital ones of the basic Latin alphabet.
pub open spec fn small_letters(s: Seq<char>) -> Seq<char> {
    s.map_values(|c: char| small_letter(c))
}

/// `str::to_lowercase`: the text in lower case, as Unicode defines it. Of a
/// text in basic Latin the capital letters become small, and nothing else
/// changes.
#[verifier::external_body]
pub(crate) fn to_lowercase(s: &str) -> (r: String)
    ensures
        r@ == lowercase(s@),
        is_ascii_chars(s@) ==> r@ == small_letters(s@),
{
    s.to_lowercase()
}

/// A text in lower case. In basic Latin that is the small form of each letter.
pub open spec fn in_lower_case(s: Seq<char>) -> Seq<char> {
    if is_ascii_chars(s) {
        small_letters(s)
    } else {
        lowercase(s)
    }
}

/// A text in lower case.
pub fn lower_case(s: &str) -> (r: String)
    ensures
        r@ == in_lower_case(s@),
{
    to_lowercase(s)
}

// ── Splitting ───────────────────────────────────────────────

/// Where `c` first occurs in `s`, or the length of `s` where it does not.
pub open spec fn first_of(s: Seq<char>, c: char) -> int
    decreases s.len(),
{
    if s.len() == 0 || s[0] == c {
        0
    } else {
        1 + first_of(s.skip(1), c)
    }
}

/// The part of `s` in front of the first `c`.
pub open spec fn before(s: Seq<char>, c: char) -> Seq<char> {
    s.take(first_of(s, c))
}

/// The part of `s` behind the first `c`, where there is one.
pub open spec fn after(s: Seq<char>, c: char) -> Option<Seq<char>> {
    if first_of(s, c) < s.len() {
        Some(s.skip(first_of(s, c) + 1))
    } else {
        None
    }
}

pub proof fn lemma_first_of(s: Seq<char>, c: char, i: int)
    requires
        0 <= i <= s.len(),
        forall|j: int| 0 <= j < i ==> #[trigger] s[j] != c,
        i < s.len() ==> s[i] == c,
    ensures
        first_of(s, c) == i,
    decreases i,
{
    if i > 0 {
        assert(s[0] != c);
        assert forall|j: int| 0 <= j < i - 1 implies #[trigger] s.skip(1)[j] != c by {
            assert(s[j + 1] != c);
        }
        lemma_first_of(s.skip(1), c, i - 1);
    }
}

/// A first occurrence is inside the text, or at its end.
pub proof fn lemma_first_of_bound(s: Seq<char>, c: char)
    ensures
        0 <= first_of(s, c) <= s.len(),
    decreases s.len(),
{
    if s.len() > 0 && s[0] != c {
        lemma_first_of_bound(s.skip(1), c);
    }
}

/// The text of an optional string.
pub open spec fn opt_text(o: Option<String>) -> Option<Seq<char>> {
    match o {
        Some(s) => Some(s@),
        None => None,
    }
}

/// Splits at the first `c`: what stands in front of it, and what follows it.
pub fn split_first(s: &str, c: char) -> (r: (String, Option<String>))
    ensures
        r.0@ == before(s@, c),
        opt_text(r.1) == after(s@, c),
{
    let v = chars_of(s);
    let len: usize = v.len();
    let mut i: usize = 0;
    while i < len && v[i] != c
        invariant
            len == v@.len(),
            i <= len,
            forall|j: int| 0 <= j < i ==> #[trigger] v@[j] != c,
        decreases len - i,
    {
        i = i + 1;
    }
    proof {
        lemma_first_of(v@, c, i as int);
        assert(s@.subrange(0, i as int) =~= s@.take(i as int));
    }
    let head = s.substring_char(0, i).to_owned();
    if i < len {
        let tail = s.substring_char(i + 1, len).to_owned();
        assert(tail@ =~= s@.skip(i + 1));
        (head, Some(tail))
    } else {
        (head, None)
    }
}

/// Where `c` last occurs in `s`, or minus one where it does not.
pub open spec fn last_of(s: Seq<char>, c: char) -> int
    decreases s.len(),
{
    if s.len() == 0 {
        -1
    } else if s.last() == c {
        s.len() - 1
    } else {
        last_of(s.drop_last(), c)
    }
}

proof fn lemma_last_of(s: Seq<char>, c: char, i: int)
    requires
        -1 <= i < s.len(),
        forall|j: int| i < j < s.len() ==> #[trigger] s[j] != c,
        i >= 0 ==> s[i] == c,
    ensures
        last_of(s, c) == i,
    decreases s.len(),
{
    if s.len() > 0 && i < s.len() - 1 {
        assert(s[s.len() - 1] != c);
        lemma_last_of(s.drop_last(), c, i);
    }
}

/// Splits at the last `c`, where there is one.
pub fn split_last(s: &str, c: char) -> (r: Option<(String, String)>)
    ensures
        match r {
            Some((a, b)) => last_of(s@, c) >= 0 && a@ == s@.take(last_of(s@, c)) && b@ == s@.skip(
                last_of(s@, c) + 1,
            ),
            None => last_of(s@, c) == -1,
        },
{
    let v = chars_of(s);
    let len: usize = v.len();
    let mut n: usize = len;
    while n > 0 && v[n - 1] != c
        invariant
            len == v@.len(),
            n <= len,
            forall|j: int| n <= j < len ==> #[trigger] v@[j] != c,
        decreases n,
    {
        n = n - 1;
    }
    proof {
        lemma_last_of(v@, c, n - 1);
    }
    if n == 0 {
        return None;
    }
    let a = s.substring_char(0, n - 1).to_owned();
    let b = s.substring_char(n, len).to_owned();
    assert(a@ =~= s@.take(n - 1));
    assert(b@ =~= s@.skip(n as int));
    Some((a, b))
}

// ── Joining ─────────────────────────────────────────────────

/// `a` followed by `b`.
pub fn join2(a: &str, b: &str) -> (r: String)
    ensures
        r@ == a@ + b@,
{
    let mut s = a.to_owned();
    s.append(b);
    s
}

/// `a`, `b` and `c` in a row.
pub fn join3(a: &str, b: &str, c: &str) -> (r: String)
    ensures
        r@ == a@ + b@ + c@,
{
    let mut s = join2(a, b);
    s.append(c);
    s
}

/// `a`, `b`, `c` and `d` in a row.
pub fn join4(a: &str, b: &str, c: &str, d: &str) -> (r: String)
    ensures
        r@ == a@ + b@ + c@ + d@,
{
    let mut s = join3(a, b, c);
    s.append(d);
    s
}

/// `a`, `b`, `c`, `d` and `e` in a row.
pub fn join5(a: &str, b: &str, c: &str, d: &str, e: &str) -> (r: String)
    ensures
        r@ == a@ + b@ + c@ + d@ + e@,
{
    let mut s = join4(a, b, c, d);
    s.append(e);
    s
}

/// `a`, `b`, `c`, `d`, `e` and `f` in a row.
pub fn join6(a: &str, b: &str, c: &str, d: &str, e: &str, f: &str) -> (r: String)
    ensures
        r@ == a@ + b@ + c@ + d@ + e@ + f@,
{
    let mut s = join5(a, b, c, d, e);
    s.append(f);
    s
}

/// The path of a file in a directory, as text.
pub open spec fn path_in(dir: Seq<char>, file: Seq<char>) -> Seq<char> {
    if dir.len() == 0 || dir.last() == '/' {
        dir + file
    } else {
        dir + seq!['/'] + file
    }
}

/// The path of a file in a directory, as text.
pub fn join_path(dir: &str, file: &str) -> (r: String)
    ensures
        r@ == path_in(dir@, file@),
{
    let n: usize = dir.unicode_len();
    if n == 0 || dir.get_char(n - 1) == '/' {
        join2(dir, file)
    } else {
        let mut s = dir.to_owned();
        s.push('/');
        s.append(file);
        assert(s@ =~= dir@ + seq!['/'] + file@);
        s
    }
}

// ── Numbers ─────────────────────────────────────────────────

/// The decimal digit for a value below ten.
pub open spec fn digit(n: nat) -> char {
    ('0' as u32 + n) as char
}

/// A number in decimal, without leading zeros.
pub open spec fn decimal(n: nat) -> Seq<char>
    decreases n,
{
    if n < 10 {
        seq![digit(n)]
    } else {
        decimal(n / 10).push(digit(n % 10))
    }
}

/// The decimal digit for a value below ten.
pub fn digit_char(n: u8) -> (c: char)
    requires
        n < 10,
    ensures
        c == digit(n as nat),
{
    (48 + n) as char
}

/// A number in decimal, without leading zeros.
pub fn decimal_text(n: u64) -> (r: String)
    ensures
        r@ == decimal(n as nat),
    decreases n,
{
    if n < 10 {
        let mut s = String::new();
        s.push(digit_char(n as u8));
        assert(s@ =~= seq![digit(n as nat)]);
        s
    } else {
        let mut s = decimal_text(n / 10);
        s.push(digit_char((n % 10) as u8));
        s
    }
}

/// The value of a decimal digit.
pub open spec fn digit_value(c: char) -> int {
    c as u32 - 48
}

/// Whether `c` is one of the ten decimal digits.
pub open spec fn is_digit(c: char) -> bool {
    48 <= c as u32 <= 57
}

/// The number that a row of digits stands for.
pub open spec fn digits_value(s: Seq<char>) -> int
    decreases s.len(),
{
    if s.len() == 0 {
        0
    } else {
        digits_value(s.drop_last()) * 10 + digit_value(s.last())
    }
}

/// A number as text may carry one plus sign in front.
pub open spec fn without_plus(s: Seq<char>) -> Seq<char> {
    if s.len() > 0 && s[0] == '+' {
        s.skip(1)
    } else {
        s
    }
}

/// A row of at least one digit, and of nothing else.
pub open spec fn all_digits(s: Seq<char>) -> bool {
    s.len() > 0 && forall|i: int| 0 <= i < s.len() ==> is_digit(#[trigger] s[i])
}

/// The 16-bit number that a text stands for.
pub open spec fn parse_port(s: Seq<char>) -> Option<u16> {
    let body = without_plus(s);
    if all_digits(body) && digits_value(body) <= u16::MAX {
        Some(digits_value(body) as u16)
    } else {
        None
    }
}

/// Reads a 16-bit number.
pub fn read_port(s: &str) -> (r: Option<u16>)
    ensures
        r == parse_port(s@),
{
    let v = chars_of(s);
    let len: usize = v.len();
    let start: usize = if len > 0 && v[0] == '+' {
        1
    } else {
        0
    };
    let ghost body = without_plus(s@);
    assert(body =~= v@.skip(start as int));
    if start == len {
        return None;
    }
    let mut value: u32 = 0;
    let mut too_big = false;
    let mut i: usize = start;
    while i < len
        invariant
            start <= i <= len,
            start <= 1,
            len == v@.len(),
            body == v@.skip(start as int),
            body.len() > 0,
            body == without_plus(s@),
            forall|j: int| 0 <= j < i - start ==> is_digit(#[trigger] body[j]),
            !too_big ==> value == digits_value(body.take(i - start)) && value <= 65535,
            too_big ==> digits_value(body.take(i - start)) > 65535,
        decreases len - i,
    {
        let c = v[i];
        let u: u32 = c as u32;
        assert(c == body[i - start]);
        if u < 48 || u > 57 {
            assert(!is_digit(body[i - start]));
            return None;
        }
        assert(body.take(i + 1 - start).drop_last() =~= body.take(i - start));
        assert(body.take(i + 1 - start).last() == c);
        if !too_big {
            value = value * 10 + (u - 48);
            if value > 65535 {
                too_big = true;
            }
        }
        i = i + 1;
    }
    assert(body.take(len - start) =~= body);
    if too_big {
        None
    } else {
        Some(value as u16)
    }
}

// ── Laws ────────────────────────────────────────────────────

proof fn lemma_trim_start_is_a_tail(s: Seq<char>) -> (i: int)
    ensures
        0 <= i <= s.len(),
        trim_start(s) == s.skip(i),
        forall|j: int| 0 <= j < i ==> is_space(#[trigger] s[j]),
        i < s.len() ==> !is_space(s[i]),
    decreases s.len(),
{
    if s.len() > 0 && is_space(s[0]) {
        let k = lemma_trim_start_is_a_tail(s.skip(1));
        assert(s.skip(1).skip(k) =~= s.skip(k + 1));
        assert forall|j: int| 0 <= j < k + 1 implies is_space(#[trigger] s[j]) by {
            if j > 0 {
                assert(is_space(s.skip(1)[j - 1]));
            }
        }
        k + 1
    } else {
        assert(s.skip(0) =~= s);
        0
    }
}

proof fn lemma_trim_end_is_a_head(s: Seq<char>) -> (n: int)
    ensures
        0 <= n <= s.len(),
        trim_end(s) == s.take(n),
        forall|j: int| n <= j < s.len() ==> is_space(#[trigger] s[j]),
        n > 0 ==> !is_space(s[n - 1]),
    decreases s.len(),
{
    if s.len() > 0 && is_space(s.last()) {
        let k = lemma_trim_end_is_a_head(s.drop_last());
        assert(s.drop_last().take(k) =~= s.take(k));
        assert forall|j: int| k <= j < s.len() implies is_space(#[trigger] s[j]) by {
            if j < s.len() - 1 {
                assert(is_space(s.drop_last()[j]));
            }
        }
        k
    } else {
        assert(s.take(s.len() as int) =~= s);
        s.len() as int
    }
}

/// Trimming takes away white space at both ends, all of it, and nothing else.
pub proof fn law_trimming_takes_white_space(s: Seq<char>)
    ensures
        exists|i: int, n: int|
            #![trigger s.subrange(i, n)]
            0 <= i <= n <= s.len() && trimmed(s) == s.subrange(i, n) && (forall|j: int|
                0 <= j < i || n <= j < s.len() ==> is_space(#[trigger] s[j])),
        trimmed(s).len() > 0 ==> !is_space(trimmed(s)[0]) && !is_space(trimmed(s).last()),
{
    let i = lemma_trim_start_is_a_tail(s);
    let t = s.skip(i);
    let k = lemma_trim_end_is_a_head(t);
    assert(t.take(k) =~= s.subrange(i, i + k));
    assert forall|j: int| 0 <= j < i || i + k <= j < s.len() implies is_space(#[trigger] s[j]) by {
        if j >= i + k {
            assert(is_space(t[j - i]));
        }
    }
    if k > 0 {
        assert(!is_space(t[k - 1]));
        if is_space(t[0]) {
            assert(!is_space(s[i]));
        }
    }
}

/// White space are the blank, the tabulators and line breaks, and the blanks of
/// other scripts; letters, digits and the slash are none.
pub proof fn law_letters_are_no_white_space(c: char)
    ensures
        is_space(' ') && is_space('\t') && is_space('\n') && is_space('\r'),
        '!' <= c && c <= '~' ==> !is_space(c),
{
}

/// A text is what stands in front of the first `c`, that `c`, and what follows it;
/// in front there is none.
pub proof fn law_split_parts_make_up_the_text(s: Seq<char>, c: char)
    ensures
        !before(s, c).contains(c),
        after(s, c) matches Some(tail) ==> before(s, c) + seq![c] + tail == s,
        after(s, c) is None ==> before(s, c) == s,
{
    lemma_first_of_bound(s, c);
    lemma_first_of_is_there(s, c);
    if after(s, c) is Some {
        assert(before(s, c) + seq![c] + after(s, c)->Some_0 =~= s);
    } else {
        assert(before(s, c) =~= s);
    }
}

proof fn lemma_first_of_is_there(s: Seq<char>, c: char)
    ensures
        first_of(s, c) < s.len() ==> s[first_of(s, c)] == c,
        forall|j: int| 0 <= j < first_of(s, c) && j < s.len() ==> #[trigger] s[j] != c,
    decreases s.len(),
{
    if s.len() > 0 && s[0] != c {
        let rest = s.skip(1);
        lemma_first_of_bound(rest, c);
        lemma_first_of_is_there(rest, c);
        if first_of(s, c) < s.len() {
            assert(rest[first_of(rest, c)] == s[first_of(s, c)]);
        }
        assert forall|j: int| 0 <= j < first_of(s, c) && j < s.len() implies #[trigger] s[j]
            != c by {
            if j > 0 {
                assert(rest[j - 1] != c);
            }
        }
    }
}

/// The last `c` of a text is a `c`, and behind it there is none.
pub proof fn law_last_is_the_last(s: Seq<char>, c: char)
    ensures
        -1 <= last_of(s, c) < s.len(),
        last_of(s, c) >= 0 ==> s[last_of(s, c)] == c,
        forall|j: int| last_of(s, c) < j < s.len() ==> #[trigger] s[j] != c,
    decreases s.len(),
{
    if s.len() > 0 && s.last() != c {
        law_last_is_the_last(s.drop_last(), c);
        assert forall|j: int| last_of(s, c) < j < s.len() implies #[trigger] s[j] != c by {
            if j < s.len() - 1 {
                assert(s.drop_last()[j] != c);
            }
        }
    }
}

/// In basic Latin lower case keeps the length and every character but the capital
/// letters, which become the small ones; a text in lower case stays as it is.
pub proof fn law_lower_case_keeps_the_word(s: Seq<char>, i: int)
    requires
        is_ascii_chars(s),
        0 <= i < s.len(),
    ensures
        in_lower_case(s).len() == s.len(),
        'A' <= s[i] && s[i] <= 'Z' ==> in_lower_case(s)[i] as int == s[i] as int + 'a' as int
            - 'A' as int,
        !('A' <= s[i] && s[i] <= 'Z') ==> in_lower_case(s)[i] == s[i],
        in_lower_case(in_lower_case(s)) == in_lower_case(s),
{
    let small = in_lower_case(s);
    assert forall|j: int| 0 <= j < small.len() implies (#[trigger] small[j] as u32) < 128 && !('A'
        <= small[j] && small[j] <= 'Z') by {
        assert((s[j] as u32) < 128);
    }
    assert(is_ascii_chars(small));
    assert(small_letters(small) =~= small);
}

/// Beyond basic Latin lower case is what Unicode says.
pub proof fn law_other_scripts_have_their_own_lower_case(s: Seq<char>)
    requires
        !is_ascii_chars(s),
    ensures
        in_lower_case(s) == lowercase(s),
{
}

/// The decimal form of a number is read as that number: it has digits only, no
/// needless zero in front, and as many as it takes.
pub proof fn law_decimal_is_read_back(n: nat)
    ensures
        all_digits(decimal(n)),
        digits_value(decimal(n)) == n,
        n > 0 ==> decimal(n)[0] != '0',
        n <= u16::MAX ==> parse_port(decimal(n)) == Some(n as u16),
    decreases n,
{
    let text = decimal(n);
    if n >= 10 {
        law_decimal_is_read_back(n / 10);
        let head = decimal(n / 10);
        assert(text.drop_last() =~= head);
        assert forall|i: int| 0 <= i < text.len() implies is_digit(#[trigger] text[i]) by {
            if i < head.len() {
                assert(is_digit(head[i]));
            }
        }
        assert(text[0] == head[0]);
    } else {
        assert(text.drop_last() =~= seq![]);
        assert(digits_value(text.drop_last()) == 0);
    }
    assert(is_digit(text[0]));
    assert(without_plus(text) == text);
}

/// The number that a row of digits stands for grows digit by digit.
pub proof fn law_digits_count_in_tens(s: Seq<char>, c: char)
    ensures
        digits_value(s.push(c)) == digits_value(s) * 10 + (c as int - '0' as int),
        digits_value(seq![]) == 0,
        is_digit(c) <==> '0' <= c && c <= '9',
{
    assert(s.push(c).drop_last() =~= s);
}

/// A port is a row of digits of at most 65535, perhaps with a plus in front, and
/// nothing else is.
pub proof fn law_port_is_a_number(s: Seq<char>)
    ensures
        parse_port(s) is Some <==> all_digits(without_plus(s)) && digits_value(without_plus(s))
            <= 65535,
        parse_port(s) matches Some(p) ==> p == digits_value(without_plus(s)),
        s.len() > 0 && s[0] == '+' ==> without_plus(s) == s.skip(1),
        s.len() == 0 || s[0] != '+' ==> without_plus(s) == s,
{
    if all_digits(without_plus(s)) {
        lemma_digits_are_positive(without_plus(s));
    }
}

proof fn lemma_digits_are_positive(s: Seq<char>)
    requires
        forall|i: int| 0 <= i < s.len() ==> is_digit(#[trigger] s[i]),
    ensures
        digits_value(s) >= 0,
    decreases s.len(),
{
    if s.len() > 0 {
        let rest = s.drop_last();
        assert forall|i: int| 0 <= i < rest.len() implies is_digit(#[trigger] rest[i]) by {
            assert(rest[i] == s[i]);
        }
        lemma_digits_are_positive(rest);
        assert(is_digit(s[s.len() - 1]));
    }
}

/// A path begins with its directory and ends with its file, with one slash
/// between them where the directory has none.
pub proof fn law_path_is_directory_and_file(dir: Seq<char>, file: Seq<char>)
    ensures
        path_in(dir, file).take(dir.len() as int) == dir,
        ends_with_text(path_in(dir, file), file),
        dir.len() == 0 ==> path_in(dir, file) == file,
        dir.len() > 0 && dir.last() != '/' ==> path_in(dir, file)[dir.len() as int] == '/'
            && path_in(dir, file).len() == dir.len() + 1 + file.len(),
        dir.len() > 0 && dir.last() == '/' ==> path_in(dir, file).len() == dir.len() + file.len(),
{
    let path = path_in(dir, file);
    assert(path.take(dir.len() as int) =~= dir);
    assert(path.skip(path.len() - file.len()) =~= file);
    if dir.len() == 0 {
        assert(path =~= file);
    }
}

/// A text that is cut at a position in bytes falls into two parts that make it up
/// again: the first has as many bytes as the position says, the second the
/// rest.
pub proof fn law_cut_parts_make_up_the_text(s: Seq<char>, at: int)
    requires
        can_cut(s, at),
    ensures
        front(s, at) + back(s, at) == s,
        byte_len(front(s, at)) == at,
        byte_len(back(s, at)) == byte_len(s) - at,
        at < byte_len(s) ==> back(s, at).len() > 0,
{
    let all = encode_utf8(s);
    encode_utf8_valid_utf8(s);
    valid_utf8_split(all, at);
    decode_utf8_split(all, at);
    encode_utf8_decode_utf8(s);
    decode_utf8_encode_utf8(all.subrange(0, at));
    decode_utf8_encode_utf8(all.subrange(at, all.len() as int));
    if at < byte_len(s) {
        lemma_back_not_empty(s, at);
    }
}

/// A text contains what stands in its middle, and nothing that is longer than
/// itself.
pub proof fn law_text_contains_its_parts(a: Seq<char>, part: Seq<char>, b: Seq<char>)
    ensures
        contains_text(a + part + b, part),
        part.len() > a.len() ==> !contains_text(a, part),
        contains_text(a, part) ==> exists|i: int|
            #![trigger a.take(i)]
            0 <= i <= a.len() - part.len() && a == a.take(i) + part + a.skip(i + part.len()),
        ends_with_text(a + part, part),
{
    let s = a + part + b;
    assert(s.subrange(a.len() as int, (a.len() + part.len()) as int) =~= part);
    if contains_text(a, part) {
        let i = choose|i: int|
            0 <= i && i + part.len() <= a.len() && #[trigger] a.subrange(i, i + part.len()) == part;
        assert(a =~= a.take(i) + part + a.skip(i + part.len()));
    }
    assert((a + part).skip((a + part).len() - part.len()) =~= part);
}

} // verus!
