use vstd::prelude::*;
use vstd::string::StringSliceAdditionalSpecFns;
use vstd::utf8::{decode_utf8, encode_utf8, is_char_boundary};

verus! {

/// Appends one char to a `String` (`String::push`).
#[verifier::external_body]
pub(crate) fn push_char(s: &mut String, c: char)
    ensures
        final(s)@ == old(s)@.push(c),
{
    s.push(c)
}

/// Removes and returns the last char of a `String` (`String::pop`).
#[verifier::external_body]
pub(crate) fn pop_char(s: &mut String) -> (r: Option<char>)
    ensures
        old(s)@.len() == 0 ==> r is None && final(s)@ == old(s)@,
        old(s)@.len() > 0 ==> r == Some(old(s)@.last()) && final(s)@ == old(s)@.drop_last(),
{
    s.pop()
}

/// The length in bytes of the UTF-8 encoding of `s`, as `str::len` reports it.
pub open spec fn str_len(s: Seq<char>) -> usize {
    encode_utf8(s).len() as usize
}

/// Whether two string slices hold the same chars.
pub fn str_eq(a: &str, b: &str) -> (r: bool)
    ensures
        r == (a@ == b@),
{
    let n = a.unicode_len();
    let m = b.unicode_len();
    if n != m {
        return false;
    }
    let mut i: usize = 0;
    while i < n
        invariant
            n == a@.len(),
            m == b@.len(),
            n == m,
            i <= n,
            forall|j: int| 0 <= j < i ==> a@[j] == b@[j],
        decreases n - i,
    {
        if a.get_char(i) != b.get_char(i) {
            return false;
        }
        i = i + 1;
    }
    assert(a@ =~= b@);
    true
}

/// The chars of a string slice, one per element.
pub fn chars_of(s: &str) -> (v: Vec<char>)
    ensures
        v@ == s@,
{
    let n = s.unicode_len();
    let mut v: Vec<char> = Vec::new();
    let mut i: usize = 0;
    while i < n
        invariant
            n == s@.len(),
            i <= n,
            v@ == s@.take(i as int),
        decreases n - i,
    {
        v.push(s.get_char(i));
        i = i + 1;
        assert(v@ =~= s@.take(i as int));
    }
    assert(s@.take(n as int) =~= s@);
    v
}

/// A `String` holding the chars of `v`.
pub fn string_of(v: &Vec<char>) -> (s: String)
    ensures
        s@ == v@,
{
    let mut s = String::new();
    let mut i: usize = 0;
    while i < v.len()
        invariant
            i <= v.len(),
            s@ == v@.take(i as int),
        decreases v.len() - i,
    {
        push_char(&mut s, v[i]);
        i = i + 1;
        assert(s@ =~= v@.take(i as int));
    }
    assert(v@.take(v.len() as int) =~= v@);
    s
}

/// Appends the chars of a string slice to a `String`.
pub fn push_str(s: &mut String, t: &str)
    ensures
        final(s)@ == old(s)@ + t@,
{
    let n = t.unicode_len();
    let mut i: usize = 0;
    while i < n
        invariant
            n == t@.len(),
            i <= n,
            s@ == old(s)@ + t@.take(i as int),
        decreases n - i,
    {
        push_char(s, t.get_char(i));
        i = i + 1;
        assert(s@ =~= old(s)@ + t@.take(i as int));
    }
    assert(t@.take(n as int) =~= t@);
}

// ------------------------------------------------------------------------
// Decimal numbers
// ------------------------------------------------------------------------

pub open spec fn is_digit(c: char) -> bool {
    '0' <= c <= '9'
}

pub open spec fn digit_value(c: char) -> nat {
    (c as nat - '0' as nat) as nat
}

pub open spec fn digit_char(d: nat) -> char
    recommends
        d < 10,
{
    if d == 0 {
        '0'
    } else if d == 1 {
        '1'
    } else if d == 2 {
        '2'
    } else if d == 3 {
        '3'
    } else if d == 4 {
        '4'
    } else if d == 5 {
        '5'
    } else if d == 6 {
        '6'
    } else if d == 7 {
        '7'
    } else if d == 8 {
        '8'
    } else {
        '9'
    }
}

/// The shortest decimal spelling of `n`, as `to_string` writes it.
pub open spec fn decimal(n: nat) -> Seq<char>
    decreases n,
{
    if n < 10 {
        seq![digit_char(n)]
    } else {
        decimal(n / 10).push(digit_char(n % 10))
    }
}

/// `decimal(n)` padded with zeros on the left to at least `width` chars.
pub open spec fn zero_padded(n: nat, width: nat) -> Seq<char> {
    let d = decimal(n);
    if d.len() >= width {
        d
    } else {
        Seq::new((width - d.len()) as nat, |i: int| '0') + d
    }
}

pub open spec fn all_digits(s: Seq<char>) -> bool {
    forall|i: int| 0 <= i < s.len() ==> is_digit(#[trigger] s[i])
}

/// The number that a run of decimal digits denotes.
pub open spec fn digits_value(s: Seq<char>) -> nat
    decreases s.len(),
{
    if s.len() == 0 {
        0
    } else {
        digits_value(s.drop_last()) * 10 + digit_value(s.last())
    }
}

/// What `str::parse` gives for an unsigned integer type whose largest value is `max`:
/// an optional `+`, then one or more decimal digits, and a value of at most `max`.
pub open spec fn parse_unsigned(s: Seq<char>, max: nat) -> Option<nat> {
    let body = if s.len() > 0 && s[0] == '+' {
        s.skip(1)
    } else {
        s
    };
    if body.len() > 0 && all_digits(body) && digits_value(body) <= max {
        Some(digits_value(body))
    } else {
        None
    }
}

proof fn lemma_digits_value_prefix(s: Seq<char>, i: int)
    requires
        0 <= i <= s.len(),
        all_digits(s),
    ensures
        digits_value(s.take(i)) <= digits_value(s),
    decreases s.len(),
{
    if i < s.len() {
        assert(s.drop_last().take(i) =~= s.take(i));
        lemma_digits_value_prefix(s.drop_last(), i);
    } else {
        assert(s.take(i) =~= s);
    }
}

proof fn lemma_digit_char(k: nat)
    requires
        k < 10,
    ensures
        is_digit(digit_char(k)),
        digit_value(digit_char(k)) == k,
{
}

proof fn lemma_decimal_digits(n: nat)
    ensures
        all_digits(decimal(n)),
        decimal(n).len() >= 1,
        digits_value(decimal(n)) == n,
        decimal(n)[0] != '+',
    decreases n,
{
    lemma_digit_char(n % 10);
    if n < 10 {
        assert(decimal(n).drop_last() =~= Seq::<char>::empty());
        assert(n % 10 == n);
        assert(decimal(n).last() == digit_char(n));
        assert(digits_value(decimal(n)) == digits_value(Seq::<char>::empty()) * 10 + digit_value(digit_char(n)));
    } else {
        lemma_decimal_digits(n / 10);
        let d = decimal(n / 10);
        assert(decimal(n).drop_last() =~= d);
        assert(decimal(n).last() == digit_char(n % 10));
        assert(digits_value(decimal(n)) == digits_value(d) * 10 + digit_value(digit_char(n % 10)));
        assert((n / 10) * 10 + n % 10 == n);
    }
}

/// Reading back a decimal spelling gives the number.
pub proof fn lemma_parse_decimal(n: nat, max: nat)
    requires
        n <= max,
    ensures
        parse_unsigned(decimal(n), max) == Some(n),
{
    lemma_decimal_digits(n);
}

/// Parses an unsigned number from the chars `s[lo..hi]`, as `str::parse` does for an
/// unsigned type whose largest value is `max`.
pub fn parse_unsigned_range(s: &Vec<char>, lo: usize, hi: usize, max: u64) -> (r: Option<u64>)
    requires
        lo <= hi <= s@.len(),
        max <= u32::MAX,
    ensures
        r matches Some(v) ==> parse_unsigned(s@.subrange(lo as int, hi as int), max as nat) == Some(v as nat),
        r is None ==> parse_unsigned(s@.subrange(lo as int, hi as int), max as nat) is None,
{
    let ghost whole = s@.subrange(lo as int, hi as int);
    let mut i = lo;
    if i < hi && s[i] == '+' {
        i = i + 1;
    }
    let ghost body = s@.subrange(i as int, hi as int);
    assert(body =~= (if whole.len() > 0 && whole[0] == '+' { whole.skip(1) } else { whole }));
    if i == hi {
        return None;
    }
    let start = i;
    let mut acc: u64 = 0;
    while i < hi
        invariant
            start <= i <= hi <= s@.len(),
            lo <= start,
            max <= u32::MAX,
            body == s@.subrange(start as int, hi as int),
            whole == s@.subrange(lo as int, hi as int),
            body == (if whole.len() > 0 && whole[0] == '+' { whole.skip(1) } else { whole }),
            all_digits(s@.subrange(start as int, i as int)),
            acc == digits_value(s@.subrange(start as int, i as int)),
            acc <= max,
        decreases hi - i,
    {
        let c = s[i];
        if !('0' <= c && c <= '9') {
            assert(body[i - start] == c);
            assert(!is_digit(body[i - start]));
            return None;
        }
        let d: u64 = (c as u64) - ('0' as u64);
        let next = acc * 10 + d;
        proof {
            let p = s@.subrange(start as int, i + 1);
            assert(p.drop_last() =~= s@.subrange(start as int, i as int));
        }
        if next > max {
            proof {
                let p = s@.subrange(start as int, i + 1);
                if all_digits(body) {
                    assert(body.take(i + 1 - start) =~= p);
                    lemma_digits_value_prefix(body, i + 1 - start);
                }
            }
            return None;
        }
        acc = next;
        i = i + 1;
    }
    Some(acc)
}

pub fn digit_to_char(d: u64) -> (c: char)
    requires
        d < 10,
    ensures
        c == digit_char(d as nat),
{
    if d == 0 { '0' } else if d == 1 { '1' } else if d == 2 { '2' } else if d == 3 { '3' }
    else if d == 4 { '4' } else if d == 5 { '5' } else if d == 6 { '6' } else if d == 7 { '7' }
    else if d == 8 { '8' } else { '9' }
}

/// Appends the decimal spelling of `n`.
pub fn push_decimal(s: &mut String, n: u64)
    ensures
        final(s)@ == old(s)@ + decimal(n as nat),
    decreases n,
{
    if n >= 10 {
        push_decimal(s, n / 10);
    }
    let c = digit_to_char(n % 10);
    push_char(s, c);
    assert(final(s)@ =~= old(s)@ + decimal(n as nat)) by {
        if n >= 10 {
        } else {
            assert(n % 10 == n);
        }
    }
}

pub open spec fn ten_pow(k: nat) -> nat
    decreases k,
{
    if k == 0 {
        1
    } else {
        10 * ten_pow((k - 1) as nat)
    }
}

/// The number of chars in the decimal spelling of `n`.
pub fn decimal_width(n: u64) -> (w: usize)
    ensures
        w == decimal(n as nat).len(),
        1 <= w <= 20,
        n as nat >= ten_pow((w - 1) as nat) || w == 1,
    decreases n,
{
    if n >= 10 {
        let w = decimal_width(n / 10);
        assert(ten_pow(19) == 10000000000000000000nat) by {
            reveal_with_fuel(ten_pow, 20);
        }
        assert(w < 20);
        assert(ten_pow(w as nat) == 10 * ten_pow((w - 1) as nat));
        w + 1
    } else {
        1
    }
}

/// Appends the decimal spelling of `n`, zero padded to at least `width` chars.
pub fn push_padded(s: &mut String, n: u64, width: usize)
    ensures
        final(s)@ == old(s)@ + zero_padded(n as nat, width as nat),
{
    let len = decimal_width(n);
    let mut pad = len;
    while pad < width
        invariant
            len <= pad,
            pad <= width || pad == len,
            s@ == old(s)@ + Seq::new((pad - len) as nat, |i: int| '0'),
        decreases width - pad,
    {
        push_char(s, '0');
        pad = pad + 1;
        assert(s@ =~= old(s)@ + Seq::new((pad - len) as nat, |i: int| '0'));
    }
    let ghost padded = s@;
    push_decimal(s, n);
    assert(s@ =~= old(s)@ + zero_padded(n as nat, width as nat)) by {
        if len >= width {
            assert(padded =~= old(s)@);
        } else {
            assert(padded =~= old(s)@ + Seq::new((width - len) as nat, |i: int| '0'));
        }
    }
}

// ------------------------------------------------------------------------
// Searching and comparing char sequences
// ------------------------------------------------------------------------

/// The index of the first `c` in `s`, or -1 when `s` holds none.
pub open spec fn find_char(s: Seq<char>, c: char) -> int
    decreases s.len(),
{
    if s.len() == 0 {
        -1
    } else if s[0] == c {
        0
    } else {
        let r = find_char(s.skip(1), c);
        if r < 0 {
            -1
        } else {
            r + 1
        }
    }
}

/// `find_char` is the first position holding `c`.
pub proof fn lemma_find_char(s: Seq<char>, c: char, i: int)
    requires
        0 <= i <= s.len(),
        forall|j: int| 0 <= j < i ==> s[j] != c,
        i == s.len() || s[i] == c,
    ensures
        find_char(s, c) == (if i == s.len() { -1 } else { i }),
    decreases s.len(),
{
    if s.len() > 0 && i > 0 {
        lemma_find_char(s.skip(1), c, i - 1);
    }
}

/// The first index holding `c` in `v`.
pub fn find_char_in(v: &Vec<char>, c: char) -> (r: Option<usize>)
    ensures
        r matches Some(i) ==> find_char(v@, c) == i && i < v@.len() && v@[i as int] == c,
        r is None ==> find_char(v@, c) == -1,
{
    let mut i: usize = 0;
    while i < v.len()
        invariant
            i <= v@.len(),
            forall|j: int| 0 <= j < i ==> v@[j] != c,
        decreases v.len() - i,
    {
        if v[i] == c {
            proof { lemma_find_char(v@, c, i as int); }
            return Some(i);
        }
        i = i + 1;
    }
    proof { lemma_find_char(v@, c, i as int); }
    None
}

/// Whether `v[lo..hi]` holds exactly the chars of `lit`.
pub fn range_is(v: &Vec<char>, lo: usize, hi: usize, lit: &str) -> (r: bool)
    requires
        lo <= hi <= v@.len(),
    ensures
        r == (v@.subrange(lo as int, hi as int) == lit@),
{
    let n = lit.unicode_len();
    if hi - lo != n {
        return false;
    }
    let mut i: usize = 0;
    while i < n
        invariant
            n == lit@.len(),
            hi - lo == n,
            lo <= hi <= v@.len(),
            i <= n,
            forall|j: int| 0 <= j < i ==> v@[lo + j] == lit@[j],
        decreases n - i,
    {
        if v[lo + i] != lit.get_char(i) {
            assert(v@.subrange(lo as int, hi as int)[i as int] != lit@[i as int]);
            return false;
        }
        i = i + 1;
    }
    assert(v@.subrange(lo as int, hi as int) =~= lit@);
    true
}

/// Whether `v` begins with the chars of `lit`.
pub fn starts_with_lit(v: &Vec<char>, lit: &str) -> (r: bool)
    ensures
        r == (v@.len() >= lit@.len() && v@.take(lit@.len() as int) == lit@),
{
    let n = lit.unicode_len();
    if n > v.len() {
        return false;
    }
    range_is(v, 0, n, lit)
}

/// ASCII letters in lower case, every other char unchanged.
pub open spec fn ascii_lower_char(c: char) -> char {
    if 'A' <= c <= 'Z' {
        ((c as u32) + 32) as char
    } else {
        c
    }
}

pub open spec fn ascii_lower(s: Seq<char>) -> Seq<char> {
    s.map_values(|c: char| ascii_lower_char(c))
}

pub fn lower_ascii_char(c: char) -> (r: char)
    ensures
        r == ascii_lower_char(c),
{
    if 'A' <= c && c <= 'Z' {
        let u: u32 = (c as u32) + 32;
        let r: char = if u == 97 { 'a' } else if u == 98 { 'b' } else if u == 99 { 'c' } else if u == 100 { 'd' }
            else if u == 101 { 'e' } else if u == 102 { 'f' } else if u == 103 { 'g' } else if u == 104 { 'h' }
            else if u == 105 { 'i' } else if u == 106 { 'j' } else if u == 107 { 'k' } else if u == 108 { 'l' }
            else if u == 109 { 'm' } else if u == 110 { 'n' } else if u == 111 { 'o' } else if u == 112 { 'p' }
            else if u == 113 { 'q' } else if u == 114 { 'r' } else if u == 115 { 's' } else if u == 116 { 't' }
            else if u == 117 { 'u' } else if u == 118 { 'v' } else if u == 119 { 'w' } else if u == 120 { 'x' }
            else if u == 121 { 'y' } else { 'z' };
        r
    } else {
        c
    }
}

/// The chars of `s` with ASCII letters lowered.
pub fn lower_ascii(v: &Vec<char>) -> (r: Vec<char>)
    ensures
        r@ == ascii_lower(v@),
{
    let mut r: Vec<char> = Vec::new();
    let mut i: usize = 0;
    while i < v.len()
        invariant
            i <= v@.len(),
            r@ == ascii_lower(v@.take(i as int)),
        decreases v.len() - i,
    {
        r.push(lower_ascii_char(v[i]));
        i = i + 1;
        assert(r@ =~= ascii_lower(v@.take(i as int)));
    }
    assert(v@.take(v@.len() as int) =~= v@);
    r
}

// ------------------------------------------------------------------------
// Hexadecimal
// ------------------------------------------------------------------------

/// The upper-case hexadecimal digit for `d < 16`.
pub open spec fn hex_digit_char(d: nat) -> char {
    if d < 10 {
        digit_char(d)
    } else if d == 10 {
        'A'
    } else if d == 11 {
        'B'
    } else if d == 12 {
        'C'
    } else if d == 13 {
        'D'
    } else if d == 14 {
        'E'
    } else {
        'F'
    }
}

/// Two upper-case hexadecimal digits for a byte, as `{:02X}` writes it.
pub open spec fn hex_byte(b: u8) -> Seq<char> {
    seq![hex_digit_char((b / 16) as nat), hex_digit_char((b % 16) as nat)]
}

pub open spec fn is_hex_digit(c: char) -> bool {
    ('0' <= c <= '9') || ('a' <= c <= 'f') || ('A' <= c <= 'F')
}

pub open spec fn hex_value(c: char) -> nat {
    if '0' <= c <= '9' {
        (c as nat - '0' as nat) as nat
    } else if 'a' <= c <= 'f' {
        (c as nat - 'a' as nat + 10) as nat
    } else {
        (c as nat - 'A' as nat + 10) as nat
    }
}

/// What `u8::from_str_radix(.., 16)` gives for the two chars `a`, `b`: an optional
/// `+` then hexadecimal digits.
pub open spec fn parse_hex_pair(a: char, b: char) -> Option<u8> {
    if a == '+' {
        if is_hex_digit(b) {
            Some(hex_value(b) as u8)
        } else {
            None
        }
    } else if is_hex_digit(a) && is_hex_digit(b) {
        Some((hex_value(a) * 16 + hex_value(b)) as u8)
    } else {
        None
    }
}

pub fn hex_value_of(c: char) -> (r: Option<u8>)
    ensures
        is_hex_digit(c) ==> r == Some(hex_value(c) as u8) && hex_value(c) < 16,
        !is_hex_digit(c) ==> r is None,
{
    if '0' <= c && c <= '9' {
        Some(((c as u32) - ('0' as u32)) as u8)
    } else if 'a' <= c && c <= 'f' {
        Some(((c as u32) - ('a' as u32) + 10) as u8)
    } else if 'A' <= c && c <= 'F' {
        Some(((c as u32) - ('A' as u32) + 10) as u8)
    } else {
        None
    }
}

pub fn parse_hex_pair_exec(a: char, b: char) -> (r: Option<u8>)
    ensures
        r == parse_hex_pair(a, b),
{
    if a == '+' {
        hex_value_of(b)
    } else {
        match (hex_value_of(a), hex_value_of(b)) {
            (Some(x), Some(y)) => Some(x * 16 + y),
            _ => None,
        }
    }
}

pub fn hex_digit_to_char(d: u8) -> (c: char)
    requires
        d < 16,
    ensures
        c == hex_digit_char(d as nat),
{
    if d < 10 {
        digit_to_char(d as u64)
    } else if d == 10 {
        'A'
    } else if d == 11 {
        'B'
    } else if d == 12 {
        'C'
    } else if d == 13 {
        'D'
    } else if d == 14 {
        'E'
    } else {
        'F'
    }
}

/// Appends the two upper-case hexadecimal digits of a byte.
pub fn push_hex_byte(s: &mut String, b: u8)
    ensures
        final(s)@ == old(s)@ + hex_byte(b),
{
    push_char(s, hex_digit_to_char(b / 16));
    push_char(s, hex_digit_to_char(b % 16));
    assert(s@ =~= old(s)@ + hex_byte(b));
}

/// Reading back the two digits that `hex_byte` writes gives the byte.
pub proof fn lemma_hex_byte_roundtrip(b: u8)
    ensures
        parse_hex_pair(hex_byte(b)[0], hex_byte(b)[1]) == Some(b),
{
    let hi = (b / 16) as nat;
    let lo = (b % 16) as nat;
    assert(is_hex_digit(hex_digit_char(hi)) && hex_value(hex_digit_char(hi)) == hi);
    assert(is_hex_digit(hex_digit_char(lo)) && hex_value(hex_digit_char(lo)) == lo);
}

/// The first `n` chars of `v`.
pub fn take_chars(v: &Vec<char>, n: usize) -> (r: Vec<char>)
    requires
        n <= v@.len(),
    ensures
        r@ == v@.take(n as int),
{
    let mut r: Vec<char> = Vec::new();
    let mut i: usize = 0;
    while i < n
        invariant
            i <= n <= v@.len(),
            r@ == v@.take(i as int),
        decreases n - i,
    {
        r.push(v[i]);
        i = i + 1;
        assert(r@ =~= v@.take(i as int));
    }
    r
}

// ------------------------------------------------------------------------
// Byte ranges and letter case
// ------------------------------------------------------------------------

/// Whether `str::get(lo..hi)` finds a slice: the range lies within the bytes and both
/// ends fall on char boundaries.
pub open spec fn byte_range_ok(bytes: Seq<u8>, lo: int, hi: int) -> bool {
    &&& lo <= hi <= bytes.len()
    &&& is_char_boundary(bytes, lo)
    &&& is_char_boundary(bytes, hi)
}

/// The chars of the bytes `lo..hi` of `s`, or nothing where `str::get` finds no slice.
pub open spec fn byte_range_chars(s: Seq<char>, lo: int, hi: int) -> Seq<char> {
    if byte_range_ok(encode_utf8(s), lo, hi) {
        decode_utf8(encode_utf8(s).subrange(lo, hi))
    } else {
        Seq::empty()
    }
}

/// `str::get(lo..hi)`: the slice of bytes `lo..hi`, or `None` where the range leaves the
/// string or splits a char.
#[verifier::external_body]
pub(crate) fn str_get<'a>(s: &'a str, lo: usize, hi: usize) -> (r: Option<&'a str>)
    ensures
        r is Some <==> byte_range_ok(s.spec_bytes(), lo as int, hi as int),
        r matches Some(t) ==> t.spec_bytes() == s.spec_bytes().subrange(lo as int, hi as int),
{
    s.get(lo..hi)
}

/// The chars of the bytes `lo..hi` of `s`, or an empty string where `str::get` finds no
/// slice.
pub fn byte_range_string(s: &str, lo: usize, hi: usize) -> (r: String)
    ensures
        r@ == byte_range_chars(s@, lo as int, hi as int),
{
    match str_get(s, lo, hi) {
        Some(t) => {
            proof {
                vstd::utf8::encode_utf8_decode_utf8(t@);
            }
            String::from_str(t)
        },
        None => String::new(),
    }
}

/// What `char::is_uppercase` gives.
pub uninterp spec fn char_is_uppercase(c: char) -> bool;

/// The first char of what `char::to_lowercase` yields.
pub uninterp spec fn char_lowercase_first(c: char) -> char;

/// The first char of what `char::to_uppercase` yields.
pub uninterp spec fn char_uppercase_first(c: char) -> char;

/// `char::is_uppercase`.
#[verifier::external_body]
pub(crate) fn is_uppercase(c: char) -> (r: bool)
    ensures
        r == char_is_uppercase(c),
{
    c.is_uppercase()
}

/// The first char of `char::to_lowercase`, which always yields at least one char.
#[verifier::external_body]
pub(crate) fn lowercase_first(c: char) -> (r: Option<char>)
    ensures
        r == Some(char_lowercase_first(c)),
{
    c.to_lowercase().next()
}

/// The first char of `char::to_uppercase`, which always yields at least one char.
#[verifier::external_body]
pub(crate) fn uppercase_first(c: char) -> (r: Option<char>)
    ensures
        r == Some(char_uppercase_first(c)),
{
    c.to_uppercase().next()
}

// ------------------------------------------------------------------------
// Replacing
// ------------------------------------------------------------------------

/// `s` with every occurrence of `pat` replaced by `rep`, scanning from the left and
/// skipping past each replaced occurrence, as `str::replace` does.
pub open spec fn replace_all(s: Seq<char>, pat: Seq<char>, rep: Seq<char>) -> Seq<char>
    recommends
        pat.len() > 0,
    decreases s.len(),
{
    if s.len() < pat.len() || pat.len() == 0 {
        s
    } else if s.take(pat.len() as int) == pat {
        rep + replace_all(s.skip(pat.len() as int), pat, rep)
    } else {
        seq![s[0]] + replace_all(s.skip(1), pat, rep)
    }
}

/// Whether `pat` occurs in `v` at `i`.
fn occurs_at(v: &Vec<char>, i: usize, pat: &Vec<char>) -> (r: bool)
    requires
        i <= v@.len(),
    ensures
        r == (v@.len() - i >= pat@.len() && v@.skip(i as int).take(pat@.len() as int) == pat@),
{
    if v.len() - i < pat.len() {
        return false;
    }
    let mut k: usize = 0;
    while k < pat.len()
        invariant
            i + pat@.len() <= v@.len(),
            v@.len() == v.len(),
            v.len() <= usize::MAX,
            k <= pat@.len(),
            forall|q: int| 0 <= q < k ==> v@[i + q] == pat@[q],
        decreases pat.len() - k,
    {
        if v[i + k] != pat[k] {
            assert(v@.skip(i as int).take(pat@.len() as int)[k as int] != pat@[k as int]);
            return false;
        }
        k = k + 1;
    }
    assert(v@.skip(i as int).take(pat@.len() as int) =~= pat@);
    true
}

/// `str::replace` for a non-empty pattern.
pub fn replace_str(s: &str, pat: &str, rep: &str) -> (r: String)
    requires
        pat@.len() > 0,
    ensures
        r@ == replace_all(s@, pat@, rep@),
{
    let v = chars_of(s);
    let p = chars_of(pat);
    let mut out = String::new();
    let mut i: usize = 0;
    assert(v@.skip(0) =~= v@);
    assert(out@ + replace_all(v@, p@, rep@) =~= replace_all(v@, p@, rep@));
    while i < v.len()
        invariant
            i <= v@.len(),
            p@ == pat@,
            p@.len() > 0,
            v@ == s@,
            out@ + replace_all(v@.skip(i as int), p@, rep@) == replace_all(s@, pat@, rep@),
        decreases v.len() - i,
    {
        let ghost rest = v@.skip(i as int);
        let ghost before = out@;
        if occurs_at(&v, i, &p) {
            assert(rest.skip(p@.len() as int) =~= v@.skip(i + p@.len()));
            assert(replace_all(rest, p@, rep@) == rep@ + replace_all(rest.skip(p@.len() as int), p@, rep@));
            push_str(&mut out, rep);
            assert(before + (rep@ + replace_all(v@.skip(i + p@.len()), p@, rep@)) =~= out@ + replace_all(v@.skip(i + p@.len()), p@, rep@));
            i = i + p.len();
        } else {
            assert(rest.skip(1) =~= v@.skip(i + 1));
            assert(rest.len() >= p@.len() ==> rest.take(p@.len() as int) != p@);
            assert(replace_all(rest, p@, rep@) == seq![rest[0]] + replace_all(rest.skip(1), p@, rep@));
            push_char(&mut out, v[i]);
            assert(before + (seq![rest[0]] + replace_all(v@.skip(i + 1), p@, rep@)) =~= out@ + replace_all(v@.skip(i + 1), p@, rep@));
            i = i + 1;
        }
    }
    assert(v@.skip(i as int) =~= Seq::<char>::empty());
    out
}

} // verus!
