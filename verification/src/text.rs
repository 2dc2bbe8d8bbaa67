//! Small text routines the rest of the crate is built from: decimal and
//! hexadecimal rendering of integers, whitespace tests, prefix stripping and
//! trailing-character trimming. Each one is stated over `Seq<char>`.
use vstd::prelude::*;

verus! {

/// The ASCII digit for a value in 0..=9.
pub open spec fn decimal_digit(d: int) -> char {
    if d == 0 { '0' }
    else if d == 1 { '1' }
    else if d == 2 { '2' }
    else if d == 3 { '3' }
    else if d == 4 { '4' }
    else if d == 5 { '5' }
    else if d == 6 { '6' }
    else if d == 7 { '7' }
    else if d == 8 { '8' }
    else { '9' }
}

/// The lowercase hexadecimal digit for a value in 0..=15.
pub open spec fn hex_digit(d: int) -> char {
    if d < 10 { decimal_digit(d) }
    else if d == 10 { 'a' }
    else if d == 11 { 'b' }
    else if d == 12 { 'c' }
    else if d == 13 { 'd' }
    else if d == 14 { 'e' }
    else { 'f' }
}

/// The shortest decimal rendering of a natural number (no leading zeros).
pub open spec fn decimal_nat(n: nat) -> Seq<char>
    decreases n,
{
    if n < 10 {
        seq![decimal_digit(n as int)]
    } else {
        decimal_nat(n / 10).push(decimal_digit((n % 10) as int))
    }
}

/// The decimal rendering of an integer, with a leading `-` when negative.
pub open spec fn decimal_int(n: int) -> Seq<char> {
    if n < 0 {
        seq!['-'] + decimal_nat((-n) as nat)
    } else {
        decimal_nat(n as nat)
    }
}

/// The last `width` hexadecimal digits of `n`, zero-padded on the left.
pub open spec fn hex_fixed(n: nat, width: nat) -> Seq<char>
    decreases width,
{
    if width == 0 {
        Seq::empty()
    } else {
        hex_fixed(n / 16, (width - 1) as nat).push(hex_digit((n % 16) as int))
    }
}

/// A character in `0-9a-f`.
pub open spec fn is_lower_hex_char(c: char) -> bool {
    ('0' <= c && c <= '9') || ('a' <= c && c <= 'f')
}

/// The Unicode `White_Space` property, which is what `char::is_whitespace`
/// and `str::trim` go by.
pub open spec fn is_white_space(c: char) -> bool {
    ||| ('\u{9}' <= c && c <= '\u{d}')
    ||| c == ' '
    ||| c == '\u{85}'
    ||| c == '\u{a0}'
    ||| c == '\u{1680}'
    ||| ('\u{2000}' <= c && c <= '\u{200a}')
    ||| c == '\u{2028}'
    ||| c == '\u{2029}'
    ||| c == '\u{202f}'
    ||| c == '\u{205f}'
    ||| c == '\u{3000}'
}

/// Every character of `s` is white space; this is exactly when trimming `s`
/// leaves nothing.
pub open spec fn all_white_space(s: Seq<char>) -> bool {
    forall|i: int| 0 <= i < s.len() ==> is_white_space(#[trigger] s[i])
}

/// `s` with every trailing occurrence of `c` removed.
pub open spec fn trim_end_char(s: Seq<char>, c: char) -> Seq<char>
    decreases s.len(),
{
    if s.len() > 0 && s.last() == c {
        trim_end_char(s.drop_last(), c)
    } else {
        s
    }
}

/// `prefix` is the beginning of `s`.
pub open spec fn has_prefix(s: Seq<char>, prefix: Seq<char>) -> bool {
    prefix.len() <= s.len() && s.subrange(0, prefix.len() as int) == prefix
}

fn digit_text(d: u64) -> (r: &'static str)
    requires
        d < 16,
    ensures
        r@ == seq![hex_digit(d as int)],
{
    proof {
        reveal_strlit("0");
        reveal_strlit("1");
        reveal_strlit("2");
        reveal_strlit("3");
        reveal_strlit("4");
        reveal_strlit("5");
        reveal_strlit("6");
        reveal_strlit("7");
        reveal_strlit("8");
        reveal_strlit("9");
        reveal_strlit("a");
        reveal_strlit("b");
        reveal_strlit("c");
        reveal_strlit("d");
        reveal_strlit("e");
        reveal_strlit("f");
    }
    if d == 0 { "0" }
    else if d == 1 { "1" }
    else if d == 2 { "2" }
    else if d == 3 { "3" }
    else if d == 4 { "4" }
    else if d == 5 { "5" }
    else if d == 6 { "6" }
    else if d == 7 { "7" }
    else if d == 8 { "8" }
    else if d == 9 { "9" }
    else if d == 10 { "a" }
    else if d == 11 { "b" }
    else if d == 12 { "c" }
    else if d == 13 { "d" }
    else if d == 14 { "e" }
    else { "f" }
}

/// Appends the decimal rendering of `n` to `out`.
pub fn push_decimal_u64(out: &mut String, n: u64)
    ensures
        final(out)@ == old(out)@ + decimal_nat(n as nat),
    decreases n,
{
    if n >= 10 {
        push_decimal_u64(out, n / 10);
    }
    out.append(digit_text(n % 10));
    proof {
        assert(old(out)@ + decimal_nat(n as nat) =~= if n >= 10 {
            old(out)@ + decimal_nat((n / 10) as nat) + seq![decimal_digit((n % 10) as int)]
        } else {
            old(out)@ + seq![decimal_digit((n % 10) as int)]
        });
    }
}

/// Appends the decimal rendering of `n` (with `-` when negative) to `out`.
pub fn push_decimal_i64(out: &mut String, n: i64)
    ensures
        final(out)@ == old(out)@ + decimal_int(n as int),
{
    if n < 0 {
        proof { reveal_strlit("-"); }
        out.append("-");
        let magnitude: u64 = ((-(n + 1)) as u64) + 1;
        push_decimal_u64(out, magnitude);
        assert(old(out)@ + decimal_int(n as int) =~= old(out)@ + seq!['-'] + decimal_nat(
            magnitude as nat,
        ));
    } else {
        push_decimal_u64(out, n as u64);
    }
}

/// The decimal rendering of `n`, as `i64`'s `Display` writes it.
pub fn decimal_i64(n: i64) -> (r: String)
    ensures
        r@ == decimal_int(n as int),
{
    let mut out = String::new();
    push_decimal_i64(&mut out, n);
    assert(out@ =~= decimal_int(n as int));
    out
}

/// Appends the last `width` lowercase hexadecimal digits of `n`, zero-padded.
pub fn push_hex_fixed(out: &mut String, n: u64, width: u32)
    ensures
        final(out)@ == old(out)@ + hex_fixed(n as nat, width as nat),
    decreases width,
{
    if width > 0 {
        push_hex_fixed(out, n / 16, width - 1);
        out.append(digit_text(n % 16));
        proof {
            assert(old(out)@ + hex_fixed(n as nat, width as nat) =~= old(out)@ + hex_fixed(
                (n / 16) as nat,
                (width - 1) as nat,
            ) + seq![hex_digit((n % 16) as int)]);
        }
    } else {
        assert(old(out)@ + hex_fixed(n as nat, width as nat) =~= old(out)@);
    }
}

fn is_white_space_char(c: char) -> (r: bool)
    ensures
        r == is_white_space(c),
{
    ('\u{9}' <= c && c <= '\u{d}') || c == ' ' || c == '\u{85}' || c == '\u{a0}' || c
        == '\u{1680}' || ('\u{2000}' <= c && c <= '\u{200a}') || c == '\u{2028}' || c
        == '\u{2029}' || c == '\u{202f}' || c == '\u{205f}' || c == '\u{3000}'
}

/// Whether `s` holds nothing but white space, i.e. `s.trim().is_empty()`.
pub fn is_blank(s: &str) -> (r: bool)
    ensures
        r == all_white_space(s@),
{
    let n = s.unicode_len();
    let mut i: usize = 0;
    while i < n
        invariant
            n == s@.len(),
            i <= n,
            forall|j: int| 0 <= j < i ==> is_white_space(#[trigger] s@[j]),
        decreases n - i,
    {
        if !is_white_space_char(s.get_char(i)) {
            return false;
        }
        i = i + 1;
    }
    true
}

/// `s` without its leading `prefix`, or `None` when `s` does not start with it.
pub fn strip_prefix<'a>(s: &'a str, prefix: &str) -> (r: Option<&'a str>)
    ensures
        r is Some <==> has_prefix(s@, prefix@),
        r matches Some(rest) ==> rest@ == s@.skip(prefix@.len() as int),
{
    let n = s.unicode_len();
    let m = prefix.unicode_len();
    if m > n {
        return None;
    }
    let mut i: usize = 0;
    while i < m
        invariant
            n == s@.len(),
            m == prefix@.len(),
            m <= n,
            i <= m,
            forall|j: int| 0 <= j < i ==> s@[j] == prefix@[j],
        decreases m - i,
    {
        if s.get_char(i) != prefix.get_char(i) {
            assert(s@.subrange(0, m as int)[i as int] != prefix@[i as int]);
            return None;
        }
        i = i + 1;
    }
    assert(s@.subrange(0, m as int) =~= prefix@);
    let rest = s.substring_char(m, n);
    assert(rest@ =~= s@.skip(m as int));
    Some(rest)
}

proof fn lemma_trim_end_prefix(s: Seq<char>, c: char, k: int)
    requires
        0 <= k <= s.len(),
        forall|j: int| k <= j < s.len() ==> s[j] == c,
    ensures
        trim_end_char(s, c) == trim_end_char(s.subrange(0, k), c),
    decreases s.len() - k,
{
    if k < s.len() {
        assert(s.drop_last() =~= s.subrange(0, s.len() - 1));
        assert(s.drop_last().subrange(0, k) =~= s.subrange(0, k));
        lemma_trim_end_prefix(s.drop_last(), c, k);
    } else {
        assert(s.subrange(0, k) =~= s);
    }
}

/// `s` with every trailing `c` removed, as `str::trim_end_matches(c)` does.
pub fn trim_end_matching<'a>(s: &'a str, c: char) -> (r: &'a str)
    ensures
        r@ == trim_end_char(s@, c),
{
    let mut k = s.unicode_len();
    while k > 0 && s.get_char(k - 1) == c
        invariant
            k <= s@.len(),
            forall|j: int| k <= j < s@.len() ==> s@[j] == c,
        decreases k,
    {
        k = k - 1;
    }
    proof {
        lemma_trim_end_prefix(s@, c, k as int);
        let t = s@.subrange(0, k as int);
        if t.len() > 0 {
            assert(t.last() != c);
        }
    }
    s.substring_char(0, k)
}


/// Whether `a` and `b` hold the same characters.
pub fn same_text(a: &str, b: &str) -> (r: bool)
    ensures
        r == (a@ == b@),
{
    let n = a.unicode_len();
    if n != b.unicode_len() {
        return false;
    }
    let mut i: usize = 0;
    while i < n
        invariant
            n == a@.len(),
            n == b@.len(),
            i <= n,
            forall|j: int| 0 <= j < i ==> a@[j] == b@[j],
        decreases n - i,
    {
        if a.get_char(i) != b.get_char(i) {
            return false;
        }
        i = i + 1;
    }
    assert(a@ =~= b@);
    true
}

/// Two numbers with the same `width` trailing hexadecimal digits agree modulo
/// `16^width`; for `width == 16` and `u64` values this means they are equal.
pub proof fn lemma_hex_fixed_injective(a: nat, b: nat, width: nat)
    requires
        hex_fixed(a, width) == hex_fixed(b, width),
    ensures
        a % pow16(width) == b % pow16(width),
    decreases width,
{
    if width > 0 {
        let w1 = (width - 1) as nat;
        let pa = hex_fixed(a / 16, w1);
        let pb = hex_fixed(b / 16, w1);
        lemma_hex_fixed_len(a / 16, w1);
        lemma_hex_fixed_len(b / 16, w1);
        assert(hex_fixed(a, width) == pa.push(hex_digit((a % 16) as int)));
        assert(hex_fixed(b, width) == pb.push(hex_digit((b % 16) as int)));
        assert(hex_fixed(a, width)[w1 as int] == hex_digit((a % 16) as int));
        assert(hex_fixed(b, width)[w1 as int] == hex_digit((b % 16) as int));
        assert(pa =~= hex_fixed(a, width).drop_last());
        assert(pb =~= hex_fixed(b, width).drop_last());
        lemma_hex_fixed_injective(a / 16, b / 16, w1);
        lemma_mod_split(a, w1);
        lemma_mod_split(b, w1);
    }
}

/// `16^n`.
pub open spec fn pow16(n: nat) -> nat
    decreases n,
{
    if n == 0 { 1 } else { 16 * pow16((n - 1) as nat) }
}

proof fn lemma_pow16_positive(n: nat)
    ensures
        pow16(n) >= 1,
    decreases n,
{
    if n > 0 {
        lemma_pow16_positive((n - 1) as nat);
    }
}

/// `a % 16^(w+1) == 16 * ((a / 16) % 16^w) + a % 16`.
proof fn lemma_mod_split(a: nat, w: nat)
    ensures
        a % pow16(w + 1) == 16 * ((a / 16) % pow16(w)) + a % 16,
{
    lemma_pow16_positive(w);
    let p = pow16(w);
    assert(pow16(w + 1) == 16 * p);
    let q = a / 16;
    let r = a % 16;
    assert(a == 16 * q + r) by (nonlinear_arith)
        requires q == a / 16, r == a % 16;
    let qq = q / p;
    let qr = q % p;
    assert(q == p * qq + qr) by (nonlinear_arith)
        requires p >= 1, qq == q / p, qr == q % p;
    assert(a == (16 * p) * qq + (16 * qr + r)) by (nonlinear_arith)
        requires a == 16 * q + r, q == p * qq + qr;
    assert(0 <= 16 * qr + r < 16 * p) by (nonlinear_arith)
        requires 0 <= qr < p, 0 <= r < 16;
    vstd::arithmetic::div_mod::lemma_fundamental_div_mod_converse(
        a as int,
        (16 * p) as int,
        qq as int,
        (16 * qr + r) as int,
    );
}

/// `hex_fixed(n, width)` has exactly `width` characters, all lowercase hexadecimal digits.
pub proof fn lemma_hex_fixed_len(n: nat, width: nat)
    ensures
        hex_fixed(n, width).len() == width,
        forall|i: int| 0 <= i < width ==> is_lower_hex_char(#[trigger] hex_fixed(n, width)[i]),
    decreases width,
{
    if width > 0 {
        lemma_hex_fixed_len(n / 16, (width - 1) as nat);
        let d = (n % 16) as int;
        assert(is_lower_hex_char(hex_digit(d)));
    }
}

/// `2^64 == 16^16`, so sixteen hexadecimal digits hold any `u64`.
pub proof fn lemma_pow16_16()
    ensures
        pow16(16) == 0x1_0000_0000_0000_0000,
{
    reveal_with_fuel(pow16, 17);
}


/// The decimal rendering of a natural number consists of ASCII digits only,
/// and reading it back gives the number.
pub proof fn lemma_decimal_nat_digits(n: nat)
    ensures
        decimal_nat(n).len() > 0,
        forall|i: int|
            0 <= i < decimal_nat(n).len() ==> '0' <= #[trigger] decimal_nat(n)[i] && decimal_nat(n)[i] <= '9',
        digits_value(decimal_nat(n)) == n,
    decreases n,
{
    lemma_decimal_digit_value((n % 10) as int);
    if n >= 10 {
        lemma_decimal_nat_digits(n / 10);
        let s = decimal_nat(n);
        assert(s.drop_last() =~= decimal_nat(n / 10));
        assert(s.last() == decimal_digit((n % 10) as int));
        assert(digits_value(s) == 10 * digits_value(s.drop_last()) + ((s.last() as int) - ('0' as int)));
    } else {
        let s = decimal_nat(n);
        assert(s.drop_last() =~= Seq::<char>::empty());
        assert(digits_value(s) == 10 * digits_value(s.drop_last()) + ((s.last() as int) - ('0' as int)));
    }
}

proof fn lemma_decimal_digit_value(d: int)
    requires
        0 <= d < 10,
    ensures
        '0' <= decimal_digit(d) <= '9',
        (decimal_digit(d) as int) - ('0' as int) == d,
{
}

/// The number that a sequence of ASCII decimal digits spells.
pub open spec fn digits_value(s: Seq<char>) -> int
    decreases s.len(),
{
    if s.len() == 0 {
        0
    } else {
        10 * digits_value(s.drop_last()) + ((s.last() as int) - ('0' as int))
    }
}

/// Different integers have different decimal renderings, and no rendering
/// holds a comma.
pub proof fn lemma_decimal_int_injective(a: int, b: int)
    ensures
        decimal_int(a) == decimal_int(b) ==> a == b,
        decimal_int(a).len() > 0,
        forall|i: int| 0 <= i < decimal_int(a).len() ==> #[trigger] decimal_int(a)[i] != ',',
{
    lemma_decimal_nat_digits(if a < 0 { (-a) as nat } else { a as nat });
    lemma_decimal_nat_digits(if b < 0 { (-b) as nat } else { b as nat });
    if decimal_int(a) == decimal_int(b) {
        if a < 0 && b < 0 {
            assert(decimal_nat((-a) as nat) =~= decimal_int(a).drop_first());
            assert(decimal_nat((-b) as nat) =~= decimal_int(b).drop_first());
        } else if a < 0 {
            assert(decimal_int(a)[0] == '-');
            assert(decimal_int(b)[0] == decimal_nat(b as nat)[0]);
        } else if b < 0 {
            assert(decimal_int(b)[0] == '-');
            assert(decimal_int(a)[0] == decimal_nat(a as nat)[0]);
        }
    }
    assert forall|i: int| 0 <= i < decimal_int(a).len() implies #[trigger] decimal_int(a)[i] != ',' by {
        if a < 0 {
            if i > 0 {
                assert(decimal_int(a)[i] == decimal_nat((-a) as nat)[i - 1]);
            }
        } else {
            assert(decimal_int(a)[i] == decimal_nat(a as nat)[i]);
        }
    }
}

/// Two texts that each start with a comma-free part followed by a part
/// beginning with a comma split the same way when they are equal.
pub proof fn lemma_split_before_comma(a1: Seq<char>, b1: Seq<char>, a2: Seq<char>, b2: Seq<char>)
    requires
        forall|i: int| 0 <= i < a1.len() ==> #[trigger] a1[i] != ',',
        forall|i: int| 0 <= i < a2.len() ==> #[trigger] a2[i] != ',',
        b1.len() > 0 && b1[0] == ',',
        b2.len() > 0 && b2[0] == ',',
        a1 + b1 == a2 + b2,
    ensures
        a1 == a2,
        b1 == b2,
{
    let s = a1 + b1;
    if a1.len() < a2.len() {
        assert(s[a1.len() as int] == b1[0]);
        assert((a2 + b2)[a1.len() as int] == a2[a1.len() as int]);
    } else if a2.len() < a1.len() {
        assert((a2 + b2)[a2.len() as int] == b2[0]);
        assert(s[a2.len() as int] == a1[a2.len() as int]);
    }
    assert(a1 =~= s.subrange(0, a1.len() as int));
    assert(a2 =~= (a2 + b2).subrange(0, a2.len() as int));
    assert(b1 =~= s.subrange(a1.len() as int, s.len() as int));
    assert(b2 =~= (a2 + b2).subrange(a2.len() as int, s.len() as int));
}

/// Every character of `s` is an ASCII decimal digit.
pub open spec fn all_decimal_digits(s: Seq<char>) -> bool {
    forall|i: int| 0 <= i < s.len() ==> '0' <= #[trigger] s[i] && s[i] <= '9'
}

/// A prefix of a digit string spells no more than the whole string.
pub proof fn lemma_digits_value_prefix(s: Seq<char>, k: int)
    requires
        0 <= k <= s.len(),
        all_decimal_digits(s),
    ensures
        0 <= digits_value(s.subrange(0, k)) <= digits_value(s),
    decreases s.len() - k,
{
    if k < s.len() {
        lemma_digits_value_prefix(s, k + 1);
        let p = s.subrange(0, k + 1);
        assert(p.drop_last() =~= s.subrange(0, k));
        assert('0' <= p.last() <= '9');
    } else {
        assert(s.subrange(0, k) =~= s);
        lemma_digits_value_nonneg(s);
    }
}

/// A digit string spells a natural number.
pub proof fn lemma_digits_value_nonneg(s: Seq<char>)
    requires
        all_decimal_digits(s),
    ensures
        digits_value(s) >= 0,
    decreases s.len(),
{
    if s.len() > 0 {
        assert(all_decimal_digits(s.drop_last()));
        lemma_digits_value_nonneg(s.drop_last());
        assert('0' <= s.last() <= '9');
    }
}


/// An ASCII decimal digit.
pub open spec fn is_decimal_digit(c: char) -> bool {
    '0' <= c && c <= '9'
}

/// The first index at or after `i` that does not hold a decimal digit.
pub open spec fn digit_run_end(s: Seq<char>, i: int) -> int
    decreases s.len() - i,
{
    if 0 <= i < s.len() && is_decimal_digit(s[i]) {
        digit_run_end(s, i + 1)
    } else {
        i
    }
}

/// What reading an `i64` in decimal from `s` at `start` finds: an optional
/// `-`, then the longest run of digits, which must not be empty and must
/// spell a number within `i64`'s range; and the index just after the digits.
pub open spec fn scan_decimal(s: Seq<char>, start: int) -> Option<(i64, int)> {
    let negative = 0 <= start < s.len() && s[start] == '-';
    let digits_start = if negative { start + 1 } else { start };
    let end = digit_run_end(s, digits_start);
    let magnitude = digits_value(s.subrange(digits_start, end));
    if end == digits_start {
        None
    } else if negative {
        if magnitude <= 0x8000_0000_0000_0000 { Some(((-magnitude) as i64, end)) } else { None }
    } else {
        if magnitude <= i64::MAX { Some((magnitude as i64, end)) } else { None }
    }
}

proof fn lemma_digit_run_end_bounds(s: Seq<char>, i: int)
    requires
        0 <= i <= s.len(),
    ensures
        i <= digit_run_end(s, i) <= s.len(),
        all_decimal_digits(s.subrange(i, digit_run_end(s, i))),
    decreases s.len() - i,
{
    if i < s.len() && is_decimal_digit(s[i]) {
        lemma_digit_run_end_bounds(s, i + 1);
        let e = digit_run_end(s, i);
        assert forall|k: int| 0 <= k < s.subrange(i, e).len() implies '0' <= #[trigger] s.subrange(i, e)[k] && s.subrange(i, e)[k] <= '9' by {
            if k > 0 {
                assert(s.subrange(i, e)[k] == s.subrange(i + 1, e)[k - 1]);
            }
        }
    }
}

proof fn lemma_digit_run_end_of(s: Seq<char>, i: int, j: int)
    requires
        0 <= i <= j <= s.len(),
        forall|k: int| i <= k < j ==> is_decimal_digit(#[trigger] s[k]),
        j == s.len() || !is_decimal_digit(s[j]),
    ensures
        digit_run_end(s, i) == j,
    decreases j - i,
{
    if i < j {
        lemma_digit_run_end_of(s, i + 1, j);
    }
}

/// When `s` holds the decimal rendering of `n` at `start`, followed by a
/// comma, reading a decimal there gives `n` and the index of the comma.
pub proof fn lemma_scan_decimal_rendering(s: Seq<char>, start: int, n: i64, rest: Seq<char>)
    requires
        0 <= start <= s.len(),
        s.skip(start) == decimal_int(n as int) + rest,
        rest.len() > 0,
        rest[0] == ',',
    ensures
        scan_decimal(s, start) == Some((n, start + decimal_int(n as int).len())),
{
    let magnitude: nat = if n < 0 { (-n) as nat } else { n as nat };
    lemma_decimal_nat_digits(magnitude);
    let d = decimal_nat(magnitude);
    let ds = if n < 0 { start + 1 } else { start };
    let end = ds + d.len();
    assert(decimal_int(n as int).len() == end - start);
    assert(s.skip(start).len() == s.len() - start);
    assert(s.len() - start == decimal_int(n as int).len() + rest.len());
    assert forall|k: int| ds <= k < end implies is_decimal_digit(#[trigger] s[k]) by {
        assert(s[k] == s.skip(start)[k - start]);
        assert(s.skip(start)[k - start] == (decimal_int(n as int) + rest)[k - start]);
        assert(decimal_int(n as int)[k - start] == d[k - ds]);
    }
    assert(s[end] == s.skip(start)[end - start]);
    assert((decimal_int(n as int) + rest)[end - start] == rest[0]);
    lemma_digit_run_end_of(s, ds, end);
    assert(s.subrange(ds, end) =~= d) by {
        assert forall|k: int| 0 <= k < d.len() implies s.subrange(ds, end)[k] == d[k] by {
            assert(s[ds + k] == s.skip(start)[ds + k - start]);
            assert(decimal_int(n as int)[ds + k - start] == d[k]);
        }
    }
    if n < 0 {
        assert(s[start] == s.skip(start)[0]);
        assert(decimal_int(n as int)[0] == '-');
    } else {
        assert(s[start] == s.skip(start)[0]);
        assert(decimal_int(n as int)[0] == d[0]);
    }
}

/// Reads an `i64` in decimal from `text` at `start`, as [`scan_decimal`] says.
pub fn read_decimal_i64(text: &str, start: usize) -> (r: Option<(i64, usize)>)
    requires
        start <= text@.len(),
    ensures
        match r {
            Some((v, end)) => scan_decimal(text@, start as int) == Some((v, end as int)),
            None => scan_decimal(text@, start as int) is None,
        },
{
    let n = text.unicode_len();
    let ghost s = text@;
    let negative = start < n && text.get_char(start) == '-';
    let digits_start: usize = if negative { start + 1 } else { start };
    proof {
        lemma_digit_run_end_bounds(s, digits_start as int);
    }
    let ghost end = digit_run_end(s, digits_start as int);
    assert forall|k: int| digits_start <= k < end implies is_decimal_digit(#[trigger] s[k]) by {
        assert(s.subrange(digits_start as int, end)[k - digits_start] == s[k]);
    }
    assert(s.subrange(digits_start as int, digits_start as int) =~= Seq::<char>::empty());
    let mut i: usize = digits_start;
    let mut magnitude: u64 = 0;
    while i < n && is_digit_char(text.get_char(i))
        invariant
            n == s.len(),
            s == text@,
            start <= n,
            negative == (0 <= start < s.len() && s[start as int] == '-'),
            digits_start == if negative { start + 1 } else { start as int },
            digits_start <= i <= end,
            end == digit_run_end(s, digits_start as int),
            digits_start <= end <= n,
            all_decimal_digits(s.subrange(digits_start as int, end)),
            forall|k: int| digits_start <= k < end ==> is_decimal_digit(#[trigger] s[k]),
            magnitude == digits_value(s.subrange(digits_start as int, i as int)),
            magnitude <= 0x8000_0000_0000_0000,
        decreases n - i,
    {
        let c = text.get_char(i);
        proof {
            if i as int >= end {
                lemma_digit_run_end_is_stop(s, digits_start as int);
                assert(false);
            }
        }
        let ghost p = s.subrange(digits_start as int, i + 1);
        assert(p.drop_last() =~= s.subrange(digits_start as int, i as int));
        assert(p.last() == c);
        let digit: u64 = (c as u64) - ('0' as u64);
        assert(is_decimal_digit(c));
        assert(digits_value(p) == 10 * magnitude + digit);
        if magnitude > 922_337_203_685_477_580 {
            proof {
                let k = i + 1 - digits_start;
                assert(s.subrange(digits_start as int, end).subrange(0, k) =~= p);
                lemma_digits_value_prefix(s.subrange(digits_start as int, end), k);
            }
            return None;
        }
        magnitude = magnitude * 10 + digit;
        i = i + 1;
        if magnitude > 0x8000_0000_0000_0000 {
            proof {
                let k = i - digits_start;
                assert(s.subrange(digits_start as int, end).subrange(0, k) =~= p);
                lemma_digits_value_prefix(s.subrange(digits_start as int, end), k);
            }
            return None;
        }
    }
    proof {
        if i < n {
            assert(!is_decimal_digit(s[i as int]));
        }
        if (i as int) < end {
            assert(is_decimal_digit(s[i as int]));
        }
    }
    if i == digits_start {
        return None;
    }
    if negative {
        if magnitude == 0x8000_0000_0000_0000 {
            Some((i64::MIN, i))
        } else {
            Some((-(magnitude as i64), i))
        }
    } else {
        if magnitude <= 0x7fff_ffff_ffff_ffff {
            Some((magnitude as i64, i))
        } else {
            None
        }
    }
}

fn is_digit_char(c: char) -> (r: bool)
    ensures
        r == is_decimal_digit(c),
{
    '0' <= c && c <= '9'
}

proof fn lemma_digit_run_end_is_stop(s: Seq<char>, i: int)
    requires
        0 <= i <= s.len(),
    ensures
        digit_run_end(s, i) == s.len() || !is_decimal_digit(s[digit_run_end(s, i)]),
    decreases s.len() - i,
{
    if i < s.len() && is_decimal_digit(s[i]) {
        lemma_digit_run_end_is_stop(s, i + 1);
    }
}
} // verus!
