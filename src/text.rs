//! Character classes, parsing and formatting of unsigned 64-bit address text.

use vstd::prelude::*;

verus! {

/// Unicode `White_Space` characters: those that `str::trim` removes.
pub open spec fn is_white_space(c: char) -> bool {
    let u = c as u32;
    (0x09 <= u <= 0x0D) || u == 0x20 || u == 0x85 || u == 0xA0 || u == 0x1680
        || (0x2000 <= u <= 0x200A) || u == 0x2028 || u == 0x2029 || u == 0x202F
        || u == 0x205F || u == 0x3000
}

/// Value of `c` as a digit of `radix` (10 or 16), letters in either case.
pub open spec fn digit_value(c: char, radix: nat) -> Option<nat> {
    let u = c as u32;
    if 0x30 <= u <= 0x39 && (u - 0x30) < radix {
        Some((u - 0x30) as nat)
    } else if radix == 16 && 0x41 <= u <= 0x46 {
        Some((u - 0x41 + 10) as nat)
    } else if radix == 16 && 0x61 <= u <= 0x66 {
        Some((u - 0x61 + 10) as nat)
    } else {
        None
    }
}

/// The character that writes digit `d` (`0`-`9`, then upper-case `A`-`F`).
pub open spec fn digit_char(d: nat) -> char {
    if d < 10 {
        ((d + 0x30) as u8) as char
    } else {
        ((d - 10 + 0x41) as u8) as char
    }
}

/// Whether `c` is white space.
pub fn is_white_space_char(c: char) -> (r: bool)
    ensures
        r == is_white_space(c),
{
    let u = c as u32;
    (0x09 <= u && u <= 0x0D) || u == 0x20 || u == 0x85 || u == 0xA0 || u == 0x1680
        || (0x2000 <= u && u <= 0x200A) || u == 0x2028 || u == 0x2029 || u == 0x202F
        || u == 0x205F || u == 0x3000
}

/// The value of `c` as a digit of `radix`, if it is one.
pub fn digit_of(c: char, radix: u32) -> (r: Option<u32>)
    requires
        radix == 10 || radix == 16,
    ensures
        r matches Some(d) ==> digit_value(c, radix as nat) == Some(d as nat),
        r is None ==> digit_value(c, radix as nat) is None,
{
    let u = c as u32;
    if 0x30 <= u && u <= 0x39 && (u - 0x30) < radix {
        Some(u - 0x30)
    } else if radix == 16 && 0x41 <= u && u <= 0x46 {
        Some(u - 0x41 + 10)
    } else if radix == 16 && 0x61 <= u && u <= 0x66 {
        Some(u - 0x61 + 10)
    } else {
        None
    }
}

/// `s` with the leading white space removed.
pub open spec fn trim_start(s: Seq<char>) -> Seq<char>
    decreases s.len(),
{
    if s.len() > 0 && is_white_space(s[0]) {
        trim_start(s.drop_first())
    } else {
        s
    }
}

/// `s` with the trailing white space removed.
pub open spec fn trim_end(s: Seq<char>) -> Seq<char>
    decreases s.len(),
{
    if s.len() > 0 && is_white_space(s.last()) {
        trim_end(s.drop_last())
    } else {
        s
    }
}

/// `s` with the surrounding white space removed.
pub open spec fn trim(s: Seq<char>) -> Seq<char> {
    trim_end(trim_start(s))
}

/// Every character of `s` is a digit of `radix`.
pub open spec fn all_digits(s: Seq<char>, radix: nat) -> bool {
    forall|i: int| 0 <= i < s.len() ==> (#[trigger] digit_value(s[i], radix)) is Some
}

/// The number that the digits `s` write in `radix`, most significant first.
pub open spec fn digits_value(s: Seq<char>, radix: nat) -> nat
    decreases s.len(),
{
    if s.len() == 0 {
        0
    } else {
        digits_value(s.drop_last(), radix) * radix + digit_value(s.last(), radix).unwrap_or(0)
    }
}

/// An unsigned 64-bit integer written in `radix`: one digit or more, and
/// nothing else, of a value that fits in 64 bits.
pub open spec fn parse_unsigned(s: Seq<char>, radix: nat) -> Option<u64> {
    if s.len() > 0 && all_digits(s, radix) && digits_value(s, radix) <= u64::MAX {
        Some(digits_value(s, radix) as u64)
    } else {
        None
    }
}

/// `t` without one leading `0x` (or `0X`).
pub open spec fn hex_body(t: Seq<char>) -> Seq<char> {
    if t.len() >= 2 && t[0] == '0' && (t[1] == 'x' || t[1] == 'X') {
        t.subrange(2, t.len() as int)
    } else {
        t
    }
}

/// Value of hexadecimal address text: surrounding white space is ignored,
/// then one optional `0x` prefix, then hexadecimal digits in either case.
pub open spec fn parse_hex(s: Seq<char>) -> Option<u64> {
    parse_unsigned(hex_body(trim(s)), 16)
}

/// Value of decimal address text: surrounding white space is ignored.
pub open spec fn parse_dec(s: Seq<char>) -> Option<u64> {
    parse_unsigned(trim(s), 10)
}

/// Value of address text of no stated base: text of decimal digits alone is
/// decimal, anything else is hexadecimal.
pub open spec fn parse_guess(s: Seq<char>) -> Option<u64> {
    let t = trim(s);
    if all_digits(t, 10) {
        parse_unsigned(t, 10)
    } else {
        parse_unsigned(hex_body(t), 16)
    }
}

/// The digits of `v` in `radix`, without leading zeros (`0` for zero).
pub open spec fn digits_of(v: nat, radix: nat) -> Seq<char>
    decreases v
    via digits_of_decreases
{
    if radix < 2 || v < radix {
        seq![digit_char(v)]
    } else {
        digits_of(v / radix, radix).push(digit_char(v % radix))
    }
}

#[via_fn]
proof fn digits_of_decreases(v: nat, radix: nat) {
    if !(radix < 2 || v < radix) {
        assert(v / radix < v) by (nonlinear_arith)
            requires
                radix >= 2,
                v >= radix,
        ;
    }
}

/// Hexadecimal text of `v`: `0x`, then upper-case digits.
pub open spec fn hex_text(v: nat) -> Seq<char> {
    seq!['0', 'x'] + digits_of(v, 16)
}

/// Decimal text of `v`.
pub open spec fn dec_text(v: nat) -> Seq<char> {
    digits_of(v, 10)
}

proof fn lemma_digit_round_trip(d: nat, radix: nat)
    requires
        radix == 10 || radix == 16,
        d < radix,
    ensures
        digit_value(digit_char(d), radix) == Some(d),
        !is_white_space(digit_char(d)),
{
}

proof fn lemma_digits_of(v: nat, radix: nat)
    requires
        radix == 10 || radix == 16,
    ensures
        digits_of(v, radix).len() > 0,
        all_digits(digits_of(v, radix), radix),
        digits_value(digits_of(v, radix), radix) == v,
        !is_white_space(digits_of(v, radix)[0]),
        !is_white_space(digits_of(v, radix).last()),
    decreases v,
{
    let s = digits_of(v, radix);
    if v < radix {
        lemma_digit_round_trip(v, radix);
        assert(s.drop_last() =~= Seq::<char>::empty());
        assert(digits_value(s.drop_last(), radix) == 0);
        assert(digits_value(s, radix) == 0 * radix + v);
    } else {
        let p = digits_of(v / radix, radix);
        lemma_digits_of(v / radix, radix);
        lemma_digit_round_trip(v % radix, radix);
        assert(s.drop_last() =~= p);
        assert(s.last() == digit_char(v % radix));
        assert(digits_value(s, radix) == digits_value(p, radix) * radix + v % radix);
        assert(v == (v / radix) * radix + v % radix) by (nonlinear_arith)
            requires
                radix > 0,
        ;
        assert forall|i: int| 0 <= i < s.len() implies (#[trigger] digit_value(s[i], radix)) is Some by {
            if i < p.len() {
                assert(s[i] == p[i]);
            }
        }
    }
}

proof fn lemma_trim_unchanged(s: Seq<char>)
    requires
        s.len() > 0,
        !is_white_space(s[0]),
        !is_white_space(s.last()),
    ensures
        trim(s) == s,
{
}

/// Formatting and then parsing hexadecimal text gives the value back.
pub proof fn lemma_hex_round_trip(v: u64)
    ensures
        parse_hex(hex_text(v as nat)) == Some(v),
{
    let d = digits_of(v as nat, 16);
    let t = hex_text(v as nat);
    lemma_digits_of(v as nat, 16);
    assert(t[0] == '0');
    assert(t.last() == d.last());
    lemma_trim_unchanged(t);
    assert(hex_body(t) =~= d);
}

/// Formatting and then parsing decimal text gives the value back.
pub proof fn lemma_dec_round_trip(v: u64)
    ensures
        parse_dec(dec_text(v as nat)) == Some(v),
{
    lemma_digits_of(v as nat, 10);
    lemma_trim_unchanged(dec_text(v as nat));
}

proof fn lemma_value_prefix_le(s: Seq<char>, k: int, radix: nat)
    requires
        0 <= k <= s.len(),
        radix >= 1,
    ensures
        digits_value(s.subrange(0, k), radix) <= digits_value(s, radix),
    decreases s.len(),
{
    if k < s.len() {
        lemma_value_prefix_le(s.drop_last(), k, radix);
        assert(s.drop_last().subrange(0, k) =~= s.subrange(0, k));
        let x = digits_value(s.drop_last(), radix);
        assert(x <= x * radix) by (nonlinear_arith)
            requires
                radix >= 1,
        ;
    } else {
        assert(s.subrange(0, k) =~= s);
    }
}

/// Bounds of `s` with its surrounding white space removed.
fn trim_bounds(s: &str) -> (r: (usize, usize))
    ensures
        r.0 <= r.1 <= s@.len(),
        s@.subrange(r.0 as int, r.1 as int) == trim(s@),
{
    let n = s.unicode_len();
    assert(s@.subrange(0, n as int) =~= s@);
    let mut lo: usize = 0;
    while lo < n && is_white_space_char(s.get_char(lo))
        invariant
            lo <= n,
            n == s@.len(),
            trim_start(s@) == trim_start(s@.subrange(lo as int, n as int)),
        decreases n - lo,
    {
        assert(s@.subrange(lo as int, n as int).drop_first() =~= s@.subrange(lo + 1, n as int));
        lo += 1;
    }
    let mut hi: usize = n;
    while hi > lo && is_white_space_char(s.get_char(hi - 1))
        invariant
            lo <= hi <= n,
            n == s@.len(),
            trim(s@) == trim_end(s@.subrange(lo as int, hi as int)),
        decreases hi,
    {
        assert(s@.subrange(lo as int, hi as int).drop_last() =~= s@.subrange(
            lo as int,
            hi - 1,
        ));
        hi -= 1;
    }
    (lo, hi)
}

/// Parses `s@[lo..hi]` as an unsigned 64-bit integer in `radix`.
fn parse_unsigned_in(s: &str, lo: usize, hi: usize, radix: u32) -> (r: Option<u64>)
    requires
        lo <= hi <= s@.len(),
        radix == 10 || radix == 16,
    ensures
        r == parse_unsigned(s@.subrange(lo as int, hi as int), radix as nat),
{
    let ghost t = s@.subrange(lo as int, hi as int);
    if lo == hi {
        return None;
    }
    let mut acc: u64 = 0;
    let mut i = lo;
    while i < hi
        invariant
            lo <= i <= hi <= s@.len(),
            t == s@.subrange(lo as int, hi as int),
            radix == 10 || radix == 16,
            all_digits(s@.subrange(lo as int, i as int), radix as nat),
            acc == digits_value(s@.subrange(lo as int, i as int), radix as nat),
        decreases hi - i,
    {
        let ghost prev = s@.subrange(lo as int, i as int);
        let ghost next = s@.subrange(lo as int, i + 1);
        assert(next.drop_last() =~= prev);
        assert(t.subrange(0, i + 1 - lo) =~= next);
        match digit_of(s.get_char(i), radix) {
            None => {
                assert(t[i - lo] == s@[i as int]);
                assert(digit_value(t[i - lo], radix as nat) is None);
                assert(!all_digits(t, radix as nat));
                return None;
            },
            Some(d) => {
                assert(digits_value(next, radix as nat) == acc * radix + d);
                if acc > (u64::MAX - d as u64) / radix as u64 {
                    assert(acc * radix + d > u64::MAX) by (nonlinear_arith)
                        requires
                            acc > (u64::MAX - d) / radix as int,
                            radix > 0,
                            d <= u64::MAX,
                    ;
                    proof {
                        if all_digits(t, radix as nat) {
                            lemma_value_prefix_le(t, i + 1 - lo, radix as nat);
                            assert(digits_value(t, radix as nat) > u64::MAX);
                        }
                    }
                    return None;
                }
                assert(acc * radix + d <= u64::MAX) by (nonlinear_arith)
                    requires
                        acc <= (u64::MAX - d) / radix as int,
                        radix > 0,
                        d <= u64::MAX,
                ;
                acc = acc * radix as u64 + d as u64;
                assert forall|j: int| 0 <= j < next.len() implies (#[trigger] digit_value(
                    next[j],
                    radix as nat,
                )) is Some by {
                    if j < prev.len() {
                        assert(next[j] == prev[j]);
                    }
                }
            },
        }
        i += 1;
    }
    assert(s@.subrange(lo as int, i as int) =~= t);
    Some(acc)
}

/// Length and place of the `0x` prefix that `hex_body` removes.
fn hex_prefix_len(s: &str, lo: usize, hi: usize) -> (r: usize)
    requires
        lo <= hi <= s@.len(),
    ensures
        r <= hi - lo,
        s@.subrange(lo + r, hi as int) == hex_body(s@.subrange(lo as int, hi as int)),
{
    let ghost t = s@.subrange(lo as int, hi as int);
    if hi - lo >= 2 && s.get_char(lo) == '0' {
        let c = s.get_char(lo + 1);
        if c == 'x' || c == 'X' {
            assert(t.subrange(2, t.len() as int) =~= s@.subrange(lo + 2, hi as int));
            return 2;
        }
    }
    assert(t =~= s@.subrange(lo + 0, hi as int));
    0
}

/// Reads hexadecimal address text.
pub fn parse_hex_text(s: &str) -> (r: Option<u64>)
    ensures
        r == parse_hex(s@),
{
    let (lo, hi) = trim_bounds(s);
    let p = hex_prefix_len(s, lo, hi);
    parse_unsigned_in(s, lo + p, hi, 16)
}

/// Reads decimal address text.
pub fn parse_dec_text(s: &str) -> (r: Option<u64>)
    ensures
        r == parse_dec(s@),
{
    let (lo, hi) = trim_bounds(s);
    parse_unsigned_in(s, lo, hi, 10)
}

/// Reads address text of no stated base: decimal where it is all decimal
/// digits, else hexadecimal.
pub fn parse_guess_text(s: &str) -> (r: Option<u64>)
    ensures
        r == parse_guess(s@),
{
    let (lo, hi) = trim_bounds(s);
    let ghost t = s@.subrange(lo as int, hi as int);
    let mut i = lo;
    while i < hi
        invariant
            lo <= i <= hi <= s@.len(),
            t == s@.subrange(lo as int, hi as int),
            t == trim(s@),
            forall|j: int| 0 <= j < i - lo ==> (#[trigger] digit_value(t[j], 10)) is Some,
        decreases hi - i,
    {
        if digit_of(s.get_char(i), 10).is_none() {
            assert(t[i - lo] == s@[i as int]);
            assert(digit_value(t[i - lo], 10) is None);
            assert(!all_digits(t, 10));
            let p = hex_prefix_len(s, lo, hi);
            return parse_unsigned_in(s, lo + p, hi, 16);
        }
        i += 1;
    }
    parse_unsigned_in(s, lo, hi, 10)
}

/// The one-character text of digit `d`.
fn digit_str(d: u64) -> (r: &'static str)
    requires
        d < 16,
    ensures
        r@ == seq![digit_char(d as nat)],
{
    let digits = "0123456789ABCDEF";
    proof {
        reveal_strlit("0123456789ABCDEF");
    }
    let r = digits.substring_char(d as usize, d as usize + 1);
    assert(digits@[d as int] == digit_char(d as nat));
    assert(r@ =~= seq![digit_char(d as nat)]);
    r
}

/// The digits of `v` in `radix`.
fn digits_string(v: u64, radix: u64) -> (r: String)
    requires
        radix == 10 || radix == 16,
    ensures
        r@ == digits_of(v as nat, radix as nat),
{
    let mut cur = v;
    let mut out = String::new();
    while cur >= radix
        invariant
            radix == 10 || radix == 16,
            digits_of(v as nat, radix as nat) == digits_of(cur as nat, radix as nat) + out@,
        decreases cur,
    {
        let d = cur % radix;
        let ghost c = digit_char(d as nat);
        let ghost high = digits_of((cur / radix) as nat, radix as nat);
        assert(digits_of(cur as nat, radix as nat) == high.push(c));
        let piece = String::from_str(digit_str(d));
        assert(high.push(c) + out@ =~= high + (seq![c] + out@));
        out = piece.concat(out.as_str());
        cur = cur / radix;
    }
    String::from_str(digit_str(cur)).concat(out.as_str())
}

/// Hexadecimal address text of `v`: `0x`, then upper-case digits.
pub fn format_hex(v: u64) -> (r: String)
    ensures
        r@ == hex_text(v as nat),
{
    let prefix = "0x";
    proof {
        reveal_strlit("0x");
    }
    assert(prefix@ =~= seq!['0', 'x']);
    String::from_str(prefix).concat(digits_string(v, 16).as_str())
}

/// Decimal address text of `v`.
pub fn format_dec(v: u64) -> (r: String)
    ensures
        r@ == dec_text(v as nat),
{
    digits_string(v, 10)
}

} // verus!
