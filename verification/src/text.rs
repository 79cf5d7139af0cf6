//! Character-level text handling shared by the parsers and formatters of the
//! library: decimal numbers, searching, trimming and string construction.

use vstd::prelude::*;

verus! {

// ---------------------------------------------------------------------------
// Decimal numbers
// ---------------------------------------------------------------------------

/// An ASCII decimal digit.
pub open spec fn is_digit(c: char) -> bool {
    '0' <= c && c <= '9'
}

/// The value of an ASCII decimal digit.
pub open spec fn digit_value(c: char) -> nat {
    (c as int - '0' as int) as nat
}

/// Every character of `s` is an ASCII decimal digit.
pub open spec fn all_digits(s: Seq<char>) -> bool {
    forall|i: int| 0 <= i < s.len() ==> is_digit(#[trigger] s[i])
}

/// The value of a string of digits read in base ten (zero for the empty string).
pub open spec fn digits_value(s: Seq<char>) -> nat
    decreases s.len(),
{
    if s.len() == 0 {
        0
    } else {
        digits_value(s.drop_last()) * 10 + digit_value(s.last())
    }
}

/// The character of a digit value below ten.
pub open spec fn digit_char(d: nat) -> char {
    ((d % 10) + '0' as int) as char
}

/// The decimal notation of a natural number, without leading zeros.
pub open spec fn decimal(n: nat) -> Seq<char>
    decreases n,
{
    if n < 10 {
        seq![digit_char(n)]
    } else {
        decimal(n / 10).push(digit_char(n % 10))
    }
}

/// The decimal notation of an integer, with a leading `-` when it is negative.
pub open spec fn signed_decimal(n: int) -> Seq<char> {
    if n < 0 {
        seq!['-'] + decimal((-n) as nat)
    } else {
        decimal(n as nat)
    }
}

proof fn lemma_digit_char(d: nat)
    requires
        d < 10,
    ensures
        is_digit(digit_char(d)),
        digit_value(digit_char(d)) == d,
        digit_char(d) != '+',
        digit_char(d) != '-',
{
}

/// The notation of `n` is made of digits, does not start with a sign, and
/// reads back as `n`.
pub proof fn lemma_decimal(n: nat)
    ensures
        decimal(n).len() > 0,
        all_digits(decimal(n)),
        digits_value(decimal(n)) == n,
        decimal(n)[0] != '+',
        decimal(n)[0] != '-',
    decreases n,
{
    if n < 10 {
        lemma_digit_char(n);
        assert(decimal(n).drop_last() =~= Seq::<char>::empty());
        assert(digits_value(Seq::<char>::empty()) == 0);
        assert(digits_value(decimal(n)) == digits_value(decimal(n).drop_last()) * 10
            + digit_value(decimal(n).last()));
    } else {
        lemma_decimal(n / 10);
        lemma_digit_char(n % 10);
        let s = decimal(n);
        assert(s.drop_last() =~= decimal(n / 10));
        assert(s.last() == digit_char(n % 10));
        assert(digits_value(s) == digits_value(decimal(n / 10)) * 10 + digit_value(
            digit_char(n % 10),
        ));
        assert(n == (n / 10) * 10 + n % 10);
        assert(all_digits(s)) by {
            assert forall|i: int| 0 <= i < s.len() implies is_digit(#[trigger] s[i]) by {
                if i < s.len() - 1 {
                    assert(s[i] == decimal(n / 10)[i]);
                }
            }
        }
    }
}

proof fn lemma_digits_value_push(s: Seq<char>, c: char)
    ensures
        digits_value(s.push(c)) == digits_value(s) * 10 + digit_value(c),
{
    assert(s.push(c).drop_last() =~= s);
}

proof fn lemma_digits_value_prefix(s: Seq<char>, k: int)
    requires
        0 <= k <= s.len(),
    ensures
        digits_value(s.take(k)) <= digits_value(s),
    decreases s.len() - k,
{
    if k < s.len() {
        lemma_digits_value_prefix(s, k + 1);
        assert(s.take(k + 1).drop_last() =~= s.take(k));
    } else {
        assert(s.take(k) =~= s);
    }
}

/// The character of a digit value.
pub fn digit_to_char(d: u32) -> (c: char)
    requires
        d < 10,
    ensures
        c == digit_char(d as nat),
{
    match d {
        0 => '0',
        1 => '1',
        2 => '2',
        3 => '3',
        4 => '4',
        5 => '5',
        6 => '6',
        7 => '7',
        8 => '8',
        _ => '9',
    }
}

/// The decimal notation of `n`, as `u32`'s `Display` writes it.
pub fn u32_chars(n: u32) -> (r: Vec<char>)
    ensures
        r@ == decimal(n as nat),
    decreases n,
{
    if n < 10 {
        let mut v: Vec<char> = Vec::new();
        v.push(digit_to_char(n));
        proof {
            assert(v@ =~= decimal(n as nat));
        }
        v
    } else {
        let mut v = u32_chars(n / 10);
        v.push(digit_to_char(n % 10));
        v
    }
}

/// The decimal notation of `n`, as `i32`'s `Display` writes it.
pub fn i32_chars(n: i32) -> (r: Vec<char>)
    ensures
        r@ == signed_decimal(n as int),
{
    if n < 0 {
        let m: u32 = (0i64 - n as i64) as u32;
        let digits = u32_chars(m);
        let mut v: Vec<char> = Vec::new();
        v.push('-');
        let mut i: usize = 0;
        while i < digits.len()
            invariant
                0 <= i <= digits.len(),
                v@ == seq!['-'] + digits@.take(i as int),
            decreases digits.len() - i,
        {
            v.push(digits[i]);
            i = i + 1;
            proof {
                assert(digits@.take(i as int) =~= digits@.take(i - 1).push(digits@[i - 1]));
            }
        }
        proof {
            assert(digits@.take(digits.len() as int) =~= digits@);
        }
        v
    } else {
        u32_chars(n as u32)
    }
}

/// Why a number could not be read (the kinds of `std::num::IntErrorKind` that
/// reading a `u32` or a `NonZeroU32` can give).
#[derive(Clone, Copy, Debug, PartialEq, Eq, Structural, Hash)]
pub enum IntErrorKind {
    Empty,
    InvalidDigit,
    PosOverflow,
    Zero,
}

/// Reads the digits `d[i..]` after the value `acc` of `d[..i]`, as
/// `u32::from_str` does: left to right, failing at the first character that is
/// not a digit or at the first digit that takes the value past `u32::MAX`.
pub open spec fn scan_digits(d: Seq<char>, i: nat, acc: nat) -> Result<u32, IntErrorKind>
    decreases d.len() - i,
{
    if i >= d.len() {
        Ok(acc as u32)
    } else if !is_digit(d[i as int]) {
        Err(IntErrorKind::InvalidDigit)
    } else if acc * 10 + digit_value(d[i as int]) > u32::MAX {
        Err(IntErrorKind::PosOverflow)
    } else {
        scan_digits(d, i + 1, acc * 10 + digit_value(d[i as int]))
    }
}

/// What `u32::from_str` gives back for `s`.
pub open spec fn u32_from_str(s: Seq<char>) -> Result<u32, IntErrorKind> {
    if s.len() == 0 {
        Err(IntErrorKind::Empty)
    } else if s.len() == 1 && (s[0] == '+' || s[0] == '-') {
        Err(IntErrorKind::InvalidDigit)
    } else if s[0] == '+' {
        scan_digits(s.drop_first(), 0, 0)
    } else {
        scan_digits(s, 0, 0)
    }
}

/// What `NonZeroU32::from_str` gives back for `s`: the number, unless reading
/// it fails or it is zero.
pub open spec fn nonzero_u32_from_str(s: Seq<char>) -> Result<u32, IntErrorKind> {
    match u32_from_str(s) {
        Ok(v) => if v == 0 {
            Err(IntErrorKind::Zero)
        } else {
            Ok(v)
        },
        Err(k) => Err(k),
    }
}

proof fn lemma_scan_digits(d: Seq<char>, i: nat)
    requires
        i <= d.len(),
        all_digits(d),
        digits_value(d) <= u32::MAX,
    ensures
        scan_digits(d, i, digits_value(d.take(i as int))) == Ok::<u32, IntErrorKind>(
            digits_value(d) as u32,
        ),
    decreases d.len() - i,
{
    if i < d.len() {
        assert(d.take(i + 1 as int) =~= d.take(i as int).push(d[i as int]));
        lemma_digits_value_push(d.take(i as int), d[i as int]);
        lemma_digits_value_prefix(d, (i + 1) as int);
        lemma_scan_digits(d, i + 1);
    } else {
        assert(d.take(i as int) =~= d);
    }
}

/// Reading the notation of a `u32` with `u32::from_str` gives the number back.
pub proof fn lemma_u32_from_decimal(n: u32)
    ensures
        u32_from_str(decimal(n as nat)) == Ok::<u32, IntErrorKind>(n),
{
    let d = decimal(n as nat);
    lemma_decimal(n as nat);
    lemma_scan_digits(d, 0);
    assert(d.take(0) =~= Seq::<char>::empty());
    assert(digits_value(Seq::<char>::empty()) == 0);
    if d.len() == 1 {
        lemma_digit_char(n as nat);
    }
}

/// Reads `s[lo..hi]` as `u32::from_str` does.
pub fn parse_u32_range(s: &Vec<char>, lo: usize, hi: usize) -> (r: Result<u32, IntErrorKind>)
    requires
        lo <= hi <= s.len(),
    ensures
        r == u32_from_str(s@.subrange(lo as int, hi as int)),
{
    let ghost t = s@.subrange(lo as int, hi as int);
    if lo == hi {
        return Err(IntErrorKind::Empty);
    }
    if hi - lo == 1 && (s[lo] == '+' || s[lo] == '-') {
        return Err(IntErrorKind::InvalidDigit);
    }
    let mut start = lo;
    if s[lo] == '+' {
        start = lo + 1;
    }
    let ghost d = s@.subrange(start as int, hi as int);
    proof {
        if s@[lo as int] == '+' {
            assert(d =~= t.drop_first());
        } else {
            assert(d =~= t);
        }
    }
    let mut acc: u64 = 0;
    let mut i = start;
    while i < hi
        invariant
            lo <= start <= i <= hi <= s.len(),
            d == s@.subrange(start as int, hi as int),
            acc <= u32::MAX,
            u32_from_str(t) == scan_digits(d, (i - start) as nat, acc as nat),
            t == s@.subrange(lo as int, hi as int),
        decreases hi - i,
    {
        let c = s[i];
        assert(d[i - start] == c);
        if !('0' <= c && c <= '9') {
            return Err(IntErrorKind::InvalidDigit);
        }
        let dv: u64 = (c as u32 - '0' as u32) as u64;
        let next = acc * 10 + dv;
        if next > 4294967295u64 {
            return Err(IntErrorKind::PosOverflow);
        }
        acc = next;
        i = i + 1;
    }
    Ok(acc as u32)
}

/// Reads `s[lo..hi]` as `NonZeroU32::from_str` does.
pub fn parse_nonzero_u32_range(s: &Vec<char>, lo: usize, hi: usize) -> (r: Result<
    u32,
    IntErrorKind,
>)
    requires
        lo <= hi <= s.len(),
    ensures
        r == nonzero_u32_from_str(s@.subrange(lo as int, hi as int)),
{
    match parse_u32_range(s, lo, hi) {
        Ok(v) => if v == 0 {
            Err(IntErrorKind::Zero)
        } else {
            Ok(v)
        },
        Err(k) => Err(k),
    }
}

// ---------------------------------------------------------------------------
// Searching and comparing
// ---------------------------------------------------------------------------

/// The index of the first `c` in `s`, if there is one.
pub open spec fn first_index(s: Seq<char>, c: char) -> Option<int> {
    s.index_of_first(c)
}

/// The position of the first `c` in `s[lo..hi]`, counted from the start of `s`.
pub fn find_char(s: &Vec<char>, c: char, lo: usize, hi: usize) -> (r: Option<usize>)
    requires
        lo <= hi <= s.len(),
    ensures
        match r {
            Some(i) => first_index(s@.subrange(lo as int, hi as int), c) == Some(i - lo) && lo <= i
                < hi,
            None => first_index(s@.subrange(lo as int, hi as int), c) is None,
        },
{
    let ghost t = s@.subrange(lo as int, hi as int);
    let mut i = lo;
    while i < hi
        invariant
            lo <= i <= hi <= s.len(),
            t == s@.subrange(lo as int, hi as int),
            forall|j: int| 0 <= j < i - lo ==> t[j] != c,
        decreases hi - i,
    {
        if s[i] == c {
            proof {
                t.index_of_first_ensures(c);
                assert(t[i - lo] == c);
                match t.index_of_first(c) {
                    Some(k) => {
                        assert(k == i - lo);
                    },
                    None => {},
                }
            }
            return Some(i);
        }
        i = i + 1;
    }
    proof {
        t.index_of_first_ensures(c);
    }
    None
}

/// Compares `s[lo..hi]` with `lit`.
pub fn range_eq(s: &Vec<char>, lo: usize, hi: usize, lit: &Vec<char>) -> (r: bool)
    requires
        lo <= hi <= s.len(),
    ensures
        r == (s@.subrange(lo as int, hi as int) == lit@),
{
    if hi - lo != lit.len() {
        return false;
    }
    let mut i: usize = 0;
    while i < lit.len()
        invariant
            lo <= hi <= s.len(),
            hi - lo == lit.len(),
            0 <= i <= lit.len(),
            forall|j: int| 0 <= j < i ==> s@[lo + j] == lit@[j],
        decreases lit.len() - i,
    {
        if s[lo + i] != lit[i] {
            proof {
                assert(s@.subrange(lo as int, hi as int)[i as int] != lit@[i as int]);
            }
            return false;
        }
        i = i + 1;
    }
    proof {
        assert(s@.subrange(lo as int, hi as int) =~= lit@);
    }
    true
}

// ---------------------------------------------------------------------------
// Trimming
// ---------------------------------------------------------------------------

/// A character with the Unicode `White_Space` property, which is what
/// `char::is_whitespace` tests.
pub open spec fn is_space(c: char) -> bool {
    ||| c == ' '
    ||| ('\u{9}' <= c && c <= '\u{d}')
    ||| c == '\u{85}'
    ||| c == '\u{a0}'
    ||| c == '\u{1680}'
    ||| ('\u{2000}' <= c && c <= '\u{200a}')
    ||| c == '\u{2028}'
    ||| c == '\u{2029}'
    ||| c == '\u{202f}'
    ||| c == '\u{205f}'
    ||| c == '\u{3000}'
}

/// Tests a character for the Unicode `White_Space` property.
pub fn char_is_space(c: char) -> (r: bool)
    ensures
        r == is_space(c),
{
    c == ' ' || ('\u{9}' <= c && c <= '\u{d}') || c == '\u{85}' || c == '\u{a0}' || c
        == '\u{1680}' || ('\u{2000}' <= c && c <= '\u{200a}') || c == '\u{2028}' || c
        == '\u{2029}' || c == '\u{202f}' || c == '\u{205f}' || c == '\u{3000}'
}

/// `s` with its trailing white space removed, as `str::trim_end` does.
pub open spec fn trim_end(s: Seq<char>) -> Seq<char>
    decreases s.len(),
{
    if s.len() > 0 && is_space(s.last()) {
        trim_end(s.drop_last())
    } else {
        s
    }
}

/// `s` with its leading white space removed, as `str::trim_start` does.
pub open spec fn trim_start(s: Seq<char>) -> Seq<char>
    decreases s.len(),
{
    if s.len() > 0 && is_space(s[0]) {
        trim_start(s.drop_first())
    } else {
        s
    }
}

/// `s` with leading and trailing white space removed, as `str::trim` does.
pub open spec fn trim(s: Seq<char>) -> Seq<char> {
    trim_end(trim_start(s))
}

/// `s` with every leading repetition of the non-empty pattern `p` removed, as
/// `str::trim_start_matches` does with a string pattern.
pub open spec fn strip_all_prefix(s: Seq<char>, p: Seq<char>) -> Seq<char>
    decreases s.len(),
{
    if p.len() > 0 && p.len() <= s.len() && s.take(p.len() as int) == p {
        strip_all_prefix(s.skip(p.len() as int), p)
    } else {
        s
    }
}

/// Returns `hi'` such that `s[lo..hi']` is `trim_end(s[lo..hi])`.
pub fn trim_end_range(s: &Vec<char>, lo: usize, hi: usize) -> (r: usize)
    requires
        lo <= hi <= s.len(),
    ensures
        lo <= r <= hi,
        s@.subrange(lo as int, r as int) == trim_end(s@.subrange(lo as int, hi as int)),
{
    let mut j = hi;
    while j > lo && char_is_space(s[j - 1])
        invariant
            lo <= j <= hi <= s.len(),
            trim_end(s@.subrange(lo as int, j as int)) == trim_end(
                s@.subrange(lo as int, hi as int),
            ),
        decreases j,
    {
        proof {
            assert(s@.subrange(lo as int, j as int).drop_last() =~= s@.subrange(
                lo as int,
                j - 1,
            ));
        }
        j = j - 1;
    }
    j
}

/// Returns `lo'` such that `s[lo'..hi]` is `trim_start(s[lo..hi])`.
pub fn trim_start_range(s: &Vec<char>, lo: usize, hi: usize) -> (r: usize)
    requires
        lo <= hi <= s.len(),
    ensures
        lo <= r <= hi,
        s@.subrange(r as int, hi as int) == trim_start(s@.subrange(lo as int, hi as int)),
{
    let mut j = lo;
    while j < hi && char_is_space(s[j])
        invariant
            lo <= j <= hi <= s.len(),
            trim_start(s@.subrange(j as int, hi as int)) == trim_start(
                s@.subrange(lo as int, hi as int),
            ),
        decreases hi - j,
    {
        proof {
            assert(s@.subrange(j as int, hi as int).drop_first() =~= s@.subrange(
                j + 1,
                hi as int,
            ));
        }
        j = j + 1;
    }
    j
}

/// Returns `lo'` such that `s[lo'..hi]` is `strip_all_prefix(s[lo..hi], p)`.
pub fn strip_all_prefix_range(s: &Vec<char>, lo: usize, hi: usize, p: &Vec<char>) -> (r: usize)
    requires
        lo <= hi <= s.len(),
    ensures
        lo <= r <= hi,
        s@.subrange(r as int, hi as int) == strip_all_prefix(
            s@.subrange(lo as int, hi as int),
            p@,
        ),
{
    if p.len() == 0 {
        return lo;
    }
    let mut j = lo;
    while p.len() <= hi - j && range_eq(s, j, j + p.len(), p)
        invariant
            lo <= j <= hi <= s.len(),
            p.len() > 0,
            strip_all_prefix(s@.subrange(j as int, hi as int), p@) == strip_all_prefix(
                s@.subrange(lo as int, hi as int),
                p@,
            ),
        decreases hi - j,
    {
        proof {
            let t = s@.subrange(j as int, hi as int);
            assert(t.take(p.len() as int) =~= s@.subrange(j as int, j + p.len()));
            assert(t.skip(p.len() as int) =~= s@.subrange(j + p.len(), hi as int));
        }
        j = j + p.len();
    }
    proof {
        let t = s@.subrange(j as int, hi as int);
        if p.len() <= hi - j {
            assert(t.take(p.len() as int) =~= s@.subrange(j as int, j + p.len()));
        }
    }
    j
}

/// `s` with every trailing `c` removed, as `str::trim_end_matches` does with
/// a character.
pub open spec fn strip_all_suffix(s: Seq<char>, c: char) -> Seq<char>
    decreases s.len(),
{
    if s.len() > 0 && s.last() == c {
        strip_all_suffix(s.drop_last(), c)
    } else {
        s
    }
}

/// Returns `hi'` such that `s[lo..hi']` is `strip_all_suffix(s[lo..hi], c)`.
pub fn strip_all_suffix_range(s: &Vec<char>, lo: usize, hi: usize, c: char) -> (r: usize)
    requires
        lo <= hi <= s.len(),
    ensures
        lo <= r <= hi,
        s@.subrange(lo as int, r as int) == strip_all_suffix(s@.subrange(lo as int, hi as int), c),
{
    let mut j = hi;
    while j > lo && s[j - 1] == c
        invariant
            lo <= j <= hi <= s.len(),
            strip_all_suffix(s@.subrange(lo as int, j as int), c) == strip_all_suffix(
                s@.subrange(lo as int, hi as int),
                c,
            ),
        decreases j,
    {
        proof {
            assert(s@.subrange(lo as int, j as int).drop_last() =~= s@.subrange(
                lo as int,
                j - 1,
            ));
        }
        j = j - 1;
    }
    j
}

/// `s` ends with `suffix`.
pub open spec fn ends_with(s: Seq<char>, suffix: Seq<char>) -> bool {
    suffix.len() <= s.len() && s.skip(s.len() - suffix.len()) == suffix
}

/// Tests whether `s[lo..hi]` ends with `suffix`.
pub fn range_ends_with(s: &Vec<char>, lo: usize, hi: usize, suffix: &Vec<char>) -> (r: bool)
    requires
        lo <= hi <= s.len(),
    ensures
        r == ends_with(s@.subrange(lo as int, hi as int), suffix@),
{
    if suffix.len() > hi - lo {
        return false;
    }
    let b = range_eq(s, hi - suffix.len(), hi, suffix);
    proof {
        let t = s@.subrange(lo as int, hi as int);
        assert(t.skip(t.len() - suffix.len()) =~= s@.subrange(hi - suffix.len(), hi as int));
    }
    b
}

// ---------------------------------------------------------------------------
// Building strings
// ---------------------------------------------------------------------------

/// Appends a character to a string, with `String::push`. What it claims of
/// that method: the string afterwards is the string before with `c` at its
/// end.
#[verifier::external_body]
pub(crate) fn push_char(s: &mut String, c: char)
    ensures
        final(s)@ == old(s)@.push(c),
{
    s.push(c);
}

/// The characters of a string slice, in order.
pub fn chars_of(s: &str) -> (r: Vec<char>)
    ensures
        r@ == s@,
{
    proof {
        broadcast use vstd::string::group_string_axioms;

    }
    let mut out: Vec<char> = Vec::new();
    for c in it: s.chars()
        invariant
            out@ == it.seq().take(it.index() as int),
    {
        out.push(c);
    }
    out
}

/// The string made of `s[lo..hi]`.
pub fn string_of_range(s: &Vec<char>, lo: usize, hi: usize) -> (r: String)
    requires
        lo <= hi <= s.len(),
    ensures
        r@ == s@.subrange(lo as int, hi as int),
{
    let mut out = String::new();
    let mut i = lo;
    while i < hi
        invariant
            lo <= i <= hi <= s.len(),
            out@ == s@.subrange(lo as int, i as int),
        decreases hi - i,
    {
        push_char(&mut out, s[i]);
        i = i + 1;
        proof {
            assert(s@.subrange(lo as int, i as int) =~= s@.subrange(lo as int, i - 1).push(
                s@[i - 1],
            ));
        }
    }
    out
}

/// The string made of all of `s`.
pub fn string_of(s: &Vec<char>) -> (r: String)
    ensures
        r@ == s@,
{
    let r = string_of_range(s, 0, s.len());
    proof {
        assert(s@.subrange(0, s.len() as int) =~= s@);
    }
    r
}

/// Appends the characters of `t` to `v`.
pub fn extend_chars(v: &mut Vec<char>, t: &Vec<char>)
    ensures
        final(v)@ == old(v)@ + t@,
{
    let mut i: usize = 0;
    while i < t.len()
        invariant
            0 <= i <= t.len(),
            v@ == old(v)@ + t@.take(i as int),
        decreases t.len() - i,
    {
        v.push(t[i]);
        i = i + 1;
        proof {
            assert(t@.take(i as int) =~= t@.take(i - 1).push(t@[i - 1]));
        }
    }
    proof {
        assert(t@.take(t.len() as int) =~= t@);
    }
}

/// Appends the characters of `t` to `v`.
pub fn extend_str(v: &mut Vec<char>, t: &str)
    ensures
        final(v)@ == old(v)@ + t@,
{
    let c = chars_of(t);
    extend_chars(v, &c);
}

/// The characters of a string.
pub fn chars_of_string(s: &String) -> (r: Vec<char>)
    ensures
        r@ == s@,
{
    chars_of(s.as_str())
}

/// The concatenation of `a` and `b`.
pub fn concat(a: &str, b: &str) -> (r: String)
    ensures
        r@ == a@ + b@,
{
    let mut v = chars_of(a);
    extend_str(&mut v, b);
    string_of(&v)
}


// ---------------------------------------------------------------------------
// Byte offsets in UTF-8
// ---------------------------------------------------------------------------

/// The number of bytes that UTF-8 takes for `c`.
pub open spec fn utf8_len(c: char) -> nat {
    if (c as u32) < 0x80 {
        1
    } else if (c as u32) < 0x800 {
        2
    } else if (c as u32) < 0x10000 {
        3
    } else {
        4
    }
}

/// The number of bytes that UTF-8 takes for `s`.
pub open spec fn byte_len(s: Seq<char>) -> nat
    decreases s.len(),
{
    if s.len() == 0 {
        0
    } else {
        byte_len(s.drop_last()) + utf8_len(s.last())
    }
}

/// Byte `b` of the UTF-8 form of `s` is where its character `k` starts (or
/// its end, for `k == s.len()`).
pub open spec fn boundary_at(s: Seq<char>, k: int, b: int) -> bool {
    0 <= k <= s.len() && byte_len(s.take(k)) == b
}

/// Byte `b` of the UTF-8 form of `s` is a character boundary: slicing `s`
/// there, as `&s[..b]` does, does not panic.
pub open spec fn is_char_boundary(s: Seq<char>, b: int) -> bool {
    exists|k: int| boundary_at(s, k, b)
}

/// The index of the character that starts at byte `b` of `s`.
pub open spec fn char_index(s: Seq<char>, b: int) -> int {
    choose|k: int| boundary_at(s, k, b)
}

/// The characters between bytes `a` and `b` of `s`, as `&s[a..b]` gives them.
pub open spec fn byte_slice(s: Seq<char>, a: int, b: int) -> Seq<char> {
    s.subrange(char_index(s, a), char_index(s, b))
}

proof fn lemma_byte_len_step(s: Seq<char>, i: int)
    requires
        0 <= i < s.len(),
    ensures
        byte_len(s.take(i + 1)) == byte_len(s.take(i)) + utf8_len(s[i]),
{
    assert(s.take(i + 1).drop_last() =~= s.take(i));
}

proof fn lemma_byte_len_increases(s: Seq<char>, i: int, j: int)
    requires
        0 <= i < j <= s.len(),
    ensures
        byte_len(s.take(i)) < byte_len(s.take(j)),
    decreases j - i,
{
    lemma_byte_len_step(s, j - 1);
    if i < j - 1 {
        lemma_byte_len_increases(s, i, j - 1);
    }
}

/// A character boundary starts exactly one character.
pub proof fn lemma_boundary_unique(s: Seq<char>, k: int, b: int)
    requires
        boundary_at(s, k, b),
    ensures
        char_index(s, b) == k,
{
    let c = char_index(s, b);
    assert(boundary_at(s, c, b));
    if c < k {
        lemma_byte_len_increases(s, c, k);
    } else if k < c {
        lemma_byte_len_increases(s, k, c);
    }
}

/// Characters start in the order of their bytes.
pub proof fn lemma_boundary_order(s: Seq<char>, k1: int, b1: int, k2: int, b2: int)
    requires
        boundary_at(s, k1, b1),
        boundary_at(s, k2, b2),
        b1 <= b2,
    ensures
        k1 <= k2,
{
    if k2 < k1 {
        lemma_byte_len_increases(s, k2, k1);
    }
}

/// The number of bytes that UTF-8 takes for `c`.
pub fn char_utf8_len(c: char) -> (r: usize)
    ensures
        r == utf8_len(c),
{
    let n = c as u32;
    if n < 0x80 {
        1
    } else if n < 0x800 {
        2
    } else if n < 0x10000 {
        3
    } else {
        4
    }
}

/// The index of the character of `s` that starts at byte `b`, if one does.
pub fn find_boundary(s: &Vec<char>, b: usize) -> (r: Option<usize>)
    requires
        b <= 4096,
    ensures
        match r {
            Some(k) => boundary_at(s@, k as int, b as int) && char_index(s@, b as int) == k,
            None => !is_char_boundary(s@, b as int),
        },
{
    let mut i: usize = 0;
    let mut acc: usize = 0;
    proof {
        assert(s@.take(0) =~= Seq::<char>::empty());
    }
    while i < s.len() && acc < b
        invariant
            0 <= i <= s.len(),
            acc == byte_len(s@.take(i as int)),
            b <= 4096,
            acc < b + 4,
            forall|k: int| 0 <= k < i ==> byte_len(#[trigger] s@.take(k)) < b,
        decreases s.len() - i,
    {
        proof {
            lemma_byte_len_step(s@, i as int);
        }
        acc = acc + char_utf8_len(s[i]);
        i = i + 1;
    }
    if acc == b {
        proof {
            lemma_boundary_unique(s@, i as int, b as int);
        }
        Some(i)
    } else {
        proof {
            assert forall|k: int| !boundary_at(s@, k, b as int) by {
                if 0 <= k <= s.len() && k > i {
                    lemma_byte_len_increases(s@, i as int, k);
                }
            }
        }
        None
    }
}

} // verus!
