//! Verified text utilities: character search, digit parsing and decimal
//! rendering, used by the key-normalization fallbacks, the dilution-notation
//! parser and the time formatter.

use vstd::prelude::*;

verus! {

/// Character-wise string equality.
pub fn str_eq(a: &str, b: &str) -> (r: bool)
    ensures
        r == (a@ == b@),
{
    let la: usize = a.unicode_len();
    let lb: usize = b.unicode_len();
    if la != lb {
        return false;
    }
    let mut i: usize = 0;
    while i < la
        invariant
            la == a@.len(),
            la == b@.len(),
            i <= la,
            forall|j: int| 0 <= j < i ==> a@[j] == b@[j],
        decreases la - i,
    {
        if a.get_char(i) != b.get_char(i) {
            proof {
                assert(a@[i as int] != b@[i as int]);
            }
            return false;
        }
        i = i + 1;
    }
    proof {
        assert(a@ =~= b@);
    }
    true
}

/// Index of the first occurrence of `c` in `s`.
pub open spec fn spec_find(s: Seq<char>, c: char) -> Option<int>
    decreases s.len(),
{
    if s.len() == 0 {
        None
    } else if s[0] == c {
        Some(0)
    } else {
        match spec_find(s.drop_first(), c) {
            None => None,
            Some(i) => Some(i + 1),
        }
    }
}

proof fn lemma_spec_find_not_found(s: Seq<char>, c: char)
    requires
        forall|j: int| 0 <= j < s.len() ==> s[j] != c,
    ensures
        spec_find(s, c) is None,
    decreases s.len(),
{
    if s.len() > 0 {
        lemma_spec_find_not_found(s.drop_first(), c);
    }
}

proof fn lemma_spec_find_found(s: Seq<char>, c: char, i: int)
    requires
        0 <= i < s.len(),
        s[i] == c,
        forall|j: int| 0 <= j < i ==> s[j] != c,
    ensures
        spec_find(s, c) == Some(i),
    decreases i,
{
    if i > 0 {
        lemma_spec_find_found(s.drop_first(), c, i - 1);
    }
}

/// First occurrence of `c` in `s` at or after `start`, as an absolute index.
pub fn find_char(s: &str, c: char, start: usize) -> (r: Option<usize>)
    requires
        start <= s@.len(),
    ensures
        match r {
            None => spec_find(s@.skip(start as int), c) is None,
            Some(i) => start <= i < s@.len() && spec_find(s@.skip(start as int), c) == Some(
                i - start,
            ),
        },
{
    let n: usize = s.unicode_len();
    let mut i: usize = start;
    while i < n
        invariant
            n == s@.len(),
            start <= i <= n,
            forall|j: int| start <= j < i ==> s@[j] != c,
        decreases n - i,
    {
        if s.get_char(i) == c {
            proof {
                lemma_spec_find_found(s@.skip(start as int), c, i - start);
            }
            return Some(i);
        }
        i = i + 1;
    }
    proof {
        lemma_spec_find_not_found(s@.skip(start as int), c);
    }
    None
}

/// A developer key with a trailing `_stock` or `_kit` variant suffix
/// stripped; one substitution only, and any other key unchanged.
pub open spec fn spec_strip_variant(k: Seq<char>) -> Seq<char> {
    if k.len() >= 6 && k.skip(k.len() - 6) == "_stock"@ {
        k.take(k.len() - 6)
    } else if k.len() >= 4 && k.skip(k.len() - 4) == "_kit"@ {
        k.take(k.len() - 4)
    } else {
        k
    }
}

pub fn strip_variant_suffix(key: &str) -> (r: String)
    ensures
        r@ == spec_strip_variant(key@),
{
    let n: usize = key.unicode_len();
    if n >= 6 {
        let tail: &str = key.substring_char(n - 6, n);
        proof {
            assert(tail@ =~= key@.skip(n - 6));
        }
        if str_eq(tail, "_stock") {
            let head: &str = key.substring_char(0, n - 6);
            proof {
                assert(head@ =~= key@.take(n - 6));
            }
            return head.to_owned();
        }
    }
    if n >= 4 {
        let tail: &str = key.substring_char(n - 4, n);
        proof {
            assert(tail@ =~= key@.skip(n - 4));
        }
        if str_eq(tail, "_kit") {
            let head: &str = key.substring_char(0, n - 4);
            proof {
                assert(head@ =~= key@.take(n - 4));
            }
            return head.to_owned();
        }
    }
    key.to_owned()
}

/// A key with a trailing `_stock` suffix stripped, any other key unchanged.
pub open spec fn spec_strip_stock(k: Seq<char>) -> Seq<char> {
    if k.len() >= 6 && k.skip(k.len() - 6) == "_stock"@ {
        k.take(k.len() - 6)
    } else {
        k
    }
}

pub fn strip_stock_suffix(key: &str) -> (r: String)
    ensures
        r@ == spec_strip_stock(key@),
{
    let n: usize = key.unicode_len();
    if n >= 6 {
        let tail: &str = key.substring_char(n - 6, n);
        proof {
            assert(tail@ =~= key@.skip(n - 6));
        }
        if str_eq(tail, "_stock") {
            let head: &str = key.substring_char(0, n - 6);
            proof {
                assert(head@ =~= key@.take(n - 6));
            }
            return head.to_owned();
        }
    }
    key.to_owned()
}

/// The first two underscore-delimited segments of a key, joined back
/// together; `None` when the key has fewer than two segments.
pub open spec fn spec_first_two_segments(k: Seq<char>) -> Option<Seq<char>> {
    match spec_find(k, '_') {
        None => None,
        Some(i) => match spec_find(k.skip(i + 1), '_') {
            None => Some(k),
            Some(j) => Some(k.take(i + 1 + j)),
        },
    }
}

pub fn first_two_segments(key: &str) -> (r: Option<String>)
    ensures
        match r {
            None => spec_first_two_segments(key@) is None,
            Some(s) => spec_first_two_segments(key@) == Some(s@),
        },
{
    let first: Option<usize> = find_char(key, '_', 0);
    match first {
        None => {
            proof {
                assert(key@.skip(0) =~= key@);
            }
            None
        },
        Some(i) => {
            proof {
                assert(key@.skip(0) =~= key@);
            }
            let n: usize = key.unicode_len();
            let second: Option<usize> = find_char(key, '_', i + 1);
            match second {
                None => Some(key.to_owned()),
                Some(j) => {
                    let head: &str = key.substring_char(0, j);
                    proof {
                        assert(head@ =~= key@.take(j as int));
                    }
                    Some(head.to_owned())
                },
            }
        },
    }
}

pub open spec fn is_digit(c: char) -> bool {
    48 <= c as int <= 57
}

pub open spec fn digit_val(c: char) -> int {
    c as int - 48
}

/// A nonempty, all-digit sequence.
pub open spec fn all_digits(s: Seq<char>) -> bool {
    s.len() > 0 && forall|i: int| 0 <= i < s.len() ==> is_digit(s[i])
}

/// The number the digit sequence denotes, most significant digit first.
pub open spec fn digits_val(s: Seq<char>) -> int
    decreases s.len(),
{
    if s.len() == 0 {
        0
    } else {
        digits_val(s.take(s.len() - 1)) * 10 + digit_val(s[s.len() - 1])
    }
}

/// The digits of a numeral after an optional single leading plus sign.
pub open spec fn spec_numeral_digits(s: Seq<char>) -> Seq<char> {
    if s.len() > 0 && s[0] == '+' {
        s.drop_first()
    } else {
        s
    }
}

/// The number a numeric segment denotes: an optional single leading plus
/// sign followed by decimal digits, fitting the type; `default` otherwise.
pub open spec fn spec_parse_u32_or(s: Seq<char>, default: u32) -> u32 {
    let digits = spec_numeral_digits(s);
    if all_digits(digits) && digits_val(digits) <= u32::MAX {
        digits_val(digits) as u32
    } else {
        default
    }
}

pub fn parse_u32_or(s: &str, default: u32) -> (r: u32)
    ensures
        r == spec_parse_u32_or(s@, default),
{
    let n: usize = s.unicode_len();
    let start: usize = if n > 0 && s.get_char(0) == '+' {
        1
    } else {
        0
    };
    proof {
        assert(spec_numeral_digits(s@) =~= s@.skip(start as int));
    }
    if n == start {
        return default;
    }
    let mut acc: u64 = 0;
    let mut over: bool = false;
    let mut i: usize = start;
    while i < n
        invariant
            n == s@.len(),
            start <= i <= n,
            spec_numeral_digits(s@) == s@.skip(start as int),
            forall|j: int| start <= j < i ==> is_digit(s@[j]),
            !over ==> acc == digits_val(s@.skip(start as int).take(i - start)) && acc <= u32::MAX,
            over ==> digits_val(s@.skip(start as int).take(i - start)) > u32::MAX,
        decreases n - i,
    {
        let c: char = s.get_char(i);
        let cu: u32 = c as u32;
        if cu < 48 || cu > 57 {
            proof {
                assert(s@.skip(start as int)[i - start] == s@[i as int]);
            }
            return default;
        }
        let d: u64 = (cu - 48) as u64;
        proof {
            let sub = s@.skip(start as int);
            assert(sub.take(i - start + 1).take(i - start) =~= sub.take(i - start));
            assert(sub.take(i - start + 1)[i - start] == s@[i as int]);
        }
        if !over {
            let next: u64 = acc * 10 + d;
            if next > 0xffff_ffff {
                over = true;
            } else {
                acc = next;
            }
        }
        i = i + 1;
    }
    proof {
        assert(s@.skip(start as int).take(n - start) =~= s@.skip(start as int));
    }
    if over {
        default
    } else {
        acc as u32
    }
}

/// The decimal digit character for `d` in `0 .. 10`.
pub open spec fn digit_char(d: int) -> char {
    if d == 0 {
        '0'
    } else if d == 1 {
        '1'
    } else if d == 2 {
        '2'
    } else if d == 3 {
        '3'
    } else if d == 4 {
        '4'
    } else if d == 5 {
        '5'
    } else if d == 6 {
        '6'
    } else if d == 7 {
        '7'
    } else if d == 8 {
        '8'
    } else {
        '9'
    }
}

fn digit_str(d: u64) -> (s: &'static str)
    requires
        d < 10,
    ensures
        s@ == seq![digit_char(d as int)],
{
    let r: &'static str = match d {
        0 => "0",
        1 => "1",
        2 => "2",
        3 => "3",
        4 => "4",
        5 => "5",
        6 => "6",
        7 => "7",
        8 => "8",
        _ => "9",
    };
    proof {
        reveal_strlit("0");
        reveal_strlit("1");
        reveal_strlit("2");
        reveal_strlit("3");
        reveal_strlit("4");
        reveal_strlit("5");
        reveal_strlit("6");
        reveal_strlit("7");
        reveal_strlit("8");
        reveal_strlit("9");
        assert(r@ =~= seq![digit_char(d as int)]);
    }
    r
}

/// The decimal numeral of a nonnegative number, no leading zeros
/// (a single zero for zero itself).
pub open spec fn spec_u64_str(n: int) -> Seq<char>
    recommends
        n >= 0,
    decreases n,
{
    if n < 10 {
        seq![digit_char(n)]
    } else {
        spec_u64_str(n / 10) + seq![digit_char(n % 10)]
    }
}

pub fn u64_to_string(n: u64) -> (s: String)
    ensures
        s@ == spec_u64_str(n as int),
    decreases n,
{
    if n < 10 {
        digit_str(n).to_owned()
    } else {
        let mut s: String = u64_to_string(n / 10);
        s.append(digit_str(n % 10));
        s
    }
}

/// A number below 100 as exactly two digits, zero-padded.
pub open spec fn spec_two_digits(n: int) -> Seq<char> {
    seq![digit_char(n / 10), digit_char(n % 10)]
}

/// The `developer:water` ratio a dilution notation denotes.  A notation
/// without exactly one colon defaults to stock (1:0); an unparseable
/// segment defaults to 1 on the developer side and 0 on the water side.
pub open spec fn spec_ratio(s: Seq<char>) -> (u32, u32) {
    match spec_find(s, ':') {
        None => (1u32, 0u32),
        Some(i) => if spec_find(s.skip(i + 1), ':') is Some {
            (1u32, 0u32)
        } else {
            (spec_parse_u32_or(s.take(i), 1u32), spec_parse_u32_or(s.skip(i + 1), 0u32))
        },
    }
}

pub fn parse_ratio(s: &str) -> (r: (u32, u32))
    ensures
        r == spec_ratio(s@),
{
    let first: Option<usize> = find_char(s, ':', 0);
    proof {
        assert(s@.skip(0) =~= s@);
    }
    match first {
        None => (1, 0),
        Some(i) => {
            let n: usize = s.unicode_len();
            let second: Option<usize> = find_char(s, ':', i + 1);
            match second {
                Some(_) => (1, 0),
                None => {
                    let head: &str = s.substring_char(0, i);
                    let tail: &str = s.substring_char(i + 1, n);
                    proof {
                        assert(head@ =~= s@.take(i as int));
                        assert(tail@ =~= s@.skip(i + 1));
                    }
                    (parse_u32_or(head, 1), parse_u32_or(tail, 0))
                },
            }
        },
    }
}

/// The fraction digits of a fixed-point value, trailing zeros trimmed,
/// for `fp` in `1 .. 10000`.
pub open spec fn spec_frac_str(fp: int) -> Seq<char> {
    if fp % 10 != 0 {
        seq![
            digit_char(fp / 1000),
            digit_char((fp / 100) % 10),
            digit_char((fp / 10) % 10),
            digit_char(fp % 10),
        ]
    } else if fp % 100 != 0 {
        seq![digit_char(fp / 1000), digit_char((fp / 100) % 10), digit_char((fp / 10) % 10)]
    } else if fp % 1000 != 0 {
        seq![digit_char(fp / 1000), digit_char((fp / 100) % 10)]
    } else {
        seq![digit_char(fp / 1000)]
    }
}

/// A nonnegative fixed-point value as a minimal decimal numeral: no point
/// when the fraction is zero, no trailing fraction zeros otherwise.
pub open spec fn spec_fixed_str(units: int) -> Seq<char> {
    let ip = units / 10000;
    let fp = units % 10000;
    if fp == 0 {
        spec_u64_str(ip)
    } else {
        spec_u64_str(ip) + seq!['.'] + spec_frac_str(fp)
    }
}

pub fn fixed_to_string(x: crate::fixed::Fixed) -> (s: String)
    requires
        0 <= x.units,
    ensures
        s@ == spec_fixed_str(x.units as int),
{
    let u: u64 = x.units as u64;
    let ip: u64 = u / 10000;
    let fp: u64 = u % 10000;
    let mut s: String = u64_to_string(ip);
    if fp != 0 {
        s.append(".");
        proof {
            reveal_strlit(".");
        }
        let d1: u64 = fp / 1000;
        let d2: u64 = (fp / 100) % 10;
        let d3: u64 = (fp / 10) % 10;
        let d4: u64 = fp % 10;
        if fp % 10 != 0 {
            s.append(digit_str(d1));
            s.append(digit_str(d2));
            s.append(digit_str(d3));
            s.append(digit_str(d4));
        } else if fp % 100 != 0 {
            s.append(digit_str(d1));
            s.append(digit_str(d2));
            s.append(digit_str(d3));
        } else if fp % 1000 != 0 {
            s.append(digit_str(d1));
            s.append(digit_str(d2));
        } else {
            s.append(digit_str(d1));
        }
    }
    proof {
        assert(s@ =~= spec_fixed_str(x.units as int));
    }
    s
}

/// Whole seconds as `M:SS`: unbounded whole minutes, a colon, and the
/// remaining seconds zero-padded to two digits.
pub open spec fn spec_mmss(total_seconds: int) -> Seq<char> {
    spec_u64_str(total_seconds / 60) + seq![':'] + spec_two_digits(total_seconds % 60)
}

pub fn format_seconds(total_seconds: u64) -> (s: String)
    ensures
        s@ == spec_mmss(total_seconds as int),
{
    let mut s: String = u64_to_string(total_seconds / 60);
    s.append(":");
    proof {
        reveal_strlit(":");
    }
    let r: u64 = total_seconds % 60;
    s.append(digit_str(r / 10));
    s.append(digit_str(r % 10));
    proof {
        assert(s@ =~= spec_mmss(total_seconds as int));
    }
    s
}

} // verus!
