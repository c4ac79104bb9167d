//! Decimal numerals, integer parsing with the rules of `str::parse`,
//! splitting at a separator and string equality, over `Seq<char>` models.
use vstd::prelude::*;

verus! {

/// The character of decimal digit `d` (`0 <= d < 10`).
pub open spec fn digit_char(d: int) -> char {
    if d == 0 { '0' }
    else if d == 1 { '1' }
    else if d == 2 { '2' }
    else if d == 3 { '3' }
    else if d == 4 { '4' }
    else if d == 5 { '5' }
    else if d == 6 { '6' }
    else if d == 7 { '7' }
    else if d == 8 { '8' }
    else { '9' }
}

/// Decimal numeral of a natural number, without leading zeros.
pub open spec fn dec_nat(n: nat) -> Seq<char>
    decreases n,
{
    if n < 10 {
        seq![digit_char(n as int)]
    } else {
        dec_nat(n / 10).push(digit_char((n % 10) as int))
    }
}

/// Decimal numeral of an integer as `to_string` writes it: a leading `-`
/// for negative values.
pub open spec fn dec_int(v: int) -> Seq<char> {
    if v < 0 {
        seq!['-'] + dec_nat((-v) as nat)
    } else {
        dec_nat(v as nat)
    }
}

fn digit_str(d: u64) -> (r: &'static str)
    requires
        d < 10,
    ensures
        r@ == seq![digit_char(d as int)],
{
    proof {
        reveal_strlit("0");
        reveal_strlit("1");
        reveal_strlit("2");
        reveal_strlit("3");
        reveal_strlit("4");
        reveal_strlit("5");
        reveal_strlit("6");
        reveal_strlit("7");
        reveal_strlit("8");
        reveal_strlit("9");
    }
    let r = if d == 0 { "0" }
    else if d == 1 { "1" }
    else if d == 2 { "2" }
    else if d == 3 { "3" }
    else if d == 4 { "4" }
    else if d == 5 { "5" }
    else if d == 6 { "6" }
    else if d == 7 { "7" }
    else if d == 8 { "8" }
    else { "9" };
    assert(r@ =~= seq![digit_char(d as int)]);
    r
}

/// Appends the decimal numeral of `n` to `out`.
pub fn push_nat(out: &mut String, n: u64)
    ensures
        final(out)@ == old(out)@ + dec_nat(n as nat),
    decreases n,
{
    if n >= 10 {
        push_nat(out, n / 10);
    }
    out.append(digit_str(n % 10));
    proof {
        if n >= 10 {
            assert(old(out)@ + dec_nat(n as nat) =~= old(out)@ + dec_nat((n / 10) as nat) + seq![digit_char((n % 10) as int)]);
        } else {
            assert(old(out)@ + dec_nat(n as nat) =~= old(out)@ + seq![digit_char((n % 10) as int)]);
        }
    }
}

/// Appends the decimal numeral of `v` (with `-` when negative) to `out`.
pub fn push_int(out: &mut String, v: i64)
    ensures
        final(out)@ == old(out)@ + dec_int(v as int),
{
    if v < 0 {
        out.append("-");
        proof { reveal_strlit("-"); }
        let m: u64 = (-(v as i128)) as u64;
        push_nat(out, m);
        assert(final(out)@ =~= old(out)@ + dec_int(v as int));
    } else {
        push_nat(out, v as u64);
    }
}

/// The decimal numeral of `n`, as `n.to_string()` gives it.
pub fn u64_to_string(n: u64) -> (r: String)
    ensures
        r@ == dec_nat(n as nat),
{
    let mut s = String::new();
    push_nat(&mut s, n);
    assert(s@ =~= dec_nat(n as nat));
    s
}

/// The decimal numeral of `v`, as `v.to_string()` gives it.
pub fn i64_to_string(v: i64) -> (r: String)
    ensures
        r@ == dec_int(v as int),
{
    let mut s = String::new();
    push_int(&mut s, v);
    assert(s@ =~= dec_int(v as int));
    s
}


/// ASCII decimal digit.
pub open spec fn is_digit(c: char) -> bool {
    '0' <= c && c <= '9'
}

/// Value of an ASCII decimal digit.
pub open spec fn digit_value(c: char) -> int {
    c as int - '0' as int
}

pub open spec fn all_digits(s: Seq<char>) -> bool {
    forall|i: int| 0 <= i < s.len() ==> is_digit(#[trigger] s[i])
}

/// Value of a string of decimal digits, most significant first.
pub open spec fn digits_value(s: Seq<char>) -> int
    decreases s.len(),
{
    if s.len() == 0 {
        0
    } else {
        digits_value(s.drop_last()) * 10 + digit_value(s.last())
    }
}

/// The integer that `str::parse` reads from `s` for a signed type wide
/// enough to hold it: an optional `+` or `-`, then one or more ASCII digits,
/// and nothing else.
pub open spec fn parse_int(s: Seq<char>) -> Option<int> {
    if s.len() > 0 && (s[0] == '+' || s[0] == '-') {
        let rest = s.skip(1);
        if rest.len() > 0 && all_digits(rest) {
            if s[0] == '-' {
                Some(-digits_value(rest))
            } else {
                Some(digits_value(rest))
            }
        } else {
            None
        }
    } else if s.len() > 0 && all_digits(s) {
        Some(digits_value(s))
    } else {
        None
    }
}

/// What `str::parse` gives for a signed integer type whose range is
/// `lo..=hi`: the value when it is in range, `None` (an error) otherwise.
pub open spec fn parse_in_range(s: Seq<char>, lo: int, hi: int) -> Option<int> {
    match parse_int(s) {
        Some(v) => if lo <= v && v <= hi { Some(v) } else { None },
        None => None,
    }
}

/// `s.parse::<i32>()`, as an option.
pub open spec fn parse_i32_spec(s: Seq<char>) -> Option<int> {
    parse_in_range(s, i32::MIN as int, i32::MAX as int)
}

/// `s.parse::<i64>()`, as an option.
pub open spec fn parse_i64_spec(s: Seq<char>) -> Option<int> {
    parse_in_range(s, i64::MIN as int, i64::MAX as int)
}

/// `s.parse::<i32>().unwrap_or_default()`.
pub open spec fn parse_i32_or_zero(s: Seq<char>) -> int {
    match parse_i32_spec(s) {
        Some(v) => v,
        None => 0,
    }
}

proof fn lemma_digits_value_nonneg(s: Seq<char>)
    requires
        all_digits(s),
    ensures
        digits_value(s) >= 0,
    decreases s.len(),
{
    if s.len() > 0 {
        assert(all_digits(s.drop_last()));
        lemma_digits_value_nonneg(s.drop_last());
    }
}

proof fn lemma_digits_value_prefix_le(s: Seq<char>, i: int, j: int)
    requires
        all_digits(s),
        0 <= i <= j <= s.len(),
    ensures
        digits_value(s.take(i)) <= digits_value(s.take(j)),
    decreases j - i,
{
    if i < j {
        lemma_digits_value_prefix_le(s, i, j - 1);
        assert(s.take(j).drop_last() =~= s.take(j - 1));
        assert(all_digits(s.take(j - 1)));
        lemma_digits_value_nonneg(s.take(j - 1));
        assert(is_digit(s[j - 1]));
    }
}

/// Reads the digits of `s` from index `start` on into a magnitude, giving up
/// (with `None`) as soon as the value exceeds `limit`.
fn read_magnitude(s: &str, len: usize, start: usize, limit: u64) -> (r: Option<u64>)
    requires
        len == s@.len(),
        start < len,
        limit <= 0x8000_0000_0000_0000u64,
    ensures
        match r {
            Some(m) => all_digits(s@.skip(start as int)) && m == digits_value(s@.skip(start as int))
                && m <= limit,
            None => !all_digits(s@.skip(start as int)) || digits_value(s@.skip(start as int)) > limit,
        },
{
    let ghost t = s@.skip(start as int);
    let mut acc: u128 = 0;
    let mut i: usize = start;
    while i < len
        invariant
            start <= i <= len,
            len == s@.len(),
            t == s@.skip(start as int),
            limit <= 0x8000_0000_0000_0000u64,
            all_digits(t.take(i - start)),
            acc == digits_value(t.take(i - start)),
            acc <= limit,
        decreases len - i,
    {
        let c = s.get_char(i);
        if !('0' <= c && c <= '9') {
            assert(t[i - start] == c);
            assert(!is_digit(t[i - start]));
            return None;
        }
        let d: u128 = ((c as u32) - ('0' as u32)) as u128;
        acc = acc * 10 + d;
        proof {
            assert(t.take(i + 1 - start).drop_last() =~= t.take(i - start));
            assert(t[i - start] == c);
            assert(all_digits(t.take(i + 1 - start)));
        }
        i = i + 1;
        if acc > limit as u128 {
            proof {
                if all_digits(t) {
                    lemma_digits_value_prefix_le(t, i - start, t.len() as int);
                    assert(t.take(t.len() as int) =~= t);
                }
            }
            return None;
        }
    }
    assert(t.take(i - start) =~= t);
    Some(acc as u64)
}

/// `s.parse()` for a signed integer type whose range is `lo..=hi`.
fn parse_signed(s: &str, lo: i64, hi: i64) -> (r: Option<i64>)
    requires
        lo < 0 < hi,
    ensures
        match r {
            Some(v) => parse_in_range(s@, lo as int, hi as int) == Some(v as int),
            None => parse_in_range(s@, lo as int, hi as int) is None,
        },
{
    let len = s.unicode_len();
    if len == 0 {
        return None;
    }
    let c0 = s.get_char(0);
    if c0 == '-' || c0 == '+' {
        if len == 1 {
            return None;
        }
        let negative = c0 == '-';
        let limit: u64 = if negative { (-(lo as i128)) as u64 } else { hi as u64 };
        match read_magnitude(s, len, 1, limit) {
            Some(m) => {
                let v: i64 = if negative { (-(m as i128)) as i64 } else { m as i64 };
                Some(v)
            },
            None => None,
        }
    } else {
        let limit: u64 = hi as u64;
        match read_magnitude(s, len, 0, limit) {
            Some(m) => {
                assert(s@.skip(0) =~= s@);
                Some(m as i64)
            },
            None => {
                assert(s@.skip(0) =~= s@);
                None
            },
        }
    }
}

/// `s.parse::<i32>().ok()`.
pub fn parse_i32(s: &str) -> (r: Option<i32>)
    ensures
        match r {
            Some(v) => parse_i32_spec(s@) == Some(v as int),
            None => parse_i32_spec(s@) is None,
        },
{
    match parse_signed(s, i32::MIN as i64, i32::MAX as i64) {
        Some(v) => Some(v as i32),
        None => None,
    }
}

/// `s.parse::<i64>().ok()`.
pub fn parse_i64(s: &str) -> (r: Option<i64>)
    ensures
        match r {
            Some(v) => parse_i64_spec(s@) == Some(v as int),
            None => parse_i64_spec(s@) is None,
        },
{
    parse_signed(s, i64::MIN, i64::MAX)
}

/// `s.parse::<i32>().unwrap_or_default()`.
pub fn parse_i32_or_default(s: &str) -> (r: i32)
    ensures
        r == parse_i32_or_zero(s@),
{
    match parse_i32(s) {
        Some(v) => v,
        None => 0,
    }
}


/// The separator between the fields of a teacher's plan line: `"; "`.
pub open spec fn field_separator() -> Seq<char> {
    seq![';', ' ']
}

/// `pat` occurs somewhere in `s`.
pub open spec fn occurs_in(pat: Seq<char>, s: Seq<char>) -> bool {
    exists|i: int| matches_at(s, pat, i)
}

/// `pat` occurs in `s` at index `i`.
pub open spec fn matches_at(s: Seq<char>, pat: Seq<char>, i: int) -> bool {
    0 <= i && i + pat.len() <= s.len() && s.subrange(i, i + pat.len()) == pat
}

/// Index of the first occurrence of `pat` in `s` at or after `i`, or `-1`.
pub open spec fn find_from(s: Seq<char>, pat: Seq<char>, i: int) -> int
    decreases s.len() - i,
{
    if i < 0 || i + pat.len() > s.len() {
        -1
    } else if pat.len() == 0 || matches_at(s, pat, i) {
        i
    } else {
        find_from(s, pat, i + 1)
    }
}

/// The pieces that `s.split(pat)` yields, in order: the text up to the
/// first occurrence of `pat`, then the pieces of the rest after it.
pub open spec fn split_fields(s: Seq<char>, pat: Seq<char>) -> Seq<Seq<char>>
    decreases s.len(),
{
    let k = find_from(s, pat, 0);
    if pat.len() > 0 && 0 <= k && k + pat.len() <= s.len() {
        seq![s.take(k)] + split_fields(s.skip(k + pat.len()), pat)
    } else {
        seq![s]
    }
}

pub proof fn lemma_find_from_props(s: Seq<char>, pat: Seq<char>, i: int)
    requires
        pat.len() > 0,
        0 <= i,
    ensures
        find_from(s, pat, i) == -1 || (i <= find_from(s, pat, i) && matches_at(s, pat, find_from(s, pat, i))),
        find_from(s, pat, i) == -1 ==> forall|j: int| i <= j ==> !matches_at(s, pat, j),
        find_from(s, pat, i) >= 0 ==> forall|j: int| i <= j < find_from(s, pat, i) ==> !matches_at(s, pat, j),
    decreases s.len() - i,
{
    if i + pat.len() > s.len() {
    } else if matches_at(s, pat, i) {
    } else {
        lemma_find_from_props(s, pat, i + 1);
    }
}


fn matches_at_exec(s: &str, slen: usize, pat: &str, plen: usize, i: usize) -> (r: bool)
    requires
        slen == s@.len(),
        plen == pat@.len(),
        i + plen <= slen,
    ensures
        r == matches_at(s@, pat@, i as int),
{
    let mut j: usize = 0;
    while j < plen
        invariant
            slen == s@.len(),
            plen == pat@.len(),
            i + plen <= slen,
            j <= plen,
            forall|k: int| 0 <= k < j ==> s@[i + k] == pat@[k],
        decreases plen - j,
    {
        if s.get_char(i + j) != pat.get_char(j) {
            assert(s@.subrange(i as int, i + plen)[j as int] != pat@[j as int]);
            return false;
        }
        j = j + 1;
    }
    assert(s@.subrange(i as int, i + plen) =~= pat@);
    true
}

/// First index at or after `start` where `pat` occurs in `s`.
fn find_pattern(s: &str, slen: usize, pat: &str, plen: usize, start: usize) -> (r: Option<usize>)
    requires
        slen == s@.len(),
        plen == pat@.len(),
        plen > 0,
    ensures
        match r {
            Some(k) => find_from(s@, pat@, start as int) == k,
            None => find_from(s@, pat@, start as int) == -1,
        },
{
    if start > slen || plen > slen - start {
        return None;
    }
    let mut i: usize = start;
    while i <= slen - plen
        invariant
            plen <= slen,
            slen == s@.len(),
            plen == pat@.len(),
            plen > 0,
            start <= i,
            i <= slen,
            find_from(s@, pat@, start as int) == find_from(s@, pat@, i as int),
        decreases slen - i,
    {
        if matches_at_exec(s, slen, pat, plen, i) {
            return Some(i);
        }
        i = i + 1;
    }
    None
}

/// `s.split_once(pat)`: the text before the first occurrence of `pat` and
/// the text after it.
pub fn split_once<'a>(s: &'a str, pat: &str) -> (r: Option<(&'a str, &'a str)>)
    requires
        pat@.len() > 0,
    ensures
        match r {
            Some((a, b)) => split_fields(s@, pat@) == seq![a@] + split_fields(b@, pat@)
                && b@.len() < s@.len(),
            None => split_fields(s@, pat@) == seq![s@],
        },
{
    let slen = s.unicode_len();
    let plen = pat.unicode_len();
    match find_pattern(s, slen, pat, plen, 0) {
        Some(k) => {
            proof { lemma_find_from_props(s@, pat@, 0); }
            let a = s.substring_char(0, k);
            let b = s.substring_char(k + plen, slen);
            assert(a@ =~= s@.take(k as int));
            assert(b@ =~= s@.skip(k + plen));
            Some((a, b))
        },
        None => None,
    }
}

/// The first piece of `s.split(pat)`.
pub fn first_field<'a>(s: &'a str, pat: &str) -> (r: &'a str)
    requires
        pat@.len() > 0,
    ensures
        r@ == split_fields(s@, pat@)[0],
{
    match split_once(s, pat) {
        Some((a, _)) => a,
        None => s,
    }
}

/// `s.split(pat).nth(n)`.
pub fn nth_field<'a>(s: &'a str, pat: &str, n: usize) -> (r: Option<&'a str>)
    requires
        pat@.len() > 0,
    ensures
        match r {
            Some(f) => n < split_fields(s@, pat@).len() && f@ == split_fields(s@, pat@)[n as int],
            None => n >= split_fields(s@, pat@).len(),
        },
    decreases n,
{
    match split_once(s, pat) {
        Some((a, b)) => {
            if n == 0 {
                Some(a)
            } else {
                let r = nth_field(b, pat, n - 1);
                assert(split_fields(s@, pat@).len() == 1 + split_fields(b@, pat@).len());
                match r {
                    Some(f) => {
                        assert(split_fields(s@, pat@)[n as int] == split_fields(b@, pat@)[n - 1]);
                        Some(f)
                    },
                    None => None,
                }
            }
        },
        None => {
            if n == 0 { Some(s) } else { None }
        },
    }
}

/// `a == b` on string slices.
pub fn str_eq(a: &str, b: &str) -> (r: bool)
    ensures
        r == (a@ == b@),
{
    let alen = a.unicode_len();
    let blen = b.unicode_len();
    if alen != blen {
        return false;
    }
    let mut i: usize = 0;
    while i < alen
        invariant
            alen == a@.len(),
            blen == b@.len(),
            alen == blen,
            i <= alen,
            forall|k: int| 0 <= k < i ==> a@[k] == b@[k],
        decreases alen - i,
    {
        if a.get_char(i) != b.get_char(i) {
            return false;
        }
        i = i + 1;
    }
    assert(a@ =~= b@);
    true
}


proof fn lemma_digit_char_value(d: int)
    requires
        0 <= d < 10,
    ensures
        is_digit(digit_char(d)),
        digit_value(digit_char(d)) == d,
{
}

/// The numeral of `n` is a non-empty string of digits worth `n`.
pub proof fn lemma_dec_nat_value(n: nat)
    ensures
        dec_nat(n).len() > 0,
        all_digits(dec_nat(n)),
        digits_value(dec_nat(n)) == n,
    decreases n,
{
    if n < 10 {
        lemma_digit_char_value(n as int);
        assert(dec_nat(n).drop_last() =~= Seq::<char>::empty());
        assert(digits_value(Seq::<char>::empty()) == 0);
        assert(dec_nat(n).last() == digit_char(n as int));
    } else {
        lemma_dec_nat_value(n / 10);
        lemma_digit_char_value((n % 10) as int);
        assert(dec_nat(n).drop_last() =~= dec_nat(n / 10));
        assert(dec_nat(n).last() == digit_char((n % 10) as int));
        assert(n == (n / 10) * 10 + n % 10);
        assert forall|i: int| 0 <= i < dec_nat(n).len() implies is_digit(#[trigger] dec_nat(n)[i]) by {
            if i < dec_nat(n / 10).len() {
                assert(dec_nat(n)[i] == dec_nat(n / 10)[i]);
            }
        }
    }
}

/// Parsing the numeral that `to_string` writes for `v` gives `v` back.
pub proof fn lemma_parse_dec_int(v: int)
    ensures
        parse_int(dec_int(v)) == Some(v),
{
    if v < 0 {
        let m = (-v) as nat;
        lemma_dec_nat_value(m);
        let s = dec_int(v);
        assert(s.skip(1) =~= dec_nat(m));
        assert(s[0] == '-');
    } else {
        lemma_dec_nat_value(v as nat);
        let s = dec_int(v);
        assert(is_digit(s[0]));
    }
}

/// No character of the numeral of `v` is `c` unless `c` is a digit or
/// (for negative `v`) the minus sign.
pub proof fn lemma_dec_int_chars(v: int, c: char)
    requires
        !is_digit(c),
        v >= 0 || c != '-',
    ensures
        !dec_int(v).contains(c),
{
    if v < 0 {
        lemma_dec_nat_value((-v) as nat);
        assert forall|i: int| 0 <= i < dec_int(v).len() implies dec_int(v)[i] != c by {
            if i > 0 {
                assert(dec_int(v)[i] == dec_nat((-v) as nat)[i - 1]);
            }
        }
    } else {
        lemma_dec_nat_value(v as nat);
        assert forall|i: int| 0 <= i < dec_int(v).len() implies dec_int(v)[i] != c by {
            assert(is_digit(dec_int(v)[i]));
        }
    }
}

proof fn lemma_find_char_after_plain(a: Seq<char>, c: char, b: Seq<char>, i: int)
    requires
        !a.contains(c),
        0 <= i <= a.len(),
    ensures
        find_from(a + seq![c] + b, seq![c], i) == a.len(),
    decreases a.len() - i,
{
    let s = a + seq![c] + b;
    if i < a.len() {
        assert(s[i] == a[i]);
        if matches_at(s, seq![c], i) {
            assert(s.subrange(i, i + 1)[0] == s[i]);
            assert(a.contains(a[i]));
        }
        lemma_find_char_after_plain(a, c, b, i + 1);
    } else {
        assert(s.subrange(i, i + 1) =~= seq![c]);
    }
}

proof fn lemma_find_char_absent(a: Seq<char>, c: char, i: int)
    requires
        !a.contains(c),
        0 <= i,
    ensures
        find_from(a, seq![c], i) == -1,
    decreases a.len() - i,
{
    if i + 1 <= a.len() {
        if matches_at(a, seq![c], i) {
            assert(a.subrange(i, i + 1)[0] == a[i]);
            assert(a.contains(a[i]));
        }
        lemma_find_char_absent(a, c, i + 1);
    }
}

/// Splitting at a single character: a first piece without it comes out
/// whole, and the rest is split on its own.
pub proof fn lemma_split_char_concat(a: Seq<char>, c: char, b: Seq<char>)
    requires
        !a.contains(c),
    ensures
        split_fields(a + seq![c] + b, seq![c]) == seq![a] + split_fields(b, seq![c]),
{
    let s = a + seq![c] + b;
    lemma_find_char_after_plain(a, c, b, 0);
    assert(s.take(a.len() as int) =~= a);
    assert(s.skip(a.len() as int + 1) =~= b);
}

/// A text without the separator is a single piece.
pub proof fn lemma_split_char_absent(a: Seq<char>, c: char)
    requires
        !a.contains(c),
    ensures
        split_fields(a, seq![c]) == seq![a],
{
    lemma_find_char_absent(a, c, 0);
}


proof fn lemma_find_pair_after_plain(a: Seq<char>, pat: Seq<char>, b: Seq<char>, i: int)
    requires
        pat.len() == 2,
        pat[0] != pat[1],
        !occurs_in(pat, a),
        0 <= i <= a.len(),
    ensures
        find_from(a + pat + b, pat, i) == a.len(),
    decreases a.len() - i,
{
    let s = a + pat + b;
    if i < a.len() {
        if matches_at(s, pat, i) {
            if i + 1 < a.len() {
                assert(a.subrange(i, i + 2) =~= s.subrange(i, i + 2));
                assert(matches_at(a, pat, i));
            } else {
                assert(s.subrange(i, i + 2)[1] == s[i + 1]);
                assert(s[i + 1] == pat[0]);
            }
        }
        lemma_find_pair_after_plain(a, pat, b, i + 1);
    } else {
        assert(s.subrange(i, i + 2) =~= pat);
    }
}

/// Splitting at a two-character separator whose characters differ: a first
/// piece in which the separator does not occur comes out whole.
pub proof fn lemma_split_pair_concat(a: Seq<char>, pat: Seq<char>, b: Seq<char>)
    requires
        pat.len() == 2,
        pat[0] != pat[1],
        !occurs_in(pat, a),
    ensures
        split_fields(a + pat + b, pat) == seq![a] + split_fields(b, pat),
{
    let s = a + pat + b;
    lemma_find_pair_after_plain(a, pat, b, 0);
    assert(s.take(a.len() as int) =~= a);
    assert(s.skip(a.len() as int + 2) =~= b);
}

/// A separator cannot occur in a text lacking its first character.
pub proof fn lemma_absent_char_no_occurrence(pat: Seq<char>, a: Seq<char>)
    requires
        pat.len() > 0,
        !a.contains(pat[0]),
    ensures
        !occurs_in(pat, a),
{
    assert forall|i: int| !matches_at(a, pat, i) by {
        if matches_at(a, pat, i) {
            assert(a.subrange(i, i + pat.len())[0] == a[i]);
            assert(a.contains(a[i]));
        }
    }
}

} // verus!
