//! Character-sequence utilities shared by the parsers and formatters:
//! prefix and substring tests, ASCII case folding, whitespace trimming,
//! and decimal conversion in both directions.

use vstd::prelude::*;

verus! {

/// True when `p` is a prefix of `s`.
pub open spec fn has_prefix(s: Seq<char>, p: Seq<char>) -> bool {
    p.len() <= s.len() && s.subrange(0, p.len() as int) == p
}

/// True when `p` occurs in `s` starting at index `i`.
pub open spec fn occurs_at(s: Seq<char>, p: Seq<char>, i: int) -> bool {
    0 <= i && i + p.len() <= s.len() && s.subrange(i, i + p.len() as int) == p
}

/// True when `p` occurs somewhere in `s`.
pub open spec fn contains_seq(s: Seq<char>, p: Seq<char>) -> bool {
    exists|i: int| occurs_at(s, p, i)
}

/// ASCII lower-casing of one character; anything outside `A`..`Z` is kept.
pub open spec fn lower_char(c: char) -> char {
    if 'A' <= c && c <= 'Z' {
        ((c as u32) + 32) as char
    } else {
        c
    }
}

/// ASCII lower-casing of a character sequence.
pub open spec fn lower_seq(s: Seq<char>) -> Seq<char> {
    s.map_values(|c: char| lower_char(c))
}

/// The whitespace characters recognised by the line parsers.
pub open spec fn is_space_char(c: char) -> bool {
    c == ' ' || c == '\t' || c == '\r' || c == '\n'
}

/// A decimal digit.
pub open spec fn is_digit_char(c: char) -> bool {
    '0' <= c && c <= '9'
}

/// Numeric value of a decimal digit character.
pub open spec fn digit_val(c: char) -> nat {
    (c as nat - '0' as nat) as nat
}

/// True when `s` is non-empty and all of its characters are decimal digits.
pub open spec fn all_digits(s: Seq<char>) -> bool {
    s.len() > 0 && forall|i: int| 0 <= i < s.len() ==> is_digit_char(#[trigger] s[i])
}

/// Value of a digit sequence read as a decimal numeral.
pub open spec fn digits_val(s: Seq<char>) -> nat
    decreases s.len(),
{
    if s.len() == 0 {
        0
    } else {
        digits_val(s.drop_last()) * 10 + digit_val(s.last())
    }
}

/// The digit character for a value below ten.
pub open spec fn digit_char(d: nat) -> char {
    (('0' as u32) + d as u32) as char
}

/// Decimal numeral of `n`, most significant digit first.
pub open spec fn dec_seq(n: nat) -> Seq<char>
    decreases n,
{
    if n < 10 {
        seq![digit_char(n)]
    } else {
        dec_seq(n / 10).push(digit_char(n % 10))
    }
}

/// Character-for-character equality of two string slices.
pub fn str_eq(a: &str, b: &str) -> (r: bool)
    ensures
        r == (a@ == b@),
{
    let an = a.unicode_len();
    let bn = b.unicode_len();
    if an != bn {
        proof {
            assert(a@ != b@);
        }
        return false;
    }
    let mut i: usize = 0;
    while i < an
        invariant
            an == a@.len(),
            an == b@.len(),
            i <= an,
            forall|j: int| 0 <= j < i ==> a@[j] == b@[j],
        decreases an - i,
    {
        if a.get_char(i) != b.get_char(i) {
            proof {
                assert(a@[i as int] != b@[i as int]);
            }
            return false;
        }
        i += 1;
    }
    proof {
        assert(a@ =~= b@);
    }
    true
}

/// Whether `p` is a prefix of `s`.
pub fn starts_with_str(s: &str, p: &str) -> (r: bool)
    ensures
        r == has_prefix(s@, p@),
{
    let sn = s.unicode_len();
    let pn = p.unicode_len();
    if pn > sn {
        return false;
    }
    let mut i: usize = 0;
    while i < pn
        invariant
            sn == s@.len(),
            pn == p@.len(),
            pn <= sn,
            i <= pn,
            forall|j: int| 0 <= j < i ==> s@[j] == p@[j],
        decreases pn - i,
    {
        if s.get_char(i) != p.get_char(i) {
            proof {
                assert(s@[i as int] != p@[i as int]);
                assert(!has_prefix(s@, p@)) by {
                    if has_prefix(s@, p@) {
                        assert(s@.subrange(0, p@.len() as int)[i as int] == p@[i as int]);
                    }
                }
            }
            return false;
        }
        i += 1;
    }
    proof {
        assert(s@.subrange(0, pn as int) =~= p@);
    }
    true
}

/// Whether `p` occurs at index `i` of `s`.
fn match_at(s: &str, p: &str, i: usize) -> (r: bool)
    requires
        i + p@.len() <= s@.len(),
    ensures
        r == occurs_at(s@, p@, i as int),
{
    let sn = s.unicode_len();
    let pn = p.unicode_len();
    let mut j: usize = 0;
    while j < pn
        invariant
            sn == s@.len(),
            pn == p@.len(),
            i + pn <= sn,
            j <= pn,
            forall|m: int| 0 <= m < j ==> s@[i + m] == p@[m],
        decreases pn - j,
    {
        if s.get_char(i + j) != p.get_char(j) {
            proof {
                assert(s@[i + j] != p@[j as int]);
                assert(!occurs_at(s@, p@, i as int)) by {
                    if occurs_at(s@, p@, i as int) {
                        assert(s@.subrange(i as int, i + pn as int)[j as int] == p@[j as int]);
                    }
                }
            }
            return false;
        }
        j += 1;
    }
    proof {
        assert(forall|m: int|
            0 <= m < pn ==> #[trigger] s@.subrange(i as int, i + pn as int)[m] == s@[i + m]);
        assert(s@.subrange(i as int, i + pn as int) =~= p@);
    }
    true
}

/// Whether `p` occurs anywhere in `s`.
pub fn contains_str(s: &str, p: &str) -> (r: bool)
    ensures
        r == contains_seq(s@, p@),
{
    let sn = s.unicode_len();
    let pn = p.unicode_len();
    if pn > sn {
        proof {
            assert(!contains_seq(s@, p@));
        }
        return false;
    }
    if pn == 0 {
        proof {
            assert(s@.subrange(0, 0) =~= p@);
            assert(occurs_at(s@, p@, 0));
        }
        return true;
    }
    let mut i: usize = 0;
    while i <= sn - pn
        invariant
            sn == s@.len(),
            pn == p@.len(),
            1 <= pn <= sn,
            i <= sn - pn + 1,
            forall|k: int| 0 <= k < i ==> !occurs_at(s@, p@, k),
        decreases sn - pn - i + 1,
    {
        if match_at(s, p, i) {
            return true;
        }
        i += 1;
    }
    proof {
        assert(!contains_seq(s@, p@)) by {
            if contains_seq(s@, p@) {
                let k = choose|k: int| occurs_at(s@, p@, k);
                assert(!occurs_at(s@, p@, k));
            }
        }
    }
    false
}

/// Whether `s`, ASCII lower-cased, equals `p` character for character.
pub fn lower_eq(s: &str, p: &str) -> (r: bool)
    ensures
        r == (lower_seq(s@) == p@),
{
    let sn = s.unicode_len();
    let pn = p.unicode_len();
    if sn != pn {
        proof {
            assert(lower_seq(s@).len() == s@.len());
        }
        return false;
    }
    let mut i: usize = 0;
    while i < sn
        invariant
            sn == s@.len(),
            pn == p@.len(),
            sn == pn,
            i <= sn,
            forall|j: int| 0 <= j < i ==> lower_seq(s@)[j] == p@[j],
        decreases sn - i,
    {
        if lower_char_exec(s.get_char(i)) != p.get_char(i) {
            proof {
                assert(lower_seq(s@)[i as int] != p@[i as int]);
            }
            return false;
        }
        i += 1;
    }
    proof {
        assert(lower_seq(s@) =~= p@);
    }
    true
}

/// Whether `p`, already lower case, occurs at index `i` of `s` after
/// ASCII lower-casing of `s`.
fn lower_match_at(s: &str, p: &str, i: usize) -> (r: bool)
    requires
        i + p@.len() <= s@.len(),
    ensures
        r == occurs_at(lower_seq(s@), p@, i as int),
{
    let sn = s.unicode_len();
    let pn = p.unicode_len();
    let mut j: usize = 0;
    while j < pn
        invariant
            sn == s@.len(),
            pn == p@.len(),
            i + pn <= sn,
            j <= pn,
            forall|m: int| 0 <= m < j ==> lower_seq(s@)[i + m] == p@[m],
        decreases pn - j,
    {
        let c = lower_char_exec(s.get_char(i + j));
        if c != p.get_char(j) {
            proof {
                assert(lower_seq(s@)[i + j] != p@[j as int]);
                assert(!occurs_at(lower_seq(s@), p@, i as int)) by {
                    if occurs_at(lower_seq(s@), p@, i as int) {
                        assert(lower_seq(s@).subrange(i as int, i + pn as int)[j as int]
                            == p@[j as int]);
                    }
                }
            }
            return false;
        }
        j += 1;
    }
    proof {
        assert(forall|m: int|
            0 <= m < pn ==> #[trigger] lower_seq(s@).subrange(i as int, i + pn as int)[m]
                == lower_seq(s@)[i + m]);
        assert(lower_seq(s@).subrange(i as int, i + pn as int) =~= p@);
    }
    true
}

/// Whether `p` occurs in `s` after ASCII lower-casing of `s` alone.
/// Vendor detection passes an already lower-case `p`.
pub fn lower_contains(s: &str, p: &str) -> (r: bool)
    ensures
        r == contains_seq(lower_seq(s@), p@),
{
    let sn = s.unicode_len();
    let pn = p.unicode_len();
    if pn > sn {
        proof {
            assert(lower_seq(s@).len() == s@.len());
            assert(!contains_seq(lower_seq(s@), p@));
        }
        return false;
    }
    if pn == 0 {
        proof {
            assert(lower_seq(s@).subrange(0, 0) =~= p@);
            assert(occurs_at(lower_seq(s@), p@, 0));
        }
        return true;
    }
    let mut i: usize = 0;
    while i <= sn - pn
        invariant
            sn == s@.len(),
            pn == p@.len(),
            1 <= pn <= sn,
            i <= sn - pn + 1,
            forall|k: int| 0 <= k < i ==> !occurs_at(lower_seq(s@), p@, k),
        decreases sn - pn - i + 1,
    {
        if lower_match_at(s, p, i) {
            return true;
        }
        i += 1;
    }
    proof {
        assert(!contains_seq(lower_seq(s@), p@)) by {
            if contains_seq(lower_seq(s@), p@) {
                let k = choose|k: int| occurs_at(lower_seq(s@), p@, k);
                assert(lower_seq(s@).len() == s@.len());
                assert(!occurs_at(lower_seq(s@), p@, k));
            }
        }
    }
    false
}

/// ASCII lower-casing of one character.
pub fn lower_char_exec(c: char) -> (r: char)
    ensures
        r == lower_char(c),
{
    let code = c as u32;
    if 65 <= code && code <= 90 {
        proof {
            assert('A' <= c && c <= 'Z');
        }
        ((code + 32) as u8) as char
    } else {
        proof {
            assert(!('A' <= c && c <= 'Z'));
        }
        c
    }
}

/// Whether `c` is parser whitespace.
pub fn is_space(c: char) -> (r: bool)
    ensures
        r == is_space_char(c),
{
    c == ' ' || c == '\t' || c == '\r' || c == '\n'
}

/// Index of the first non-whitespace character at or after `from`,
/// or the length of `s` when the rest is all whitespace.
pub fn skip_spaces(s: &str, from: usize) -> (r: usize)
    requires
        from <= s@.len(),
    ensures
        from <= r <= s@.len(),
        forall|j: int| from <= j < r ==> is_space_char(#[trigger] s@[j]),
        r < s@.len() ==> !is_space_char(s@[r as int]),
{
    let n = s.unicode_len();
    let mut i = from;
    while i < n
        invariant
            n == s@.len(),
            from <= i <= n,
            forall|j: int| from <= j < i ==> is_space_char(#[trigger] s@[j]),
        decreases n - i,
    {
        if !is_space(s.get_char(i)) {
            return i;
        }
        i += 1;
    }
    i
}

/// Index just past the last non-whitespace run starting at `from`:
/// the first whitespace character at or after `from`, or the length of `s`.
pub fn skip_token(s: &str, from: usize) -> (r: usize)
    requires
        from <= s@.len(),
    ensures
        from <= r <= s@.len(),
        forall|j: int| from <= j < r ==> !is_space_char(#[trigger] s@[j]),
        r < s@.len() ==> is_space_char(s@[r as int]),
{
    let n = s.unicode_len();
    let mut i = from;
    while i < n
        invariant
            n == s@.len(),
            from <= i <= n,
            forall|j: int| from <= j < i ==> !is_space_char(#[trigger] s@[j]),
        decreases n - i,
    {
        if is_space(s.get_char(i)) {
            return i;
        }
        i += 1;
    }
    i
}

/// The sequence with leading and trailing whitespace removed.
pub open spec fn trim_seq(s: Seq<char>) -> Seq<char>
    decreases s.len(),
{
    if s.len() > 0 && is_space_char(s[0]) {
        trim_seq(s.drop_first())
    } else if s.len() > 0 && is_space_char(s.last()) {
        trim_seq(s.drop_last())
    } else {
        s
    }
}

/// Removes leading and trailing whitespace.
pub fn trim(s: &str) -> (r: String)
    ensures
        r@ == trim_seq(s@),
{
    let n = s.unicode_len();
    let mut a: usize = 0;
    proof {
        assert(s@.skip(0) =~= s@);
    }
    while a < n && is_space(s.get_char(a))
        invariant
            n == s@.len(),
            a <= n,
            forall|j: int| 0 <= j < a ==> is_space_char(#[trigger] s@[j]),
            trim_seq(s@) == trim_seq(s@.skip(a as int)),
        decreases n - a,
    {
        proof {
            assert(s@.skip(a as int).drop_first() =~= s@.skip(a + 1));
        }
        a += 1;
    }
    let mut b: usize = n;
    proof {
        assert(s@.subrange(a as int, n as int) =~= s@.skip(a as int));
    }
    while b > a && is_space(s.get_char(b - 1))
        invariant
            n == s@.len(),
            a <= b <= n,
            a < n ==> !is_space_char(s@[a as int]),
            a == n ==> b == a,
            forall|j: int| b <= j < n ==> is_space_char(#[trigger] s@[j]),
            trim_seq(s@) == trim_seq(s@.subrange(a as int, b as int)),
        decreases b,
    {
        proof {
            let part = s@.subrange(a as int, b as int);
            assert(part.len() > 0 && !is_space_char(part[0]));
            assert(part.last() == s@[b - 1]);
            assert(part.drop_last() =~= s@.subrange(a as int, b - 1));
        }
        b -= 1;
    }
    proof {
        let part = s@.subrange(a as int, b as int);
        if part.len() > 0 {
            assert(!is_space_char(part[0]));
            assert(part.last() == s@[b - 1]);
            if b < n {
                assert(is_space_char(s@[b as int]));
            }
            assert(!is_space_char(part.last()));
        }
        assert(trim_seq(part) == part);
    }
    String::from_str(s.substring_char(a, b))
}

/// The decimal `u32` a string spells, read as the standard library
/// does: an optional leading `+`, then one or more digits, rejecting
/// overflow.
pub open spec fn parsed_u32(s: Seq<char>) -> Option<u32> {
    let digits = if s.len() > 0 && s[0] == '+' {
        s.drop_first()
    } else {
        s
    };
    if all_digits(digits) && digits_val(digits) <= u32::MAX {
        Some(digits_val(digits) as u32)
    } else {
        None
    }
}

/// Parses a decimal `u32` as the standard library does.
pub fn parse_u32(s: &str) -> (r: Option<u32>)
    ensures
        r == parsed_u32(s@),
{
    let n = s.unicode_len();
    let start: usize = if n > 0 && s.get_char(0) == '+' {
        1
    } else {
        0
    };
    let ghost digits = if s@.len() > 0 && s@[0] == '+' {
        s@.drop_first()
    } else {
        s@
    };
    proof {
        assert(digits =~= s@.skip(start as int));
    }
    if n == start {
        return None;
    }
    let mut acc: u32 = 0;
    let mut i = start;
    while i < n
        invariant
            n == s@.len(),
            start <= i <= n,
            start < n,
            digits =~= s@.skip(start as int),
            digits == (if s@.len() > 0 && s@[0] == '+' {
                s@.drop_first()
            } else {
                s@
            }),
            forall|j: int| start <= j < i ==> is_digit_char(#[trigger] s@[j]),
            acc == digits_val(s@.subrange(start as int, i as int)),
        decreases n - i,
    {
        let c = s.get_char(i);
        let code = c as u32;
        if code < 48 || code > 57 {
            proof {
                assert(!is_digit_char(s@[i as int]));
                assert(digits[i - start] == s@[i as int]);
                assert(!all_digits(digits));
            }
            return None;
        }
        proof {
            assert(is_digit_char(c));
        }
        let d: u32 = code - 48;
        let next = match acc.checked_mul(10) {
            Some(m) => m.checked_add(d),
            None => None,
        };
        match next {
            Some(v) => {
                proof {
                    let pre = s@.subrange(start as int, i as int);
                    let cur = s@.subrange(start as int, i + 1);
                    assert(cur.drop_last() =~= pre);
                    assert(cur.last() == s@[i as int]);
                    assert(digit_val(c) == d);
                }
                acc = v;
                i += 1;
            },
            None => {
                proof {
                    let pre = s@.subrange(start as int, i as int);
                    let cur = s@.subrange(start as int, i + 1);
                    assert(cur.drop_last() =~= pre);
                    assert(cur.last() == s@[i as int]);
                    assert(digit_val(c) == d);
                    assert(digits_val(cur) == acc * 10 + d);
                    assert(digits_val(cur) > u32::MAX);
                    assert(cur =~= digits.take(i + 1 - start));
                    if all_digits(digits) {
                        lemma_digits_val_monotonic(digits, (i + 1 - start) as int);
                        assert(digits_val(digits) > u32::MAX);
                    }
                }
                return None;
            },
        }
    }
    proof {
        assert(s@.subrange(start as int, n as int) =~= digits);
        assert(forall|j: int| 0 <= j < digits.len() ==> is_digit_char(#[trigger] digits[j]));
    }
    Some(acc)
}

/// A digit prefix never values more than the whole digit string.
proof fn lemma_digits_val_monotonic(s: Seq<char>, k: int)
    requires
        0 <= k <= s.len(),
        forall|i: int| 0 <= i < s.len() ==> is_digit_char(#[trigger] s[i]),
    ensures
        digits_val(s.take(k)) <= digits_val(s),
    decreases s.len() - k,
{
    if k < s.len() {
        let t = s.take(k + 1);
        assert(t.drop_last() =~= s.take(k));
        assert(digits_val(s.take(k)) <= digits_val(s.take(k + 1)));
        lemma_digits_val_monotonic(s, k + 1);
        assert(s.take(s.len() as int) =~= s);
    } else {
        assert(s.take(k) =~= s);
    }
}

/// The numeral spelled by raw digit values, least significant first.
spec fn rev_chars(ds: Seq<u8>) -> Seq<char>
    decreases ds.len(),
{
    if ds.len() == 0 {
        Seq::empty()
    } else {
        seq![digit_char(ds.last() as nat)] + rev_chars(ds.drop_last())
    }
}

/// Appends the decimal numeral of `n` to `out`.
pub fn append_u64(out: &mut String, n: u64)
    ensures
        final(out)@ == old(out)@ + dec_seq(n as nat),
{
    let mut digits: Vec<u8> = Vec::new();
    let mut rest = n;
    loop
        invariant_except_break
            digits@.len() == 0 ==> rest == n,
            digits@.len() > 0 ==> dec_seq(n as nat) == dec_seq(rest as nat) + rev_chars(digits@),
            forall|i: int| 0 <= i < digits@.len() ==> #[trigger] digits@[i] < 10,
        ensures
            dec_seq(n as nat) == rev_chars(digits@),
            forall|i: int| 0 <= i < digits@.len() ==> #[trigger] digits@[i] < 10,
        decreases rest,
    {
        let d = (rest % 10) as u8;
        let next = rest / 10;
        let ghost pre = digits@;
        digits.push(d);
        proof {
            assert(digits@.last() == d);
            assert(digits@.drop_last() =~= pre);
            assert(rev_chars(digits@) == seq![digit_char(d as nat)] + rev_chars(pre));
            if next == 0 {
                assert(dec_seq(rest as nat) == seq![digit_char(d as nat)]);
                if pre.len() == 0 {
                    assert(rev_chars(pre) =~= Seq::<char>::empty());
                    assert(seq![digit_char(d as nat)] + rev_chars(pre) =~= seq![
                        digit_char(d as nat),
                    ]);
                    assert(dec_seq(n as nat) == rev_chars(digits@));
                } else {
                    assert(dec_seq(n as nat) == dec_seq(rest as nat) + rev_chars(pre));
                    assert(dec_seq(rest as nat) + rev_chars(pre) =~= seq![digit_char(d as nat)]
                        + rev_chars(pre));
                    assert(dec_seq(n as nat) == rev_chars(digits@));
                }
            } else {
                assert(rest >= 10);
                assert(dec_seq(rest as nat) == dec_seq(next as nat).push(
                    digit_char((rest % 10) as nat),
                ));
                assert(dec_seq(next as nat).push(digit_char(d as nat)) =~= dec_seq(next as nat)
                    + seq![digit_char(d as nat)]);
                if pre.len() == 0 {
                    assert(rev_chars(pre) =~= Seq::<char>::empty());
                    assert(dec_seq(next as nat) + seq![digit_char(d as nat)] =~= dec_seq(
                        next as nat,
                    ) + rev_chars(digits@));
                    assert(dec_seq(n as nat) == dec_seq(next as nat) + rev_chars(digits@));
                } else {
                    assert((dec_seq(next as nat) + seq![digit_char(d as nat)]) + rev_chars(pre)
                        =~= dec_seq(next as nat) + (seq![digit_char(d as nat)] + rev_chars(pre)));
                    assert(dec_seq(n as nat) == dec_seq(next as nat) + rev_chars(digits@));
                }
            }
        }
        if next == 0 {
            break;
        }
        rest = next;
    }
    let ghost whole = dec_seq(n as nat);
    proof {
        assert(digits@.take(digits@.len() as int) =~= digits@);
        assert(out@ + rev_chars(digits@.take(digits@.len() as int)) == old(out)@ + whole);
    }
    let mut k = digits.len();
    while k > 0
        invariant
            k <= digits@.len(),
            forall|i: int| 0 <= i < digits@.len() ==> #[trigger] digits@[i] < 10,
            whole == dec_seq(n as nat),
            out@ + rev_chars(digits@.take(k as int)) == old(out)@ + whole,
        decreases k,
    {
        k -= 1;
        let d = digits[k];
        let ghost before = out@;
        append_digit(out, d);
        proof {
            let t = digits@.take(k + 1);
            assert(t.last() == d);
            assert(t.drop_last() =~= digits@.take(k as int));
            assert(rev_chars(t) == seq![digit_char(d as nat)] + rev_chars(digits@.take(k as int)));
            assert((before + seq![digit_char(d as nat)]) + rev_chars(digits@.take(k as int))
                =~= before + (seq![digit_char(d as nat)] + rev_chars(digits@.take(k as int))));
        }
    }
    proof {
        assert(digits@.take(0) =~= Seq::<u8>::empty());
        assert(out@ + rev_chars(digits@.take(0)) =~= out@);
    }
}

/// Appends one decimal digit character.
fn append_digit(out: &mut String, d: u8)
    requires
        d < 10,
    ensures
        final(out)@ == old(out)@ + seq![digit_char(d as nat)],
{
    match d {
        0 => {
            proof {
                reveal_strlit("0");
            }
            out.append("0");
        },
        1 => {
            proof {
                reveal_strlit("1");
            }
            out.append("1");
        },
        2 => {
            proof {
                reveal_strlit("2");
            }
            out.append("2");
        },
        3 => {
            proof {
                reveal_strlit("3");
            }
            out.append("3");
        },
        4 => {
            proof {
                reveal_strlit("4");
            }
            out.append("4");
        },
        5 => {
            proof {
                reveal_strlit("5");
            }
            out.append("5");
        },
        6 => {
            proof {
                reveal_strlit("6");
            }
            out.append("6");
        },
        7 => {
            proof {
                reveal_strlit("7");
            }
            out.append("7");
        },
        8 => {
            proof {
                reveal_strlit("8");
            }
            out.append("8");
        },
        _ => {
            proof {
                reveal_strlit("9");
            }
            out.append("9");
        },
    }
}

/// The decimal numeral of `n` as a fresh string.
pub fn u64_to_string(n: u64) -> (r: String)
    ensures
        r@ == dec_seq(n as nat),
{
    let mut out = String::new();
    append_u64(&mut out, n);
    proof {
        assert(Seq::<char>::empty() + dec_seq(n as nat) =~= dec_seq(n as nat));
    }
    out
}

/// The decimal numeral of `n` as a fresh string.
pub fn u32_to_string(n: u32) -> (r: String)
    ensures
        r@ == dec_seq(n as nat),
{
    u64_to_string(n as u64)
}

} // verus!
