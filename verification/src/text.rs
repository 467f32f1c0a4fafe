//! Character-level helpers shared by the rest of the library: turning text
//! into character vectors and back, searching for fragments, rendering and
//! parsing decimal numbers.
use vstd::prelude::*;

verus! {

broadcast use vstd::string::group_string_axioms;

/// `p` is a prefix of `s`.
pub open spec fn has_prefix(s: Seq<char>, p: Seq<char>) -> bool {
    p.len() <= s.len() && s.take(p.len() as int) == p
}

/// `p` occurs in `s` starting at position `i`.
pub open spec fn occurs_at(s: Seq<char>, p: Seq<char>, i: int) -> bool {
    0 <= i && i + p.len() <= s.len() && s.subrange(i, i + p.len()) == p
}

/// `p` occurs somewhere in `s`.
pub open spec fn contains_text(s: Seq<char>, p: Seq<char>) -> bool {
    exists|i: int| occurs_at(s, p, i)
}

/// Position of the first occurrence of `c` in `s`, if any.
pub open spec fn first_index_of(s: Seq<char>, c: char) -> Option<int> {
    if s.contains(c) {
        Some(choose|i: int| 0 <= i < s.len() && s[i] == c && forall|j: int| 0 <= j < i ==> s[j] != c)
    } else {
        None
    }
}

/// The characters of `s`, in order.
pub fn chars_of(s: &str) -> (v: Vec<char>)
    ensures
        v@ == s@,
{
    let mut v: Vec<char> = Vec::new();
    for c in it: s.chars()
        invariant
            it.seq() == s@,
            v@ == s@.take(it.index() as int),
    {
        v.push(c);
    }
    assert(v@ =~= s@);
    v
}

/// Appends one character to a `String` (std's `String::push`).
pub assume_specification[ String::push ](s: &mut String, ch: char)
    ensures
        final(s)@ == old(s)@.push(ch),
;

/// The characters `v[from..to]` as a `String`.
pub fn string_from_range(v: &Vec<char>, from: usize, to: usize) -> (s: String)
    requires
        from <= to <= v.len(),
    ensures
        s@ == v@.subrange(from as int, to as int),
{
    let mut s = String::new();
    let mut i = from;
    while i < to
        invariant
            from <= i <= to <= v.len(),
            s@ == v@.subrange(from as int, i as int),
        decreases to - i,
    {
        s.push(v[i]);
        i += 1;
        assert(s@ =~= v@.subrange(from as int, i as int));
    }
    s
}

/// The characters of `v` as a `String`.
pub fn string_from_chars(v: &Vec<char>) -> (s: String)
    ensures
        s@ == v@,
{
    let s = string_from_range(v, 0, v.len());
    assert(v@.subrange(0, v@.len() as int) =~= v@);
    s
}

/// Whether `p` is a prefix of `h`.
pub fn chars_start_with(h: &Vec<char>, p: &Vec<char>) -> (r: bool)
    ensures
        r == has_prefix(h@, p@),
{
    if p.len() > h.len() {
        return false;
    }
    let r = matches_at(h, p, 0);
    assert(h@.subrange(0, p@.len() as int) =~= h@.take(p@.len() as int));
    r
}

/// Whether `p` occurs in `h` at position `i`.
pub fn matches_at(h: &Vec<char>, p: &Vec<char>, i: usize) -> (r: bool)
    requires
        i + p.len() <= h.len(),
    ensures
        r == (h@.subrange(i as int, i + p.len()) == p@),
{
    let mut j: usize = 0;
    while j < p.len()
        invariant
            j <= p.len(),
            i + p.len() <= h.len(),
            forall|k: int| 0 <= k < j ==> h@[i + k] == p@[k],
        decreases p.len() - j,
    {
        if h[i + j] != p[j] {
            assert(h@.subrange(i as int, i + p.len())[j as int] != p@[j as int]);
            return false;
        }
        j += 1;
    }
    assert(h@.subrange(i as int, i + p.len()) =~= p@);
    true
}

/// Whether `p` occurs anywhere in `h`.
pub fn chars_contain(h: &Vec<char>, p: &Vec<char>) -> (r: bool)
    ensures
        r == contains_text(h@, p@),
{
    if p.len() > h.len() {
        assert(forall|i: int| !occurs_at(h@, p@, i));
        return false;
    }
    if p.len() == 0 {
        assert(h@.subrange(0, 0) =~= p@);
        assert(occurs_at(h@, p@, 0));
        return true;
    }
    let last = h.len() - p.len();
    let mut i: usize = 0;
    while i <= last
        invariant
            last == h.len() - p.len(),
            0 < p.len() <= h.len(),
            forall|k: int| 0 <= k < i ==> !occurs_at(h@, p@, k),
        decreases last + 1 - i,
    {
        if matches_at(h, p, i) {
            assert(occurs_at(h@, p@, i as int));
            return true;
        }
        i += 1;
    }
    assert forall|k: int| !occurs_at(h@, p@, k) by {
        if 0 <= k && k + p@.len() <= h@.len() {
            assert(k < i);
        }
    }
    false
}

/// Whether the text `pat` occurs anywhere in `h`.
pub fn chars_contain_str(h: &Vec<char>, pat: &str) -> (r: bool)
    ensures
        r == contains_text(h@, pat@),
{
    let p = chars_of(pat);
    chars_contain(h, &p)
}

/// Whether the character `c` occurs in `h`.
pub fn chars_contain_char(h: &Vec<char>, c: char) -> (r: bool)
    ensures
        r == h@.contains(c),
{
    match find_char(h, c) {
        Some(_) => {
            assert(h@.contains(c));
            true
        },
        None => false,
    }
}

/// Position of the first occurrence of `c` in `h`.
pub fn find_char(h: &Vec<char>, c: char) -> (r: Option<usize>)
    ensures
        r matches Some(i) ==> first_index_of(h@, c) == Some(i as int) && i < h@.len() && h@[i as int] == c,
        r is None ==> first_index_of(h@, c) is None,
{
    let mut i: usize = 0;
    while i < h.len()
        invariant
            i <= h.len(),
            forall|j: int| 0 <= j < i ==> h@[j] != c,
        decreases h.len() - i,
    {
        if h[i] == c {
            assert(h@.contains(c));
            let ghost w = choose|k: int| 0 <= k < h@.len() && h@[k] == c && forall|j: int| 0 <= j < k ==> h@[j] != c;
            assert(0 <= i < h@.len() && h@[i as int] == c && forall|j: int| 0 <= j < i ==> h@[j] != c);
            assert(w == i as int) by {
                if w < i as int {
                    assert(h@[w] != c);
                }
                if w > i as int {
                    assert(h@[i as int] != c);
                }
            }
            return Some(i);
        }
        i += 1;
    }
    assert(!h@.contains(c));
    None
}

/// The decimal digit character for `d`.
pub open spec fn digit_char(d: nat) -> char {
    ((d + 48) as u8) as char
}

/// Decimal rendering of a natural number, most significant digit first.
pub open spec fn decimal(n: nat) -> Seq<char>
    decreases n,
{
    if n < 10 {
        seq![digit_char(n)]
    } else {
        decimal(n / 10).push(digit_char(n % 10))
    }
}

/// `decimal(n)` spells `n`: a non-empty run of decimal digits whose value is
/// `n`, with no leading zero unless `n` is zero.
pub proof fn law_decimal_spells_value(n: nat)
    ensures
        decimal(n).len() >= 1,
        all_digits(decimal(n)),
        digits_value(decimal(n)) == n,
        decimal(n)[0] == '0' ==> n == 0,
    decreases n,
{
    if n < 10 {
        assert(digit_char(n) as int == n + 48);
        assert(decimal(n).drop_last() =~= Seq::<char>::empty());
        assert(digits_value(Seq::<char>::empty()) == 0);
    } else {
        law_decimal_spells_value(n / 10);
        let d = digit_char(n % 10);
        assert(d as int == n % 10 + 48);
        let s = decimal(n);
        assert(s == decimal(n / 10).push(d));
        assert(s.drop_last() =~= decimal(n / 10));
        assert(s.last() == d);
        assert(digits_value(s) == 10 * digits_value(decimal(n / 10)) + digit_value(d));
        assert(10 * (n / 10) + n % 10 == n);
        assert(s[0] == decimal(n / 10)[0]);
        assert forall|i: int| 0 <= i < s.len() implies is_digit(#[trigger] s[i]) by {
            if i < s.len() - 1 {
                assert(s[i] == decimal(n / 10)[i]);
            }
        }
    }
}

/// Decimal rendering of an integer, with a leading `-` when negative.
pub open spec fn signed_decimal(n: int) -> Seq<char> {
    if n < 0 {
        seq!['-'] + decimal((-n) as nat)
    } else {
        decimal(n as nat)
    }
}

/// Appends the decimal rendering of `n` to `out`.
pub fn push_decimal(out: &mut String, n: u64)
    ensures
        final(out)@ == old(out)@ + decimal(n as nat),
    decreases n,
{
    if n >= 10 {
        push_decimal(out, n / 10);
    }
    let d: u8 = (n % 10) as u8;
    out.push((d + 48) as char);
    proof {
        if n >= 10 {
            assert(decimal(n as nat) == decimal((n / 10) as nat).push(digit_char((n % 10) as nat)));
        } else {
            assert(decimal(n as nat) == seq![digit_char(n as nat)]);
        }
    }
    assert(final(out)@ =~= old(out)@ + decimal(n as nat));
}

/// Appends the decimal rendering of `n` (with a `-` sign when negative) to `out`.
pub fn push_signed_decimal(out: &mut String, n: i64)
    ensures
        final(out)@ == old(out)@ + signed_decimal(n as int),
{
    if n < 0 {
        out.push('-');
        let magnitude: u64 = (0i128 - n as i128) as u64;
        push_decimal(out, magnitude);
        assert(final(out)@ =~= old(out)@ + signed_decimal(n as int));
    } else {
        push_decimal(out, n as u64);
    }
}

/// Numeric value of a decimal digit character.
pub open spec fn digit_value(c: char) -> int {
    (c as int) - 48
}

/// `c` is one of `0`..`9`.
pub open spec fn is_digit(c: char) -> bool {
    '0' <= c && c <= '9'
}

/// Every character of `s` is a decimal digit.
pub open spec fn all_digits(s: Seq<char>) -> bool {
    forall|i: int| 0 <= i < s.len() ==> is_digit(#[trigger] s[i])
}

/// The value of a string of decimal digits, most significant first.
pub open spec fn digits_value(s: Seq<char>) -> int
    decreases s.len(),
{
    if s.len() == 0 {
        0
    } else {
        10 * digits_value(s.drop_last()) + digit_value(s.last())
    }
}

/// The integer that `s` spells in Rust's decimal integer syntax: an optional
/// `+` or `-` followed by at least one digit.
pub open spec fn integer_text_value(s: Seq<char>) -> Option<int> {
    if s.len() > 0 && (s[0] == '+' || s[0] == '-') {
        let rest = s.skip(1);
        if rest.len() > 0 && all_digits(rest) {
            Some(if s[0] == '-' { -digits_value(rest) } else { digits_value(rest) })
        } else {
            None
        }
    } else if s.len() > 0 && all_digits(s) {
        Some(digits_value(s))
    } else {
        None
    }
}

/// What `str::parse::<i64>` gives for `s`: the value when it is well formed
/// and fits in an `i64`.
pub open spec fn parsed_i64(s: Seq<char>) -> Option<i64> {
    match integer_text_value(s) {
        Some(v) => if i64::MIN <= v <= i64::MAX { Some(v as i64) } else { None },
        None => None,
    }
}

proof fn lemma_digits_value_nonneg(s: Seq<char>)
    requires
        all_digits(s),
    ensures
        digits_value(s) >= 0,
    decreases s.len(),
{
    if s.len() > 0 {
        assert(all_digits(s.drop_last()));
        lemma_digits_value_nonneg(s.drop_last());
    }
}

/// Value of a longer digit string is at least the value of its prefix.
proof fn lemma_prefix_value_bounds(s: Seq<char>, k: nat)
    requires
        all_digits(s),
        k <= s.len(),
    ensures
        digits_value(s) >= digits_value(s.take(k as int)),
    decreases s.len() - k,
{
    if k < s.len() {
        lemma_prefix_value_bounds(s, k + 1);
        assert(s.take(k as int + 1).drop_last() =~= s.take(k as int));
        assert(all_digits(s.take(k as int)));
        lemma_digits_value_nonneg(s.take(k as int));
    } else {
        assert(s.take(k as int) =~= s);
    }
}

/// Parses `s` as Rust's `str::parse::<i64>` does.
pub fn parse_i64(s: &str) -> (r: Option<i64>)
    ensures
        r == parsed_i64(s@),
{
    let v = chars_of(s);
    if v.len() == 0 {
        return None;
    }
    let negative = v[0] == '-';
    let start: usize = if v[0] == '+' || v[0] == '-' { 1 } else { 0 };
    if start == v.len() {
        assert(v@.skip(1).len() == 0);
        return None;
    }
    let mut i = start;
    while i < v.len()
        invariant
            start <= i <= v.len(),
            v@ == s@,
            v@.len() > 0,
            start == (if v@[0] == '+' || v@[0] == '-' { 1usize } else { 0usize }),
            forall|k: int| start <= k < i ==> is_digit(#[trigger] v@[k]),
        decreases v.len() - i,
    {
        if !('0' <= v[i] && v[i] <= '9') {
            proof {
                if start == 1 {
                    assert(v@.skip(1)[i - 1] == v@[i as int]);
                    assert(!is_digit(v@.skip(1)[i - 1]));
                } else {
                    assert(!is_digit(v@[i as int]));
                }
            }
            return None;
        }
        i += 1;
    }
    assert(all_digits(v@.skip(start as int))) by {
        assert forall|k: int| 0 <= k < v@.skip(start as int).len() implies is_digit(
            #[trigger] v@.skip(start as int)[k],
        ) by {
            assert(v@.skip(start as int)[k] == v@[start + k]);
        }
    }
    proof {
        if start == 0 {
            assert(v@.skip(0) =~= v@);
        }
    }
    // i64::MAX + 1 = 9223372036854775808, the largest magnitude a negative value may have.
    let limit: u64 = if negative { 9223372036854775808 } else { 9223372036854775807 };
    match digits_up_to_wide(&v, start, limit) {
        Some(m) => {
            if negative {
                if m == 9223372036854775808 {
                    Some(i64::MIN)
                } else {
                    Some(0i64 - (m as i64))
                }
            } else {
                Some(m as i64)
            }
        },
        None => None,
    }
}

/// Value of the digits `v[from..to]`, or `None` once it exceeds `bound`
/// (any `bound` up to `2^63`).
fn digits_up_to_wide(v: &Vec<char>, from: usize, bound: u64) -> (r: Option<u64>)
    requires
        from <= v.len(),
        all_digits(v@.skip(from as int)),
        bound <= 9223372036854775808,
    ensures
        r matches Some(x) ==> x as int == digits_value(v@.skip(from as int)) && x <= bound,
        r is None ==> digits_value(v@.skip(from as int)) > bound,
{
    let ghost rest = v@.skip(from as int);
    let mut acc: u128 = 0;
    let mut i = from;
    while i < v.len()
        invariant
            from <= i <= v.len(),
            rest == v@.skip(from as int),
            all_digits(rest),
            bound <= 9223372036854775808,
            acc as int == digits_value(v@.subrange(from as int, i as int)),
            acc <= bound,
        decreases v.len() - i,
    {
        let c = v[i];
        assert(rest[i - from] == c);
        assert(is_digit(c));
        let d: u128 = ((c as u32) - 48) as u128;
        assert(v@.subrange(from as int, i + 1).drop_last() =~= v@.subrange(from as int, i as int));
        assert(v@.subrange(from as int, i + 1).last() == c);
        let next = acc * 10 + d;
        i += 1;
        if next > bound as u128 {
            proof {
                assert(v@.subrange(from as int, i as int) =~= rest.take(i - from));
                lemma_prefix_value_bounds(rest, (i - from) as nat);
            }
            return None;
        }
        acc = next;
    }
    assert(v@.subrange(from as int, v@.len() as int) =~= rest);
    Some(acc as u64)
}

/// `c` has the Unicode `White_Space` property (PropList.txt): U+0009 to
/// U+000D, U+0020, U+0085, U+00A0, U+1680, U+2000 to U+200A, U+2028,
/// U+2029, U+202F, U+205F and U+3000.
pub open spec fn unicode_white_space(c: char) -> bool {
    let u = c as u32;
    ||| 0x09 <= u <= 0x0D
    ||| u == 0x20
    ||| u == 0x85
    ||| u == 0xA0
    ||| u == 0x1680
    ||| 0x2000 <= u <= 0x200A
    ||| u == 0x2028
    ||| u == 0x2029
    ||| u == 0x202F
    ||| u == 0x205F
    ||| u == 0x3000
}

/// Whether `c` has the Unicode `White_Space` property, as std's
/// `char::is_whitespace` answers.
pub fn is_white_space(c: char) -> (r: bool)
    ensures
        r == unicode_white_space(c),
{
    let u = c as u32;
    (0x09 <= u && u <= 0x0D) || u == 0x20 || u == 0x85 || u == 0xA0 || u == 0x1680
        || (0x2000 <= u && u <= 0x200A) || u == 0x2028 || u == 0x2029 || u == 0x202F
        || u == 0x205F || u == 0x3000
}

/// Every character of `s` is white space, so `s.trim()` is empty.
pub open spec fn is_blank_text(s: Seq<char>) -> bool {
    forall|i: int| 0 <= i < s.len() ==> unicode_white_space(#[trigger] s[i])
}

/// Whether `s` is empty once trimmed (`s.trim().is_empty()`): `trim` removes
/// leading and trailing characters that have the `White_Space` property.
pub fn is_blank(s: &str) -> (r: bool)
    ensures
        r == is_blank_text(s@),
{
    let v = chars_of(s);
    let mut i: usize = 0;
    while i < v.len()
        invariant
            i <= v.len(),
            v@ == s@,
            forall|k: int| 0 <= k < i ==> unicode_white_space(#[trigger] v@[k]),
        decreases v.len() - i,
    {
        if !is_white_space(v[i]) {
            assert(!unicode_white_space(s@[i as int]));
            return false;
        }
        i += 1;
    }
    true
}

} // verus!
