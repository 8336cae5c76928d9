//! Small text routines: decimal rendering, ASCII case folding, prefix tests,
//! whitespace trimming and integer parsing, each with its exact meaning
//! stated over character sequences.

use vstd::prelude::*;

verus! {

/// The character of a decimal digit.
pub open spec fn digit_char(d: nat) -> char
    recommends
        d < 10,
{
    if d == 0 {
        '0'
    } else if d == 1 {
        '1'
    } else if d == 2 {
        '2'
    } else if d == 3 {
        '3'
    } else if d == 4 {
        '4'
    } else if d == 5 {
        '5'
    } else if d == 6 {
        '6'
    } else if d == 7 {
        '7'
    } else if d == 8 {
        '8'
    } else {
        '9'
    }
}

/// The decimal rendering of `n`, without leading zeros ("0" for zero).
pub open spec fn decimal(n: nat) -> Seq<char>
    decreases n,
{
    if n < 10 {
        seq![digit_char(n)]
    } else {
        decimal(n / 10).push(digit_char(n % 10))
    }
}

fn digit_str(d: u64) -> (s: &'static str)
    requires
        d < 10,
    ensures
        s@ == seq![digit_char(d as nat)],
{
    proof {
        reveal_strlit("0");
        reveal_strlit("1");
        reveal_strlit("2");
        reveal_strlit("3");
        reveal_strlit("4");
        reveal_strlit("5");
        reveal_strlit("6");
        reveal_strlit("7");
        reveal_strlit("8");
        reveal_strlit("9");
    }
    if d == 0 {
        "0"
    } else if d == 1 {
        "1"
    } else if d == 2 {
        "2"
    } else if d == 3 {
        "3"
    } else if d == 4 {
        "4"
    } else if d == 5 {
        "5"
    } else if d == 6 {
        "6"
    } else if d == 7 {
        "7"
    } else if d == 8 {
        "8"
    } else {
        "9"
    }
}

/// Appends the decimal rendering of `n` to `s`.
pub fn push_decimal(s: &mut String, n: u64)
    ensures
        final(s)@ == old(s)@ + decimal(n as nat),
    decreases n,
{
    if n >= 10 {
        push_decimal(s, n / 10);
    }
    let d = digit_str(n % 10);
    s.append(d);
    assert(old(s)@ + decimal(n as nat) =~= s@);
}

/// ASCII lower-casing of a single character; other characters are unchanged.
pub open spec fn ascii_lower(c: char) -> char {
    if 'A' <= c && c <= 'Z' {
        ((c as u32) + 32) as char
    } else {
        c
    }
}

/// Equality of two character sequences up to ASCII case.
pub open spec fn eq_ascii_ci(a: Seq<char>, b: Seq<char>) -> bool {
    a.len() == b.len() && forall|i: int| 0 <= i < a.len() ==> ascii_lower(#[trigger] a[i]) == ascii_lower(b[i])
}

fn lower_char(c: char) -> (r: char)
    ensures
        r == ascii_lower(c),
{
    if 'A' <= c && c <= 'Z' {
        let u: u32 = (c as u32) + 32;
        assert(0x61 <= u <= 0x7A);
        proof {
            assert(ascii_lower(c) == u as char);
        }
        if u == 0x61 { 'a' } else if u == 0x62 { 'b' } else if u == 0x63 { 'c' } else if u == 0x64 { 'd' }
        else if u == 0x65 { 'e' } else if u == 0x66 { 'f' } else if u == 0x67 { 'g' } else if u == 0x68 { 'h' }
        else if u == 0x69 { 'i' } else if u == 0x6A { 'j' } else if u == 0x6B { 'k' } else if u == 0x6C { 'l' }
        else if u == 0x6D { 'm' } else if u == 0x6E { 'n' } else if u == 0x6F { 'o' } else if u == 0x70 { 'p' }
        else if u == 0x71 { 'q' } else if u == 0x72 { 'r' } else if u == 0x73 { 's' } else if u == 0x74 { 't' }
        else if u == 0x75 { 'u' } else if u == 0x76 { 'v' } else if u == 0x77 { 'w' } else if u == 0x78 { 'x' }
        else if u == 0x79 { 'y' } else { 'z' }
    } else {
        c
    }
}

/// Compares two strings ignoring ASCII case (non-ASCII characters must match
/// exactly), as `str::eq_ignore_ascii_case` does.
pub fn eq_ignore_ascii_case(a: &str, b: &str) -> (r: bool)
    ensures
        r == eq_ascii_ci(a@, b@),
{
    let n = a.unicode_len();
    if n != b.unicode_len() {
        return false;
    }
    let mut i: usize = 0;
    while i < n
        invariant
            n == a@.len(),
            n == b@.len(),
            i <= n,
            forall|j: int| 0 <= j < i ==> ascii_lower(#[trigger] a@[j]) == ascii_lower(b@[j]),
        decreases n - i,
    {
        if lower_char(a.get_char(i)) != lower_char(b.get_char(i)) {
            return false;
        }
        i = i + 1;
    }
    true
}

/// Whether `s` begins with `prefix`.
pub open spec fn has_prefix(s: Seq<char>, prefix: Seq<char>) -> bool {
    prefix.len() <= s.len() && s.subrange(0, prefix.len() as int) == prefix
}

pub fn starts_with(s: &str, prefix: &str) -> (r: bool)
    ensures
        r == has_prefix(s@, prefix@),
{
    let n = prefix.unicode_len();
    if n > s.unicode_len() {
        return false;
    }
    let mut i: usize = 0;
    while i < n
        invariant
            n == prefix@.len(),
            n <= s@.len(),
            i <= n,
            forall|j: int| 0 <= j < i ==> s@[j] == prefix@[j],
        decreases n - i,
    {
        if s.get_char(i) != prefix.get_char(i) {
            assert(s@.subrange(0, n as int)[i as int] != prefix@[i as int]);
            return false;
        }
        i = i + 1;
    }
    assert(s@.subrange(0, n as int) =~= prefix@);
    true
}

/// The characters with the Unicode `White_Space` property, which is what
/// `char::is_whitespace` tests.
pub open spec fn is_white_space(c: char) -> bool {
    let u = c as u32;
    (0x09 <= u && u <= 0x0D) || u == 0x20 || u == 0x85 || u == 0xA0 || u == 0x1680 || (0x2000 <= u
        && u <= 0x200A) || u == 0x2028 || u == 0x2029 || u == 0x202F || u == 0x205F || u == 0x3000
}

fn white_space(c: char) -> (r: bool)
    ensures
        r == is_white_space(c),
{
    let u = c as u32;
    (0x09 <= u && u <= 0x0D) || u == 0x20 || u == 0x85 || u == 0xA0 || u == 0x1680 || (0x2000 <= u
        && u <= 0x200A) || u == 0x2028 || u == 0x2029 || u == 0x202F || u == 0x205F || u == 0x3000
}

/// `s` without its leading and trailing white space: the unique subrange
/// `[lo, hi)` such that no white space precedes `lo` or follows `hi` outside
/// it, and the subrange neither starts nor ends with white space.
pub open spec fn is_trim_of(s: Seq<char>, lo: int, hi: int) -> bool {
    &&& 0 <= lo <= hi <= s.len()
    &&& forall|j: int| 0 <= j < lo ==> is_white_space(#[trigger] s[j])
    &&& forall|j: int| hi <= j < s.len() ==> is_white_space(#[trigger] s[j])
    &&& lo < hi ==> !is_white_space(s[lo]) && !is_white_space(s[hi - 1])
}

/// The trimmed form of `s`: leading and trailing white space removed.
pub open spec fn trimmed(s: Seq<char>) -> Seq<char> {
    let (lo, hi) = choose|lo: int, hi: int| is_trim_of(s, lo, hi);
    s.subrange(lo, hi)
}

pub proof fn lemma_trim_unique(s: Seq<char>, lo1: int, hi1: int, lo2: int, hi2: int)
    requires
        is_trim_of(s, lo1, hi1),
        is_trim_of(s, lo2, hi2),
    ensures
        s.subrange(lo1, hi1) == s.subrange(lo2, hi2),
{
    if lo1 < hi1 {
        assert(lo1 == lo2 && hi1 == hi2) by {
            if lo2 < lo1 {
                assert(is_white_space(s[lo2]));
            }
            if lo1 < lo2 {
                assert(is_white_space(s[lo1]));
            }
            if hi2 > hi1 {
                assert(is_white_space(s[hi2 - 1]));
            }
            if hi1 > hi2 {
                assert(is_white_space(s[hi1 - 1]));
            }
        }
    } else if lo2 < hi2 {
        assert(is_white_space(s[lo2]));
    }
    assert(s.subrange(lo1, hi1) =~= s.subrange(lo2, hi2));
}

/// Removes leading and trailing white space, as `str::trim` does.
pub fn trim(s: &str) -> (r: &str)
    ensures
        r@ == trimmed(s@),
{
    let n = s.unicode_len();
    let mut lo: usize = 0;
    while lo < n && white_space(s.get_char(lo))
        invariant
            n == s@.len(),
            lo <= n,
            forall|j: int| 0 <= j < lo ==> is_white_space(#[trigger] s@[j]),
        decreases n - lo,
    {
        lo = lo + 1;
    }
    let mut hi: usize = n;
    while hi > lo && white_space(s.get_char(hi - 1))
        invariant
            n == s@.len(),
            lo <= hi <= n,
            forall|j: int| hi <= j < n ==> is_white_space(#[trigger] s@[j]),
        decreases hi,
    {
        hi = hi - 1;
    }
    proof {
        assert(is_trim_of(s@, lo as int, hi as int));
        let (lo2, hi2) = choose|lo: int, hi: int| is_trim_of(s@, lo, hi);
        lemma_trim_unique(s@, lo as int, hi as int, lo2, hi2);
    }
    s.substring_char(lo, hi)
}

/// Whether two strings hold the same characters.
pub fn same_text(a: &str, b: &str) -> (r: bool)
    ensures
        r == (a@ == b@),
{
    let n = a.unicode_len();
    if n != b.unicode_len() {
        return false;
    }
    let mut i: usize = 0;
    while i < n
        invariant
            n == a@.len(),
            n == b@.len(),
            i <= n,
            forall|j: int| 0 <= j < i ==> a@[j] == b@[j],
        decreases n - i,
    {
        if a.get_char(i) != b.get_char(i) {
            return false;
        }
        i = i + 1;
    }
    assert(a@ =~= b@);
    true
}

pub open spec fn is_digit(c: char) -> bool {
    '0' <= c && c <= '9'
}

pub open spec fn all_digits(d: Seq<char>) -> bool {
    forall|i: int| 0 <= i < d.len() ==> is_digit(#[trigger] d[i])
}

/// The value of a sequence of decimal digits, most significant first.
pub open spec fn digits_value(d: Seq<char>) -> int
    decreases d.len(),
{
    if d.len() == 0 {
        0
    } else {
        digits_value(d.drop_last()) * 10 + ((d.last() as u32) - ('0' as u32))
    }
}

/// What `str::parse::<i32>` yields: an optional sign (`+` or `-`) followed
/// by at least one ASCII digit and nothing else, whose value fits in `i32`.
pub open spec fn parse_i32_spec(s: Seq<char>) -> Option<i32> {
    let neg = s.len() > 0 && s[0] == '-';
    let body = if s.len() > 0 && (s[0] == '+' || s[0] == '-') {
        s.drop_first()
    } else {
        s
    };
    if body.len() == 0 || !all_digits(body) {
        None
    } else if neg {
        if digits_value(body) <= 0x8000_0000 {
            Some((-digits_value(body)) as i32)
        } else {
            None
        }
    } else if digits_value(body) <= 0x7FFF_FFFF {
        Some(digits_value(body) as i32)
    } else {
        None
    }
}

proof fn lemma_digits_value_nonneg(d: Seq<char>)
    requires
        all_digits(d),
    ensures
        digits_value(d) >= 0,
    decreases d.len(),
{
    if d.len() > 0 {
        assert(is_digit(d[d.len() - 1]));
        lemma_digits_value_nonneg(d.drop_last());
    }
}

proof fn lemma_digits_value_mono(d: Seq<char>, i: int, j: int)
    requires
        all_digits(d),
        0 <= i <= j <= d.len(),
    ensures
        digits_value(d.subrange(0, i)) <= digits_value(d.subrange(0, j)),
    decreases j - i,
{
    if i < j {
        lemma_digits_value_mono(d, i, j - 1);
        let p = d.subrange(0, j);
        assert(p.drop_last() =~= d.subrange(0, j - 1));
        assert(is_digit(d[j - 1]));
        assert(all_digits(d.subrange(0, j - 1)));
        lemma_digits_value_nonneg(d.subrange(0, j - 1));
    }
}

/// Parses a decimal `i32`, as `str::parse::<i32>` does.
pub fn parse_i32(s: &str) -> (r: Option<i32>)
    ensures
        r == parse_i32_spec(s@),
{
    let n = s.unicode_len();
    let mut start: usize = 0;
    let mut neg = false;
    if n > 0 {
        let c0 = s.get_char(0);
        if c0 == '+' {
            start = 1;
        } else if c0 == '-' {
            start = 1;
            neg = true;
        }
    }
    let ghost body = if s@.len() > 0 && (s@[0] == '+' || s@[0] == '-') {
        s@.drop_first()
    } else {
        s@
    };
    assert(body =~= s@.subrange(start as int, n as int));
    if start == n {
        return None;
    }
    let mut acc: i64 = 0;
    let mut i: usize = start;
    while i < n
        invariant
            n == s@.len(),
            start < n,
            start <= i <= n,
            body == s@.subrange(start as int, n as int),
            all_digits(body.subrange(0, i - start)),
            acc == digits_value(body.subrange(0, i - start)),
            0 <= acc <= 0x8000_0000,
            neg == (s@.len() > 0 && s@[0] == '-'),
            body == (if s@.len() > 0 && (s@[0] == '+' || s@[0] == '-') {
                s@.drop_first()
            } else {
                s@
            }),
        decreases n - i,
    {
        let c = s.get_char(i);
        if !('0' <= c && c <= '9') {
            assert(body[i - start] == c);
            assert(!is_digit(body[(i - start) as int]));
            return None;
        }
        let d = (c as u32) - ('0' as u32);
        proof {
            let p = body.subrange(0, i - start + 1);
            assert(p.drop_last() =~= body.subrange(0, i - start));
            assert(p.last() == c);
        }
        acc = acc * 10 + d as i64;
        i = i + 1;
        assert(all_digits(body.subrange(0, i - start)));
        if acc > 0x8000_0000 {
            proof {
                if all_digits(body) {
                    lemma_digits_value_mono(body, i - start, body.len() as int);
                    assert(body.subrange(0, body.len() as int) =~= body);
                }
            }
            return None;
        }
    }
    assert(body.subrange(0, n - start) =~= body);
    if neg {
        Some((0 - acc) as i32)
    } else if acc <= 0x7FFF_FFFF {
        Some(acc as i32)
    } else {
        None
    }
}


proof fn lemma_digit_char(d: nat)
    requires
        d < 10,
    ensures
        is_digit(digit_char(d)),
        (digit_char(d) as u32) - ('0' as u32) == d,
{
}

/// Digits read back give the number they render.
pub proof fn lemma_decimal_digits(n: nat)
    ensures
        all_digits(decimal(n)),
        digits_value(decimal(n)) == n,
        decimal(n).len() > 0,
    decreases n,
{
    lemma_digit_char(n % 10);
    if n < 10 {
        assert(decimal(n).drop_last() =~= Seq::<char>::empty());
        assert(decimal(n).last() == digit_char(n));
        assert(digits_value(Seq::<char>::empty()) == 0);
    } else {
        lemma_decimal_digits(n / 10);
        let d = decimal(n);
        assert(d.drop_last() =~= decimal(n / 10));
        assert(d.last() == digit_char(n % 10));
        assert(digits_value(d) == digits_value(decimal(n / 10)) * 10 + (n % 10));
        assert forall|i: int| 0 <= i < d.len() implies is_digit(#[trigger] d[i]) by {
            if i < d.len() - 1 {
                assert(d[i] == decimal(n / 10)[i]);
            }
        }
    }
}

/// A character sequence without white space is its own trimmed form.
pub proof fn lemma_trim_of_solid(s: Seq<char>)
    requires
        forall|i: int| 0 <= i < s.len() ==> !is_white_space(#[trigger] s[i]),
    ensures
        trimmed(s) == s,
{
    assert(is_trim_of(s, 0, s.len() as int));
    let (lo, hi) = choose|lo: int, hi: int| is_trim_of(s, lo, hi);
    lemma_trim_unique(s, 0, s.len() as int, lo, hi);
    assert(s.subrange(0, s.len() as int) =~= s);
}

} // verus!
