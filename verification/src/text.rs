use vstd::prelude::*;
use vstd::string::*;

verus! {

broadcast use vstd::string::group_string_axioms;

/// The characters of a string, in order.
pub fn chars_of(s: &str) -> (v: Vec<char>)
    ensures
        v@ == s@,
{
    let mut v: Vec<char> = Vec::new();
    for c in it: s.chars()
        invariant
            v@ == it.seq().take(it.index() as int),
    {
        v.push(c);
    }
    v
}

/// Unicode's `White_Space` property, which `char::is_whitespace` tests.
pub open spec fn is_white_space(c: char) -> bool {
    ||| ('\u{9}' <= c && c <= '\u{d}')
    ||| c == ' '
    ||| c == '\u{85}'
    ||| c == '\u{a0}'
    ||| c == '\u{1680}'
    ||| ('\u{2000}' <= c && c <= '\u{200a}')
    ||| c == '\u{2028}'
    ||| c == '\u{2029}'
    ||| c == '\u{202f}'
    ||| c == '\u{205f}'
    ||| c == '\u{3000}'
}

pub fn is_whitespace(c: char) -> (r: bool)
    ensures
        r == is_white_space(c),
{
    ('\u{9}' <= c && c <= '\u{d}') || c == ' ' || c == '\u{85}' || c == '\u{a0}' || c == '\u{1680}'
        || ('\u{2000}' <= c && c <= '\u{200a}') || c == '\u{2028}' || c == '\u{2029}'
        || c == '\u{202f}' || c == '\u{205f}' || c == '\u{3000}'
}

/// `s` without its leading white space.
pub open spec fn trim_start_view(s: Seq<char>) -> Seq<char>
    decreases s.len(),
{
    if s.len() > 0 && is_white_space(s[0]) {
        trim_start_view(s.subrange(1, s.len() as int))
    } else {
        s
    }
}

/// `s` without its trailing white space.
pub open spec fn trim_end_view(s: Seq<char>) -> Seq<char>
    decreases s.len(),
{
    if s.len() > 0 && is_white_space(s[s.len() - 1]) {
        trim_end_view(s.subrange(0, s.len() - 1))
    } else {
        s
    }
}

/// `s` without leading and trailing white space, as `str::trim` gives it.
pub open spec fn trim_view(s: Seq<char>) -> Seq<char> {
    trim_end_view(trim_start_view(s))
}

/// `str::trim`: the string without leading and trailing white space.
pub fn trim(s: &str) -> (r: String)
    ensures
        r@ == trim_view(s@),
{
    let v = chars_of(s);
    let n = v.len();
    let mut a: usize = 0;
    assert(s@.subrange(0, n as int) =~= s@);
    while a < n && is_whitespace(v[a])
        invariant
            a <= n,
            n == v@.len(),
            v@ == s@,
            trim_start_view(s@) == trim_start_view(s@.subrange(a as int, n as int)),
        decreases n - a,
    {
        proof {
            let t = s@.subrange(a as int, n as int);
            assert(t.subrange(1, t.len() as int) =~= s@.subrange(a + 1, n as int));
        }
        a = a + 1;
    }
    proof {
        let t = s@.subrange(a as int, n as int);
        if t.len() > 0 {
            assert(t[0] == v@[a as int]);
        }
    }
    let mut b: usize = n;
    while b > a && is_whitespace(v[b - 1])
        invariant
            a <= b <= n,
            n == v@.len(),
            v@ == s@,
            trim_view(s@) == trim_end_view(s@.subrange(a as int, b as int)),
        decreases b - a,
    {
        proof {
            let t = s@.subrange(a as int, b as int);
            assert(t[t.len() - 1] == v@[b - 1]);
            assert(t.subrange(0, t.len() - 1) =~= s@.subrange(a as int, b - 1));
        }
        b = b - 1;
    }
    proof {
        let t = s@.subrange(a as int, b as int);
        if t.len() > 0 {
            assert(t[t.len() - 1] == v@[b - 1]);
        }
    }
    String::from_str(s.substring_char(a, b))
}

/// The characters of `s` before its first line feed (all of `s` when it has
/// none): the first item of `str::lines`, before a trailing carriage return
/// is removed.
pub open spec fn before_line_feed(s: Seq<char>) -> Seq<char> {
    if exists|i: int| 0 <= i < s.len() && s[i] == '\n' {
        s.take(choose|i: int| 0 <= i < s.len() && s[i] == '\n' && (forall|j: int| 0 <= j < i ==> s[j] != '\n'))
    } else {
        s
    }
}

pub fn first_line_raw(s: &str) -> (r: &str)
    ensures
        r@ == before_line_feed(s@),
{
    let v = chars_of(s);
    let n = v.len();
    let mut i: usize = 0;
    while i < n && v[i] != '\n'
        invariant
            i <= n,
            n == v@.len(),
            v@ == s@,
            forall|j: int| 0 <= j < i ==> s@[j] != '\n',
        decreases n - i,
    {
        i = i + 1;
    }
    proof {
        if i < n {
            assert(s@[i as int] == '\n');
            let k = choose|k: int| 0 <= k < s@.len() && s@[k] == '\n' && (forall|j: int| 0 <= j < k ==> s@[j] != '\n');
            if k < i {
                assert(s@[k] != '\n');
            }
            if k > i {
                assert(s@[i as int] != '\n');
            }
            assert(k == i);
        }
        assert(s@.take(n as int) =~= s@);
    }
    s.substring_char(0, i)
}

/// Whether every character is an ASCII decimal digit.
pub open spec fn all_digits(d: Seq<char>) -> bool {
    forall|i: int| 0 <= i < d.len() ==> '0' <= #[trigger] d[i] && d[i] <= '9'
}

/// The number written by a sequence of decimal digits.
pub open spec fn digits_value(d: Seq<char>) -> int
    decreases d.len(),
{
    if d.len() == 0 {
        0
    } else {
        digits_value(d.subrange(0, d.len() - 1)) * 10 + (d[d.len() - 1] as int - '0' as int)
    }
}

/// The digits of an unsigned number: the text after an optional leading `+`.
pub open spec fn unsigned_digits(s: Seq<char>) -> Seq<char> {
    if s.len() > 0 && s[0] == '+' { s.subrange(1, s.len() as int) } else { s }
}

/// What `str::parse::<u16>` gives: an optional `+` followed by one or more
/// decimal digits whose value fits in a `u16`; anything else is an error.
pub open spec fn parse_u16_view(s: Seq<char>) -> Option<u16> {
    let d = unsigned_digits(s);
    if d.len() > 0 && all_digits(d) && digits_value(d) <= 65535 {
        Some(digits_value(d) as u16)
    } else {
        None
    }
}

proof fn lemma_digits_value_nonneg(d: Seq<char>)
    requires
        all_digits(d),
    ensures
        digits_value(d) >= 0,
    decreases d.len(),
{
    if d.len() > 0 {
        let p = d.subrange(0, d.len() - 1);
        assert(all_digits(p)) by {
            assert forall|i: int| 0 <= i < p.len() implies '0' <= #[trigger] p[i] && p[i] <= '9' by {
                assert(p[i] == d[i]);
            }
        }
        lemma_digits_value_nonneg(p);
        assert('0' <= d[d.len() - 1]);
    }
}

/// A prefix of a digit sequence never writes a larger number than the
/// whole sequence.
proof fn lemma_digits_value_prefix(d: Seq<char>, k: int)
    requires
        all_digits(d),
        0 <= k <= d.len(),
    ensures
        digits_value(d.take(k)) <= digits_value(d),
    decreases d.len() - k,
{
    if k < d.len() {
        lemma_digits_value_prefix(d, k + 1);
        let t = d.take(k + 1);
        assert(t.subrange(0, t.len() - 1) =~= d.take(k));
        assert(all_digits(d.take(k))) by {
            assert forall|i: int| 0 <= i < d.take(k).len() implies '0' <= #[trigger] d.take(k)[i] && d.take(k)[i] <= '9' by {
                assert(d.take(k)[i] == d[i]);
            }
        }
        lemma_digits_value_nonneg(d.take(k));
        assert(t[t.len() - 1] == d[k]);
        assert('0' <= d[k]);
    } else {
        assert(d.take(k) =~= d);
    }
}

/// `str::parse::<u16>`, decided without a panic on every input.
pub fn parse_u16(s: &str) -> (r: Option<u16>)
    ensures
        r == parse_u16_view(s@),
{
    let v = chars_of(s);
    let n = v.len();
    let start: usize = if n > 0 && v[0] == '+' { 1 } else { 0 };
    let ghost d = unsigned_digits(s@);
    assert(d =~= s@.subrange(start as int, n as int));
    if start == n {
        return None;
    }
    let mut value: u32 = 0;
    let mut i: usize = start;
    while i < n
        invariant
            start <= i <= n,
            n == v@.len(),
            v@ == s@,
            d =~= s@.subrange(start as int, n as int),
            d == unsigned_digits(s@),
            all_digits(d.take(i - start)),
            value as int == digits_value(d.take(i - start)),
            value <= 65535,
        decreases n - i,
    {
        let c = v[i];
        if c < '0' || c > '9' {
            proof {
                assert(d[i - start] == c);
                assert(!('0' <= d[i - start] && d[i - start] <= '9'));
                assert(!all_digits(d));
            }
            return None;
        }
        let digit: u32 = (c as u32) - ('0' as u32);
        let next: u32 = value * 10 + digit;
        proof {
            let t = d.take(i - start + 1);
            assert(t.subrange(0, t.len() - 1) =~= d.take(i - start));
            assert(t[t.len() - 1] == c);
            assert(digits_value(t) == digits_value(d.take(i - start)) * 10 + (c as int - '0' as int));
            assert(all_digits(t)) by {
                assert forall|j: int| 0 <= j < t.len() implies '0' <= #[trigger] t[j] && t[j] <= '9' by {
                    if j < t.len() - 1 {
                        assert(t[j] == d.take(i - start)[j]);
                    }
                }
            }
        }
        if next > 65535 {
            proof {
                let t = d.take(i - start + 1);
                assert(digits_value(t) > 65535);
                if all_digits(d) {
                    lemma_digits_value_prefix(d, i - start + 1);
                }
            }
            return None;
        }
        value = next;
        i = i + 1;
    }
    proof {
        assert(d.take(n - start) =~= d);
    }
    Some(value as u16)
}

/// The last position of `c` in `s`, if `c` occurs.
pub open spec fn last_index_of(s: Seq<char>, c: char) -> Option<int> {
    if exists|i: int| 0 <= i < s.len() && s[i] == c {
        Some(choose|i: int| 0 <= i < s.len() && s[i] == c && (forall|j: int| i < j < s.len() ==> s[j] != c))
    } else {
        None
    }
}

proof fn lemma_last_occurrence_exists(s: Seq<char>, c: char, i: int)
    requires
        0 <= i < s.len(),
        s[i] == c,
    ensures
        exists|k: int| 0 <= k < s.len() && s[k] == c && (forall|j: int| k < j < s.len() ==> s[j] != c),
    decreases s.len() - i,
{
    if exists|j: int| i < j < s.len() && s[j] == c {
        let j = choose|j: int| i < j < s.len() && s[j] == c;
        lemma_last_occurrence_exists(s, c, j);
    } else {
        assert(forall|j: int| i < j < s.len() ==> s[j] != c);
    }
}

pub proof fn lemma_last_index_of(s: Seq<char>, c: char)
    ensures
        last_index_of(s, c) matches Some(i) ==> 0 <= i < s.len() && s[i] == c
            && (forall|j: int| i < j < s.len() ==> s[j] != c),
        last_index_of(s, c) is None <==> !s.contains(c),
{
    if exists|i: int| 0 <= i < s.len() && s[i] == c {
        let i = choose|i: int| 0 <= i < s.len() && s[i] == c;
        lemma_last_occurrence_exists(s, c, i);
    }
}

pub fn rfind_char(s: &str, c: char) -> (r: Option<usize>)
    ensures
        r matches Some(i) ==> i < s@.len(),
        r matches Some(i) ==> last_index_of(s@, c) == Some(i as int),
        r is None ==> last_index_of(s@, c) is None,
{
    let v = chars_of(s);
    let mut i: usize = v.len();
    while i > 0 && v[i - 1] != c
        invariant
            i <= v@.len(),
            v@ == s@,
            forall|j: int| i <= j < s@.len() ==> s@[j] != c,
        decreases i,
    {
        i = i - 1;
    }
    if i == 0 {
        proof {
            assert(!(exists|k: int| 0 <= k < s@.len() && s@[k] == c));
        }
        None
    } else {
        proof {
            let k = choose|k: int| 0 <= k < s@.len() && s@[k] == c && (forall|j: int| k < j < s@.len() ==> s@[j] != c);
            assert(s@[i - 1] == c);
            if k < i - 1 {
                assert(s@[i - 1] != c);
            }
            if k > i - 1 {
                assert(s@[k] != c);
            }
        }
        Some(i - 1)
    }
}

/// The decimal digits of `n`, most significant first, without leading zeros
/// (`"0"` for zero): what `Display` prints for an unsigned integer.
pub open spec fn decimal_view(n: nat) -> Seq<char>
    decreases n,
{
    if n < 10 {
        seq![digit_char(n)]
    } else {
        decimal_view(n / 10).push(digit_char(n % 10))
    }
}

/// The ASCII digit for a value below ten.
pub open spec fn digit_char(d: nat) -> char {
    if d == 0 { '0' } else if d == 1 { '1' } else if d == 2 { '2' } else if d == 3 { '3' }
    else if d == 4 { '4' } else if d == 5 { '5' } else if d == 6 { '6' } else if d == 7 { '7' }
    else if d == 8 { '8' } else { '9' }
}

fn digit_str(d: u32) -> (r: &'static str)
    requires
        d < 10,
    ensures
        r@ == seq![digit_char(d as nat)],
{
    proof {
        reveal_strlit("0"); reveal_strlit("1"); reveal_strlit("2"); reveal_strlit("3");
        reveal_strlit("4"); reveal_strlit("5"); reveal_strlit("6"); reveal_strlit("7");
        reveal_strlit("8"); reveal_strlit("9");
    }
    if d == 0 { "0" } else if d == 1 { "1" } else if d == 2 { "2" } else if d == 3 { "3" }
    else if d == 4 { "4" } else if d == 5 { "5" } else if d == 6 { "6" } else if d == 7 { "7" }
    else if d == 8 { "8" } else { "9" }
}

/// The decimal representation of `n`.
pub fn u32_to_decimal(n: u32) -> (r: String)
    ensures
        r@ == decimal_view(n as nat),
    decreases n,
{
    if n < 10 {
        String::from_str(digit_str(n))
    } else {
        let head = u32_to_decimal(n / 10);
        head.concat(digit_str(n % 10))
    }
}

} // verus!
