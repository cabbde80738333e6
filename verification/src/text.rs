//! Small text operations that the rest of the library builds on: joining,
//! decimal numbers, substring search, ASCII case folding, trimming, and the
//! Unicode-aware lowercasing of std behind a wrapper.
use vstd::prelude::*;

verus! {

broadcast use vstd::string::group_string_axioms;

// ---------------------------------------------------------------------------
// Unicode operations of std
// ---------------------------------------------------------------------------

/// What `str::to_lowercase` returns for a string: its lowercase mapping under
/// the Unicode `Lowercase` property (context-sensitive for final sigma).
pub uninterp spec fn lowercase_of(s: Seq<char>) -> Seq<char>;

/// The ASCII lowercase of a character: `A`..`Z` become `a`..`z`, all
/// others stay.
pub open spec fn ascii_lower_char(c: char) -> char {
    if 'A' <= c && c <= 'Z' {
        ((c as u32) + 32) as char
    } else {
        c
    }
}

/// Whether every character of `s` is ASCII.
pub open spec fn all_ascii(s: Seq<char>) -> bool {
    forall|i: int| 0 <= i < s.len() ==> (#[trigger] s[i] as u32) < 128
}

/// `s` with its ASCII letters lowercased.
pub open spec fn ascii_lowercase(s: Seq<char>) -> Seq<char> {
    s.map_values(|c: char| ascii_lower_char(c))
}

/// A string lowercased as `str::to_lowercase` does it: for an ASCII string,
/// `A`..`Z` become `a`..`z`; otherwise the Unicode lowercase mapping.
pub open spec fn lowercased(s: Seq<char>) -> Seq<char> {
    if all_ascii(s) {
        ascii_lowercase(s)
    } else {
        lowercase_of(s)
    }
}

/// Calls `str::to_lowercase`. Trusted: the result is the named lowercase
/// mapping of the argument, a function of the argument alone; and, as std
/// documents the Unicode lowercase mapping of ASCII (the mapping that
/// `char::to_ascii_lowercase` describes), an ASCII string has its letters
/// `A`..`Z` turned into `a`..`z` and every other character kept.
#[verifier::external_body]
pub(crate) fn to_lowercase(s: &str) -> (res: String)
    ensures
        res@ == lowercase_of(s@),
        all_ascii(s@) ==> res@ == ascii_lowercase(s@),
{
    s.to_lowercase()
}

/// Whether a character has the Unicode `White_Space` property.
pub open spec fn is_white_space(c: char) -> bool {
    let x = c as u32;
    ||| 9 <= x <= 13
    ||| x == 32 || x == 0x85 || x == 0xa0 || x == 0x1680
    ||| 0x2000 <= x <= 0x200a
    ||| x == 0x2028 || x == 0x2029 || x == 0x202f || x == 0x205f || x == 0x3000
}

/// A string without its leading and trailing characters of the Unicode
/// `White_Space` property (what `str::trim` documents).
pub open spec fn trimmed(s: Seq<char>) -> Seq<char>
    decreases s.len(),
{
    if s.len() > 0 && is_white_space(s[0]) {
        trimmed(s.drop_first())
    } else if s.len() > 0 && is_white_space(s.last()) {
        trimmed(s.drop_last())
    } else {
        s
    }
}

/// Whether the characters of `s` from `from` up to `to` are all white space.
pub open spec fn white_between(s: Seq<char>, from: int, to: int) -> bool {
    forall|k: int| from <= k < to ==> is_white_space(#[trigger] s[k])
}

/// Trimming removes white space and nothing else, and only at the ends: the
/// result is the part of the string from `r.0` up to `r.1`, everything
/// before and after it is white space, and it neither starts nor ends with
/// white space.
pub proof fn lemma_trimmed_is_inner_part(s: Seq<char>) -> (r: (int, int))
    ensures
        0 <= r.0 <= r.1 <= s.len(),
        trimmed(s) == s.subrange(r.0, r.1),
        white_between(s, 0, r.0),
        white_between(s, r.1, s.len() as int),
        r.0 < r.1 ==> !is_white_space(s[r.0]) && !is_white_space(s[r.1 - 1]),
    decreases s.len(),
{
    if s.len() > 0 && is_white_space(s[0]) {
        let t = s.drop_first();
        let (i, j) = lemma_trimmed_is_inner_part(t);
        assert(t.subrange(i, j) =~= s.subrange(i + 1, j + 1));
        assert forall|k: int| 0 <= k < i + 1 implies is_white_space(#[trigger] s[k]) by {
            if k > 0 {
                assert(s[k] == t[k - 1]);
            }
        }
        assert forall|k: int| j + 1 <= k < s.len() implies is_white_space(#[trigger] s[k]) by {
            assert(s[k] == t[k - 1]);
        }
        if i < j {
            assert(s[i + 1] == t[i]);
            assert(s[j] == t[j - 1]);
        }
        (i + 1, j + 1)
    } else if s.len() > 0 && is_white_space(s.last()) {
        let t = s.drop_last();
        let (i, j) = lemma_trimmed_is_inner_part(t);
        assert(t.subrange(i, j) =~= s.subrange(i, j));
        assert forall|k: int| 0 <= k < i implies is_white_space(#[trigger] s[k]) by {
            assert(s[k] == t[k]);
        }
        assert forall|k: int| j <= k < s.len() implies is_white_space(#[trigger] s[k]) by {
            if k < s.len() - 1 {
                assert(s[k] == t[k]);
            }
        }
        if i < j {
            assert(s[i] == t[i]);
            assert(s[j - 1] == t[j - 1]);
        }
        (i, j)
    } else {
        assert(s.subrange(0, s.len() as int) =~= s);
        (0, s.len() as int)
    }
}

fn is_white_space_exec(c: char) -> (res: bool)
    ensures
        res == is_white_space(c),
{
    let x = c as u32;
    (9 <= x && x <= 13) || x == 32 || x == 0x85 || x == 0xa0 || x == 0x1680 || (0x2000 <= x && x
        <= 0x200a) || x == 0x2028 || x == 0x2029 || x == 0x202f || x == 0x205f || x == 0x3000
}

/// `s` without its leading and trailing white space (see [`trimmed`]).
pub fn trim(s: &str) -> (res: &str)
    ensures
        res@ == trimmed(s@),
{
    let n = s.unicode_len();
    let mut i: usize = 0;
    assert(s@.subrange(0, n as int) =~= s@);
    while i < n && is_white_space_exec(s.get_char(i))
        invariant
            i <= n == s@.len(),
            trimmed(s@) == trimmed(s@.subrange(i as int, n as int)),
        decreases n - i,
    {
        assert(s@.subrange(i as int, n as int).drop_first() =~= s@.subrange(i + 1, n as int));
        i = i + 1;
    }
    let mut j: usize = n;
    while j > i && is_white_space_exec(s.get_char(j - 1))
        invariant
            i <= j <= n == s@.len(),
            i < n ==> !is_white_space(s@[i as int]),
            trimmed(s@) == trimmed(s@.subrange(i as int, j as int)),
        decreases j - i,
    {
        let ghost sub = s@.subrange(i as int, j as int);
        assert(sub[0] == s@[i as int]);
        assert(sub.drop_last() =~= s@.subrange(i as int, j - 1));
        j = j - 1;
    }
    proof {
        let sub = s@.subrange(i as int, j as int);
        if sub.len() > 0 {
            assert(sub[0] == s@[i as int]);
            assert(sub.last() == s@[j - 1]);
        }
    }
    s.substring_char(i, j)
}

// ---------------------------------------------------------------------------
// Building strings
// ---------------------------------------------------------------------------

/// A new string that holds `a` followed by `b`.
pub fn join2(a: &str, b: &str) -> (res: String)
    ensures
        res@ == a@ + b@,
{
    let mut s = String::from_str(a);
    s.append(b);
    s
}

/// A new string that holds `a`, `b` and `c` in this order.
pub fn join3(a: &str, b: &str, c: &str) -> (res: String)
    ensures
        res@ == a@ + b@ + c@,
{
    let mut s = String::from_str(a);
    s.append(b);
    s.append(c);
    s
}

// ---------------------------------------------------------------------------
// Decimal numbers
// ---------------------------------------------------------------------------

/// The character of a decimal digit.
pub open spec fn digit_char(d: nat) -> char
    recommends
        d < 10,
{
    "0123456789"@[d as int]
}

/// The decimal representation of a natural number, as `Display` writes it:
/// no sign, no leading zeros, and `0` for zero.
pub open spec fn decimal(n: nat) -> Seq<char>
    decreases n,
{
    if n < 10 {
        seq![digit_char(n)]
    } else {
        decimal(n / 10) + seq![digit_char(n % 10)]
    }
}

fn digit_str(d: u64) -> (res: &'static str)
    requires
        d < 10,
    ensures
        res@ == seq![digit_char(d as nat)],
{
    let digits = "0123456789";
    proof {
        reveal_strlit("0123456789");
    }
    let res = digits.substring_char(d as usize, d as usize + 1);
    assert(res@ =~= seq![digit_char(d as nat)]);
    res
}

/// The decimal representation of `n`.
pub fn decimal_string(n: u64) -> (res: String)
    ensures
        res@ == decimal(n as nat),
    decreases n,
{
    if n < 10 {
        String::from_str(digit_str(n))
    } else {
        let mut s = decimal_string(n / 10);
        s.append(digit_str(n % 10));
        s
    }
}

/// The value of a character if it is an ASCII decimal digit.
pub open spec fn digit_value(c: char) -> Option<nat> {
    if '0' <= c && c <= '9' {
        Some((c as nat - '0' as nat) as nat)
    } else {
        None
    }
}

/// Whether every character is an ASCII decimal digit.
pub open spec fn all_digits(s: Seq<char>) -> bool {
    forall|i: int| 0 <= i < s.len() ==> digit_value(#[trigger] s[i]) is Some
}

/// The number that a sequence of ASCII digits denotes.
pub open spec fn digits_value(s: Seq<char>) -> nat
    decreases s.len(),
{
    if s.len() == 0 {
        0
    } else {
        digits_value(s.drop_last()) * 10 + digit_value(s.last()).unwrap_or(0)
    }
}

/// What `u32::from_str` gives: an optional `+`, then at least one ASCII
/// digit and nothing else, denoting a value that fits in `u32`.
pub open spec fn parse_u32_spec(s: Seq<char>) -> Option<u32> {
    let digits = if s.len() > 0 && s[0] == '+' {
        s.drop_first()
    } else {
        s
    };
    if digits.len() == 0 || !all_digits(digits) || digits_value(digits) > u32::MAX {
        None
    } else {
        Some(digits_value(digits) as u32)
    }
}

proof fn lemma_digits_value_monotone(s: Seq<char>, k: int)
    requires
        0 <= k <= s.len(),
        all_digits(s),
    ensures
        digits_value(s.take(k)) <= digits_value(s),
    decreases s.len() - k,
{
    if k < s.len() {
        lemma_digits_value_monotone(s, k + 1);
        assert(s.take(k + 1).drop_last() =~= s.take(k));
        assert(digit_value(s[k]) is Some);
    } else {
        assert(s.take(k) =~= s);
    }
}

/// Parses a decimal `u32` the way `u32::from_str` does.
pub fn parse_u32(s: &str) -> (res: Option<u32>)
    ensures
        res == parse_u32_spec(s@),
{
    let n = s.unicode_len();
    let mut start: usize = 0;
    if n > 0 && s.get_char(0) == '+' {
        start = 1;
    }
    let ghost digits = if s@.len() > 0 && s@[0] == '+' {
        s@.drop_first()
    } else {
        s@
    };
    assert(digits =~= s@.subrange(start as int, n as int));
    if start == n {
        return None;
    }
    let mut value: u64 = 0;
    let mut i: usize = start;
    while i < n
        invariant
            start <= i <= n,
            n == s@.len(),
            digits == s@.subrange(start as int, n as int),
            digits == (if s@.len() > 0 && s@[0] == '+' {
                s@.drop_first()
            } else {
                s@
            }),
            all_digits(digits.take(i - start)),
            value == digits_value(digits.take(i - start)),
            value <= u32::MAX,
        decreases n - i,
    {
        let c = s.get_char(i);
        assert(digits[i - start] == c);
        if c < '0' || c > '9' {
            assert(!all_digits(digits));
            assert(parse_u32_spec(s@) is None);
            return None;
        }
        let d = (c as u32 - '0' as u32) as u64;
        assert(digits.take(i + 1 - start).drop_last() =~= digits.take(i - start));
        let next = value * 10 + d;
        if next > u32::MAX as u64 {
            proof {
                let t = digits.take(i + 1 - start);
                assert(t.last() == c);
                assert(digits_value(t) == value * 10 + d);
                assert(all_digits(t));
                if all_digits(digits) {
                    lemma_digits_value_monotone(digits, i + 1 - start);
                }
                assert(parse_u32_spec(s@) is None);
            }
            return None;
        }
        value = next;
        i = i + 1;
    }
    assert(digits.take(n - start) =~= digits);
    Some(value as u32)
}

// ---------------------------------------------------------------------------
// Comparing and searching
// ---------------------------------------------------------------------------

/// The characters of a string, one per element.
pub fn chars_of(s: &str) -> (res: Vec<char>)
    ensures
        res@ == s@,
{
    let n = s.unicode_len();
    let mut v: Vec<char> = Vec::new();
    for i in 0..n
        invariant
            n == s@.len(),
            v@ == s@.take(i as int),
    {
        v.push(s.get_char(i));
        assert(v@ =~= s@.take(i + 1));
    }
    assert(v@ =~= s@);
    v
}

/// Whether two strings hold the same characters.
pub fn str_eq(a: &str, b: &str) -> (res: bool)
    ensures
        res == (a@ == b@),
{
    let x = chars_of(a);
    let y = chars_of(b);
    if x.len() != y.len() {
        return false;
    }
    for i in 0..x.len()
        invariant
            x@ == a@,
            y@ == b@,
            x.len() == y.len(),
            forall|j: int| 0 <= j < i ==> x@[j] == y@[j],
    {
        if x[i] != y[i] {
            return false;
        }
    }
    assert(a@ =~= b@);
    true
}

/// Whether `needle` occurs in `hay` as a contiguous run of characters.
pub open spec fn contains_seq(hay: Seq<char>, needle: Seq<char>) -> bool {
    exists|i: int|
        0 <= i && i + needle.len() <= hay.len() && #[trigger] hay.subrange(i, i + needle.len())
            == needle
}

/// Whether `needle` occurs in `hay` (as `str::contains` with a string pattern).
pub fn contains_str(hay: &str, needle: &str) -> (res: bool)
    ensures
        res == contains_seq(hay@, needle@),
{
    let h = chars_of(hay);
    let nd = chars_of(needle);
    if nd.len() > h.len() {
        return false;
    }
    let last = h.len() - nd.len();
    let mut i: usize = 0;
    while i <= last
        invariant
            h@ == hay@,
            nd@ == needle@,
            last + nd.len() == h.len(),
            i <= last + 1,
            forall|k: int| 0 <= k < i ==> #[trigger] hay@.subrange(k, k + needle@.len()) != needle@,
        decreases last + 1 - i,
    {
        let mut j: usize = 0;
        let mut same = true;
        while j < nd.len()
            invariant
                h@ == hay@,
                nd@ == needle@,
                i <= last,
                last + nd.len() == h.len(),
                j <= nd.len(),
                same == (forall|m: int| 0 <= m < j ==> h@[i + m] == nd@[m]),
            decreases nd.len() - j,
        {
            if h[i + j] != nd[j] {
                same = false;
            }
            j = j + 1;
        }
        if same {
            assert(hay@.subrange(i as int, i + needle@.len()) =~= needle@);
            return true;
        }
        proof {
            let m = choose|m: int| 0 <= m < nd.len() && h@[i + m] != nd@[m];
            assert(hay@.subrange(i as int, i + needle@.len())[m] != needle@[m]);
        }
        i = i + 1;
    }
    assert forall|k: int| 0 <= k && k + needle@.len() <= hay@.len() implies #[trigger] hay@.subrange(k, k + needle@.len()) != needle@ by {
        assert(k < i);
    }
    false
}

/// The code point of the ASCII lowercase of a character: `A`..`Z` map to
/// `a`..`z`, all others stay.
pub open spec fn ascii_lower(c: char) -> u32 {
    if 'A' <= c && c <= 'Z' {
        ((c as u32) + 32) as u32
    } else {
        c as u32
    }
}

/// Whether two strings match with ASCII case ignored (as
/// `str::eq_ignore_ascii_case` documents it).
pub open spec fn eq_ignore_ascii_case_spec(a: Seq<char>, b: Seq<char>) -> bool {
    a.len() == b.len() && forall|i: int| 0 <= i < a.len() ==> ascii_lower(#[trigger] a[i]) == ascii_lower(b[i])
}

fn ascii_lower_exec(c: char) -> (res: u32)
    ensures
        res == ascii_lower(c),
{
    if 'A' <= c && c <= 'Z' {
        c as u32 + 32
    } else {
        c as u32
    }
}

/// Whether `a` and `b` match with ASCII case ignored.
pub fn eq_ignore_ascii_case(a: &str, b: &str) -> (res: bool)
    ensures
        res == eq_ignore_ascii_case_spec(a@, b@),
{
    let x = chars_of(a);
    let y = chars_of(b);
    if x.len() != y.len() {
        return false;
    }
    for i in 0..x.len()
        invariant
            x@ == a@,
            y@ == b@,
            x.len() == y.len(),
            forall|j: int| 0 <= j < i ==> ascii_lower(#[trigger] x@[j]) == ascii_lower(y@[j]),
    {
        if ascii_lower_exec(x[i]) != ascii_lower_exec(y[i]) {
            return false;
        }
    }
    true
}

/// `s` followed by spaces up to `width` characters (as `{:<width}` pads).
pub open spec fn pad_right_spec(s: Seq<char>, width: nat) -> Seq<char> {
    if s.len() >= width {
        s
    } else {
        s + Seq::new((width - s.len()) as nat, |_i: int| ' ')
    }
}

/// Pads `s` on the right with spaces to at least `width` characters.
pub fn pad_right(s: &str, width: usize) -> (res: String)
    ensures
        res@ == pad_right_spec(s@, width as nat),
{
    let n = s.unicode_len();
    let mut res = String::from_str(s);
    let mut k: usize = n;
    proof {
        reveal_strlit(" ");
        assert(res@ =~= s@ + Seq::new(0, |_i: int| ' '));
    }
    while k < width
        invariant
            n == s@.len(),
            n <= k,
            k <= width || k == n,
            res@ == s@ + Seq::new((k - n) as nat, |_i: int| ' '),
        decreases width - k,
    {
        proof {
            reveal_strlit(" ");
        }
        res.append(" ");
        k = k + 1;
        assert(res@ =~= s@ + Seq::new((k - n) as nat, |_i: int| ' '));
    }
    assert(res@ =~= pad_right_spec(s@, width as nat));
    res
}

} // verus!
