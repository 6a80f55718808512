use vstd::prelude::*;

verus! {

/// The characters of `s`, one element each.
pub fn char_vec(s: &str) -> (chars: Vec<char>)
    ensures
        chars@ == s@,
{
    let n = s.unicode_len();
    let mut chars: Vec<char> = Vec::with_capacity(n);
    let mut i: usize = 0;
    while i < n
        invariant
            n == s@.len(),
            i <= n,
            chars@ == s@.subrange(0, i as int),
        decreases n - i,
    {
        chars.push(s.get_char(i));
        i = i + 1;
    }
    chars
}

/// Whether two strings hold the same characters.
pub fn str_eq(a: &str, b: &str) -> (same: bool)
    ensures
        same == (a@ == b@),
{
    let x = char_vec(a);
    let y = char_vec(b);
    if x.len() != y.len() {
        return false;
    }
    let mut i: usize = 0;
    while i < x.len()
        invariant
            x@ == a@,
            y@ == b@,
            x@.len() == y@.len(),
            i <= x@.len(),
            forall|j: int| 0 <= j < i ==> x@[j] == y@[j],
        decreases x@.len() - i,
    {
        if x[i] != y[i] {
            return false;
        }
        i = i + 1;
    }
    assert(a@ =~= b@);
    true
}

/// The Unicode `White_Space` property, which `char::is_whitespace` tests.
pub open spec fn is_white_space(c: char) -> bool {
    let u = c as u32;
    ||| 0x9 <= u <= 0xd
    ||| u == 0x20
    ||| u == 0x85
    ||| u == 0xa0
    ||| u == 0x1680
    ||| 0x2000 <= u <= 0x200a
    ||| u == 0x2028
    ||| u == 0x2029
    ||| u == 0x202f
    ||| u == 0x205f
    ||| u == 0x3000
}

/// Whether `c` has the Unicode `White_Space` property.
pub fn is_whitespace(c: char) -> (white: bool)
    ensures
        white == is_white_space(c),
{
    let u = c as u32;
    (0x9 <= u && u <= 0xd) || u == 0x20 || u == 0x85 || u == 0xa0 || u == 0x1680 || (0x2000 <= u
        && u <= 0x200a) || u == 0x2028 || u == 0x2029 || u == 0x202f || u == 0x205f || u == 0x3000
}

/// `s` without its leading white space.
pub open spec fn trim_start(s: Seq<char>) -> Seq<char>
    decreases s.len(),
{
    if s.len() > 0 && is_white_space(s[0]) {
        trim_start(s.drop_first())
    } else {
        s
    }
}

/// `s` without its trailing white space.
pub open spec fn trim_end(s: Seq<char>) -> Seq<char>
    decreases s.len(),
{
    if s.len() > 0 && is_white_space(s.last()) {
        trim_end(s.drop_last())
    } else {
        s
    }
}

/// `s` without its leading and trailing white space, as `str::trim` gives it.
pub open spec fn trimmed(s: Seq<char>) -> Seq<char> {
    trim_end(trim_start(s))
}

/// `s` with leading and trailing white space removed.
pub fn trim(s: &str) -> (t: &str)
    ensures
        t@ == trimmed(s@),
{
    let chars = char_vec(s);
    let n = chars.len();
    let mut start: usize = 0;
    assert(s@.subrange(0, n as int) =~= s@);
    while start < n && is_whitespace(chars[start])
        invariant
            chars@ == s@,
            n == s@.len(),
            start <= n,
            trim_start(s@) == trim_start(s@.subrange(start as int, n as int)),
        decreases n - start,
    {
        assert(s@.subrange(start as int, n as int).drop_first() =~= s@.subrange(
            start + 1,
            n as int,
        ));
        start = start + 1;
    }
    assert(trim_start(s@) == s@.subrange(start as int, n as int));
    let mut end: usize = n;
    while end > start && is_whitespace(chars[end - 1])
        invariant
            chars@ == s@,
            n == s@.len(),
            start <= end <= n,
            trimmed(s@) == trim_end(s@.subrange(start as int, end as int)),
        decreases end - start,
    {
        assert(s@.subrange(start as int, end as int).drop_last() =~= s@.subrange(
            start as int,
            end - 1,
        ));
        end = end - 1;
    }
    assert(trimmed(s@) == s@.subrange(start as int, end as int));
    s.substring_char(start, end)
}

/// Whether `needle` occurs in `hay` as a run of consecutive characters.
pub open spec fn occurs_in(hay: Seq<char>, needle: Seq<char>) -> bool {
    exists|k: int|
        0 <= k && k + needle.len() <= hay.len() && #[trigger] hay.subrange(k, k + needle.len())
            == needle
}

/// Whether `hay` contains `needle`, as `str::contains` with a string pattern
/// reports it.
pub fn contains(hay: &str, needle: &str) -> (found: bool)
    ensures
        found == occurs_in(hay@, needle@),
{
    let h = char_vec(hay);
    let p = char_vec(needle);
    let hn = h.len();
    if p.len() > hn {
        return false;
    }
    if p.len() == 0 {
        assert(hay@.subrange(0int, 0int + needle@.len()) =~= needle@);
        return true;
    }
    let last = hn - p.len();
    let mut k: usize = 0;
    while k <= last
        invariant
            h@ == hay@,
            p@ == needle@,
            hn == h@.len(),
            0 < p@.len() <= h@.len(),
            last == h@.len() - p@.len(),
            k <= last + 1,
            forall|m: int| 0 <= m < k ==> #[trigger] hay@.subrange(m, m + needle@.len()) != needle@,
        decreases last + 1 - k,
    {
        let mut j: usize = 0;
        let mut matched = true;
        while j < p.len()
            invariant
                h@ == hay@,
                p@ == needle@,
                k <= last,
                hn == h@.len(),
                last == h@.len() - p@.len(),
                j <= p@.len(),
                matched == (forall|i: int| 0 <= i < j ==> h@[k + i] == p@[i]),
            decreases p@.len() - j,
        {
            if h[k + j] != p[j] {
                matched = false;
            }
            j = j + 1;
        }
        if matched {
            assert(hay@.subrange(k as int, k + needle@.len()) =~= needle@);
            return true;
        }
        assert(hay@.subrange(k as int, k + needle@.len()) != needle@) by {
            let i = choose|i: int| 0 <= i < p@.len() && h@[k + i] != p@[i];
            assert(hay@.subrange(k as int, k + needle@.len())[i] == h@[k + i]);
        }
        k = k + 1;
    }
    false
}

/// Whether `c` is one of the ASCII digits `0` to `9`.
pub open spec fn is_ascii_digit(c: char) -> bool {
    '0' <= c <= '9'
}

/// Whether every character of `d` is an ASCII digit.
pub open spec fn all_digits(d: Seq<char>) -> bool {
    forall|i: int| 0 <= i < d.len() ==> #[trigger] is_ascii_digit(d[i])
}

/// The number that the decimal digits `d` write, most significant first.
pub open spec fn digits_value(d: Seq<char>) -> int
    decreases d.len(),
{
    if d.len() == 0 {
        0
    } else {
        digits_value(d.drop_last()) * 10 + (d.last() as int - '0' as int)
    }
}

/// The digits of an unsigned decimal literal: the text after an optional
/// leading `+`.
pub open spec fn unsigned_digits(text: Seq<char>) -> Seq<char> {
    if text.len() > 0 && text[0] == '+' {
        text.drop_first()
    } else {
        text
    }
}

/// The value that `u32::from_str` gives for `text`: an optional `+`, then
/// one or more ASCII digits whose value fits in a `u32`; anything else is
/// refused.
pub open spec fn parsed_u32(text: Seq<char>) -> Option<u32> {
    let d = unsigned_digits(text);
    if d.len() > 0 && all_digits(d) && digits_value(d) <= u32::MAX {
        Some(digits_value(d) as u32)
    } else {
        None
    }
}

proof fn lemma_digits_prefix_value(d: Seq<char>, m: int)
    requires
        0 <= m <= d.len(),
        all_digits(d),
    ensures
        0 <= digits_value(d.subrange(0, m)) <= digits_value(d),
    decreases d.len() - m,
{
    if m < d.len() {
        lemma_digits_prefix_value(d, m + 1);
        assert(d.subrange(0, m + 1).drop_last() =~= d.subrange(0, m));
        assert(is_ascii_digit(d[m]));
        lemma_digits_prefix_value_nonneg(d.subrange(0, m));
    } else {
        assert(d.subrange(0, m) =~= d);
        lemma_digits_prefix_value_nonneg(d);
    }
}

proof fn lemma_digits_prefix_value_nonneg(d: Seq<char>)
    requires
        all_digits(d),
    ensures
        digits_value(d) >= 0,
    decreases d.len(),
{
    if d.len() > 0 {
        assert(is_ascii_digit(d[d.len() - 1]));
        assert(all_digits(d.drop_last())) by {
            assert forall|i: int| 0 <= i < d.drop_last().len() implies #[trigger] is_ascii_digit(
                d.drop_last()[i],
            ) by {
                assert(is_ascii_digit(d[i]));
            }
        }
        lemma_digits_prefix_value_nonneg(d.drop_last());
    }
}

/// Parses an unsigned decimal number as `u32::from_str` does.
pub fn parse_u32(text: &str) -> (value: Option<u32>)
    ensures
        value == parsed_u32(text@),
{
    let chars = char_vec(text);
    let n = chars.len();
    let mut i: usize = 0;
    if n > 0 && chars[0] == '+' {
        i = 1;
    }
    let start = i;
    let ghost d = chars@.subrange(start as int, n as int);
    assert(d =~= unsigned_digits(text@));
    if start == n {
        return None;
    }
    let mut acc: u64 = 0;
    while i < n
        invariant
            chars@ == text@,
            n == chars@.len(),
            start <= i <= n,
            start < n,
            d == chars@.subrange(start as int, n as int),
            d == unsigned_digits(text@),
            all_digits(chars@.subrange(start as int, i as int)),
            acc == digits_value(chars@.subrange(start as int, i as int)),
            acc <= u32::MAX,
        decreases n - i,
    {
        let c = chars[i];
        if !('0' <= c && c <= '9') {
            assert(!is_ascii_digit(d[i - start]));
            return None;
        }
        let ghost prefix = chars@.subrange(start as int, i + 1);
        assert(prefix.drop_last() =~= chars@.subrange(start as int, i as int));
        assert(all_digits(prefix)) by {
            assert forall|j: int| 0 <= j < prefix.len() implies #[trigger] is_ascii_digit(
                prefix[j],
            ) by {
                if j < prefix.len() - 1 {
                    assert(is_ascii_digit(chars@.subrange(start as int, i as int)[j]));
                }
            }
        }
        let digit = (c as u32 - '0' as u32) as u64;
        assert(digit == prefix.last() as int - '0' as int);
        acc = acc * 10 + digit;
        if acc > 0xffff_ffff {
            proof {
                if all_digits(d) {
                    assert(prefix =~= d.subrange(0, i + 1 - start));
                    lemma_digits_prefix_value(d, i + 1 - start);
                }
            }
            return None;
        }
        i = i + 1;
    }
    assert(chars@.subrange(start as int, i as int) =~= d);
    Some(acc as u32)
}

/// A single ASCII digit parses as its own value.
pub proof fn lemma_parse_single_digit(d: char)
    requires
        '0' <= d <= '9',
    ensures
        parsed_u32(seq![d]) == Some((d as int - '0' as int) as u32),
{
    let s = seq![d];
    assert(unsigned_digits(s) == s);
    assert(s.drop_last() =~= Seq::<char>::empty());
    assert(s.last() == d);
    assert(digits_value(s.drop_last()) == 0);
    assert(digits_value(s) == d as int - '0' as int);
    assert(all_digits(s));
}

/// Appending a digit to a number's text multiplies its value by ten and adds
/// the digit, as long as the result still fits in a `u32`.
pub proof fn lemma_parse_append_digit(text: Seq<char>, d: char, v: u32)
    requires
        parsed_u32(text) == Some(v),
        '0' <= d <= '9',
        v * 10 + (d as int - '0' as int) <= u32::MAX,
    ensures
        parsed_u32(text.push(d)) == Some((v * 10 + (d as int - '0' as int)) as u32),
{
    let ds = unsigned_digits(text);
    let t2 = text.push(d);
    assert(ds.len() > 0);
    if text[0] == '+' {
        assert(t2[0] == '+');
        assert(t2.drop_first() =~= ds.push(d));
    } else {
        assert(t2[0] == text[0]);
        assert(t2 =~= ds.push(d));
    }
    assert(unsigned_digits(t2) == ds.push(d));
    assert(ds.push(d).drop_last() =~= ds);
    assert(ds.push(d).last() == d);
    assert(all_digits(ds.push(d))) by {
        assert forall|i: int| 0 <= i < ds.push(d).len() implies #[trigger] is_ascii_digit(
            ds.push(d)[i],
        ) by {
            if i < ds.len() {
                assert(is_ascii_digit(ds[i]));
            }
        }
    }
    lemma_digits_prefix_value_nonneg(ds);
    assert(v == digits_value(ds));
    assert(digits_value(ds.push(d)) == digits_value(ds) * 10 + (d as int - '0' as int));
}

/// A `+` before a number's text that has no sign of its own changes nothing.
pub proof fn lemma_parse_plus_sign(text: Seq<char>)
    requires
        !(text.len() > 0 && text[0] == '+'),
    ensures
        parsed_u32(seq!['+'] + text) == parsed_u32(text),
{
    let p = seq!['+'] + text;
    assert(p[0] == '+');
    assert(p.drop_first() =~= text);
    assert(unsigned_digits(text) == text);
}

/// The trimmed text is a run of the original: everything cut from its ends
/// is white space, and it neither starts nor ends with white space.
pub proof fn lemma_trimmed_cuts_only_white_space(s: Seq<char>)
    ensures
        exists|a: int, b: int|
            0 <= a <= b <= s.len() && #[trigger] s.subrange(a, b) == trimmed(s) && (forall|i: int|
                0 <= i < a ==> is_white_space(#[trigger] s[i])) && (forall|i: int|
                b <= i < s.len() ==> is_white_space(#[trigger] s[i])),
        trimmed(s).len() > 0 ==> !is_white_space(trimmed(s)[0]) && !is_white_space(
            trimmed(s).last(),
        ),
{
    let (a, b) = lemma_trim_bounds(s);
    assert(s.subrange(a, b) == trimmed(s));
}

proof fn lemma_trim_start_bound(s: Seq<char>) -> (a: int)
    ensures
        0 <= a <= s.len(),
        trim_start(s) == s.subrange(a, s.len() as int),
        forall|i: int| 0 <= i < a ==> is_white_space(#[trigger] s[i]),
        a < s.len() ==> !is_white_space(s[a]),
    decreases s.len(),
{
    if s.len() > 0 && is_white_space(s[0]) {
        let a1 = lemma_trim_start_bound(s.drop_first());
        assert(s.drop_first().subrange(a1, s.drop_first().len() as int) =~= s.subrange(
            a1 + 1,
            s.len() as int,
        ));
        assert forall|i: int| 0 <= i < a1 + 1 implies is_white_space(#[trigger] s[i]) by {
            if i > 0 {
                assert(s[i] == s.drop_first()[i - 1]);
            }
        }
        a1 + 1
    } else {
        assert(s.subrange(0, s.len() as int) =~= s);
        0
    }
}

proof fn lemma_trim_end_bound(s: Seq<char>) -> (b: int)
    ensures
        0 <= b <= s.len(),
        trim_end(s) == s.subrange(0, b),
        forall|i: int| b <= i < s.len() ==> is_white_space(#[trigger] s[i]),
        b > 0 ==> !is_white_space(s[b - 1]),
    decreases s.len(),
{
    if s.len() > 0 && is_white_space(s.last()) {
        let b1 = lemma_trim_end_bound(s.drop_last());
        assert(s.drop_last().subrange(0, b1) =~= s.subrange(0, b1));
        assert forall|i: int| b1 <= i < s.len() implies is_white_space(#[trigger] s[i]) by {
            if i < s.len() - 1 {
                assert(s[i] == s.drop_last()[i]);
            }
        }
        b1
    } else {
        assert(s.subrange(0, s.len() as int) =~= s);
        s.len() as int
    }
}

proof fn lemma_trim_bounds(s: Seq<char>) -> (ab: (int, int))
    ensures
        0 <= ab.0 <= ab.1 <= s.len(),
        s.subrange(ab.0, ab.1) == trimmed(s),
        forall|i: int| 0 <= i < ab.0 ==> is_white_space(#[trigger] s[i]),
        forall|i: int| ab.1 <= i < s.len() ==> is_white_space(#[trigger] s[i]),
        ab.1 > ab.0 ==> !is_white_space(s[ab.0]) && !is_white_space(s[ab.1 - 1]),
{
    let a = lemma_trim_start_bound(s);
    let t = s.subrange(a, s.len() as int);
    let b1 = lemma_trim_end_bound(t);
    assert(t.subrange(0, b1) =~= s.subrange(a, a + b1));
    assert forall|i: int| a + b1 <= i < s.len() implies is_white_space(#[trigger] s[i]) by {
        assert(s[i] == t[i - a]);
    }
    if b1 > 0 {
        assert(s[a] == t[0]);
        assert(s[a + b1 - 1] == t[b1 - 1]);
    }
    (a, a + b1)
}

} // verus!
