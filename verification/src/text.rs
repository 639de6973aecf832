//! Text primitives over `Seq<char>`: prefixes and suffixes, whitespace
//! trimming, ASCII case folding, decimal rendering and joining.
use vstd::prelude::*;

use crate::external::push_char;

verus! {

/// `suffix` is a suffix of `s`.
pub open spec fn ends_with(s: Seq<char>, suffix: Seq<char>) -> bool {
    suffix.len() <= s.len() && s.subrange(s.len() - suffix.len(), s.len() as int) == suffix
}

/// `prefix` is a prefix of `s`.
pub open spec fn starts_with(s: Seq<char>, prefix: Seq<char>) -> bool {
    prefix.len() <= s.len() && s.subrange(0, prefix.len() as int) == prefix
}

/// Some contiguous part of `s` equals `needle`.
pub open spec fn contains_text(s: Seq<char>, needle: Seq<char>) -> bool {
    exists|i: int| 0 <= i && i + needle.len() <= s.len() && #[trigger] s.subrange(i, i + needle.len()) == needle
}

/// The characters of a string slice, in order.
pub fn chars_of(s: &str) -> (v: Vec<char>)
    ensures
        v@ == s@,
{
    let mut v: Vec<char> = Vec::new();
    for c in it: s.chars()
        invariant
            v@ == it.seq().take(it.index() as int),
    {
        v.push(c);
    }
    v
}

/// Appends the characters of `v[from..to]` to `out`.
pub fn push_chars(out: &mut String, v: &Vec<char>, from: usize, to: usize)
    requires
        from <= to <= v@.len(),
    ensures
        final(out)@ == old(out)@ + v@.subrange(from as int, to as int),
{
    let mut i = from;
    while i < to
        invariant
            from <= i <= to <= v@.len(),
            out@ == old(out)@ + v@.subrange(from as int, i as int),
        decreases to - i,
    {
        push_char(out, v[i]);
        i = i + 1;
        assert(v@.subrange(from as int, i as int) =~= v@.subrange(from as int, i - 1).push(v@[i - 1]));
    }
}

/// A string made of the given characters.
pub fn string_from_chars(v: &Vec<char>) -> (s: String)
    ensures
        s@ == v@,
{
    let mut s = String::new();
    push_chars(&mut s, v, 0, v.len());
    assert(v@.subrange(0, v@.len() as int) =~= v@);
    s
}

/// The concatenation of `a` and `b`.
pub fn concat(a: &str, b: &str) -> (s: String)
    ensures
        s@ == a@ + b@,
{
    let s = String::from_str(a);
    s.concat(b)
}

/// Whether two character sequences from `a[from_a..]` and `b` agree on `b`'s length.
fn matches_at(a: &Vec<char>, from: usize, b: &Vec<char>) -> (r: bool)
    requires
        from + b@.len() <= a@.len(),
    ensures
        r == (a@.subrange(from as int, from + b@.len()) == b@),
{
    let mut i: usize = 0;
    while i < b.len()
        invariant
            from + b@.len() <= a@.len(),
            a@.len() == a.len(),
            i <= b@.len(),
            forall|j: int| 0 <= j < i ==> a@[from + j] == b@[j],
        decreases b.len() - i,
    {
        if a[from + i] != b[i] {
            assert(a@.subrange(from as int, from + b@.len())[i as int] != b@[i as int]);
            return false;
        }
        i = i + 1;
    }
    assert(a@.subrange(from as int, from + b@.len()) =~= b@);
    true
}

/// `str::ends_with` for a string suffix.
pub fn has_suffix(s: &str, suffix: &str) -> (r: bool)
    ensures
        r == ends_with(s@, suffix@),
{
    let sv = chars_of(s);
    let xv = chars_of(suffix);
    if xv.len() > sv.len() {
        return false;
    }
    matches_at(&sv, sv.len() - xv.len(), &xv)
}

/// `str::starts_with` for a string prefix.
pub fn has_prefix(s: &str, prefix: &str) -> (r: bool)
    ensures
        r == starts_with(s@, prefix@),
{
    let sv = chars_of(s);
    let pv = chars_of(prefix);
    if pv.len() > sv.len() {
        return false;
    }
    matches_at(&sv, 0, &pv)
}

/// `==` on two string slices.
pub fn same_text(a: &str, b: &str) -> (r: bool)
    ensures
        r == (a@ == b@),
{
    let av = chars_of(a);
    let bv = chars_of(b);
    if av.len() != bv.len() {
        return false;
    }
    let r = matches_at(&av, 0, &bv);
    assert(av@.subrange(0, bv@.len() as int) =~= av@);
    r
}

/// `str::contains` for a string needle.
pub fn has_text(s: &str, needle: &str) -> (r: bool)
    ensures
        r == contains_text(s@, needle@),
{
    let sv = chars_of(s);
    let nv = chars_of(needle);
    if nv.len() > sv.len() {
        assert(!contains_text(s@, needle@));
        return false;
    }
    let last = sv.len() - nv.len();
    let mut i: usize = 0;
    while i < last
        invariant
            sv@ == s@,
            nv@ == needle@,
            nv@.len() <= sv@.len(),
            last == sv@.len() - nv@.len(),
            i <= last,
            forall|j: int| 0 <= j < i ==> #[trigger] sv@.subrange(j, j + nv@.len()) != nv@,
        decreases last - i,
    {
        if matches_at(&sv, i, &nv) {
            return true;
        }
        i = i + 1;
    }
    if matches_at(&sv, last, &nv) {
        return true;
    }
    proof {
        true_if_never(s@, needle@, last + 1);
    }
    false
}

proof fn true_if_never(s: Seq<char>, needle: Seq<char>, i: int)
    requires
        needle.len() <= s.len(),
        i + needle.len() > s.len(),
        forall|j: int| 0 <= j < i ==> #[trigger] s.subrange(j, j + needle.len()) != needle,
    ensures
        !contains_text(s, needle),
{
}

/// Unicode `White_Space` characters, the set that `str::trim` removes.
pub open spec fn is_unicode_whitespace(c: char) -> bool {
    let u = c as u32;
    (0x09 <= u <= 0x0d) || u == 0x20 || u == 0x85 || u == 0xa0 || u == 0x1680 || (0x2000 <= u
        <= 0x200a) || u == 0x2028 || u == 0x2029 || u == 0x202f || u == 0x205f || u == 0x3000
}

/// Exec test for `is_unicode_whitespace`.
pub fn is_whitespace_char(c: char) -> (r: bool)
    ensures
        r == is_unicode_whitespace(c),
{
    let u = c as u32;
    (0x09 <= u && u <= 0x0d) || u == 0x20 || u == 0x85 || u == 0xa0 || u == 0x1680 || (0x2000 <= u
        && u <= 0x200a) || u == 0x2028 || u == 0x2029 || u == 0x202f || u == 0x205f || u == 0x3000
}

/// Number of leading whitespace characters.
pub open spec fn leading_ws(s: Seq<char>) -> nat
    decreases s.len(),
{
    if s.len() > 0 && is_unicode_whitespace(s[0]) {
        1 + leading_ws(s.drop_first())
    } else {
        0
    }
}

/// Number of trailing whitespace characters.
pub open spec fn trailing_ws(s: Seq<char>) -> nat
    decreases s.len(),
{
    if s.len() > 0 && is_unicode_whitespace(s.last()) {
        1 + trailing_ws(s.drop_last())
    } else {
        0
    }
}

/// `s` without leading and trailing Unicode whitespace (`str::trim`).
pub open spec fn trimmed(s: Seq<char>) -> Seq<char> {
    let lead = s.skip(leading_ws(s) as int);
    lead.take(lead.len() - trailing_ws(lead))
}

proof fn lemma_leading_ws(s: Seq<char>)
    ensures
        leading_ws(s) <= s.len(),
        forall|k: int| 0 <= k < leading_ws(s) ==> is_unicode_whitespace(#[trigger] s[k]),
        leading_ws(s) < s.len() ==> !is_unicode_whitespace(s[leading_ws(s) as int]),
    decreases s.len(),
{
    if s.len() > 0 && is_unicode_whitespace(s[0]) {
        lemma_leading_ws(s.drop_first());
        assert forall|k: int| 0 <= k < leading_ws(s) implies is_unicode_whitespace(#[trigger] s[k]) by {
            if k > 0 {
                assert(s[k] == s.drop_first()[k - 1]);
            }
        }
    }
}

proof fn lemma_trailing_ws(s: Seq<char>)
    ensures
        trailing_ws(s) <= s.len(),
        forall|k: int| s.len() - trailing_ws(s) <= k < s.len() ==> is_unicode_whitespace(#[trigger] s[k]),
        trailing_ws(s) < s.len() ==> !is_unicode_whitespace(s[s.len() - trailing_ws(s) - 1]),
    decreases s.len(),
{
    if s.len() > 0 && is_unicode_whitespace(s.last()) {
        lemma_trailing_ws(s.drop_last());
        assert forall|k: int| s.len() - trailing_ws(s) <= k < s.len() implies is_unicode_whitespace(#[trigger] s[k]) by {
            if k < s.len() - 1 {
                assert(s[k] == s.drop_last()[k]);
            }
        }
    }
}

/// Leading-whitespace count characterised by its two properties.
proof fn lemma_leading_ws_is(s: Seq<char>, n: int)
    requires
        0 <= n <= s.len(),
        forall|k: int| 0 <= k < n ==> is_unicode_whitespace(#[trigger] s[k]),
        n < s.len() ==> !is_unicode_whitespace(s[n]),
    ensures
        leading_ws(s) == n,
    decreases s.len(),
{
    if n > 0 {
        assert(is_unicode_whitespace(s[0]));
        assert forall|k: int| 0 <= k < n - 1 implies is_unicode_whitespace(#[trigger] s.drop_first()[k]) by {
            assert(s.drop_first()[k] == s[k + 1]);
        }
        if n - 1 < s.len() - 1 {
            assert(s.drop_first()[n - 1] == s[n]);
        }
        lemma_leading_ws_is(s.drop_first(), n - 1);
    }
}

proof fn lemma_trailing_ws_is(s: Seq<char>, n: int)
    requires
        0 <= n <= s.len(),
        forall|k: int| s.len() - n <= k < s.len() ==> is_unicode_whitespace(#[trigger] s[k]),
        n < s.len() ==> !is_unicode_whitespace(s[s.len() - n - 1]),
    ensures
        trailing_ws(s) == n,
    decreases s.len(),
{
    if n > 0 {
        assert(is_unicode_whitespace(s[s.len() - 1]));
        assert forall|k: int| s.drop_last().len() - (n - 1) <= k < s.drop_last().len() implies is_unicode_whitespace(#[trigger] s.drop_last()[k]) by {
            assert(s.drop_last()[k] == s[k]);
        }
        if n - 1 < s.len() - 1 {
            assert(s.drop_last()[s.drop_last().len() - (n - 1) - 1] == s[s.len() - n - 1]);
        }
        lemma_trailing_ws_is(s.drop_last(), n - 1);
    }
}

/// `str::trim`: the string without leading and trailing Unicode whitespace.
pub fn trim(s: &str) -> (r: String)
    ensures
        r@ == trimmed(s@),
{
    let v = chars_of(s);
    let mut start: usize = 0;
    while start < v.len() && is_whitespace_char(v[start])
        invariant
            v@ == s@,
            start <= v@.len(),
            forall|k: int| 0 <= k < start ==> is_unicode_whitespace(#[trigger] v@[k]),
        decreases v.len() - start,
    {
        start = start + 1;
    }
    proof {
        lemma_leading_ws_is(s@, start as int);
    }
    let mut end: usize = v.len();
    while end > start && is_whitespace_char(v[end - 1])
        invariant
            v@ == s@,
            start <= end <= v@.len(),
            forall|k: int| end <= k < v@.len() ==> is_unicode_whitespace(#[trigger] v@[k]),
        decreases end - start,
    {
        end = end - 1;
    }
    proof {
        let lead = s@.skip(start as int);
        assert forall|k: int| lead.len() - (v@.len() - end) <= k < lead.len() implies is_unicode_whitespace(#[trigger] lead[k]) by {
            assert(lead[k] == v@[k + start]);
        }
        if v@.len() - end < lead.len() {
            assert(lead[lead.len() - (v@.len() - end) - 1] == v@[end - 1]);
        }
        lemma_trailing_ws_is(lead, (v@.len() - end) as int);
        assert(lead.take(lead.len() - trailing_ws(lead)) =~= v@.subrange(start as int, end as int));
    }
    let mut r = String::new();
    push_chars(&mut r, &v, start, end);
    r
}

/// An ASCII decimal digit.
pub open spec fn is_digit(c: char) -> bool {
    '0' <= c <= '9'
}

/// The number written by a run of ASCII digits.
pub open spec fn digits_value(s: Seq<char>) -> int
    decreases s.len(),
{
    if s.len() == 0 {
        0
    } else {
        digits_value(s.drop_last()) * 10 + (s.last() as int - '0' as int)
    }
}

/// Every character of `s` is an ASCII digit.
pub open spec fn all_digits(s: Seq<char>) -> bool {
    forall|i: int| 0 <= i < s.len() ==> is_digit(#[trigger] s[i])
}

/// `s` without a leading `+` or `-`.
pub open spec fn unsigned_part(s: Seq<char>) -> Seq<char> {
    if s.len() > 0 && (s[0] == '-' || s[0] == '+') {
        s.drop_first()
    } else {
        s
    }
}

/// What `str::parse::<i32>` gives: an optional `+` or `-`, then one or more
/// ASCII digits, whose value must fit in `i32`.
pub open spec fn parsed_i32(s: Seq<char>) -> Option<i32> {
    let body = unsigned_part(s);
    if body.len() == 0 || !all_digits(body) {
        None
    } else {
        let v = if s[0] == '-' {
            -digits_value(body)
        } else {
            digits_value(body)
        };
        if i32::MIN <= v <= i32::MAX {
            Some(v as i32)
        } else {
            None
        }
    }
}

proof fn lemma_digits_value_grows(s: Seq<char>, k: int)
    requires
        0 <= k <= s.len(),
        forall|i: int| 0 <= i < s.len() ==> is_digit(#[trigger] s[i]),
    ensures
        digits_value(s.take(k)) <= digits_value(s),
    decreases s.len() - k,
{
    if k < s.len() {
        lemma_digits_value_grows(s, k + 1);
        assert(s.take(k + 1).drop_last() =~= s.take(k));
        lemma_digits_value_nonneg(s.take(k));
    } else {
        assert(s.take(k) =~= s);
    }
}

proof fn lemma_digits_value_nonneg(s: Seq<char>)
    requires
        forall|i: int| 0 <= i < s.len() ==> is_digit(#[trigger] s[i]),
    ensures
        0 <= digits_value(s),
    decreases s.len(),
{
    if s.len() > 0 {
        lemma_digits_value_nonneg(s.drop_last());
    }
}

/// `str::parse::<i32>`.
pub fn parse_i32(s: &str) -> (r: Option<i32>)
    ensures
        r == parsed_i32(s@),
{
    let v = chars_of(s);
    let n = v.len();
    let neg = n > 0 && v[0] == '-';
    let start: usize = if n > 0 && (v[0] == '-' || v[0] == '+') {
        1
    } else {
        0
    };
    let ghost body = unsigned_part(s@);
    assert(body =~= v@.skip(start as int));
    if start >= n {
        return None;
    }
    assert(s@[0] == '-' <==> neg);
    let mut acc: i64 = 0;
    let mut k: usize = start;
    while k < n
        invariant
            v@ == s@,
            n == v@.len(),
            start <= k <= n,
            body == v@.skip(start as int),
            body == unsigned_part(s@),
            body.len() > 0,
            neg == (s@.len() > 0 && s@[0] == '-'),
            forall|i: int| 0 <= i < k - start ==> is_digit(#[trigger] body[i]),
            acc == digits_value(body.take(k - start)),
            0 <= acc <= 2147483648,
        decreases n - k,
    {
        let c = v[k];
        assert(body[k - start] == c);
        if !('0' <= c && c <= '9') {
            assert(!is_digit(body[k - start]));
            assert(!all_digits(body));
            return None;
        }
        let d: i64 = (c as u32 - '0' as u32) as i64;
        assert(body.take(k - start + 1).drop_last() =~= body.take(k - start));
        let next: i64 = acc * 10 + d;
        assert(digits_value(body.take(k - start + 1)) == next);
        if next > 2147483648 {
            proof {
                if all_digits(body) {
                    lemma_digits_value_grows(body, k - start + 1);
                    assert(digits_value(body) > 2147483648);
                }
            }
            return None;
        }
        acc = next;
        k = k + 1;
    }
    assert(body.take(k - start) =~= body);
    let value: i64 = if neg {
        -acc
    } else {
        acc
    };
    if value > 2147483647 {
        None
    } else {
        Some(value as i32)
    }
}

/// Whether a string is empty or only whitespace (`s.trim().is_empty()`).
pub fn is_blank(s: &str) -> (r: bool)
    ensures
        r == (trimmed(s@).len() == 0),
{
    let t = trim(s);
    t.as_str().is_empty()
}

/// ASCII lower-case of one character (`char::to_ascii_lowercase`).
pub open spec fn ascii_lower_char(c: char) -> char {
    if 'A' <= c <= 'Z' {
        ((c as u32) + 32) as char
    } else {
        c
    }
}

/// ASCII lower-case of a text (`str::to_ascii_lowercase`).
pub open spec fn ascii_lowercase(s: Seq<char>) -> Seq<char> {
    s.map_values(|c: char| ascii_lower_char(c))
}

/// Exec form of `ascii_lower_char`.
pub fn lower_ascii_char(c: char) -> (r: char)
    ensures
        r == ascii_lower_char(c),
{
    if 'A' <= c && c <= 'Z' {
        let b: u8 = ((c as u32) + 32) as u8;
        b as char
    } else {
        c
    }
}

/// `str::to_ascii_lowercase`.
pub fn to_ascii_lowercase(s: &str) -> (r: String)
    ensures
        r@ == ascii_lowercase(s@),
{
    let v = chars_of(s);
    let mut r = String::new();
    let mut i: usize = 0;
    while i < v.len()
        invariant
            v@ == s@,
            i <= v@.len(),
            r@ == ascii_lowercase(v@.take(i as int)),
        decreases v.len() - i,
    {
        push_char(&mut r, lower_ascii_char(v[i]));
        i = i + 1;
        assert(ascii_lowercase(v@.take(i as int)) =~= ascii_lowercase(v@.take(i - 1)).push(ascii_lower_char(v@[i - 1])));
    }
    assert(v@.take(i as int) =~= v@);
    r
}

/// `str::eq_ignore_ascii_case`.
pub fn eq_ignore_ascii_case(a: &str, b: &str) -> (r: bool)
    ensures
        r == (ascii_lowercase(a@) == ascii_lowercase(b@)),
{
    let av = chars_of(a);
    let bv = chars_of(b);
    if av.len() != bv.len() {
        assert(ascii_lowercase(a@).len() != ascii_lowercase(b@).len());
        return false;
    }
    let mut i: usize = 0;
    while i < av.len()
        invariant
            av@ == a@,
            bv@ == b@,
            av@.len() == bv@.len(),
            i <= av@.len(),
            forall|j: int| 0 <= j < i ==> ascii_lower_char(av@[j]) == ascii_lower_char(bv@[j]),
        decreases av.len() - i,
    {
        if lower_ascii_char(av[i]) != lower_ascii_char(bv[i]) {
            assert(ascii_lowercase(a@)[i as int] != ascii_lowercase(b@)[i as int]);
            return false;
        }
        i = i + 1;
    }
    assert(ascii_lowercase(a@) =~= ascii_lowercase(b@));
    true
}

/// The decimal digit character for `d` (below ten).
pub open spec fn digit_char(d: nat) -> char {
    ((('0' as u32) as nat) + d) as char
}

/// Decimal text of a natural number, without leading zeros.
pub open spec fn nat_decimal(n: nat) -> Seq<char>
    decreases n,
{
    if n < 10 {
        seq![digit_char(n)]
    } else {
        nat_decimal(n / 10).push(digit_char(n % 10))
    }
}

/// Decimal text of an integer, with a leading `-` when negative
/// (what `Display` writes for Rust's integer types).
pub open spec fn int_decimal(i: int) -> Seq<char> {
    if i < 0 {
        seq!['-'] + nat_decimal((-i) as nat)
    } else {
        nat_decimal(i as nat)
    }
}

fn digit_to_char(d: u64) -> (c: char)
    requires
        d < 10,
    ensures
        c == digit_char(d as nat),
{
    let b: u8 = 48 + (d as u8);
    b as char
}

/// Appends the decimal text of `n` to `out`.
pub fn push_decimal(out: &mut String, n: u64)
    ensures
        final(out)@ == old(out)@ + nat_decimal(n as nat),
    decreases n,
{
    if n >= 10 {
        push_decimal(out, n / 10);
    }
    push_char(out, digit_to_char(n % 10));
    assert(nat_decimal(n as nat) =~= if n < 10 {
        seq![digit_char(n as nat)]
    } else {
        nat_decimal((n / 10) as nat).push(digit_char((n % 10) as nat))
    });
}

/// `n` zero characters.
pub open spec fn zeros(n: nat) -> Seq<char> {
    Seq::new(n, |i: int| '0')
}

/// Decimal text of `i` padded with zeros after the sign to at least `width`
/// characters, as the `{:0width}` format writes it.
pub open spec fn zero_padded(i: int, width: nat) -> Seq<char> {
    let sign: Seq<char> = if i < 0 {
        seq!['-']
    } else {
        Seq::empty()
    };
    let digits = nat_decimal((if i < 0 {
        -i
    } else {
        i
    }) as nat);
    let used = sign.len() + digits.len();
    sign + zeros(
        if used < width {
            (width - used) as nat
        } else {
            0
        },
    ) + digits
}

/// Appends `i` zero-padded to `width` characters (`format!("{:0w$}", i)`).
pub fn push_zero_padded(out: &mut String, i: i64, width: usize)
    ensures
        final(out)@ == old(out)@ + zero_padded(i as int, width as nat),
{
    let mut digits = String::new();
    let m: u64 = if i < 0 {
        if i == i64::MIN {
            9223372036854775808u64
        } else {
            (-i) as u64
        }
    } else {
        i as u64
    };
    push_decimal(&mut digits, m);
    let dv = chars_of(digits.as_str());
    let sign_len: usize = if i < 0 {
        1
    } else {
        0
    };
    if i < 0 {
        push_char(out, '-');
    }
    let fill: usize = if dv.len() >= width {
        0
    } else if sign_len >= width - dv.len() {
        0
    } else {
        width - dv.len() - sign_len
    };
    let ghost mid = out@;
    let mut k: usize = 0;
    while k < fill
        invariant
            k <= fill,
            out@ == mid + zeros(k as nat),
        decreases fill - k,
    {
        push_char(out, '0');
        k = k + 1;
        assert(out@ =~= mid + zeros(k as nat));
    }
    push_str(out, digits.as_str());
    proof {
        let sign: Seq<char> = if i < 0 {
            seq!['-']
        } else {
            Seq::empty()
        };
        assert(digits@ =~= nat_decimal(m as nat));
        assert(mid =~= old(out)@ + sign);
        assert(out@ =~= old(out)@ + zero_padded(i as int, width as nat));
    }
}

/// Appends the decimal text of a signed integer to `out`.
pub fn push_int(out: &mut String, v: i64)
    ensures
        final(out)@ == old(out)@ + int_decimal(v as int),
{
    if v < 0 {
        push_char(out, '-');
        let m: u64 = if v == i64::MIN {
            9223372036854775808u64
        } else {
            (-v) as u64
        };
        push_decimal(out, m);
        assert(old(out)@.push('-') + nat_decimal(m as nat) =~= old(out)@ + (seq!['-'] + nat_decimal(m as nat)));
    } else {
        push_decimal(out, v as u64);
    }
}

/// The decimal text of an integer (`i64::to_string`).
pub fn int_to_string(v: i64) -> (s: String)
    ensures
        s@ == int_decimal(v as int),
{
    let mut s = String::new();
    push_int(&mut s, v);
    assert(Seq::<char>::empty() + int_decimal(v as int) =~= int_decimal(v as int));
    s
}

/// Appends a string slice to `out`.
pub fn push_str(out: &mut String, s: &str)
    ensures
        final(out)@ == old(out)@ + s@,
{
    out.append(s);
}

/// `parts` joined with `sep` in between (`[String]::join`).
pub open spec fn joined(parts: Seq<Seq<char>>, sep: Seq<char>) -> Seq<char>
    decreases parts.len(),
{
    if parts.len() == 0 {
        Seq::empty()
    } else if parts.len() == 1 {
        parts[0]
    } else {
        joined(parts.drop_last(), sep) + sep + parts.last()
    }
}

/// Joins strings with a separator.
pub fn join(parts: &Vec<String>, sep: &str) -> (r: String)
    ensures
        r@ == joined(parts@.map_values(|p: String| p@), sep@),
{
    let ghost views = parts@.map_values(|p: String| p@);
    let mut r = String::new();
    let mut i: usize = 0;
    while i < parts.len()
        invariant
            i <= parts@.len(),
            views == parts@.map_values(|p: String| p@),
            r@ == joined(views.take(i as int), sep@),
        decreases parts.len() - i,
    {
        if i > 0 {
            push_str(&mut r, sep);
        }
        push_str(&mut r, parts[i].as_str());
        i = i + 1;
        proof {
            let t = views.take(i as int);
            assert(t.drop_last() =~= views.take(i - 1));
            if i == 1 {
                assert(joined(views.take(0), sep@) =~= Seq::<char>::empty());
            }
        }
    }
    assert(views.take(i as int) =~= views);
    r
}

} // verus!
