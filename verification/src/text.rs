//! Character-level helpers shared by the parsers: whitespace, trimming and
//! conversions between strings and character vectors.

use vstd::prelude::*;
use vstd::string::*;

verus! {

/// Unicode `White_Space`, the set that `char::is_whitespace` and `str::trim` use.
pub open spec fn is_ws(c: char) -> bool {
    ||| '\u{9}' <= c <= '\u{d}'
    ||| c == ' '
    ||| c == '\u{85}'
    ||| c == '\u{a0}'
    ||| c == '\u{1680}'
    ||| '\u{2000}' <= c <= '\u{200a}'
    ||| c == '\u{2028}'
    ||| c == '\u{2029}'
    ||| c == '\u{202f}'
    ||| c == '\u{205f}'
    ||| c == '\u{3000}'
}

pub fn is_whitespace(c: char) -> (b: bool)
    ensures
        b == is_ws(c),
{
    ('\u{9}' <= c && c <= '\u{d}') || c == ' ' || c == '\u{85}' || c == '\u{a0}' || c == '\u{1680}'
        || ('\u{2000}' <= c && c <= '\u{200a}') || c == '\u{2028}' || c == '\u{2029}' || c
        == '\u{202f}' || c == '\u{205f}' || c == '\u{3000}'
}

/// `s` without its leading whitespace.
pub open spec fn trim_start(s: Seq<char>) -> Seq<char>
    decreases s.len(),
{
    if s.len() > 0 && is_ws(s[0]) {
        trim_start(s.drop_first())
    } else {
        s
    }
}

/// `s` without its trailing whitespace.
pub open spec fn trim_end(s: Seq<char>) -> Seq<char>
    decreases s.len(),
{
    if s.len() > 0 && is_ws(s.last()) {
        trim_end(s.drop_last())
    } else {
        s
    }
}

/// `s` without leading and trailing whitespace, as `str::trim` gives it.
pub open spec fn trim(s: Seq<char>) -> Seq<char> {
    trim_end(trim_start(s))
}

/// The characters of `s`, in order.
pub fn chars_of(s: &str) -> (v: Vec<char>)
    ensures
        v@ == s@,
{
    let mut v: Vec<char> = Vec::new();
    for c in it: s.chars()
        invariant
            v@ == it.seq().take(it.index() as int),
            it.seq() == s@,
    {
        v.push(c);
    }
    v
}

/// Where the trimmed text starts and ends within `chars`.
pub fn trim_bounds(chars: &Vec<char>) -> (r: (usize, usize))
    ensures
        r.0 <= r.1 <= chars.len(),
        chars@.subrange(r.0 as int, r.1 as int) == trim(chars@),
{
    let n = chars.len();
    let mut start: usize = 0;
    assert(chars@.skip(0) =~= chars@);
    while start < n && is_whitespace(chars[start])
        invariant
            start <= n,
            n == chars.len(),
            trim_start(chars@) == trim_start(chars@.skip(start as int)),
        decreases n - start,
    {
        assert(chars@.skip(start as int).drop_first() =~= chars@.skip(start + 1));
        start = start + 1;
    }
    let ghost rest = chars@.skip(start as int);
    assert(trim_start(chars@) == rest);
    assert(rest =~= chars@.subrange(start as int, n as int));
    let mut end: usize = n;
    while end > start && is_whitespace(chars[end - 1])
        invariant
            start <= end <= n,
            n == chars.len(),
            rest == chars@.skip(start as int),
            trim_end(rest) == trim_end(chars@.subrange(start as int, end as int)),
        decreases end,
    {
        assert(chars@.subrange(start as int, end as int).drop_last() =~= chars@.subrange(
            start as int,
            end - 1,
        ));
        end = end - 1;
    }
    (start, end)
}

/// `str::trim`: `s` without leading and trailing whitespace.
pub fn trim_str(s: &str) -> (r: &str)
    ensures
        r@ == trim(s@),
{
    let chars = chars_of(s);
    let (start, end) = trim_bounds(&chars);
    s.substring_char(start, end)
}

/// Whether `a` and `b` hold the same characters.
pub fn str_eq(a: &str, b: &str) -> (r: bool)
    ensures
        r == (a@ == b@),
{
    let x = chars_of(a);
    let y = chars_of(b);
    if x.len() != y.len() {
        return false;
    }
    let mut i: usize = 0;
    while i < x.len()
        invariant
            x@ == a@,
            y@ == b@,
            x.len() == y.len(),
            i <= x.len(),
            forall|j: int| 0 <= j < i ==> x@[j] == y@[j],
        decreases x.len() - i,
    {
        if x[i] != y[i] {
            return false;
        }
        i = i + 1;
    }
    assert(x@ =~= y@);
    true
}

/// `String::push`: appends `c` to `s`.
#[verifier::external_body]
pub(crate) fn push_char(s: &mut String, c: char)
    ensures
        final(s)@ == old(s)@.push(c),
{
    s.push(c);
}

/// The number of bytes that UTF-8 takes for `c`.
pub open spec fn utf8_width(c: char) -> nat {
    if (c as u32) < 0x80 {
        1
    } else if (c as u32) < 0x800 {
        2
    } else if (c as u32) < 0x10000 {
        3
    } else {
        4
    }
}

/// `char::len_utf8`.
pub fn char_utf8_width(c: char) -> (w: usize)
    ensures
        w == utf8_width(c),
{
    let v = c as u32;
    if v < 0x80 {
        1
    } else if v < 0x800 {
        2
    } else if v < 0x10000 {
        3
    } else {
        4
    }
}

pub proof fn lemma_encode_scalar_width(c: char)
    ensures
        vstd::utf8::encode_scalar(c as u32).len() == utf8_width(c),
{
    broadcast use vstd::utf8::char_is_scalar;
    assert(vstd::utf8::is_scalar(c as u32));
}

pub proof fn lemma_encode_utf8_append(a: Seq<char>, b: Seq<char>)
    ensures
        vstd::utf8::encode_utf8(a + b) == vstd::utf8::encode_utf8(a) + vstd::utf8::encode_utf8(b),
    decreases a.len(),
{
    if a.len() == 0 {
        assert(a + b =~= b);
        assert(vstd::utf8::encode_utf8(a) =~= Seq::<u8>::empty());
        assert(vstd::utf8::encode_utf8(a) + vstd::utf8::encode_utf8(b) =~= vstd::utf8::encode_utf8(b));
    } else {
        assert((a + b).drop_first() =~= a.drop_first() + b);
        lemma_encode_utf8_append(a.drop_first(), b);
        assert(vstd::utf8::encode_utf8(a + b) =~= vstd::utf8::encode_scalar(a[0] as u32)
            + vstd::utf8::encode_utf8(a.drop_first() + b));
    }
}

/// The UTF-8 length of the first `i` characters grows by the width of the next one.
pub proof fn lemma_byte_offset_step(s: Seq<char>, i: int)
    requires
        0 <= i < s.len(),
    ensures
        vstd::utf8::encode_utf8(s.take(i + 1)).len() == vstd::utf8::encode_utf8(s.take(i)).len()
            + utf8_width(s[i]),
{
    assert(s.take(i + 1) =~= s.take(i) + seq![s[i]]);
    lemma_encode_utf8_append(s.take(i), seq![s[i]]);
    lemma_encode_scalar_width(s[i]);
    assert(seq![s[i]].drop_first() =~= Seq::<char>::empty());
    assert(vstd::utf8::encode_utf8(seq![s[i]]) =~= vstd::utf8::encode_scalar(s[i] as u32)
        + vstd::utf8::encode_utf8(Seq::<char>::empty()));
}

pub proof fn lemma_byte_offset_bounded(s: Seq<char>, i: int)
    requires
        0 <= i <= s.len(),
    ensures
        vstd::utf8::encode_utf8(s.take(i)).len() <= vstd::utf8::encode_utf8(s).len(),
{
    assert(s =~= s.take(i) + s.skip(i));
    lemma_encode_utf8_append(s.take(i), s.skip(i));
}

/// An ASCII letter.
pub open spec fn is_ascii_letter(c: char) -> bool {
    ('a' <= c <= 'z') || ('A' <= c <= 'Z')
}

/// An ASCII digit.
pub open spec fn is_ascii_digit(c: char) -> bool {
    '0' <= c <= '9'
}

/// A name in the engine's scripting language: an ASCII letter or `_`, then
/// ASCII letters, digits and `_`.
pub open spec fn is_identifier_chars(s: Seq<char>) -> bool {
    &&& s.len() > 0
    &&& (is_ascii_letter(s[0]) || s[0] == '_')
    &&& forall|j: int|
        0 < j < s.len() ==> is_ascii_letter(#[trigger] s[j]) || is_ascii_digit(s[j]) || s[j] == '_'
}

/// Whether `text` is a name in the engine's scripting language.
pub fn is_identifier(text: &str) -> (r: bool)
    ensures
        r == is_identifier_chars(text@),
{
    let s = chars_of(text);
    if s.len() == 0 {
        return false;
    }
    let c0 = s[0];
    if !(('a' <= c0 && c0 <= 'z') || ('A' <= c0 && c0 <= 'Z') || c0 == '_') {
        return false;
    }
    let mut i: usize = 1;
    while i < s.len()
        invariant
            s@ == text@,
            1 <= i <= s.len(),
            forall|j: int|
                0 < j < i ==> is_ascii_letter(#[trigger] s@[j]) || is_ascii_digit(s@[j]) || s@[j]
                    == '_',
        decreases s.len() - i,
    {
        let c = s[i];
        if !(('a' <= c && c <= 'z') || ('A' <= c && c <= 'Z') || ('0' <= c && c <= '9') || c
            == '_') {
            return false;
        }
        i = i + 1;
    }
    true
}

/// Whether `text` holds the character `c`.
pub fn contains_char(text: &str, c: char) -> (r: bool)
    ensures
        r == text@.contains(c),
{
    let s = chars_of(text);
    let mut i: usize = 0;
    while i < s.len()
        invariant
            s@ == text@,
            i <= s.len(),
            forall|j: int| 0 <= j < i ==> s@[j] != c,
        decreases s.len() - i,
    {
        if s[i] == c {
            return true;
        }
        i = i + 1;
    }
    false
}

/// A new `String` holding `s`.
pub fn string_of(s: &str) -> (r: String)
    ensures
        r@ == s@,
{
    s.to_owned()
}

/// `a` followed by `b`.
pub fn concat2(a: &str, b: &str) -> (r: String)
    ensures
        r@ == a@ + b@,
{
    let mut r = a.to_owned();
    r.append(b);
    r
}

/// `a`, `b` and `c` one after the other.
pub fn concat3(a: &str, b: &str, c: &str) -> (r: String)
    ensures
        r@ == a@ + b@ + c@,
{
    let mut r = a.to_owned();
    r.append(b);
    r.append(c);
    r
}

/// A result with its value and its message taken by their views.
pub open spec fn result_view<T: View>(r: Result<T, String>) -> Result<T::V, Seq<char>> {
    match r {
        Ok(v) => Ok(v@),
        Err(m) => Err(m@),
    }
}

/// The decimal digit for `d`.
pub open spec fn digit_char(d: nat) -> char {
    ((d + 48) as u8) as char
}

/// The decimal digits of `n`, most significant first.
pub open spec fn digits_of(n: nat) -> Seq<char>
    decreases n,
{
    if n < 10 {
        seq![digit_char(n)]
    } else {
        digits_of(n / 10) + seq![digit_char(n % 10)]
    }
}

/// `v` written in decimal, with a `-` before a negative number.
pub open spec fn decimal(v: int) -> Seq<char> {
    if v < 0 {
        seq!['-'] + digits_of((-v) as nat)
    } else {
        digits_of(v as nat)
    }
}

fn push_digits(out: &mut String, n: u64)
    ensures
        final(out)@ == old(out)@ + digits_of(n as nat),
    decreases n,
{
    if n >= 10 {
        push_digits(out, n / 10);
    }
    let d = (n % 10) as u8;
    push_char(out, (d + 48) as char);
}

/// `v` written in decimal, as `i64::to_string` writes it.
pub fn format_i64(v: i64) -> (r: String)
    ensures
        r@ == decimal(v as int),
{
    let mut out = String::new();
    if v < 0 {
        push_char(&mut out, '-');
        let m: u64 = ((-(v + 1)) as u64) + 1;
        push_digits(&mut out, m);
    } else {
        push_digits(&mut out, v as u64);
    }
    out
}

} // verus!
