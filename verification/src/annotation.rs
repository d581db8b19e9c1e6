//! The hint-string grammar: entries separated by `;`, each a key, an optional
//! `:` and raw arguments; a backslash escapes the character after it.

use vstd::prelude::*;
use vstd::string::*;

use crate::text::{is_ws, trim, trim_end, trim_start, trim_str, str_eq, chars_of, char_utf8_width, lemma_byte_offset_bounded, lemma_byte_offset_step, push_char};

verus! {

/// The parts of `s` between the delimiters `d` that are not escaped, scanning
/// from position `i` with the current part starting at `start`.
pub open spec fn split_from(s: Seq<char>, d: char, start: int, i: int) -> Seq<Seq<char>>
    decreases s.len() - i,
{
    if i >= s.len() {
        seq![s.subrange(start, s.len() as int)]
    } else if s[i] == '\\' {
        if i + 1 >= s.len() {
            seq![s.subrange(start, s.len() as int)]
        } else {
            split_from(s, d, start, i + 2)
        }
    } else if s[i] == d {
        seq![s.subrange(start, i)] + split_from(s, d, i + 1, i + 1)
    } else {
        split_from(s, d, start, i + 1)
    }
}

/// `s` cut at every unescaped `d`; a backslash escapes the character after it.
pub open spec fn split_escaped(s: Seq<char>, d: char) -> Seq<Seq<char>> {
    split_from(s, d, 0, 0)
}

/// The character position of the first unescaped `d` in `s` at or after `i`.
pub open spec fn first_from(s: Seq<char>, d: char, i: int) -> Option<int>
    decreases s.len() - i,
{
    if i >= s.len() {
        None
    } else if s[i] == '\\' {
        if i + 1 >= s.len() {
            None
        } else {
            first_from(s, d, i + 2)
        }
    } else if s[i] == d {
        Some(i)
    } else {
        first_from(s, d, i + 1)
    }
}

/// The character position of the first unescaped `d` in `s`.
pub open spec fn first_escaped(s: Seq<char>, d: char) -> Option<int> {
    first_from(s, d, 0)
}

/// `s` with every escape resolved: a backslash is dropped and the character
/// after it kept as it is; a backslash at the very end is dropped.
pub open spec fn unescaped(s: Seq<char>) -> Seq<char>
    decreases s.len(),
{
    if s.len() == 0 {
        Seq::empty()
    } else if s[0] == '\\' {
        if s.len() >= 2 {
            seq![s[1]] + unescaped(s.skip(2))
        } else {
            Seq::empty()
        }
    } else {
        seq![s[0]] + unescaped(s.drop_first())
    }
}

/// A position that the scan finds lies within the text.
pub proof fn lemma_first_from_in_range(s: Seq<char>, d: char, i: int)
    requires
        0 <= i,
    ensures
        first_from(s, d, i) matches Some(k) ==> i <= k < s.len() && s[k] == d,
    decreases s.len() - i,
{
    if i < s.len() {
        if s[i] == '\\' {
            if i + 1 < s.len() {
                lemma_first_from_in_range(s, d, i + 2);
            }
        } else if s[i] != d {
            lemma_first_from_in_range(s, d, i + 1);
        }
    }
}

/// The views of a vector of string slices.
pub open spec fn views_of_strs(v: Seq<&str>) -> Seq<Seq<char>> {
    v.map_values(|p: &str| p@)
}

/// The views of a vector of strings.
pub open spec fn views_of_strings(v: Seq<String>) -> Seq<Seq<char>> {
    v.map_values(|p: String| p@)
}

/// Splits `text` at every `delimiter` that no backslash escapes; the parts keep
/// their escapes.
pub fn split_unescaped(text: &str, delimiter: char) -> (parts: Vec<&str>)
    ensures
        views_of_strs(parts@) == split_escaped(text@, delimiter),
{
    let chars = chars_of(text);
    let n = chars.len();
    let mut parts: Vec<&str> = Vec::new();
    let mut start: usize = 0;
    let mut i: usize = 0;
    while i < n
        invariant
            chars@ == text@,
            n == chars.len(),
            start <= i <= n,
            split_escaped(text@, delimiter) == views_of_strs(parts@) + split_from(
                text@,
                delimiter,
                start as int,
                i as int,
            ),
        decreases n - i,
    {
        let ghost before = parts@;
        let c = chars[i];
        if c == '\\' {
            if i + 1 >= n {
                i = n;
            } else {
                i = i + 2;
            }
        } else if c == delimiter {
            let part = text.substring_char(start, i);
            parts.push(part);
            assert(views_of_strs(parts@) =~= views_of_strs(before) + seq![part@]);
            assert(views_of_strs(before) + split_from(text@, delimiter, start as int, i as int)
                =~= views_of_strs(parts@) + split_from(text@, delimiter, i + 1, i + 1));
            i = i + 1;
            start = i;
        } else {
            i = i + 1;
        }
    }
    let last = text.substring_char(start, n);
    let ghost before = parts@;
    parts.push(last);
    assert(views_of_strs(parts@) =~= views_of_strs(before) + seq![last@]);
    parts
}

/// The character position of the first unescaped `needle`, found by scanning.
fn first_unescaped_char(chars: &Vec<char>, needle: char) -> (r: Option<usize>)
    ensures
        match r {
            Some(i) => first_escaped(chars@, needle) == Some(i as int) && i < chars.len(),
            None => first_escaped(chars@, needle) is None,
        },
{
    proof {
        lemma_first_from_in_range(chars@, needle, 0);
    }
    let n = chars.len();
    let mut i: usize = 0;
    while i < n
        invariant
            n == chars.len(),
            i <= n,
            first_escaped(chars@, needle) == first_from(chars@, needle, i as int),
        decreases n - i,
    {
        let c = chars[i];
        if c == '\\' {
            if i + 1 >= n {
                i = n;
            } else {
                i = i + 2;
            }
        } else if c == needle {
            return Some(i);
        } else {
            i = i + 1;
        }
    }
    None
}

/// The byte offset of the first unescaped `needle` in `text`.
pub fn first_unescaped(text: &str, needle: char) -> (r: Option<usize>)
    ensures
        match first_escaped(text@, needle) {
            Some(i) => r == Some(vstd::utf8::encode_utf8(text@.take(i)).len() as usize),
            None => r is None,
        },
{
    let chars = chars_of(text);
    let total = text.as_bytes().len();
    match first_unescaped_char(&chars, needle) {
        None => None,
        Some(ci) => {
            let mut offset: usize = 0;
            let mut j: usize = 0;
            proof {
                assert(text@.take(0) =~= Seq::<char>::empty());
                lemma_byte_offset_bounded(text@, ci as int);
            }
            while j < ci
                invariant
                    chars@ == text@,
                    j <= ci < chars.len(),
                    total == vstd::utf8::encode_utf8(text@).len(),
                    offset == vstd::utf8::encode_utf8(text@.take(j as int)).len(),
                decreases ci - j,
            {
                proof {
                    lemma_byte_offset_step(text@, j as int);
                    lemma_byte_offset_bounded(text@, j + 1);
                }
                offset = offset + char_utf8_width(chars[j]);
                j = j + 1;
            }
            Some(offset)
        },
    }
}

/// `text` with every escape resolved.
pub fn unescape(text: &str) -> (r: String)
    ensures
        r@ == unescaped(text@),
{
    let chars = chars_of(text);
    let n = chars.len();
    let mut out = String::new();
    let mut i: usize = 0;
    assert(text@.skip(0) =~= text@);
    while i < n
        invariant
            chars@ == text@,
            n == chars.len(),
            i <= n,
            unescaped(text@) == out@ + unescaped(text@.skip(i as int)),
        decreases n - i,
    {
        let c = chars[i];
        let ghost rest = text@.skip(i as int);
        if c == '\\' {
            if i + 1 < n {
                push_char(&mut out, chars[i + 1]);
                assert(rest.skip(2) =~= text@.skip(i + 2));
                i = i + 2;
            } else {
                i = n;
            }
        } else {
            push_char(&mut out, c);
            assert(rest.drop_first() =~= text@.skip(i + 1));
            i = i + 1;
        }
    }
    assert(text@.skip(n as int) =~= Seq::<char>::empty());
    out
}

/// The part of `s` from `start` up to the next `d` (no escapes), and the rest.
pub open spec fn split_plain_from(s: Seq<char>, d: char, start: int, i: int) -> Seq<Seq<char>>
    decreases s.len() - i,
{
    if i >= s.len() {
        seq![s.subrange(start, s.len() as int)]
    } else if s[i] == d {
        seq![s.subrange(start, i)] + split_plain_from(s, d, i + 1, i + 1)
    } else {
        split_plain_from(s, d, start, i + 1)
    }
}

/// `str::split` on a character: `s` cut at every `d`.
pub open spec fn split_plain(s: Seq<char>, d: char) -> Seq<Seq<char>> {
    split_plain_from(s, d, 0, 0)
}

/// The parts joined with `sep` between each two of them.
pub open spec fn join(parts: Seq<Seq<char>>, sep: char) -> Seq<char>
    decreases parts.len(),
{
    if parts.len() == 0 {
        Seq::empty()
    } else if parts.len() == 1 {
        parts[0]
    } else {
        join(parts.drop_last(), sep) + seq![sep] + parts.last()
    }
}

proof fn lemma_split_from_nonempty(s: Seq<char>, d: char, start: int, i: int)
    ensures
        split_from(s, d, start, i).len() >= 1,
    decreases s.len() - i,
{
    if i < s.len() {
        if s[i] == '\\' {
            if i + 1 < s.len() {
                lemma_split_from_nonempty(s, d, start, i + 2);
            }
        } else if s[i] == d {
            lemma_split_from_nonempty(s, d, i + 1, i + 1);
        } else {
            lemma_split_from_nonempty(s, d, start, i + 1);
        }
    }
}

proof fn lemma_join_prepend(x: Seq<char>, rest: Seq<Seq<char>>, sep: char)
    requires
        rest.len() >= 1,
    ensures
        join(seq![x] + rest, sep) == x + seq![sep] + join(rest, sep),
    decreases rest.len(),
{
    let all = seq![x] + rest;
    assert(all.len() >= 2);
    assert(join(all, sep) == join(all.drop_last(), sep) + seq![sep] + all.last());
    if rest.len() == 1 {
        assert(all.drop_last() =~= seq![x]);
        assert(join(seq![x], sep) == x);
        assert(all.last() == rest[0]);
        assert(join(rest, sep) == rest[0]);
    } else {
        assert(all.drop_last() =~= seq![x] + rest.drop_last());
        lemma_join_prepend(x, rest.drop_last(), sep);
        assert(all.last() == rest.last());
        assert(join(rest, sep) == join(rest.drop_last(), sep) + seq![sep] + rest.last());
        assert(x + seq![sep] + join(rest.drop_last(), sep) + seq![sep] + rest.last() =~= x + seq![sep]
            + (join(rest.drop_last(), sep) + seq![sep] + rest.last()));
    }
}

proof fn lemma_split_from_join(s: Seq<char>, d: char, start: int, i: int)
    requires
        0 <= start <= i <= s.len(),
    ensures
        join(split_from(s, d, start, i), d) == s.subrange(start, s.len() as int),
    decreases s.len() - i,
{
    if i < s.len() {
        if s[i] == '\\' {
            if i + 1 < s.len() {
                lemma_split_from_join(s, d, start, i + 2);
            }
        } else if s[i] == d {
            lemma_split_from_join(s, d, i + 1, i + 1);
            lemma_split_from_nonempty(s, d, i + 1, i + 1);
            lemma_join_prepend(s.subrange(start, i), split_from(s, d, i + 1, i + 1), d);
            assert(s.subrange(start, i) + seq![d] + s.subrange(i + 1, s.len() as int) =~= s.subrange(
                start,
                s.len() as int,
            ));
        } else {
            lemma_split_from_join(s, d, start, i + 1);
        }
    }
}

/// Splitting loses nothing: the parts, joined back with the delimiter, give
/// the text, escapes and all.
pub proof fn lemma_split_then_join(s: Seq<char>, d: char)
    ensures
        join(split_escaped(s, d), d) == s,
{
    lemma_split_from_join(s, d, 0, 0);
    assert(s.subrange(0, s.len() as int) =~= s);
}

/// Scanning from a position depends only on the text from there on.
proof fn lemma_first_from_shift(s: Seq<char>, d: char, a: int, j: int)
    requires
        0 <= a <= s.len(),
        0 <= j,
    ensures
        first_from(s, d, a + j) == match first_from(s.skip(a), d, j) {
            Some(k) => Some(k + a),
            None => None::<int>,
        },
    decreases s.len() - a - j,
{
    let t = s.skip(a);
    if a + j < s.len() {
        assert(t[j] == s[a + j]);
        if s[a + j] == '\\' {
            if a + j + 1 < s.len() {
                lemma_first_from_shift(s, d, a, j + 2);
            }
        } else if s[a + j] != d {
            lemma_first_from_shift(s, d, a, j + 1);
        }
    }
}

/// Scanning a prefix finds what scanning the whole text finds before the
/// prefix ends.
proof fn lemma_first_from_prefix(s: Seq<char>, d: char, m: int, i: int)
    requires
        0 <= i,
        0 <= m <= s.len(),
    ensures
        first_from(s.take(m), d, i) == match first_from(s, d, i) {
            Some(k) => if k < m {
                Some(k)
            } else {
                None::<int>
            },
            None => None::<int>,
        },
    decreases s.len() - i,
{
    let u = s.take(m);
    lemma_first_from_in_range(s, d, i);
    if i < s.len() {
        if i < m {
            assert(u[i] == s[i]);
            if s[i] == '\\' {
                if i + 1 < m {
                    lemma_first_from_prefix(s, d, m, i + 2);
                } else if i + 1 < s.len() {
                    lemma_first_from_in_range(s, d, i + 2);
                }
            } else if s[i] != d {
                lemma_first_from_prefix(s, d, m, i + 1);
            }
        }
    }
}

/// One step of splitting: the part that starts at `start` ends at the first
/// unescaped delimiter from `i` on, or at the end.
proof fn lemma_split_from_step(s: Seq<char>, d: char, start: int, i: int)
    requires
        0 <= start <= i <= s.len(),
    ensures
        match first_from(s, d, i) {
            Some(k) => split_from(s, d, start, i) == seq![s.subrange(start, k)] + split_from(
                s,
                d,
                k + 1,
                k + 1,
            ),
            None => split_from(s, d, start, i) == seq![s.subrange(start, s.len() as int)],
        },
    decreases s.len() - i,
{
    if i < s.len() {
        if s[i] == '\\' {
            if i + 1 < s.len() {
                lemma_split_from_step(s, d, start, i + 2);
            }
        } else if s[i] != d {
            lemma_split_from_step(s, d, start, i + 1);
        }
    }
}

proof fn lemma_split_parts_from(s: Seq<char>, d: char, start: int)
    requires
        0 <= start <= s.len(),
    ensures
        ({
            let parts = split_from(s, d, start, start);
            &&& parts.len() >= 1
            &&& match first_from(s, d, start) {
                Some(k) => parts.len() >= 2 && parts[0] == s.subrange(start, k),
                None => parts == seq![s.subrange(start, s.len() as int)],
            }
            &&& forall|j: int| 0 <= j < parts.len() ==> first_escaped(#[trigger] parts[j], d) is None
        }),
    decreases s.len() - start,
{
    let parts = split_from(s, d, start, start);
    let rest = s.skip(start);
    lemma_split_from_step(s, d, start, start);
    lemma_first_from_shift(s, d, start, 0);
    lemma_first_from_in_range(s, d, start);
    match first_from(s, d, start) {
        Some(k) => {
            lemma_split_parts_from(s, d, k + 1);
            let tail = split_from(s, d, k + 1, k + 1);
            let first = s.subrange(start, k);
            assert(first =~= rest.take(k - start));
            lemma_first_from_prefix(rest, d, k - start, 0);
            assert forall|j: int| 0 <= j < parts.len() implies first_escaped(#[trigger] parts[j], d) is None by {
                if j > 0 {
                    assert(parts[j] == tail[j - 1]);
                }
            }
        },
        None => {
            assert(s.subrange(start, s.len() as int) =~= rest);
        },
    }
}

/// Splitting gives at least one part; no part holds a delimiter that no
/// backslash escapes; the first part ends at the first unescaped delimiter,
/// and without one the text is the only part.
pub proof fn lemma_split_parts(s: Seq<char>, d: char)
    ensures
        split_escaped(s, d).len() >= 1,
        forall|j: int|
            0 <= j < split_escaped(s, d).len() ==> first_escaped(#[trigger] split_escaped(s, d)[j], d) is None,
        match first_escaped(s, d) {
            Some(k) => split_escaped(s, d).len() >= 2 && split_escaped(s, d)[0] == s.take(k),
            None => split_escaped(s, d) == seq![s],
        },
{
    lemma_split_parts_from(s, d, 0);
    assert(s.subrange(0, s.len() as int) =~= s);
    if let Some(k) = first_escaped(s, d) {
        assert(s.subrange(0, k) =~= s.take(k));
    }
}

/// Every part trimmed.
pub open spec fn trim_all(parts: Seq<Seq<char>>) -> Seq<Seq<char>> {
    parts.map_values(|p: Seq<char>| trim(p))
}

/// The arguments of a built-in hint: split on every comma, each part trimmed,
/// joined again with commas.
pub open spec fn builtin_args(raw: Seq<char>) -> Seq<char> {
    join(trim_all(split_plain(raw, ',')), ',')
}

/// The arguments of an attribute: split on unescaped commas, each part trimmed
/// and then unescaped.
pub open spec fn args_of(raw: Seq<char>) -> Seq<Seq<char>> {
    split_escaped(raw, ',').map_values(|p: Seq<char>| unescaped(trim(p)))
}

/// `s` with a backslash before every backslash and every comma: how an
/// argument is written so that it reads back as itself.
pub open spec fn escape_arg(s: Seq<char>) -> Seq<char>
    decreases s.len(),
{
    if s.len() == 0 {
        Seq::empty()
    } else if s[0] == '\\' || s[0] == ',' {
        seq!['\\', s[0]] + escape_arg(s.drop_first())
    } else {
        seq![s[0]] + escape_arg(s.drop_first())
    }
}

/// The arguments, each escaped, separated by `", "`.
pub open spec fn joined_args(args: Seq<Seq<char>>) -> Seq<char>
    decreases args.len(),
{
    if args.len() == 0 {
        Seq::empty()
    } else if args.len() == 1 {
        escape_arg(args[0])
    } else {
        escape_arg(args[0]) + seq![',', ' '] + joined_args(args.drop_first())
    }
}

proof fn lemma_unescape_escaped(s: Seq<char>)
    ensures
        unescaped(escape_arg(s)) == s,
    decreases s.len(),
{
    if s.len() > 0 {
        lemma_unescape_escaped(s.drop_first());
        let e = escape_arg(s);
        if s[0] == '\\' || s[0] == ',' {
            assert(e.skip(2) =~= escape_arg(s.drop_first()));
        } else {
            assert(e.drop_first() =~= escape_arg(s.drop_first()));
        }
        assert(s =~= seq![s[0]] + s.drop_first());
    }
}

proof fn lemma_escape_ends(s: Seq<char>)
    requires
        s.len() > 0,
    ensures
        escape_arg(s).len() > 0,
        escape_arg(s).last() == s.last(),
        escape_arg(s)[0] == s[0] || escape_arg(s)[0] == '\\',
    decreases s.len(),
{
    if s.len() > 1 {
        lemma_escape_ends(s.drop_first());
    } else {
        assert(escape_arg(s.drop_first()) =~= Seq::<char>::empty());
    }
}

/// An escaped segment holds no unescaped comma, and scanning it ends where it
/// ends.
proof fn lemma_escaped_scan(p: Seq<char>, s: Seq<char>, q: Seq<char>)
    ensures
        first_from(p + escape_arg(s) + q, ',', p.len() as int) == first_from(
            p + escape_arg(s) + q,
            ',',
            (p.len() + escape_arg(s).len()) as int,
        ),
    decreases s.len(),
{
    if s.len() > 0 {
        let t = p + escape_arg(s) + q;
        let rest = escape_arg(s.drop_first());
        if s[0] == '\\' || s[0] == ',' {
            let p2 = p + seq!['\\', s[0]];
            assert(t =~= p2 + rest + q);
            assert(t[p.len() as int] == '\\');
            lemma_escaped_scan(p2, s.drop_first(), q);
        } else {
            let p2 = p + seq![s[0]];
            assert(t =~= p2 + rest + q);
            assert(t[p.len() as int] == s[0]);
            lemma_escaped_scan(p2, s.drop_first(), q);
        }
    } else {
        assert(escape_arg(s).len() == 0);
    }
}

/// The parts after the first, as splitting a joined list gives them.
pub open spec fn spaced_parts(args: Seq<Seq<char>>) -> Seq<Seq<char>> {
    args.map_values(|a: Seq<char>| seq![' '] + escape_arg(a))
}

proof fn lemma_split_joined(p: Seq<char>, args: Seq<Seq<char>>, start: int)
    requires
        args.len() >= 1,
        0 <= start <= p.len(),
    ensures
        split_from(p + joined_args(args), ',', start, p.len() as int) == seq![
            (p + joined_args(args)).subrange(start, p.len() as int) + escape_arg(args[0]),
        ] + spaced_parts(args.drop_first()),
    decreases args.len(),
{
    let t = p + joined_args(args);
    let e0 = escape_arg(args[0]);
    let k: int = (p.len() + e0.len()) as int;
    lemma_split_from_step(t, ',', start, p.len() as int);
    if args.len() == 1 {
        assert(t =~= p + e0 + Seq::<char>::empty());
        lemma_escaped_scan(p, args[0], Seq::<char>::empty());
        assert(first_from(t, ',', k) is None);
        assert(t.subrange(start, t.len() as int) =~= t.subrange(start, p.len() as int) + e0);
        assert(spaced_parts(args.drop_first()) =~= Seq::<Seq<char>>::empty());
        assert(seq![t.subrange(start, p.len() as int) + e0] + Seq::<Seq<char>>::empty() =~= seq![
            t.subrange(start, p.len() as int) + e0,
        ]);
    } else {
        let rest = args.drop_first();
        let q = seq![',', ' '] + joined_args(rest);
        assert(t =~= p + e0 + q);
        lemma_escaped_scan(p, args[0], q);
        assert(t[k] == ',');
        assert(first_from(t, ',', k) == Some(k));
        assert(t.subrange(start, k) =~= t.subrange(start, p.len() as int) + e0);
        let p2 = t.take(k + 2);
        assert(t =~= p2 + joined_args(rest));
        assert(t[k + 1] == ' ');
        assert(split_from(t, ',', k + 1, k + 1) == split_from(t, ',', k + 1, k + 2));
        lemma_split_joined(p2, rest, k + 1);
        assert(t.subrange(k + 1, k + 2) =~= seq![' ']);
        assert(p2.len() == k + 2);
        assert(spaced_parts(rest) =~= seq![seq![' '] + escape_arg(rest[0])] + spaced_parts(
            rest.drop_first(),
        ));
        assert(seq![t.subrange(start, p.len() as int) + e0] + spaced_parts(rest) =~= seq![
            t.subrange(start, p.len() as int) + e0,
        ] + spaced_parts(args.drop_first()));
    }
}

proof fn lemma_trimmed_ends(s: Seq<char>)
    requires
        trim(s) == s,
        s.len() > 0,
    ensures
        !is_ws(s[0]),
        !is_ws(s.last()),
{
    lemma_trim_start_shorter(s);
    lemma_trim_end_shorter(trim_start(s));
    if is_ws(s[0]) {
        lemma_trim_start_shorter(s.drop_first());
        assert(trim_start(s) == trim_start(s.drop_first()));
    }
    if trim_start(s) == s && is_ws(s.last()) {
        lemma_trim_end_shorter(s.drop_last());
    }
}

proof fn lemma_trim_start_shorter(s: Seq<char>)
    ensures
        trim_start(s).len() <= s.len(),
    decreases s.len(),
{
    if s.len() > 0 && is_ws(s[0]) {
        lemma_trim_start_shorter(s.drop_first());
    }
}

proof fn lemma_trim_end_shorter(s: Seq<char>)
    ensures
        trim_end(s).len() <= s.len(),
    decreases s.len(),
{
    if s.len() > 0 && is_ws(s.last()) {
        lemma_trim_end_shorter(s.drop_last());
    }
}

/// Escaping a trimmed argument, with or without a space before it, reads
/// back as the argument.
proof fn lemma_escaped_reads_back(s: Seq<char>)
    requires
        trim(s) == s,
    ensures
        unescaped(trim(escape_arg(s))) == s,
        unescaped(trim(seq![' '] + escape_arg(s))) == s,
{
    let e = escape_arg(s);
    lemma_unescape_escaped(s);
    let spaced = seq![' '] + e;
    assert(spaced.drop_first() =~= e);
    if s.len() == 0 {
        assert(e.len() == 0);
        assert(trim_start(e) == e);
        assert(trim_start(spaced) == trim_start(e));
    } else {
        lemma_trimmed_ends(s);
        lemma_escape_ends(s);
        assert(trim_start(e) == e);
        assert(trim_end(e) == e);
        assert(trim_start(spaced) == trim_start(e));
    }
}

/// Arguments without surrounding whitespace, each escaped and joined with
/// `", "`, read back as themselves.
pub proof fn lemma_split_args_reads_joined(args: Seq<Seq<char>>)
    requires
        args.len() >= 1,
        forall|i: int| 0 <= i < args.len() ==> trim(#[trigger] args[i]) == args[i],
    ensures
        args_of(joined_args(args)) == args,
{
    let raw = joined_args(args);
    lemma_split_joined(Seq::<char>::empty(), args, 0);
    assert(Seq::<char>::empty() + raw =~= raw);
    let parts = split_escaped(raw, ',');
    assert(raw.subrange(0, 0) + escape_arg(args[0]) =~= escape_arg(args[0]));
    assert(parts.len() == args.len());
    assert forall|i: int| 0 <= i < args.len() implies #[trigger] args_of(raw)[i] == args[i] by {
        lemma_escaped_reads_back(args[i]);
        if i > 0 {
            assert(parts[i] == spaced_parts(args.drop_first())[i - 1]);
            assert(args.drop_first()[i - 1] == args[i]);
        }
    }
    assert(args_of(raw) =~= args);
}

/// `str::split` on a character.
pub fn split_plain_exec(text: &str, delimiter: char) -> (parts: Vec<&str>)
    ensures
        views_of_strs(parts@) == split_plain(text@, delimiter),
{
    let chars = chars_of(text);
    let n = chars.len();
    let mut parts: Vec<&str> = Vec::new();
    let mut start: usize = 0;
    let mut i: usize = 0;
    while i < n
        invariant
            chars@ == text@,
            n == chars.len(),
            start <= i <= n,
            split_plain(text@, delimiter) == views_of_strs(parts@) + split_plain_from(
                text@,
                delimiter,
                start as int,
                i as int,
            ),
        decreases n - i,
    {
        let ghost before = parts@;
        if chars[i] == delimiter {
            let part = text.substring_char(start, i);
            parts.push(part);
            assert(views_of_strs(parts@) =~= views_of_strs(before) + seq![part@]);
            assert(views_of_strs(before) + split_plain_from(text@, delimiter, start as int, i as int)
                =~= views_of_strs(parts@) + split_plain_from(text@, delimiter, i + 1, i + 1));
            i = i + 1;
            start = i;
        } else {
            i = i + 1;
        }
    }
    let last = text.substring_char(start, n);
    let ghost before = parts@;
    parts.push(last);
    assert(views_of_strs(parts@) =~= views_of_strs(before) + seq![last@]);
    parts
}

/// The arguments of a built-in hint with the spaces around each comma removed.
pub fn trim_builtin_args(raw_args: &str) -> (r: String)
    ensures
        r@ == builtin_args(raw_args@),
{
    let parts = split_plain_exec(raw_args, ',');
    let ghost trimmed = trim_all(views_of_strs(parts@));
    let mut out = String::new();
    let mut i: usize = 0;
    while i < parts.len()
        invariant
            i <= parts.len(),
            trimmed == trim_all(views_of_strs(parts@)),
            trimmed.len() == parts.len(),
            out@ == join(trimmed.take(i as int), ','),
        decreases parts.len() - i,
    {
        let part = trim_str(parts[i]);
        if i > 0 {
            push_char(&mut out, ',');
        }
        out.append(part);
        assert(trimmed.take(i + 1).drop_last() =~= trimmed.take(i as int));
        i = i + 1;
    }
    assert(trimmed.take(parts.len() as int) =~= trimmed);
    out
}

/// The arguments of an attribute: split on unescaped commas, each trimmed and
/// unescaped.
pub fn split_args(raw_args: &str) -> (r: Vec<String>)
    ensures
        views_of_strings(r@) == args_of(raw_args@),
{
    let parts = split_unescaped(raw_args, ',');
    let ghost all = split_escaped(raw_args@, ',');
    let mut out: Vec<String> = Vec::new();
    let mut i: usize = 0;
    while i < parts.len()
        invariant
            i <= parts.len(),
            views_of_strs(parts@) == all,
            all == split_escaped(raw_args@, ','),
            views_of_strings(out@) == all.take(i as int).map_values(
                |p: Seq<char>| unescaped(trim(p)),
            ),
        decreases parts.len() - i,
    {
        let arg = unescape(trim_str(parts[i]));
        let ghost before = out@;
        out.push(arg);
        assert(views_of_strings(out@) =~= views_of_strings(before) + seq![arg@]);
        assert(all.take(i + 1).map_values(|p: Seq<char>| unescaped(trim(p))) =~= all.take(
            i as int,
        ).map_values(|p: Seq<char>| unescaped(trim(p))) + seq![unescaped(trim(all[i as int]))]);
        i = i + 1;
    }
    assert(all.take(parts.len() as int) =~= all);
    out
}

/// The property hints of the engine that a hint string can name by a key.
#[derive(Clone, Copy, Debug, PartialEq, Eq, Structural)]
pub enum BuiltinHint {
    Range,
    Enum,
    EnumSuggestion,
    ExpEasing,
    Link,
    Flags,
    Layers2dRender,
    Layers2dPhysics,
    Layers2dNavigation,
    Layers3dRender,
    Layers3dPhysics,
    Layers3dNavigation,
    LayersAvoidance,
    File,
    Dir,
    GlobalFile,
    GlobalDir,
    ResourceType,
    MultilineText,
    Expression,
    PlaceholderText,
    ColorNoAlpha,
    TypeString,
    NodePathValidTypes,
    SaveFile,
    GlobalSaveFile,
    NodeType,
    HideQuaternionEdit,
    Password,
    LocaleId,
    LocalizableString,
}

impl BuiltinHint {
    /// The key that names this hint in a hint string.
    pub open spec fn spec_key(self) -> Seq<char> {
        match self {
            BuiltinHint::Range => "range"@,
            BuiltinHint::Enum => "enum"@,
            BuiltinHint::EnumSuggestion => "enum_suggestion"@,
            BuiltinHint::ExpEasing => "exp_easing"@,
            BuiltinHint::Link => "link"@,
            BuiltinHint::Flags => "flags"@,
            BuiltinHint::Layers2dRender => "flags_2d_render"@,
            BuiltinHint::Layers2dPhysics => "flags_2d_physics"@,
            BuiltinHint::Layers2dNavigation => "flags_2d_navigation"@,
            BuiltinHint::Layers3dRender => "flags_3d_render"@,
            BuiltinHint::Layers3dPhysics => "flags_3d_physics"@,
            BuiltinHint::Layers3dNavigation => "flags_3d_navigation"@,
            BuiltinHint::LayersAvoidance => "flags_avoidance"@,
            BuiltinHint::File => "file"@,
            BuiltinHint::Dir => "dir"@,
            BuiltinHint::GlobalFile => "global_file"@,
            BuiltinHint::GlobalDir => "global_dir"@,
            BuiltinHint::ResourceType => "resource_type"@,
            BuiltinHint::MultilineText => "multiline"@,
            BuiltinHint::Expression => "expression"@,
            BuiltinHint::PlaceholderText => "placeholder"@,
            BuiltinHint::ColorNoAlpha => "color_no_alpha"@,
            BuiltinHint::TypeString => "type_string"@,
            BuiltinHint::NodePathValidTypes => "node_path"@,
            BuiltinHint::SaveFile => "save_file"@,
            BuiltinHint::GlobalSaveFile => "global_save_file"@,
            BuiltinHint::NodeType => "node_type"@,
            BuiltinHint::HideQuaternionEdit => "hide_quaternion_edit"@,
            BuiltinHint::Password => "password"@,
            BuiltinHint::LocaleId => "locale_id"@,
            BuiltinHint::LocalizableString => "localizable_string"@,
        }
    }

    /// The key that names this hint in a hint string.
    pub fn key(&self) -> (r: &'static str)
        ensures
            r@ == self.spec_key(),
    {
        match self {
            BuiltinHint::Range => "range",
            BuiltinHint::Enum => "enum",
            BuiltinHint::EnumSuggestion => "enum_suggestion",
            BuiltinHint::ExpEasing => "exp_easing",
            BuiltinHint::Link => "link",
            BuiltinHint::Flags => "flags",
            BuiltinHint::Layers2dRender => "flags_2d_render",
            BuiltinHint::Layers2dPhysics => "flags_2d_physics",
            BuiltinHint::Layers2dNavigation => "flags_2d_navigation",
            BuiltinHint::Layers3dRender => "flags_3d_render",
            BuiltinHint::Layers3dPhysics => "flags_3d_physics",
            BuiltinHint::Layers3dNavigation => "flags_3d_navigation",
            BuiltinHint::LayersAvoidance => "flags_avoidance",
            BuiltinHint::File => "file",
            BuiltinHint::Dir => "dir",
            BuiltinHint::GlobalFile => "global_file",
            BuiltinHint::GlobalDir => "global_dir",
            BuiltinHint::ResourceType => "resource_type",
            BuiltinHint::MultilineText => "multiline",
            BuiltinHint::Expression => "expression",
            BuiltinHint::PlaceholderText => "placeholder",
            BuiltinHint::ColorNoAlpha => "color_no_alpha",
            BuiltinHint::TypeString => "type_string",
            BuiltinHint::NodePathValidTypes => "node_path",
            BuiltinHint::SaveFile => "save_file",
            BuiltinHint::GlobalSaveFile => "global_save_file",
            BuiltinHint::NodeType => "node_type",
            BuiltinHint::HideQuaternionEdit => "hide_quaternion_edit",
            BuiltinHint::Password => "password",
            BuiltinHint::LocaleId => "locale_id",
            BuiltinHint::LocalizableString => "localizable_string",
        }
    }
}

/// Every built-in hint, in the order in which keys are looked up.
pub open spec fn builtin_table() -> Seq<BuiltinHint> {
    seq![
        BuiltinHint::Range,
        BuiltinHint::Enum,
        BuiltinHint::EnumSuggestion,
        BuiltinHint::ExpEasing,
        BuiltinHint::Link,
        BuiltinHint::Flags,
        BuiltinHint::Layers2dRender,
        BuiltinHint::Layers2dPhysics,
        BuiltinHint::Layers2dNavigation,
        BuiltinHint::Layers3dRender,
        BuiltinHint::Layers3dPhysics,
        BuiltinHint::Layers3dNavigation,
        BuiltinHint::LayersAvoidance,
        BuiltinHint::File,
        BuiltinHint::Dir,
        BuiltinHint::GlobalFile,
        BuiltinHint::GlobalDir,
        BuiltinHint::ResourceType,
        BuiltinHint::MultilineText,
        BuiltinHint::Expression,
        BuiltinHint::PlaceholderText,
        BuiltinHint::ColorNoAlpha,
        BuiltinHint::TypeString,
        BuiltinHint::NodePathValidTypes,
        BuiltinHint::SaveFile,
        BuiltinHint::GlobalSaveFile,
        BuiltinHint::NodeType,
        BuiltinHint::HideQuaternionEdit,
        BuiltinHint::Password,
        BuiltinHint::LocaleId,
        BuiltinHint::LocalizableString,
    ]
}

fn builtin_hints() -> (v: Vec<BuiltinHint>)
    ensures
        v@ == builtin_table(),
{
    let v = vec![
        BuiltinHint::Range,
        BuiltinHint::Enum,
        BuiltinHint::EnumSuggestion,
        BuiltinHint::ExpEasing,
        BuiltinHint::Link,
        BuiltinHint::Flags,
        BuiltinHint::Layers2dRender,
        BuiltinHint::Layers2dPhysics,
        BuiltinHint::Layers2dNavigation,
        BuiltinHint::Layers3dRender,
        BuiltinHint::Layers3dPhysics,
        BuiltinHint::Layers3dNavigation,
        BuiltinHint::LayersAvoidance,
        BuiltinHint::File,
        BuiltinHint::Dir,
        BuiltinHint::GlobalFile,
        BuiltinHint::GlobalDir,
        BuiltinHint::ResourceType,
        BuiltinHint::MultilineText,
        BuiltinHint::Expression,
        BuiltinHint::PlaceholderText,
        BuiltinHint::ColorNoAlpha,
        BuiltinHint::TypeString,
        BuiltinHint::NodePathValidTypes,
        BuiltinHint::SaveFile,
        BuiltinHint::GlobalSaveFile,
        BuiltinHint::NodeType,
        BuiltinHint::HideQuaternionEdit,
        BuiltinHint::Password,
        BuiltinHint::LocaleId,
        BuiltinHint::LocalizableString,
    ];
    assert(v@ =~= builtin_table());
    v
}

/// The first hint of `table` from `i` on whose key is `key`.
pub open spec fn find_hint(table: Seq<BuiltinHint>, key: Seq<char>, i: int) -> Option<BuiltinHint>
    decreases table.len() - i,
{
    if i >= table.len() || i < 0 {
        None
    } else if table[i].spec_key() == key {
        Some(table[i])
    } else {
        find_hint(table, key, i + 1)
    }
}

/// The built-in hint that `key` names, if any.
pub open spec fn builtin_hint_of(key: Seq<char>) -> Option<BuiltinHint> {
    find_hint(builtin_table(), key, 0)
}

/// The built-in hint that `key` names, if any.
pub fn builtin_hint_from_key(key: &str) -> (r: Option<BuiltinHint>)
    ensures
        r == builtin_hint_of(key@),
{
    let table = builtin_hints();
    let mut i: usize = 0;
    while i < table.len()
        invariant
            table@ == builtin_table(),
            i <= table.len(),
            builtin_hint_of(key@) == find_hint(table@, key@, i as int),
        decreases table.len() - i,
    {
        if str_eq(table[i].key(), key) {
            return Some(table[i]);
        }
        i = i + 1;
    }
    None
}

/// Different hints are named by different keys.
proof fn lemma_builtin_keys_differ()
    ensures
        forall|a: BuiltinHint, b: BuiltinHint|
            #![trigger a.spec_key(), b.spec_key()]
            a.spec_key() == b.spec_key() ==> a == b,
{
    assert forall|a: BuiltinHint, b: BuiltinHint| a.spec_key() == b.spec_key() implies a == b by {
        lemma_key_lengths();
        lemma_same_length_keys_differ();
    }
}

/// The length of each key.
proof fn lemma_key_lengths()
    ensures
        "range"@.len() == 5,
        "enum"@.len() == 4,
        "enum_suggestion"@.len() == 15,
        "exp_easing"@.len() == 10,
        "link"@.len() == 4,
        "flags"@.len() == 5,
        "flags_2d_render"@.len() == 15,
        "flags_2d_physics"@.len() == 16,
        "flags_2d_navigation"@.len() == 19,
        "flags_3d_render"@.len() == 15,
        "flags_3d_physics"@.len() == 16,
        "flags_3d_navigation"@.len() == 19,
        "flags_avoidance"@.len() == 15,
        "file"@.len() == 4,
        "dir"@.len() == 3,
        "global_file"@.len() == 11,
        "global_dir"@.len() == 10,
        "resource_type"@.len() == 13,
        "multiline"@.len() == 9,
        "expression"@.len() == 10,
        "placeholder"@.len() == 11,
        "color_no_alpha"@.len() == 14,
        "type_string"@.len() == 11,
        "node_path"@.len() == 9,
        "save_file"@.len() == 9,
        "global_save_file"@.len() == 16,
        "node_type"@.len() == 9,
        "hide_quaternion_edit"@.len() == 20,
        "password"@.len() == 8,
        "locale_id"@.len() == 9,
        "localizable_string"@.len() == 18,
{
    reveal_strlit("range");
    reveal_strlit("enum");
    reveal_strlit("enum_suggestion");
    reveal_strlit("exp_easing");
    reveal_strlit("link");
    reveal_strlit("flags");
    reveal_strlit("flags_2d_render");
    reveal_strlit("flags_2d_physics");
    reveal_strlit("flags_2d_navigation");
    reveal_strlit("flags_3d_render");
    reveal_strlit("flags_3d_physics");
    reveal_strlit("flags_3d_navigation");
    reveal_strlit("flags_avoidance");
    reveal_strlit("file");
    reveal_strlit("dir");
    reveal_strlit("global_file");
    reveal_strlit("global_dir");
    reveal_strlit("resource_type");
    reveal_strlit("multiline");
    reveal_strlit("expression");
    reveal_strlit("placeholder");
    reveal_strlit("color_no_alpha");
    reveal_strlit("type_string");
    reveal_strlit("node_path");
    reveal_strlit("save_file");
    reveal_strlit("global_save_file");
    reveal_strlit("node_type");
    reveal_strlit("hide_quaternion_edit");
    reveal_strlit("password");
    reveal_strlit("locale_id");
    reveal_strlit("localizable_string");
}

/// Keys of one length differ in some character.
proof fn lemma_same_length_keys_differ()
    ensures
        "enum"@ != "link"@,
        "range"@ != "flags"@,
        "enum_suggestion"@ != "flags_2d_render"@,
        "enum_suggestion"@ != "flags_3d_render"@,
        "flags_2d_render"@ != "flags_3d_render"@,
        "flags_2d_physics"@ != "flags_3d_physics"@,
        "flags_2d_navigation"@ != "flags_3d_navigation"@,
        "enum_suggestion"@ != "flags_avoidance"@,
        "flags_2d_render"@ != "flags_avoidance"@,
        "flags_3d_render"@ != "flags_avoidance"@,
        "enum"@ != "file"@,
        "link"@ != "file"@,
        "exp_easing"@ != "global_dir"@,
        "exp_easing"@ != "expression"@,
        "global_dir"@ != "expression"@,
        "global_file"@ != "placeholder"@,
        "global_file"@ != "type_string"@,
        "placeholder"@ != "type_string"@,
        "multiline"@ != "node_path"@,
        "multiline"@ != "save_file"@,
        "node_path"@ != "save_file"@,
        "flags_2d_physics"@ != "global_save_file"@,
        "flags_3d_physics"@ != "global_save_file"@,
        "multiline"@ != "node_type"@,
        "node_path"@ != "node_type"@,
        "save_file"@ != "node_type"@,
        "multiline"@ != "locale_id"@,
        "node_path"@ != "locale_id"@,
        "save_file"@ != "locale_id"@,
        "node_type"@ != "locale_id"@,
{
    reveal_strlit("range");
    reveal_strlit("enum");
    reveal_strlit("enum_suggestion");
    reveal_strlit("exp_easing");
    reveal_strlit("link");
    reveal_strlit("flags");
    reveal_strlit("flags_2d_render");
    reveal_strlit("flags_2d_physics");
    reveal_strlit("flags_2d_navigation");
    reveal_strlit("flags_3d_render");
    reveal_strlit("flags_3d_physics");
    reveal_strlit("flags_3d_navigation");
    reveal_strlit("flags_avoidance");
    reveal_strlit("file");
    reveal_strlit("dir");
    reveal_strlit("global_file");
    reveal_strlit("global_dir");
    reveal_strlit("resource_type");
    reveal_strlit("multiline");
    reveal_strlit("expression");
    reveal_strlit("placeholder");
    reveal_strlit("color_no_alpha");
    reveal_strlit("type_string");
    reveal_strlit("node_path");
    reveal_strlit("save_file");
    reveal_strlit("global_save_file");
    reveal_strlit("node_type");
    reveal_strlit("hide_quaternion_edit");
    reveal_strlit("password");
    reveal_strlit("locale_id");
    reveal_strlit("localizable_string");
    assert("enum"@[0] != "link"@[0]);
    assert("range"@[0] != "flags"@[0]);
    assert("enum_suggestion"@[0] != "flags_2d_render"@[0]);
    assert("enum_suggestion"@[0] != "flags_3d_render"@[0]);
    assert("flags_2d_render"@[6] != "flags_3d_render"@[6]);
    assert("flags_2d_physics"@[6] != "flags_3d_physics"@[6]);
    assert("flags_2d_navigation"@[6] != "flags_3d_navigation"@[6]);
    assert("enum_suggestion"@[0] != "flags_avoidance"@[0]);
    assert("flags_2d_render"@[6] != "flags_avoidance"@[6]);
    assert("flags_3d_render"@[6] != "flags_avoidance"@[6]);
    assert("enum"@[0] != "file"@[0]);
    assert("link"@[0] != "file"@[0]);
    assert("exp_easing"@[0] != "global_dir"@[0]);
    assert("exp_easing"@[3] != "expression"@[3]);
    assert("global_dir"@[0] != "expression"@[0]);
    assert("global_file"@[0] != "placeholder"@[0]);
    assert("global_file"@[0] != "type_string"@[0]);
    assert("placeholder"@[0] != "type_string"@[0]);
    assert("multiline"@[0] != "node_path"@[0]);
    assert("multiline"@[0] != "save_file"@[0]);
    assert("node_path"@[0] != "save_file"@[0]);
    assert("flags_2d_physics"@[0] != "global_save_file"@[0]);
    assert("flags_3d_physics"@[0] != "global_save_file"@[0]);
    assert("multiline"@[0] != "node_type"@[0]);
    assert("node_path"@[5] != "node_type"@[5]);
    assert("save_file"@[0] != "node_type"@[0]);
    assert("multiline"@[0] != "locale_id"@[0]);
    assert("node_path"@[0] != "locale_id"@[0]);
    assert("save_file"@[0] != "locale_id"@[0]);
    assert("node_type"@[0] != "locale_id"@[0]);
}

/// One step of the search for a key.
proof fn lemma_find_hint_unfold(table: Seq<BuiltinHint>, key: Seq<char>, i: int)
    requires
        0 <= i < table.len(),
    ensures
        find_hint(table, key, i) == if table[i].spec_key() == key {
            Some(table[i])
        } else {
            find_hint(table, key, i + 1)
        },
{
}

/// Each built-in hint is named by its own word, as the engine's hint list
/// writes it: reading a key gives exactly the hint of that name.
pub proof fn lemma_builtin_hint_names()
    ensures
        builtin_hint_of("range"@) == Some(BuiltinHint::Range),
        builtin_hint_of("enum"@) == Some(BuiltinHint::Enum),
        builtin_hint_of("enum_suggestion"@) == Some(BuiltinHint::EnumSuggestion),
        builtin_hint_of("exp_easing"@) == Some(BuiltinHint::ExpEasing),
        builtin_hint_of("link"@) == Some(BuiltinHint::Link),
        builtin_hint_of("flags"@) == Some(BuiltinHint::Flags),
        builtin_hint_of("flags_2d_render"@) == Some(BuiltinHint::Layers2dRender),
        builtin_hint_of("flags_2d_physics"@) == Some(BuiltinHint::Layers2dPhysics),
        builtin_hint_of("flags_2d_navigation"@) == Some(BuiltinHint::Layers2dNavigation),
        builtin_hint_of("flags_3d_render"@) == Some(BuiltinHint::Layers3dRender),
        builtin_hint_of("flags_3d_physics"@) == Some(BuiltinHint::Layers3dPhysics),
        builtin_hint_of("flags_3d_navigation"@) == Some(BuiltinHint::Layers3dNavigation),
        builtin_hint_of("flags_avoidance"@) == Some(BuiltinHint::LayersAvoidance),
        builtin_hint_of("file"@) == Some(BuiltinHint::File),
        builtin_hint_of("dir"@) == Some(BuiltinHint::Dir),
        builtin_hint_of("global_file"@) == Some(BuiltinHint::GlobalFile),
        builtin_hint_of("global_dir"@) == Some(BuiltinHint::GlobalDir),
        builtin_hint_of("resource_type"@) == Some(BuiltinHint::ResourceType),
        builtin_hint_of("multiline"@) == Some(BuiltinHint::MultilineText),
        builtin_hint_of("expression"@) == Some(BuiltinHint::Expression),
        builtin_hint_of("placeholder"@) == Some(BuiltinHint::PlaceholderText),
        builtin_hint_of("color_no_alpha"@) == Some(BuiltinHint::ColorNoAlpha),
        builtin_hint_of("type_string"@) == Some(BuiltinHint::TypeString),
        builtin_hint_of("node_path"@) == Some(BuiltinHint::NodePathValidTypes),
        builtin_hint_of("save_file"@) == Some(BuiltinHint::SaveFile),
        builtin_hint_of("global_save_file"@) == Some(BuiltinHint::GlobalSaveFile),
        builtin_hint_of("node_type"@) == Some(BuiltinHint::NodeType),
        builtin_hint_of("hide_quaternion_edit"@) == Some(BuiltinHint::HideQuaternionEdit),
        builtin_hint_of("password"@) == Some(BuiltinHint::Password),
        builtin_hint_of("locale_id"@) == Some(BuiltinHint::LocaleId),
        builtin_hint_of("localizable_string"@) == Some(BuiltinHint::LocalizableString),
{
    let table = builtin_table();
    assert(table[0] == BuiltinHint::Range);
    lemma_find_hint_first(table, 0);
    assert(table[1] == BuiltinHint::Enum);
    lemma_find_hint_first(table, 1);
    assert(table[2] == BuiltinHint::EnumSuggestion);
    lemma_find_hint_first(table, 2);
    assert(table[3] == BuiltinHint::ExpEasing);
    lemma_find_hint_first(table, 3);
    assert(table[4] == BuiltinHint::Link);
    lemma_find_hint_first(table, 4);
    assert(table[5] == BuiltinHint::Flags);
    lemma_find_hint_first(table, 5);
    assert(table[6] == BuiltinHint::Layers2dRender);
    lemma_find_hint_first(table, 6);
    assert(table[7] == BuiltinHint::Layers2dPhysics);
    lemma_find_hint_first(table, 7);
    assert(table[8] == BuiltinHint::Layers2dNavigation);
    lemma_find_hint_first(table, 8);
    assert(table[9] == BuiltinHint::Layers3dRender);
    lemma_find_hint_first(table, 9);
    assert(table[10] == BuiltinHint::Layers3dPhysics);
    lemma_find_hint_first(table, 10);
    assert(table[11] == BuiltinHint::Layers3dNavigation);
    lemma_find_hint_first(table, 11);
    assert(table[12] == BuiltinHint::LayersAvoidance);
    lemma_find_hint_first(table, 12);
    assert(table[13] == BuiltinHint::File);
    lemma_find_hint_first(table, 13);
    assert(table[14] == BuiltinHint::Dir);
    lemma_find_hint_first(table, 14);
    assert(table[15] == BuiltinHint::GlobalFile);
    lemma_find_hint_first(table, 15);
    assert(table[16] == BuiltinHint::GlobalDir);
    lemma_find_hint_first(table, 16);
    assert(table[17] == BuiltinHint::ResourceType);
    lemma_find_hint_first(table, 17);
    assert(table[18] == BuiltinHint::MultilineText);
    lemma_find_hint_first(table, 18);
    assert(table[19] == BuiltinHint::Expression);
    lemma_find_hint_first(table, 19);
    assert(table[20] == BuiltinHint::PlaceholderText);
    lemma_find_hint_first(table, 20);
    assert(table[21] == BuiltinHint::ColorNoAlpha);
    lemma_find_hint_first(table, 21);
    assert(table[22] == BuiltinHint::TypeString);
    lemma_find_hint_first(table, 22);
    assert(table[23] == BuiltinHint::NodePathValidTypes);
    lemma_find_hint_first(table, 23);
    assert(table[24] == BuiltinHint::SaveFile);
    lemma_find_hint_first(table, 24);
    assert(table[25] == BuiltinHint::GlobalSaveFile);
    lemma_find_hint_first(table, 25);
    assert(table[26] == BuiltinHint::NodeType);
    lemma_find_hint_first(table, 26);
    assert(table[27] == BuiltinHint::HideQuaternionEdit);
    lemma_find_hint_first(table, 27);
    assert(table[28] == BuiltinHint::Password);
    lemma_find_hint_first(table, 28);
    assert(table[29] == BuiltinHint::LocaleId);
    lemma_find_hint_first(table, 29);
    assert(table[30] == BuiltinHint::LocalizableString);
    lemma_find_hint_first(table, 30);
}

/// A hint's key finds that hint: no hint before it in the table has its key.
proof fn lemma_find_hint_first(table: Seq<BuiltinHint>, i: int)
    requires
        table == builtin_table(),
        0 <= i < 31,
    ensures
        find_hint(table, table[i].spec_key(), 0) == Some(table[i]),
{
    lemma_builtin_keys_differ();
    lemma_table_distinct();
    let key = table[i].spec_key();
    lemma_find_hint_from(table, key, 0, i);
}

/// The table names each hint once.
proof fn lemma_table_distinct()
    ensures
        forall|a: int, b: int|
            0 <= a < b < 31 ==> #[trigger] builtin_table()[a] != #[trigger] builtin_table()[b],
{
    let t = builtin_table();
    assert forall|a: int, b: int| 0 <= a < b < 31 implies #[trigger] t[a] != #[trigger] t[b] by {
        assert(hint_position(t[a]) == a);
        assert(hint_position(t[b]) == b);
    }
}

/// Where a hint stands in the table.
spec fn hint_position(h: BuiltinHint) -> int {
    match h {
        BuiltinHint::Range => 0,
        BuiltinHint::Enum => 1,
        BuiltinHint::EnumSuggestion => 2,
        BuiltinHint::ExpEasing => 3,
        BuiltinHint::Link => 4,
        BuiltinHint::Flags => 5,
        BuiltinHint::Layers2dRender => 6,
        BuiltinHint::Layers2dPhysics => 7,
        BuiltinHint::Layers2dNavigation => 8,
        BuiltinHint::Layers3dRender => 9,
        BuiltinHint::Layers3dPhysics => 10,
        BuiltinHint::Layers3dNavigation => 11,
        BuiltinHint::LayersAvoidance => 12,
        BuiltinHint::File => 13,
        BuiltinHint::Dir => 14,
        BuiltinHint::GlobalFile => 15,
        BuiltinHint::GlobalDir => 16,
        BuiltinHint::ResourceType => 17,
        BuiltinHint::MultilineText => 18,
        BuiltinHint::Expression => 19,
        BuiltinHint::PlaceholderText => 20,
        BuiltinHint::ColorNoAlpha => 21,
        BuiltinHint::TypeString => 22,
        BuiltinHint::NodePathValidTypes => 23,
        BuiltinHint::SaveFile => 24,
        BuiltinHint::GlobalSaveFile => 25,
        BuiltinHint::NodeType => 26,
        BuiltinHint::HideQuaternionEdit => 27,
        BuiltinHint::Password => 28,
        BuiltinHint::LocaleId => 29,
        BuiltinHint::LocalizableString => 30,
    }
}

/// Searching from `j` finds the hint at `i` when no hint between has its key.
proof fn lemma_find_hint_from(table: Seq<BuiltinHint>, key: Seq<char>, j: int, i: int)
    requires
        table == builtin_table(),
        0 <= j <= i < 31,
        table[i].spec_key() == key,
        forall|a: BuiltinHint, b: BuiltinHint|
            #![trigger a.spec_key(), b.spec_key()]
            a.spec_key() == b.spec_key() ==> a == b,
        forall|a: int, b: int| 0 <= a < b < 31 ==> #[trigger] table[a] != #[trigger] table[b],
    ensures
        find_hint(table, key, j) == Some(table[i]),
    decreases i - j,
{
    lemma_find_hint_unfold(table, key, j);
    if j < i {
        assert(table[j] != table[i]);
        assert(table[j].spec_key() != table[i].spec_key());
        lemma_find_hint_from(table, key, j + 1, i);
    }
}

/// One entry of a hint string that names an attribute of this library.
#[derive(Debug, Clone, PartialEq, Eq)]
pub struct AttributeEntry {
    pub key: String,
    pub raw_args: String,
}

/// What a hint string says of a property: the built-in hint it names (key and
/// arguments), the attributes it names, and the keys that name neither.
#[derive(Debug, Default, Clone, PartialEq, Eq)]
pub struct PropertyAnnotation {
    pub builtin: Option<(String, String)>,
    pub attributes: Vec<AttributeEntry>,
    pub unknown_keys: Vec<String>,
}

/// The value of a `PropertyAnnotation`, with the strings taken as characters.
#[verifier::ext_equal]
pub struct AnnotationView {
    pub builtin: Option<(Seq<char>, Seq<char>)>,
    pub attributes: Seq<(Seq<char>, Seq<char>)>,
    pub unknown_keys: Seq<Seq<char>>,
}

impl View for AttributeEntry {
    type V = (Seq<char>, Seq<char>);

    open spec fn view(&self) -> (Seq<char>, Seq<char>) {
        (self.key@, self.raw_args@)
    }
}

impl View for PropertyAnnotation {
    type V = AnnotationView;

    open spec fn view(&self) -> AnnotationView {
        AnnotationView {
            builtin: match self.builtin {
                Some((k, a)) => Some((k@, a@)),
                None => None,
            },
            attributes: self.attributes@.map_values(|e: AttributeEntry| e@),
            unknown_keys: views_of_strings(self.unknown_keys@),
        }
    }
}

/// The key of a trimmed entry and its raw arguments: split at the first
/// unescaped colon, the key trimmed; without a colon the whole entry is the key.
pub open spec fn entry_parts(t: Seq<char>) -> (Seq<char>, Seq<char>) {
    match first_escaped(t, ':') {
        Some(i) => (trim(t.take(i)), t.skip(i + 1)),
        None => (t, Seq::empty()),
    }
}

/// The annotation `a` with one more entry read into it.
pub open spec fn add_entry(
    a: AnnotationView,
    entry: Seq<char>,
    known: spec_fn(Seq<char>) -> bool,
) -> AnnotationView {
    let t = trim(entry);
    if t.len() == 0 {
        a
    } else {
        let (key, raw) = entry_parts(t);
        if builtin_hint_of(key) is Some {
            AnnotationView { builtin: Some((key, builtin_args(raw))), ..a }
        } else if known(key) {
            AnnotationView { attributes: a.attributes.push((key, trim(raw))), ..a }
        } else {
            AnnotationView { unknown_keys: a.unknown_keys.push(key), ..a }
        }
    }
}

/// The annotation that the entries give, read in order.
pub open spec fn annotate(
    entries: Seq<Seq<char>>,
    known: spec_fn(Seq<char>) -> bool,
) -> AnnotationView
    decreases entries.len(),
{
    if entries.len() == 0 {
        AnnotationView { builtin: None, attributes: Seq::empty(), unknown_keys: Seq::empty() }
    } else {
        add_entry(annotate(entries.drop_last(), known), entries.last(), known)
    }
}

/// What a hint string says of a property, where `known` tells the keys of the
/// attributes of this library.
pub open spec fn annotation_of(hint: Seq<char>, known: spec_fn(Seq<char>) -> bool) -> AnnotationView {
    annotate(split_escaped(hint, ';'), known)
}

/// Reading sorts every key: the built-in entry is named by a built-in key,
/// each attribute by a key of this library that is no built-in key, and
/// each unknown key is neither.
pub proof fn lemma_annotation_sorts_keys(entries: Seq<Seq<char>>, known: spec_fn(Seq<char>) -> bool)
    ensures
        ({
            let a = annotate(entries, known);
            &&& a.builtin matches Some((k, _)) ==> builtin_hint_of(k) is Some
            &&& forall|i: int|
                0 <= i < a.attributes.len() ==> known(#[trigger] a.attributes[i].0) && builtin_hint_of(
                    a.attributes[i].0,
                ) is None
            &&& forall|j: int|
                0 <= j < a.unknown_keys.len() ==> !known(#[trigger] a.unknown_keys[j])
                    && builtin_hint_of(a.unknown_keys[j]) is None
        }),
    decreases entries.len(),
{
    if entries.len() > 0 {
        lemma_annotation_sorts_keys(entries.drop_last(), known);
        let before = annotate(entries.drop_last(), known);
        let after = annotate(entries, known);
        assert forall|i: int| 0 <= i < after.attributes.len() implies known(
            #[trigger] after.attributes[i].0,
        ) && builtin_hint_of(after.attributes[i].0) is None by {
            if i < before.attributes.len() {
                assert(after.attributes[i] == before.attributes[i]);
            }
        }
        assert forall|j: int| 0 <= j < after.unknown_keys.len() implies !known(
            #[trigger] after.unknown_keys[j],
        ) && builtin_hint_of(after.unknown_keys[j]) is None by {
            if j < before.unknown_keys.len() {
                assert(after.unknown_keys[j] == before.unknown_keys[j]);
            }
        }
    }
}

/// `known` gives what `f` answers for every key.
pub open spec fn answers_as<F: Fn(&str) -> bool>(f: F, known: spec_fn(Seq<char>) -> bool) -> bool {
    forall|k: &str, b: bool| #[trigger] f.ensures((k,), b) ==> b == known(k@)
}

impl PropertyAnnotation {
    /// Reads a hint string; `is_known_key` tells which keys name attributes of
    /// this library.
    pub fn parse(hint_string: &str, is_known_key: impl Fn(&str) -> bool) -> (r: Self)
        requires
            forall|k: &str| #[trigger] is_known_key.requires((k,)),
        ensures
            forall|known: spec_fn(Seq<char>) -> bool|
                #[trigger] answers_as(is_known_key, known) ==> r@ == annotation_of(
                    hint_string@,
                    known,
                ),
    {
        let entries = split_unescaped(hint_string, ';');
        let ghost all = split_escaped(hint_string@, ';');
        let mut annotation = PropertyAnnotation {
            builtin: None,
            attributes: Vec::new(),
            unknown_keys: Vec::new(),
        };
        let mut i: usize = 0;
        assert(all.take(0) =~= Seq::<Seq<char>>::empty());
        assert(annotation@ =~= annotate(all.take(0), |k: Seq<char>| true));
        while i < entries.len()
            invariant
                i <= entries.len(),
                views_of_strs(entries@) == all,
                all == split_escaped(hint_string@, ';'),
                forall|k: &str| #[trigger] is_known_key.requires((k,)),
                forall|known: spec_fn(Seq<char>) -> bool|
                    #[trigger] answers_as(is_known_key, known) ==> annotation@ == annotate(
                        all.take(i as int),
                        known,
                    ),
            decreases entries.len() - i,
        {
            let ghost before = annotation@;
            assert(all.take(i + 1).drop_last() =~= all.take(i as int));
            assert(all.take(i + 1).last() == entries@[i as int]@);
            let entry = trim_str(entries[i]);
            if entry.unicode_len() == 0 {
                i = i + 1;
                continue;
            }
            let chars = chars_of(entry);
            let (key, raw_args) = match first_unescaped_char(&chars, ':') {
                Some(index) => {
                    let key = trim_str(entry.substring_char(0, index));
                    let raw = entry.substring_char(index + 1, chars.len());
                    (key, raw)
                },
                None => (entry, entry.substring_char(chars.len(), chars.len())),
            };
            assert(entry_parts(entry@) == (key@, raw_args@)) by {
                assert(entry@.subrange(0, 0) =~= entry@.take(0));
            }
            if builtin_hint_from_key(key).is_some() {
                let args = trim_builtin_args(raw_args);
                annotation.builtin = Some((key.to_owned(), args));
            } else if is_known_key(key) {
                annotation.attributes.push(
                    AttributeEntry { key: key.to_owned(), raw_args: trim_str(raw_args).to_owned() },
                );
                assert(annotation@.attributes =~= before.attributes.push((key@, trim(raw_args@))));
            } else {
                annotation.unknown_keys.push(key.to_owned());
                assert(annotation@.unknown_keys =~= before.unknown_keys.push(key@));
            }
            i = i + 1;
        }
        assert(all.take(entries.len() as int) =~= all);
        annotation
    }

    /// The built-in hint that the annotation names, if any.
    pub fn get_builtin_hint(&self) -> (r: Option<BuiltinHint>)
        ensures
            r == match self@.builtin {
                Some((k, _)) => builtin_hint_of(k),
                None => None,
            },
    {
        match &self.builtin {
            Some((key, _)) => builtin_hint_from_key(key.as_str()),
            None => None,
        }
    }

    /// The arguments of the built-in hint, empty without one.
    pub fn get_builtin_hint_text(&self) -> (r: String)
        ensures
            r@ == match self@.builtin {
                Some((_, a)) => a,
                None => Seq::empty(),
            },
    {
        match &self.builtin {
            Some((_, raw_args)) => raw_args.clone(),
            None => String::new(),
        }
    }

    /// Whether the annotation names a built-in hint or an attribute.
    pub fn is_claimed(&self) -> (r: bool)
        ensures
            r == (self@.builtin is Some || self@.attributes.len() > 0),
    {
        self.builtin.is_some() || self.attributes.len() > 0
    }
}

} // verus!
