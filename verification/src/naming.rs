//! The key that an attribute type is named by: its type name in snake case.

use vstd::prelude::*;
use vstd::string::*;

use crate::text::{chars_of, push_char};

verus! {

/// Whether `c` has the Unicode `Uppercase` property, as `char::is_uppercase`
/// reports it.
pub uninterp spec fn char_is_uppercase(c: char) -> bool;

/// The characters of the Unicode lowercase mapping of `c`, as
/// `char::to_lowercase` yields them.
pub uninterp spec fn char_lowercase(c: char) -> Seq<char>;

/// `char::is_uppercase`. The contract claims only that the answer is a
/// function of `c`; which characters are uppercase is Unicode's table.
#[verifier::external_body]
fn is_uppercase(c: char) -> (r: bool)
    ensures
        r == char_is_uppercase(c),
{
    c.is_uppercase()
}

/// `char::to_lowercase`, its characters collected. The contract claims only
/// that they are a function of `c`; the mapping is Unicode's table.
#[verifier::external_body]
fn to_lowercase(c: char) -> (r: Vec<char>)
    ensures
        r@ == char_lowercase(c),
{
    c.to_lowercase().collect()
}

/// What the character at position `i` becomes: its lowercase mapping, after
/// a `_` when it is uppercase and not the first.
pub open spec fn snake_piece(c: char, i: int) -> Seq<char> {
    if char_is_uppercase(c) && i != 0 {
        seq!['_'] + char_lowercase(c)
    } else {
        char_lowercase(c)
    }
}

/// `name` in snake case: every character lowercased, with a `_` before every
/// uppercase character but the first.
pub open spec fn snake_case(name: Seq<char>) -> Seq<char>
    decreases name.len(),
{
    if name.len() == 0 {
        Seq::empty()
    } else {
        snake_case(name.drop_last()) + snake_piece(name.last(), name.len() - 1)
    }
}

/// `name` in snake case, as the key of an attribute type is derived from the
/// type's name.
pub fn to_snake_case(name: &str) -> (r: String)
    ensures
        r@ == snake_case(name@),
{
    let chars = chars_of(name);
    let mut out = String::new();
    let mut i: usize = 0;
    assert(name@.take(0) =~= Seq::<char>::empty());
    while i < chars.len()
        invariant
            chars@ == name@,
            i <= chars.len(),
            out@ == snake_case(name@.take(i as int)),
        decreases chars.len() - i,
    {
        let ch = chars[i];
        if is_uppercase(ch) && i != 0 {
            push_char(&mut out, '_');
        }
        let lower = to_lowercase(ch);
        let mut k: usize = 0;
        let ghost start = out@;
        while k < lower.len()
            invariant
                k <= lower.len(),
                out@ == start + lower@.take(k as int),
            decreases lower.len() - k,
        {
            push_char(&mut out, lower[k]);
            assert(lower@.take(k + 1) =~= lower@.take(k as int).push(lower@[k as int]));
            k = k + 1;
        }
        assert(lower@.take(lower.len() as int) =~= lower@);
        assert(name@.take(i + 1).drop_last() =~= name@.take(i as int));
        i = i + 1;
    }
    assert(name@.take(chars.len() as int) =~= name@);
    out
}

} // verus!
