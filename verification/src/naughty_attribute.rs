//! The traits that attribute types implement, and the registry that makes
//! attributes from the entries of a hint string.

use vstd::prelude::*;
use vstd::string::*;

use crate::annotation::{split_plain, split_plain_exec};
use crate::text::{chars_of, trim, trim_str};

verus! {

/// An attribute that reads itself from its arguments.
pub trait INaughtyAttribute {
    fn parse(value: &str) -> Option<Self> where Self: Sized;
}

/// The key that names an attribute type in hint strings.
pub trait INaughtyAttributeMeta {
    const KEY: &'static str;
}

/// The key that the registry reads `show_if` under.
pub open spec fn show_if_key() -> Seq<char> {
    "show_if"@
}

/// Makes the attribute that `key` names. The registry knows `show_if` alone,
/// and reading its arguments does not exist yet (it stops the program), so
/// that key is left out; every other key names nothing.
pub fn create_attribute(key: &str, args: &str) -> (r: Option<Box<dyn INaughtyAttribute>>)
    requires
        key@ != show_if_key(),
    ensures
        r is None,
{
    None
}

/// The position of the first `c` in `s` at or after `i`.
pub open spec fn first_index_from(s: Seq<char>, c: char, i: int) -> Option<int>
    decreases s.len() - i,
{
    if i < 0 || i >= s.len() {
        None
    } else if s[i] == c {
        Some(i)
    } else {
        first_index_from(s, c, i + 1)
    }
}

/// The key of an entry, as `split_once(':')` and `trim` give it: what comes
/// before its first colon, trimmed; an entry without a colon has none.
pub open spec fn registry_key(entry: Seq<char>) -> Option<Seq<char>> {
    match first_index_from(entry, ':', 0) {
        Some(i) => Some(trim(entry.take(i))),
        None => None,
    }
}

/// Whether no entry of `hint_string` (split at every `;`) is keyed `show_if`.
pub open spec fn has_no_show_if_entry(hint_string: Seq<char>) -> bool {
    forall|i: int|
        0 <= i < split_plain(hint_string, ';').len() ==> #[trigger] registry_key(
            split_plain(hint_string, ';')[i],
        ) != Some(show_if_key())
}

proof fn lemma_first_index_in_range(s: Seq<char>, c: char, i: int)
    requires
        0 <= i,
    ensures
        first_index_from(s, c, i) matches Some(k) ==> i <= k < s.len(),
    decreases s.len() - i,
{
    if i < s.len() && s[i] != c {
        lemma_first_index_in_range(s, c, i + 1);
    }
}

/// Makes an attribute from every entry `key:args` of `hint_string` whose key
/// the registry knows. Entries keyed `show_if` are left out, as in
/// [`create_attribute`]; no other key names an attribute.
pub fn parse_attributes(hint_string: &str) -> (r: Vec<Box<dyn INaughtyAttribute>>)
    requires
        has_no_show_if_entry(hint_string@),
    ensures
        r.len() == 0,
{
    let entries = split_plain_exec(hint_string, ';');
    let mut out: Vec<Box<dyn INaughtyAttribute>> = Vec::new();
    let mut i: usize = 0;
    while i < entries.len()
        invariant
            i <= entries.len(),
            crate::annotation::views_of_strs(entries@) == split_plain(hint_string@, ';'),
            has_no_show_if_entry(hint_string@),
            out.len() == 0,
        decreases entries.len() - i,
    {
        let entry = entries[i];
        let chars = chars_of(entry);
        let mut k: usize = 0;
        proof {
            lemma_first_index_in_range(entry@, ':', 0);
        }
        while k < chars.len() && chars[k] != ':'
            invariant
                k <= chars.len(),
                chars@ == entry@,
                first_index_from(entry@, ':', 0) == first_index_from(entry@, ':', k as int),
            decreases chars.len() - k,
        {
            k = k + 1;
        }
        if k < chars.len() {
            let key = trim_str(entry.substring_char(0, k));
            let args = entry.substring_char(k + 1, chars.len());
            assert(entry@.subrange(0, k as int) =~= entry@.take(k as int));
            assert(registry_key(split_plain(hint_string@, ';')[i as int]) == Some(key@));
            match create_attribute(key, args) {
                Some(attribute) => out.push(attribute),
                None => {},
            }
        }
        i = i + 1;
    }
    out
}

} // verus!
