//! `label`: the text shown in place of the property's name.

use vstd::prelude::*;
use vstd::string::*;

use crate::annotation::{unescape, unescaped};
use crate::text::{result_view, string_of, trim, trim_str};

verus! {

pub const KEY: &'static str = "label";

/// The text shown in place of the property's name.
pub struct Label {
    pub text: String,
}

impl View for Label {
    type V = Seq<char>;

    open spec fn view(&self) -> Seq<char> {
        self.text@
    }
}

/// The label that `raw_args` gives: the arguments trimmed and unescaped,
/// which must leave some text.
pub open spec fn label_of(raw_args: Seq<char>) -> Result<Seq<char>, Seq<char>> {
    let text = unescaped(trim(raw_args));
    if text.len() == 0 {
        Err("expected a non-empty text"@)
    } else {
        Ok(text)
    }
}

impl Label {
    /// Reads the text of a label.
    pub fn parse(raw_args: &str) -> (r: Result<Self, String>)
        ensures
            result_view(r) == label_of(raw_args@),
    {
        let text = unescape(trim_str(raw_args));
        if text.as_str().unicode_len() == 0 {
            return Err(string_of("expected a non-empty text"));
        }
        Ok(Label { text })
    }
}

} // verus!
