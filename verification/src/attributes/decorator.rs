//! Attributes that add something above a property.

pub mod horizontal_line;
pub mod info_box;
pub mod message_box;

use vstd::prelude::*;
use vstd::string::*;

use crate::attributes::ParseContext;
use crate::severity::Severity;
use crate::text::{str_eq, string_of};
use horizontal_line::{horizontal_line_of, HorizontalLine};
use message_box::{message_box_key, message_box_of, MessageBox};

verus! {

/// An attribute that adds something above a property.
pub enum DecoratorAttribute {
    HorizontalLine(HorizontalLine),
    MessageBox(MessageBox),
}

/// What a decorator attribute holds, by its kind.
pub enum DecoratorView {
    HorizontalLine(Option<horizontal_line::Rgba8>),
    MessageBox(Seq<char>, Severity),
}

impl View for DecoratorAttribute {
    type V = DecoratorView;

    open spec fn view(&self) -> DecoratorView {
        match self {
            DecoratorAttribute::HorizontalLine(line) => DecoratorView::HorizontalLine(line.color),
            DecoratorAttribute::MessageBox(b) => DecoratorView::MessageBox(b.text@, b.severity),
        }
    }
}

/// The keys of the decorator attributes.
pub open spec fn is_decorator_key(key: Seq<char>) -> bool {
    key == "horizontal_line"@ || key == "info_box"@ || key == "warning_box"@ || key == "error_box"@
}

/// The message of an attribute that a key does not name.
pub open spec fn unknown_attribute() -> Seq<char> {
    "unknown attribute"@
}

/// What the decorator that `key` names reads from `raw_args`.
pub open spec fn decorator_of(key: Seq<char>, raw_args: Seq<char>) -> Result<DecoratorView, Seq<char>> {
    if key == "horizontal_line"@ {
        match horizontal_line_of(raw_args) {
            Ok(c) => Ok(DecoratorView::HorizontalLine(c)),
            Err(m) => Err(m),
        }
    } else if key == "info_box"@ || key == "warning_box"@ || key == "error_box"@ {
        let severity = if key == "info_box"@ {
            Severity::Info
        } else if key == "warning_box"@ {
            Severity::Warning
        } else {
            Severity::Error
        };
        match message_box_of(raw_args, severity) {
            Ok((t, s)) => Ok(DecoratorView::MessageBox(t, s)),
            Err(m) => Err(m),
        }
    } else {
        Err(unknown_attribute())
    }
}

/// The key that names a decorator.
pub open spec fn decorator_key(d: DecoratorView) -> Seq<char> {
    match d {
        DecoratorView::HorizontalLine(_) => "horizontal_line"@,
        DecoratorView::MessageBox(_, s) => message_box_key(s),
    }
}

impl DecoratorAttribute {
    /// Reads the decorator that `key` names.
    pub fn parse(key: &str, raw_args: &str, _context: &ParseContext) -> (r: Result<Self, String>)
        ensures
            match r {
                Ok(d) => decorator_of(key@, raw_args@) == Ok::<DecoratorView, Seq<char>>(d@),
                Err(m) => decorator_of(key@, raw_args@) == Err::<DecoratorView, Seq<char>>(m@),
            },
    {
        if str_eq(key, horizontal_line::KEY) {
            match HorizontalLine::parse(raw_args) {
                Ok(line) => Ok(DecoratorAttribute::HorizontalLine(line)),
                Err(m) => Err(m),
            }
        } else if str_eq(key, message_box::KEY_INFO_BOX) || str_eq(key, message_box::KEY_WARNING_BOX)
            || str_eq(key, message_box::KEY_ERROR_BOX) {
            let severity = if str_eq(key, message_box::KEY_INFO_BOX) {
                Severity::Info
            } else if str_eq(key, message_box::KEY_WARNING_BOX) {
                Severity::Warning
            } else {
                Severity::Error
            };
            match MessageBox::parse(raw_args, severity) {
                Ok(b) => Ok(DecoratorAttribute::MessageBox(b)),
                Err(m) => Err(m),
            }
        } else {
            Err(string_of("unknown attribute"))
        }
    }

    /// Whether `key` names a decorator.
    pub fn is_known_key(key: &str) -> (r: bool)
        ensures
            r == is_decorator_key(key@),
    {
        str_eq(key, horizontal_line::KEY) || str_eq(key, message_box::KEY_INFO_BOX) || str_eq(
            key,
            message_box::KEY_WARNING_BOX,
        ) || str_eq(key, message_box::KEY_ERROR_BOX)
    }

    /// The key that names this decorator.
    pub fn get_key(&self) -> (r: &'static str)
        ensures
            r@ == decorator_key(self@),
    {
        match self {
            DecoratorAttribute::HorizontalLine(_) => horizontal_line::KEY,
            DecoratorAttribute::MessageBox(b) => b.get_key(),
        }
    }
}

/// The decorator keys are different words.
proof fn lemma_decorator_keys_differ()
    ensures
        "horizontal_line"@.len() == 15,
        "info_box"@.len() == 8,
        "warning_box"@.len() == 11,
        "error_box"@.len() == 9,
{
    reveal_strlit("horizontal_line");
    reveal_strlit("info_box");
    reveal_strlit("warning_box");
    reveal_strlit("error_box");
}

/// The key fixes the decorator: `horizontal_line` draws a line, and
/// `info_box`, `warning_box` and `error_box` a message of severity info,
/// warning and error; each names itself by its key.
pub proof fn lemma_the_key_fixes_the_decorator(key: Seq<char>, raw_args: Seq<char>)
    ensures
        decorator_of(key, raw_args) matches Ok(d) ==> ((key == "horizontal_line"@ <==> d is HorizontalLine)
            && (key == "info_box"@ <==> d matches DecoratorView::MessageBox(_, Severity::Info)) && (key
            == "warning_box"@ <==> d matches DecoratorView::MessageBox(_, Severity::Warning)) && (key
            == "error_box"@ <==> d matches DecoratorView::MessageBox(_, Severity::Error))),
        decorator_key(DecoratorView::MessageBox(raw_args, Severity::Info)) == "info_box"@,
        decorator_key(DecoratorView::MessageBox(raw_args, Severity::Warning)) == "warning_box"@,
        decorator_key(DecoratorView::MessageBox(raw_args, Severity::Error)) == "error_box"@,
{
    lemma_decorator_keys_differ();
}

} // verus!
