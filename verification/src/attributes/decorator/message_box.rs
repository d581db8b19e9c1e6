//! `info_box`, `warning_box` and `error_box`: a message shown above a property.

use vstd::prelude::*;
use vstd::string::*;

use crate::annotation::{unescape, unescaped};
use crate::severity::Severity;
use crate::text::{result_view, string_of, trim, trim_str};

verus! {

pub const KEY_INFO_BOX: &'static str = "info_box";

pub const KEY_WARNING_BOX: &'static str = "warning_box";

pub const KEY_ERROR_BOX: &'static str = "error_box";

/// A message of some severity.
pub struct MessageBox {
    pub text: String,
    pub severity: Severity,
}

impl View for MessageBox {
    type V = (Seq<char>, Severity);

    open spec fn view(&self) -> (Seq<char>, Severity) {
        (self.text@, self.severity)
    }
}

/// The key of the attribute that shows a message of `severity`.
pub open spec fn message_box_key(severity: Severity) -> Seq<char> {
    match severity {
        Severity::Info => "info_box"@,
        Severity::Warning => "warning_box"@,
        Severity::Error => "error_box"@,
    }
}

/// The message box that `raw_args` gives: the arguments trimmed and
/// unescaped, which must leave some text.
pub open spec fn message_box_of(raw_args: Seq<char>, severity: Severity) -> Result<
    (Seq<char>, Severity),
    Seq<char>,
> {
    let text = unescaped(trim(raw_args));
    if text.len() == 0 {
        Err("expected a message"@)
    } else {
        Ok((text, severity))
    }
}

impl MessageBox {
    /// Reads the message of a message box of the given severity.
    pub fn parse(raw_args: &str, severity: Severity) -> (r: Result<Self, String>)
        ensures
            result_view(r) == message_box_of(raw_args@, severity),
    {
        let text = unescape(trim_str(raw_args));
        if text.as_str().unicode_len() == 0 {
            return Err(string_of("expected a message"));
        }
        Ok(MessageBox { text, severity })
    }

    /// The key of the attribute that gives a message box of this severity.
    pub fn get_key(&self) -> (r: &'static str)
        ensures
            r@ == message_box_key(self.severity),
    {
        match self.severity {
            Severity::Info => KEY_INFO_BOX,
            Severity::Warning => KEY_WARNING_BOX,
            Severity::Error => KEY_ERROR_BOX,
        }
    }
}

} // verus!
