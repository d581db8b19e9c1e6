//! `on_value_changed`: a method of the script called after the property changes.

use vstd::prelude::*;
use vstd::string::*;

use crate::text::{concat3, is_identifier, is_identifier_chars, result_view, string_of, trim, trim_str};

verus! {

pub const KEY: &'static str = "on_value_changed";

/// The method called with the old and the new value after the property changes.
pub struct OnValueChanged {
    pub method: String,
}

impl View for OnValueChanged {
    type V = Seq<char>;

    open spec fn view(&self) -> Seq<char> {
        self.method@
    }
}

/// The method name that `raw_args` gives: the arguments trimmed, which must
/// be a name.
pub open spec fn on_value_changed_of(raw_args: Seq<char>) -> Result<Seq<char>, Seq<char>> {
    let name = trim(raw_args);
    if name.len() == 0 {
        Err("expected a method name"@)
    } else if !is_identifier_chars(name) {
        Err("'"@ + name + "' is not a method name"@)
    } else {
        Ok(name)
    }
}

impl OnValueChanged {
    /// Reads the name of the method to call.
    pub fn parse(raw_args: &str) -> (r: Result<Self, String>)
        ensures
            result_view(r) == on_value_changed_of(raw_args@),
    {
        let name = trim_str(raw_args);
        if name.unicode_len() == 0 {
            return Err(string_of("expected a method name"));
        }
        if !is_identifier(name) {
            return Err(concat3("'", name, "' is not a method name"));
        }
        Ok(OnValueChanged { method: string_of(name) })
    }

    /// The outcome of calling the method with the old and the new value,
    /// given whether the script has it, the hint to add when it has not, and
    /// what the call gave when it was made.
    pub fn call_outcome(&self, has_method: bool, hint: &str, call_result: Result<(), String>) -> (r:
        Result<(), String>)
        ensures
            match r {
                Ok(()) => has_method && call_result is Ok,
                Err(m) => if !has_method {
                    m@ == callback_missing_of(self@, hint@)
                } else {
                    call_result matches Err(e) && m@ == callback_failed_of(e@)
                },
            },
    {
        if !has_method {
            let mut m = concat3("'", self.method.as_str(), "' is not a method of the script");
            m.append(hint);
            return Err(m);
        }
        match call_result {
            Ok(()) => Ok(()),
            Err(e) => {
                let mut m = e;
                m.append(" (expected a callback with two arguments: old_value, new_value)");
                Err(m)
            },
        }
    }
}

/// The message for a callback that the script does not have.
pub open spec fn callback_missing_of(method: Seq<char>, hint: Seq<char>) -> Seq<char> {
    "'"@ + method + "' is not a method of the script"@ + hint
}

/// The message for a callback whose call failed with `error`.
pub open spec fn callback_failed_of(error: Seq<char>) -> Seq<char> {
    error + " (expected a callback with two arguments: old_value, new_value)"@
}

} // verus!
