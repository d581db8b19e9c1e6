//! `info_box` read as a message and an optional severity, separated by a comma.

use vstd::prelude::*;
use vstd::string::*;

use crate::annotation::{args_of, split_args};
pub use crate::severity::Severity;
use crate::severity::severity_of;
use crate::text::{result_view, string_of};

verus! {

pub const KEY: &'static str = "info_box";

/// A message and its severity.
pub struct InfoBox {
    pub text: String,
    pub severity: Severity,
}

impl View for InfoBox {
    type V = (Seq<char>, Severity);

    open spec fn view(&self) -> (Seq<char>, Severity) {
        (self.text@, self.severity)
    }
}

/// The info box that `raw_args` gives: one argument (the message, of severity
/// info) or two (the message and a severity); the message must not be empty.
pub open spec fn info_box_of(raw_args: Seq<char>) -> Result<(Seq<char>, Severity), Seq<char>> {
    let args = args_of(raw_args);
    if args.len() == 1 {
        if args[0].len() == 0 {
            Err("expected a message"@)
        } else {
            Ok((args[0], Severity::Info))
        }
    } else if args.len() == 2 {
        match severity_of(args[1]) {
            Err(m) => Err(m),
            Ok(severity) => if args[0].len() == 0 {
                Err("expected a message"@)
            } else {
                Ok((args[0], severity))
            },
        }
    } else {
        Err("expected a message and an optional severity"@)
    }
}

impl InfoBox {
    /// Reads a message and an optional severity.
    pub fn parse(raw_args: &str) -> (r: Result<Self, String>)
        ensures
            result_view(r) == info_box_of(raw_args@),
    {
        let args = split_args(raw_args);
        assert(args@.len() == args_of(raw_args@).len());
        if args.len() == 1 {
            assert(args@[0]@ == args_of(raw_args@)[0]);
            let text = args[0].clone();
            if text.as_str().unicode_len() == 0 {
                return Err(string_of("expected a message"));
            }
            Ok(InfoBox { text, severity: Severity::Info })
        } else if args.len() == 2 {
            assert(args@[0]@ == args_of(raw_args@)[0]);
            assert(args@[1]@ == args_of(raw_args@)[1]);
            let severity = match Severity::parse(args[1].as_str()) {
                Ok(s) => s,
                Err(m) => {
                    return Err(m);
                },
            };
            let text = args[0].clone();
            if text.as_str().unicode_len() == 0 {
                return Err(string_of("expected a message"));
            }
            Ok(InfoBox { text, severity })
        } else {
            Err(string_of("expected a message and an optional severity"))
        }
    }
}

} // verus!
