//! How serious a message is.

use vstd::prelude::*;
use vstd::string::*;

use crate::text::{concat3, result_view, str_eq};

verus! {

/// How serious a message is.
#[derive(Clone, Copy, Debug, PartialEq, Eq, Structural)]
pub enum Severity {
    Info,
    Warning,
    Error,
}

/// The severity that `text` names, or the message that says it names none.
pub open spec fn severity_of(text: Seq<char>) -> Result<Severity, Seq<char>> {
    if text == "info"@ {
        Ok(Severity::Info)
    } else if text == "warning"@ {
        Ok(Severity::Warning)
    } else if text == "error"@ {
        Ok(Severity::Error)
    } else {
        Err("expected a severity of info, warning or error, got '"@ + text + "'"@)
    }
}

impl View for Severity {
    type V = Severity;

    open spec fn view(&self) -> Severity {
        *self
    }
}

impl Severity {
    /// Reads `info`, `warning` or `error`.
    pub fn parse(text: &str) -> (r: Result<Self, String>)
        ensures
            result_view(r) == severity_of(text@),
    {
        if str_eq(text, "info") {
            Ok(Severity::Info)
        } else if str_eq(text, "warning") {
            Ok(Severity::Warning)
        } else if str_eq(text, "error") {
            Ok(Severity::Error)
        } else {
            Err(concat3("expected a severity of info, warning or error, got '", text, "'"))
        }
    }
}

/// Each severity is read from its own word, and only from it.
pub proof fn lemma_severity_names(text: Seq<char>)
    ensures
        severity_of("info"@) == Ok::<Severity, Seq<char>>(Severity::Info),
        severity_of("warning"@) == Ok::<Severity, Seq<char>>(Severity::Warning),
        severity_of("error"@) == Ok::<Severity, Seq<char>>(Severity::Error),
        severity_of(text) matches Ok(s) ==> text == match s {
            Severity::Info => "info"@,
            Severity::Warning => "warning"@,
            Severity::Error => "error"@,
        },
{
    reveal_strlit("info");
    reveal_strlit("warning");
    reveal_strlit("error");
    assert("info"@.len() == 4);
    assert("warning"@.len() == 7);
    assert("error"@.len() == 5);
}

} // verus!
