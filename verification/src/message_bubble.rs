//! The editor theme's icon and colour for a message of each severity.

use vstd::prelude::*;

use crate::severity::Severity;

verus! {

/// The editor icon for a message of `severity`.
pub open spec fn icon_name_of(severity: Severity) -> Seq<char> {
    match severity {
        Severity::Info => "NodeInfo"@,
        Severity::Warning => "StatusWarning"@,
        Severity::Error => "StatusError"@,
    }
}

/// The editor colour for a message of `severity`.
pub open spec fn color_name_of(severity: Severity) -> Seq<char> {
    match severity {
        Severity::Info => "accent_color"@,
        Severity::Warning => "warning_color"@,
        Severity::Error => "error_color"@,
    }
}

/// The name of the editor icon for a message of `severity`.
pub fn get_icon_name(severity: Severity) -> (r: &'static str)
    ensures
        r@ == icon_name_of(severity),
{
    match severity {
        Severity::Info => "NodeInfo",
        Severity::Warning => "StatusWarning",
        Severity::Error => "StatusError",
    }
}

/// The name of the editor colour for a message of `severity`.
pub fn get_color_name(severity: Severity) -> (r: &'static str)
    ensures
        r@ == color_name_of(severity),
{
    match severity {
        Severity::Info => "accent_color",
        Severity::Warning => "warning_color",
        Severity::Error => "error_color",
    }
}

} // verus!
