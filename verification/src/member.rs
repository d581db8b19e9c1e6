//! Reading a member of the edited object by name: a parameterless method is
//! called, anything else is read as a property.

use vstd::prelude::*;
use vstd::string::*;

use crate::text::concat3;

verus! {

/// Where the value of a member comes from.
#[derive(Clone, Copy, Debug, PartialEq, Eq, Structural)]
pub enum MemberSource {
    /// The value that calling the method returned.
    Method,
    /// The value of the property.
    Property,
}

/// The hint added when a member cannot be read: calling a method from the
/// editor needs a tool script.
pub open spec fn member_tool_hint_of(is_tool: bool) -> Seq<char> {
    if is_tool {
        ""@
    } else {
        " (calling a method needs @tool on the script)"@
    }
}

/// The message for a method that could not be called without arguments.
pub open spec fn method_call_error_of(name: Seq<char>) -> Seq<char> {
    "'"@ + name + "' must be a method that takes no arguments"@
}

/// The message for a name that is neither a method nor a property with a
/// value.
pub open spec fn unresolved_error_of(name: Seq<char>, is_tool: bool) -> Seq<char> {
    "could not resolve '"@ + name + "' to a property or a parameterless method"@
        + member_tool_hint_of(is_tool)
}

/// Where the value of `name` comes from, given what the object answered: a
/// method is called, and its value is taken unless the call failed; else the
/// property is read, and its value is taken unless it is nil.
pub open spec fn resolution_of(
    name: Seq<char>,
    has_method: bool,
    call_failed: bool,
    value_is_nil: bool,
    is_tool: bool,
) -> Result<MemberSource, Seq<char>> {
    if has_method {
        if call_failed {
            Err(method_call_error_of(name))
        } else {
            Ok(MemberSource::Method)
        }
    } else if value_is_nil {
        Err(unresolved_error_of(name, is_tool))
    } else {
        Ok(MemberSource::Property)
    }
}

/// The hint added when a member cannot be read, given whether the script is
/// a tool script.
pub fn member_tool_hint(is_tool: bool) -> (r: &'static str)
    ensures
        r@ == member_tool_hint_of(is_tool),
{
    if is_tool {
        ""
    } else {
        " (calling a method needs @tool on the script)"
    }
}

/// Where the value of `name` comes from, given whether the object has a
/// method of that name, whether calling it without arguments failed (read
/// only when it has), whether the property's value is nil (read only when it
/// has not), and whether the script is a tool script.
pub fn resolve(name: &str, has_method: bool, call_failed: bool, value_is_nil: bool, is_tool: bool) -> (r:
    Result<MemberSource, String>)
    ensures
        match r {
            Ok(s) => resolution_of(name@, has_method, call_failed, value_is_nil, is_tool) == Ok::<
                MemberSource,
                Seq<char>,
            >(s),
            Err(m) => resolution_of(name@, has_method, call_failed, value_is_nil, is_tool) == Err::<
                MemberSource,
                Seq<char>,
            >(m@),
        },
{
    if has_method {
        if call_failed {
            return Err(concat3("'", name, "' must be a method that takes no arguments"));
        }
        return Ok(MemberSource::Method);
    }
    if value_is_nil {
        let mut m = concat3(
            "could not resolve '",
            name,
            "' to a property or a parameterless method",
        );
        m.append(member_tool_hint(is_tool));
        return Err(m);
    }
    Ok(MemberSource::Property)
}

} // verus!
