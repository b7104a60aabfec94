//! The station's static table of device-model variables.

use crate::requests::opt_view;
use crate::wire::same_text;
use vstd::prelude::*;

verus! {

/// What reading a variable gives: the attribute status, and the value when
/// there is one.
pub open spec fn variable_reading(component: Seq<char>, variable: Seq<char>) -> (
    Seq<char>,
    Option<Seq<char>>,
) {
    if component == "AuthCtrlr"@ {
        if variable == "AuthorizeRemoteStart"@ {
            ("Accepted"@, Some("false"@))
        } else {
            ("UnknownVariable"@, None)
        }
    } else {
        ("UnknownComponent"@, None)
    }
}

/// What an attempt to write a variable gives: the known variable is read-only.
pub open spec fn variable_write_status(component: Seq<char>, variable: Seq<char>) -> Seq<char> {
    if component == "AuthCtrlr"@ {
        if variable == "AuthorizeRemoteStart"@ {
            "Rejected"@
        } else {
            "UnknownVariable"@
        }
    } else {
        "UnknownComponent"@
    }
}

/// Looks a variable up for reading.
pub fn get_variable(component_name: &str, variable_name: &str) -> (r: (
    &'static str,
    Option<&'static str>,
))
    ensures
        r.0@ == variable_reading(component_name@, variable_name@).0,
        opt_view(r.1) == variable_reading(component_name@, variable_name@).1,
{
    if same_text(component_name, "AuthCtrlr") {
        if same_text(variable_name, "AuthorizeRemoteStart") {
            ("Accepted", Some("false"))
        } else {
            ("UnknownVariable", None)
        }
    } else {
        ("UnknownComponent", None)
    }
}

/// Looks a variable up for writing.
pub fn set_variable_status(component_name: &str, variable_name: &str) -> (r: &'static str)
    ensures
        r@ == variable_write_status(component_name@, variable_name@),
{
    if same_text(component_name, "AuthCtrlr") {
        if same_text(variable_name, "AuthorizeRemoteStart") {
            "Rejected"
        } else {
            "UnknownVariable"
        }
    } else {
        "UnknownComponent"
    }
}

} // verus!
