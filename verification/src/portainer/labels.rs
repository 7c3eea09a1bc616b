//! The labels under which the container platform's integer codes are shown.
//!
//! Each table is total: a code outside the table is shown as `unknown(` and
//! the code and `)`, so that no record is turned away for a code that this
//! client has not heard of.

use crate::text::{decimal, push_decimal};
use vstd::prelude::*;
use vstd::string::*;

verus! {

/// The two ways in which a status code is put into words.
///
/// Stacks are always shown with `ActiveInactive`. For endpoints both ways
/// are in use for the same codes; the command line shows them with
/// `ActiveInactive`, and `UpDown` is there for a caller that wants the other.
#[derive(Debug, Clone, Copy, PartialEq, Eq, Structural)]
pub enum StatusScheme {
    /// 1 is `active`, 2 is `inactive`.
    ActiveInactive,
    /// 1 is `up`, 2 is `down`.
    UpDown,
}

/// The label of a code that a table does not hold.
pub open spec fn unknown_label(code: int) -> Seq<char> {
    "unknown("@ + decimal(code) + ")"@
}

/// The label of a stack's type.
pub open spec fn stack_type_label(code: i32) -> Seq<char> {
    if code == 1 {
        "swarm"@
    } else if code == 2 {
        "compose"@
    } else if code == 3 {
        "kubernetes"@
    } else {
        unknown_label(code as int)
    }
}

/// The label of an endpoint's type.
pub open spec fn endpoint_type_label(code: i32) -> Seq<char> {
    if code == 1 {
        "docker"@
    } else if code == 2 {
        "agent"@
    } else if code == 3 {
        "azure"@
    } else if code == 4 {
        "edge-agent"@
    } else if code == 5 {
        "kubernetes"@
    } else {
        unknown_label(code as int)
    }
}

/// The label of a status under a scheme.
pub open spec fn status_label(scheme: StatusScheme, code: i32) -> Seq<char> {
    if code == 1 {
        match scheme {
            StatusScheme::ActiveInactive => "active"@,
            StatusScheme::UpDown => "up"@,
        }
    } else if code == 2 {
        match scheme {
            StatusScheme::ActiveInactive => "inactive"@,
            StatusScheme::UpDown => "down"@,
        }
    } else {
        unknown_label(code as int)
    }
}

/// The label of a code that a table does not hold.
pub fn format_unknown(code: i32) -> (r: String)
    ensures
        r@ == unknown_label(code as int),
{
    let mut out = String::from_str("unknown(");
    push_decimal(&mut out, code as i64);
    out.append(")");
    out
}

/// The label of a stack's type.
pub fn format_stack_type(code: i32) -> (r: String)
    ensures
        r@ == stack_type_label(code),
{
    if code == 1 {
        String::from_str("swarm")
    } else if code == 2 {
        String::from_str("compose")
    } else if code == 3 {
        String::from_str("kubernetes")
    } else {
        format_unknown(code)
    }
}

/// The label of an endpoint's type.
pub fn format_endpoint_type(code: i32) -> (r: String)
    ensures
        r@ == endpoint_type_label(code),
{
    if code == 1 {
        String::from_str("docker")
    } else if code == 2 {
        String::from_str("agent")
    } else if code == 3 {
        String::from_str("azure")
    } else if code == 4 {
        String::from_str("edge-agent")
    } else if code == 5 {
        String::from_str("kubernetes")
    } else {
        format_unknown(code)
    }
}

/// The label of a status under a scheme.
pub fn format_status_as(scheme: StatusScheme, status: i32) -> (r: String)
    ensures
        r@ == status_label(scheme, status),
{
    if status == 1 {
        match scheme {
            StatusScheme::ActiveInactive => String::from_str("active"),
            StatusScheme::UpDown => String::from_str("up"),
        }
    } else if status == 2 {
        match scheme {
            StatusScheme::ActiveInactive => String::from_str("inactive"),
            StatusScheme::UpDown => String::from_str("down"),
        }
    } else {
        format_unknown(status)
    }
}

/// The label of a status as the command line shows it: `active` for 1,
/// `inactive` for 2.
pub fn format_status(status: i32) -> (r: String)
    ensures
        r@ == status_label(StatusScheme::ActiveInactive, status),
{
    format_status_as(StatusScheme::ActiveInactive, status)
}

/// The two schemes differ in their words for the codes 1 and 2 and in nothing
/// else.
pub proof fn lemma_schemes_agree_on_unknown_codes(code: i32)
    requires
        code != 1,
        code != 2,
    ensures
        status_label(StatusScheme::ActiveInactive, code) == status_label(
            StatusScheme::UpDown,
            code,
        ),
        status_label(StatusScheme::UpDown, code) == unknown_label(code as int),
{
}

} // verus!
