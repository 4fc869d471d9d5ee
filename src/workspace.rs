//! Workspace identifiers, as the user writes them.
use vstd::prelude::*;

use crate::error::HyprwsError;

verus! {

/// A decimal digit `0`-`9`.
pub open spec fn is_digit(c: char) -> bool {
    '0' <= c && c <= '9'
}

/// A non-empty run of decimal digits.
pub open spec fn is_digits(s: Seq<char>) -> bool {
    s.len() > 0 && forall|i: int| 0 <= i < s.len() ==> is_digit(#[trigger] s[i])
}

/// The value of a run of decimal digits, most significant first.
pub open spec fn digits_value(s: Seq<char>) -> int
    decreases s.len(),
{
    if s.len() == 0 {
        0
    } else {
        digits_value(s.drop_last()) * 10 + ((s.last() as u32) - ('0' as u32))
    }
}

/// The integer that `s` writes in base 10: an optional `+` or `-`, then
/// digits only, with nothing before or after.
pub open spec fn decimal_value(s: Seq<char>) -> Option<int> {
    if s.len() > 0 && s[0] == '-' && is_digits(s.drop_first()) {
        Some(-digits_value(s.drop_first()))
    } else if s.len() > 0 && s[0] == '+' && is_digits(s.drop_first()) {
        Some(digits_value(s.drop_first()))
    } else if is_digits(s) {
        Some(digits_value(s))
    } else {
        None
    }
}

/// The workspace identifier that `s` writes: its decimal value, where that
/// fits an `i32`.
pub open spec fn workspace_id_of(s: Seq<char>) -> Option<i32> {
    match decimal_value(s) {
        Some(v) => if i32::MIN <= v && v <= i32::MAX {
            Some(v as i32)
        } else {
            None
        },
        None => None,
    }
}

/// Relies on `<i32 as FromStr>::from_str` (`str::parse::<i32>`): it accepts an
/// optional `+` or `-` sign followed by at least one ASCII digit and nothing
/// else, and fails where the value does not fit an `i32`.
#[verifier::external_body]
fn parse_i32(s: &str) -> (r: Option<i32>)
    ensures
        r == workspace_id_of(s@),
{
    s.parse::<i32>().ok()
}

/// The text of an optional argument.
pub open spec fn arg_text(a: Option<&String>) -> Option<Seq<char>> {
    match a {
        Some(s) => Some(s@),
        None => None,
    }
}

/// The identifier that an optional argument gives, if any.
pub open spec fn workspace_arg(a: Option<Seq<char>>) -> Option<i32> {
    match a {
        Some(s) => workspace_id_of(s),
        None => None,
    }
}

/// Both workspace identifiers, where both arguments are present and valid.
pub open spec fn workspace_pair(a: Option<Seq<char>>, b: Option<Seq<char>>) -> Option<(i32, i32)> {
    match (workspace_arg(a), workspace_arg(b)) {
        (Some(x), Some(y)) => Some((x, y)),
        _ => None,
    }
}

/// Reads the two workspace arguments of an operation. Fails with
/// `InvalidWorkspaceId` unless both are present and write an `i32` in base 10.
pub fn valid_workspaces(a: Option<&String>, b: Option<&String>) -> (r: Result<(i32, i32), HyprwsError>)
    ensures
        match workspace_pair(arg_text(a), arg_text(b)) {
            Some(p) => r == Ok::<(i32, i32), HyprwsError>(p),
            None => r == Err::<(i32, i32), HyprwsError>(HyprwsError::InvalidWorkspaceId),
        },
{
    let x = match a {
        Some(s) => parse_i32(s.as_str()),
        None => None,
    };
    let y = match b {
        Some(s) => parse_i32(s.as_str()),
        None => None,
    };
    match (x, y) {
        (Some(x), Some(y)) => Ok((x, y)),
        _ => Err(HyprwsError::InvalidWorkspaceId),
    }
}

} // verus!
