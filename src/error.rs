use vstd::prelude::*;

verus! {

/// The ways an operation of this tool can fail.
#[derive(PartialEq, Eq, Structural, Clone, Copy, Debug)]
pub enum HyprwsError {
    /// A workspace argument is missing or is not a base-10 `i32`.
    InvalidWorkspaceId,
    /// Listing the compositor's windows failed.
    CompositorQueryFailed,
    /// A close or move command was refused by the compositor.
    CompositorDispatchFailed,
    /// The first argument is absent or is no known option.
    UnrecognizedArgument,
}

impl HyprwsError {
    /// The text that describes the error.
    pub open spec fn text(self) -> Seq<char> {
        match self {
            HyprwsError::InvalidWorkspaceId => "Invalid workspace ID"@,
            HyprwsError::CompositorQueryFailed => "Could not list the compositor's windows"@,
            HyprwsError::CompositorDispatchFailed => "The compositor refused a window command"@,
            HyprwsError::UnrecognizedArgument => "Invalid argument"@,
        }
    }

    /// Returns the text that describes the error.
    pub fn message(&self) -> (r: String)
        ensures
            r@ == self.text(),
    {
        match self {
            HyprwsError::InvalidWorkspaceId => "Invalid workspace ID".to_owned(),
            HyprwsError::CompositorQueryFailed => "Could not list the compositor's windows".to_owned(),
            HyprwsError::CompositorDispatchFailed => "The compositor refused a window command".to_owned(),
            HyprwsError::UnrecognizedArgument => "Invalid argument".to_owned(),
        }
    }
}

} // verus!
