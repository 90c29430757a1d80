//! The platforms the launcher supports.
use vstd::prelude::*;

verus! {

/// The operating-system family the launcher runs on.
#[derive(Clone, Copy, Debug, PartialEq, Eq, Structural)]
pub enum Platform {
    Windows,
    MacOs,
    Linux,
}

impl Platform {
    /// Whether executables on this platform need the unix permission bits set.
    pub fn is_unix(self) -> (res: bool)
        ensures
            res == (self != Platform::Windows),
    {
        match self {
            Platform::Windows => false,
            _ => true,
        }
    }
}

} // verus!
