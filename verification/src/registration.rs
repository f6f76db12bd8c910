//! The reply to an addon installation handshake.

use vstd::prelude::*;

verus! {

/// What the backend answers when an addon instance registers: installation
/// is complete, or the installer must be redirected to the given location.
#[derive(Clone, Debug, PartialEq, Eq)]
pub enum InstallResponse {
    Complete,
    Redirect(String),
}

impl InstallResponse {
    /// True exactly when installation finished without a redirect.
    pub fn is_complete(&self) -> (r: bool)
        ensures
            r == (*self matches InstallResponse::Complete),
    {
        match self {
            InstallResponse::Complete => true,
            InstallResponse::Redirect(_) => false,
        }
    }

    /// The redirect location, when there is one.
    pub fn redirect_location(self) -> (r: Option<String>)
        ensures
            match self {
                InstallResponse::Complete => r is None,
                InstallResponse::Redirect(loc) => r == Some(loc),
            },
    {
        match self {
            InstallResponse::Complete => None,
            InstallResponse::Redirect(loc) => Some(loc),
        }
    }
}

} // verus!
