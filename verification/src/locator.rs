//! Resource locators: which of the two backend services owns a resource.

use vstd::prelude::*;
use crate::id::{AddonInstanceUuid, WebsiteUuid};

verus! {

/// The closed two-variant locator tag. `Site` resources live on the main
/// backend, `Addon` resources on the addon backend; every dispatch matches
/// these two variants exhaustively, with no default branch.
#[derive(Clone, Copy, Debug, PartialEq, Eq, Structural)]
pub enum UuidType {
    Site(WebsiteUuid),
    Addon(AddonInstanceUuid),
}

/// The backend a locator dispatches to; names which service produced an
/// error when a call fails.
#[derive(Clone, Copy, Debug, PartialEq, Eq, Structural)]
pub enum Backend {
    Site,
    Addon,
}

/// The backend that owns the resources a locator addresses.
pub open spec fn spec_backend_of(uuid: UuidType) -> Backend {
    match uuid {
        UuidType::Site(_) => Backend::Site,
        UuidType::Addon(_) => Backend::Addon,
    }
}

pub fn backend_of(uuid: &UuidType) -> (r: Backend)
    ensures
        r == spec_backend_of(*uuid),
{
    match uuid {
        UuidType::Site(_) => Backend::Site,
        UuidType::Addon(_) => Backend::Addon,
    }
}

impl WebsiteUuid {
    /// The explicit, named mapping from a website identifier to a locator:
    /// a website's resources always live on the site backend.
    pub fn into_uuid_type(self) -> (r: UuidType)
        ensures
            r == UuidType::Site(self),
    {
        UuidType::Site(self)
    }
}

/// An opaque string naming a schema/table of rows within a tenant or addon.
#[derive(Clone, Debug)]
pub struct CollectionName {
    pub name: String,
}

impl CollectionName {
    pub fn new(name: String) -> (r: CollectionName)
        ensures
            r.name@ == name@,
    {
        CollectionName { name }
    }
}

} // verus!
