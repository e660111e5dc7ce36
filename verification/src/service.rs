//! Service-side enums shared by the database models.
use vstd::prelude::*;

verus! {

/// The cloud provider a resource belongs to.
#[derive(Clone, Copy, Debug, Hash, PartialEq, Eq, Structural)]
pub enum Kind {
    Aws,
    Azure,
    Gcp,
    Scw,
    OnPremise,
}

/// The database engines the platform can provision.
#[derive(Clone, Copy, Debug, Hash, PartialEq, Eq, Structural)]
pub enum DatabaseType {
    PostgreSQL,
    MongoDB,
    MySQL,
    Redis,
}

} // verus!
