//! The database model's traits and validation rules: instance types per
//! provider, the managed-versus-container mode markers, the engine markers,
//! and the checks a database's settings must pass before anything is
//! provisioned.
use vstd::prelude::*;

verus! {

use crate::service::{DatabaseType as ServiceDatabaseType, Kind};

/// A provider-specific database instance type. The spec-level provider kind
/// lets callers state what the runtime accessor returns.
pub trait DatabaseInstanceType {
    spec fn spec_cloud_provider(&self) -> Kind;

    /// The provider this instance type belongs to.
    fn cloud_provider(&self) -> (r: Kind)
        ensures
            r == self.spec_cloud_provider(),
    ;

    /// The name under which the provider sells this instance type.
    fn to_cloud_provider_format(&self) -> String;

    /// Whether the platform lets users pick this instance type.
    fn is_instance_allowed(&self) -> bool;

    /// Whether this instance type can host the given database engine.
    fn is_instance_compatible_with(&self, database_type: ServiceDatabaseType) -> bool;
}

/// Marker of a provider-managed database.
pub struct Managed {}

/// Marker of a container database run on the cluster itself.
pub struct Container {}

/// The mode axis of a database: managed or containered, decided by the
/// marker type.
pub trait DatabaseMode {
    spec fn spec_is_managed() -> bool;

    fn is_managed() -> (r: bool)
        ensures
            r == Self::spec_is_managed(),
    ;

    fn is_container() -> (r: bool)
        ensures
            r == !Self::spec_is_managed(),
    {
        !Self::is_managed()
    }
}

impl DatabaseMode for Managed {
    open spec fn spec_is_managed() -> bool {
        true
    }

    fn is_managed() -> bool {
        true
    }
}

impl DatabaseMode for Container {
    open spec fn spec_is_managed() -> bool {
        false
    }

    fn is_managed() -> bool {
        false
    }
}

/// Marker of the PostgreSQL engine.
pub struct PostgresSQL {}

/// Marker of the MySQL engine.
pub struct MySQL {}

/// Marker of the MongoDB engine.
pub struct MongoDB {}

/// Marker of the Redis engine.
pub struct Redis {}

/// A cloud provider as the database models see it.
pub trait CloudProvider {
    fn cloud_provider() -> Kind;

    fn lib_directory_name() -> &'static str;
}

/// A database engine under one provider and mode: its names, its service
/// type, and the resource auto-correction hooks, which pass values through
/// unchanged unless an engine overrides them.
pub trait DatabaseType<T: CloudProvider, M: DatabaseMode> {
    type DatabaseOptions;

    fn short_name() -> &'static str;

    fn lib_directory_name() -> &'static str;

    fn db_type() -> ServiceDatabaseType;

    fn cpu_validate(desired_cpu: String) -> (r: String)
        ensures
            r == desired_cpu,
    {
        desired_cpu
    }

    fn cpu_burst_value(desired_cpu: String) -> (r: String)
        ensures
            r == desired_cpu,
    {
        desired_cpu
    }

    fn memory_validate(desired_memory: u32) -> (r: u32)
        ensures
            r == desired_memory,
    {
        desired_memory
    }
}

/// The database configuration and provisioning errors.
#[derive(Debug, PartialEq, Eq)]
pub enum DatabaseError {
    InvalidConfig(String),
    UnsupportedManagedMode(ServiceDatabaseType, String),
    DatabaseNotFound { database_type: ServiceDatabaseType, database_id: String },
    UnknownDatabaseVersion { database_type: ServiceDatabaseType, database_version: String },
    UnsupportedDatabaseVersion { database_type: ServiceDatabaseType, database_version: String },
    InvalidDatabaseInstance {
        requested_database_instance_type: String,
        database_cloud_provider: Kind,
    },
    DatabaseInstanceTypeMismatchCloudProvider {
        database_instance_type_str: String,
        database_cloud_provider: Kind,
    },
    DatabaseInstanceTypeMismatchDatabaseType {
        database_instance_type_str: String,
        database_type: ServiceDatabaseType,
    },
    UnknownError(String),
}

/// Checks that an instance type belongs to the database's own cloud
/// provider; a mismatch is rejected with both sides named.
pub fn check_instance_type_validity<T: DatabaseInstanceType + ?Sized>(
    database_instance_type: &T,
    database_cloud_provider_kind: Kind,
) -> (r: Result<(), DatabaseError>)
    ensures
        r is Ok <==> database_instance_type.spec_cloud_provider() == database_cloud_provider_kind,
        r matches Err(e) ==> (e matches DatabaseError::DatabaseInstanceTypeMismatchCloudProvider {
            database_cloud_provider,
            ..
        } && database_cloud_provider == database_cloud_provider_kind),
{
    if database_instance_type.cloud_provider() != database_cloud_provider_kind {
        return Err(DatabaseError::DatabaseInstanceTypeMismatchCloudProvider {
            database_cloud_provider: database_cloud_provider_kind,
            database_instance_type_str: database_instance_type.to_cloud_provider_format(),
        });
    }
    Ok(())
}

/// Whether the resource settings of a database pass validation: the checks
/// apply only to container databases, as a managed one is sized by its
/// instance type; requests must be positive and no request may exceed its
/// limit.
pub open spec fn spec_database_resources_valid(
    cpu_request_in_milli: u32,
    cpu_limit_in_milli: u32,
    ram_request_in_mib: u32,
    ram_limit_in_mib: u32,
    is_container: bool,
) -> bool {
    is_container ==> {
        &&& cpu_request_in_milli <= cpu_limit_in_milli
        &&& cpu_request_in_milli > 0
        &&& ram_request_in_mib <= ram_limit_in_mib
        &&& ram_request_in_mib > 0
    }
}

/// Validates a database's resource settings, exactly as
/// `spec_database_resources_valid` states; the first failing check names the
/// offending setting.
pub fn check_database_resources(
    cpu_request_in_milli: u32,
    cpu_limit_in_milli: u32,
    ram_request_in_mib: u32,
    ram_limit_in_mib: u32,
    is_container: bool,
) -> (r: Result<(), DatabaseError>)
    ensures
        r is Ok <==> spec_database_resources_valid(
            cpu_request_in_milli,
            cpu_limit_in_milli,
            ram_request_in_mib,
            ram_limit_in_mib,
            is_container,
        ),
        r matches Err(e) ==> e is InvalidConfig,
{
    if is_container {
        if cpu_request_in_milli > cpu_limit_in_milli {
            return Err(DatabaseError::InvalidConfig(
                "cpu_request_in_milli must be less or equal to cpu_limit_in_milli".to_owned(),
            ));
        }
        if cpu_request_in_milli == 0 {
            return Err(DatabaseError::InvalidConfig(
                "cpu_request_in_milli must be greater than 0".to_owned(),
            ));
        }
        if ram_request_in_mib > ram_limit_in_mib {
            return Err(DatabaseError::InvalidConfig(
                "ram_request_in_mib must be less or equal to ram_limit_in_mib".to_owned(),
            ));
        }
        if ram_request_in_mib == 0 {
            return Err(DatabaseError::InvalidConfig(
                "ram_request_in_mib must be greater than 0".to_owned(),
            ));
        }
    }
    Ok(())
}

/// What a review of a database's disk size against the volume actually bound
/// on the cluster decides.
#[derive(Clone, Copy, Debug, PartialEq, Eq)]
pub enum StorageSizeReview {
    /// The requested size is larger: the volume must be enlarged.
    MustGrow,
    /// The sizes agree: nothing to do.
    Unchanged,
}

/// Reviews the requested disk size against the effective one: growth is
/// requested where the request is larger, equality needs nothing, and a
/// request below the effective size is rejected — storage never shrinks.
pub fn storage_size_review(requested_size_in_gb: u32, actual_size_in_gb: u32) -> (r: Result<
    StorageSizeReview,
    DatabaseError,
>)
    ensures
        requested_size_in_gb > actual_size_in_gb <==> r == Ok::<StorageSizeReview, DatabaseError>(StorageSizeReview::MustGrow),
        requested_size_in_gb == actual_size_in_gb <==> r == Ok::<StorageSizeReview, DatabaseError>(StorageSizeReview::Unchanged),
        requested_size_in_gb < actual_size_in_gb <==> (r matches Err(e) && e is InvalidConfig),
{
    if requested_size_in_gb > actual_size_in_gb {
        Ok(StorageSizeReview::MustGrow)
    } else if requested_size_in_gb == actual_size_in_gb {
        Ok(StorageSizeReview::Unchanged)
    } else {
        Err(DatabaseError::InvalidConfig(
            "new storage size should be equal or greater than actual size".to_owned(),
        ))
    }
}

} // verus!
