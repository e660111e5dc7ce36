use job_engine::database::{check_instance_type_validity, DatabaseInstanceType};
use job_engine::scaleway::ScwDatabaseInstanceType;
use job_engine::service::{DatabaseType, Kind};

fn all_instance_types() -> Vec<ScwDatabaseInstanceType> {
    vec![
        ScwDatabaseInstanceType::DB_DEV_S,
        ScwDatabaseInstanceType::DB_DEV_M,
        ScwDatabaseInstanceType::DB_GP_XS,
        ScwDatabaseInstanceType::DB_GP_S,
        ScwDatabaseInstanceType::DB_GP_M,
        ScwDatabaseInstanceType::RED1_MICRO,
    ]
}

fn all_database_types() -> Vec<DatabaseType> {
    vec![
        DatabaseType::PostgreSQL,
        DatabaseType::MongoDB,
        DatabaseType::MySQL,
        DatabaseType::Redis,
    ]
}

#[test]
fn test_scaleway_database_instance_type_cloud_provider_kind() {
    for instance_type in all_instance_types() {
        // execute & verify:
        assert_eq!(Kind::Scw, instance_type.cloud_provider())
    }
}

#[test]
fn test_scaleway_database_instance_type_to_cloud_provider_format() {
    for instance_type in all_instance_types() {
        // execute & verify:
        assert_eq!(
            match instance_type {
                ScwDatabaseInstanceType::DB_DEV_S => "db-dev-s",
                ScwDatabaseInstanceType::DB_DEV_M => "db-dev-m",
                ScwDatabaseInstanceType::DB_GP_XS => "db-gp-xs",
                ScwDatabaseInstanceType::DB_GP_S => "db-gp-s",
                ScwDatabaseInstanceType::DB_GP_M => "db-gp-m",
                ScwDatabaseInstanceType::RED1_MICRO => "red1-micro",
            }
            .to_string(),
            instance_type.to_cloud_provider_format()
        )
    }
}

#[test]
fn test_scaleway_database_instance_type_to_string() {
    for instance_type in all_instance_types() {
        // execute & verify:
        assert_eq!(
            match instance_type {
                ScwDatabaseInstanceType::DB_DEV_S => "db-dev-s",
                ScwDatabaseInstanceType::DB_DEV_M => "db-dev-m",
                ScwDatabaseInstanceType::DB_GP_XS => "db-gp-xs",
                ScwDatabaseInstanceType::DB_GP_S => "db-gp-s",
                ScwDatabaseInstanceType::DB_GP_M => "db-gp-m",
                ScwDatabaseInstanceType::RED1_MICRO => "red1-micro",
            }
            .to_string(),
            instance_type.to_string()
        )
    }
}

#[test]
fn test_scaleway_database_instance_type_from_str() {
    for instance_type in all_instance_types() {
        // execute & verify:
        // proper string: e.q `db-dev-s`
        assert_eq!(
            Ok(instance_type.clone()),
            ScwDatabaseInstanceType::from_str(&instance_type.to_cloud_provider_format())
        );
        // string with several casing: e.q `DB-DEV-S`
        assert_eq!(
            Ok(instance_type.clone()),
            ScwDatabaseInstanceType::from_str(instance_type.to_cloud_provider_format().to_uppercase().as_str())
        );
        // string with leading and trailing spaces: e.q ` db-dev-s   `
        assert_eq!(
            Ok(instance_type.clone()),
            ScwDatabaseInstanceType::from_str(
                format!("  {}   ", &instance_type.to_cloud_provider_format()).as_str()
            )
        );
    }
}

#[test]
fn test_scaleway_database_instance_type_is_instance_allowed() {
    for instance_type in all_instance_types() {
        // execute & verify:
        assert_eq!(
            match instance_type {
                ScwDatabaseInstanceType::DB_DEV_S => true,
                ScwDatabaseInstanceType::DB_DEV_M => true,
                ScwDatabaseInstanceType::DB_GP_XS => true,
                ScwDatabaseInstanceType::DB_GP_S => true,
                ScwDatabaseInstanceType::DB_GP_M => true,
                ScwDatabaseInstanceType::RED1_MICRO => true,
            },
            instance_type.is_instance_allowed(),
        )
    }
}

#[test]
fn test_scaleway_database_instance_type_is_instance_compatible_with() {
    for db_type in all_database_types() {
        for instance_type in all_instance_types() {
            // execute & verify:
            assert_eq!(
                match instance_type {
                    // DB
                    ScwDatabaseInstanceType::DB_DEV_S => match db_type {
                        DatabaseType::PostgreSQL => true,
                        DatabaseType::MongoDB => true,
                        DatabaseType::MySQL => true,
                        DatabaseType::Redis => false,
                    },
                    ScwDatabaseInstanceType::DB_DEV_M => match db_type {
                        DatabaseType::PostgreSQL => true,
                        DatabaseType::MongoDB => true,
                        DatabaseType::MySQL => true,
                        DatabaseType::Redis => false,
                    },
                    ScwDatabaseInstanceType::DB_GP_XS => match db_type {
                        DatabaseType::PostgreSQL => true,
                        DatabaseType::MongoDB => true,
                        DatabaseType::MySQL => true,
                        DatabaseType::Redis => false,
                    },
                    ScwDatabaseInstanceType::DB_GP_S => match db_type {
                        DatabaseType::PostgreSQL => true,
                        DatabaseType::MongoDB => true,
                        DatabaseType::MySQL => true,
                        DatabaseType::Redis => false,
                    },
                    ScwDatabaseInstanceType::DB_GP_M => match db_type {
                        DatabaseType::PostgreSQL => true,
                        DatabaseType::MongoDB => true,
                        DatabaseType::MySQL => true,
                        DatabaseType::Redis => false,
                    },
                    // CACHE
                    ScwDatabaseInstanceType::RED1_MICRO => match db_type {
                        DatabaseType::PostgreSQL => false,
                        DatabaseType::MongoDB => false,
                        DatabaseType::MySQL => false,
                        DatabaseType::Redis => true,
                    },
                },
                instance_type.is_instance_compatible_with(db_type),
            )
        }
    }
}

#[test]
fn unknown_instance_type_is_rejected_with_the_raw_text() {
    match ScwDatabaseInstanceType::from_str(" no-such-type ") {
        Err(job_engine::database::DatabaseError::InvalidDatabaseInstance {
            requested_database_instance_type,
            ..
        }) => assert_eq!(requested_database_instance_type, " no-such-type "),
        other => panic!("expected a rejection, got {other:?}"),
    }
}

#[test]
fn instance_type_mismatch_is_detected() {
    let t = ScwDatabaseInstanceType::DB_DEV_S;
    assert!(check_instance_type_validity(&t, Kind::Scw).is_ok());
    assert!(check_instance_type_validity(&t, Kind::Aws).is_err());
}
