use db_manager::catalog::{get_database_types, DatabaseType};
use db_manager::inventory::{format_image_size, format_size, validate_container_name, NameError};
use db_manager::limits::{parse_cpus, parse_memory_string, ConfigError};
use db_manager::text::{decimal_text, trim};

#[test]
fn type_ids_and_defaults() {
    assert_eq!(DatabaseType::PostgreSQL.to_string(), "postgresql");
    assert_eq!(DatabaseType::MariaDB.to_string(), "mariadb");
    assert_eq!(DatabaseType::MongoDB.get_default_port(), 27017);
    assert_eq!(DatabaseType::PostgreSQL.get_default_port(), 5544);
    assert_eq!(DatabaseType::Redis.get_default_user(), "");
    assert_eq!(DatabaseType::MySQL.get_default_user(), "root");
    assert_eq!(DatabaseType::PostgreSQL.get_icon(), "\u{1F418}");
    assert_eq!(DatabaseType::MongoDB.get_image_name("7.0"), "mongo:7.0");
    assert_eq!(DatabaseType::PostgreSQL.get_image_name("16"), "postgres:16");
}

#[test]
fn versions_newest_first() {
    assert_eq!(DatabaseType::PostgreSQL.get_available_versions(), vec!["16", "15", "14", "13", "12"]);
    assert_eq!(DatabaseType::MariaDB.get_available_versions(), vec!["11.2", "10.11", "10.6"]);
}

#[test]
fn database_types_listing() {
    let types = get_database_types();
    let ids: Vec<String> = types.iter().map(|t| t.id.clone()).collect();
    assert_eq!(ids, vec!["postgresql", "mysql", "mariadb", "mongodb", "redis"]);
    assert_eq!(types[2].name, "MariaDB");
    assert_eq!(types[4].versions, vec!["7.2", "7.0", "6.2"]);
}

#[test]
fn memory_strings() {
    assert_eq!(parse_memory_string("256m"), Ok(268435456));
    assert_eq!(parse_memory_string("2g"), Ok(2147483648));
    assert_eq!(parse_memory_string("1024"), Ok(1024));
    assert_eq!(parse_memory_string("2gb"), parse_memory_string("2g"));
    assert_eq!(parse_memory_string("512MB"), Ok(536870912));
    assert_eq!(parse_memory_string(" 64k "), Ok(65536));
    assert_eq!(parse_memory_string("1kb"), Ok(1024));
    assert_eq!(parse_memory_string("1.5g"), Ok(1610612736));
    assert_eq!(parse_memory_string("-7"), Ok(-7));
}

#[test]
fn memory_string_errors() {
    assert_eq!(parse_memory_string("lots"), Err(ConfigError::InvalidMemory("lots".to_string())));
    assert_eq!(parse_memory_string(" xg "), Err(ConfigError::InvalidMemory("xg".to_string())));
    assert!(parse_memory_string("").is_err());
    assert!(parse_memory_string("m").is_err());
    assert!(parse_memory_string("1.2.3m").is_err());
    assert!(parse_memory_string("99999999999999999999").is_err());
    assert!(parse_memory_string("9999999999999g").is_err());
}

#[test]
fn cpu_strings() {
    assert_eq!(parse_cpus("0.5"), Some(500000000));
    assert_eq!(parse_cpus("2"), Some(2000000000));
    assert_eq!(parse_cpus(".25"), Some(250000000));
    assert_eq!(parse_cpus("abc"), None);
    assert_eq!(parse_cpus(""), None);
}

#[test]
fn sizes_for_people() {
    assert_eq!(format_size(0), "0 B");
    assert_eq!(format_size(1023), "1023 B");
    assert_eq!(format_size(-5), "-5 B");
    assert_eq!(format_size(1024), "1.00 KB");
    assert_eq!(format_size(1536), "1.50 KB");
    assert_eq!(format_size(1048576), "1.00 MB");
    assert_eq!(format_size(1073741824), "1.00 GB");
    assert_eq!(format_size(5368709120), "5.00 GB");
    assert_eq!(format_size(1234567), "1.18 MB");
}

#[test]
fn image_sizes() {
    assert_eq!(format_image_size(157286400), "150 MB");
    assert_eq!(format_image_size(1073741824), "1024 MB");
    assert_eq!(format_image_size(2147483648), "2.00 GB");
}

#[test]
fn decimal_and_trim() {
    assert_eq!(decimal_text(0), "0");
    assert_eq!(decimal_text(5544), "5544");
    assert_eq!(decimal_text(u64::MAX), "18446744073709551615");
    assert_eq!(trim("\t a b \n"), "a b");
}

#[test]
fn container_names() {
    assert_eq!(validate_container_name("my-db_1"), Ok(()));
    assert_eq!(validate_container_name("   "), Err(NameError::Empty));
    assert_eq!(validate_container_name(""), Err(NameError::Empty));
    assert_eq!(validate_container_name("bad name"), Err(NameError::BadCharacter));
    assert_eq!(validate_container_name("db.1"), Err(NameError::BadCharacter));
    assert_eq!(validate_container_name("base\u{f1}o"), Ok(()));
}
