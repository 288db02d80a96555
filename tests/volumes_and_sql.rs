use db_manager::container::ContainerSummary;
use db_manager::db_exec::{backup_command, exec_sql_command, BackupParams, ExecSqlParams};
use db_manager::inventory::has_container;
use db_manager::migration_plan::terminate_sessions_query;
use db_manager::volume_ops::{backup_spec, prune_message, restore_spec, split_backup_path};

#[test]
fn backup_paths() {
    assert_eq!(split_backup_path("/home/me/backups/pg.tar.gz"), Some(("/home/me/backups".to_string(), "pg.tar.gz".to_string())));
    assert_eq!(split_backup_path("pg.tar.gz"), Some((String::new(), "pg.tar.gz".to_string())));
    assert_eq!(split_backup_path("/pg.tar.gz"), Some((String::new(), "pg.tar.gz".to_string())));
    assert_eq!(split_backup_path("/"), None);
    assert_eq!(split_backup_path(""), None);
}

#[test]
fn backup_helper() {
    let s = backup_spec("pgdata", "/home/me", 1700000000);
    assert_eq!(s.name, "backup-1700000000");
    assert_eq!(s.image, "alpine:latest");
    assert_eq!(s.binds, vec!["pgdata:/volume-data:ro".to_string(), "/home/me:/backup".to_string()]);
    assert_eq!(
        s.cmd,
        Some(vec!["tar", "-czf", "/backup/volume-backup.tar.gz", "-C", "/volume-data", "."].into_iter().map(String::from).collect())
    );
}

#[test]
fn restore_helper() {
    let s = restore_spec("pgdata", "/home/me/pg.tar.gz", 7).unwrap();
    assert_eq!(s.name, "restore-7");
    assert_eq!(s.binds, vec!["pgdata:/volume-data".to_string(), "/home/me:/backup:ro".to_string()]);
    assert_eq!(s.cmd.unwrap()[2], "/backup/pg.tar.gz");
    assert!(restore_spec("pgdata", "/home/me/", 7).is_none());
}

#[test]
fn prune_report() {
    assert_eq!(prune_message(3, 1572864), "Removed 3 unused volumes, reclaimed 1.50 MB");
    assert_eq!(prune_message(0, 0), "Removed 0 unused volumes, reclaimed 0 B");
}

#[test]
fn sql_commands() {
    let p = ExecSqlParams {
        container_id: "c".to_string(),
        database: "shop".to_string(),
        username: "postgres".to_string(),
        sql: "SELECT version();".to_string(),
    };
    assert_eq!(exec_sql_command(&p), vec!["psql", "-U", "postgres", "-d", "shop", "-c", "SELECT version();"]);
    let b = BackupParams { container_id: "c".to_string(), database: "shop".to_string(), username: "postgres".to_string() };
    let (cmd, file) = backup_command(&b, 42);
    assert_eq!(file, "/tmp/backup_shop_42.sql");
    assert_eq!(cmd, vec!["pg_dump", "-U", "postgres", "-d", "shop", "-f", "/tmp/backup_shop_42.sql"]);
    assert!(terminate_sessions_query("shop").contains("datname = 'shop'"));
}

#[test]
fn container_lookup() {
    let c = ContainerSummary {
        id: "abc".to_string(),
        names: vec![],
        published_ports: vec![],
        state: None,
        image: None,
        created: 0,
        labels: vec![],
        mounts: vec![],
    };
    assert!(has_container(&vec![c.clone()], "abc"));
    assert!(!has_container(&vec![c], "ab"));
    assert!(!has_container(&vec![], "abc"));
}
