use db_manager::container::ContainerSummary;
use db_manager::migration::{Migration, MigrationAction, MigrationError, MigrationEvent, MigrationPhase, MAX_READY_PROBES};
use db_manager::migration_plan::{
    connection_string, drop_database_query, find_free_port, parse_major_version, restore_has_failed,
    runtime_source_host, LocalPostgresConfig,
};
use db_manager::store::MigrationStore;

fn source() -> LocalPostgresConfig {
    LocalPostgresConfig {
        host: "localhost".to_string(),
        port: 5432,
        user: "postgres".to_string(),
        password: "pw".to_string(),
    }
}

fn with_port(p: u16) -> ContainerSummary {
    ContainerSummary {
        id: format!("c{}", p),
        names: vec![format!("/c{}", p)],
        published_ports: vec![p],
        state: None,
        image: None,
        created: 0,
        labels: vec![],
        mounts: vec![],
    }
}

fn started() -> (Migration, MigrationAction) {
    Migration::new(source(), "shop".to_string(), 1700000000)
}

fn to_dumping(m: &mut Migration) {
    let a = m.step(MigrationEvent::VersionProbed(Ok("PostgreSQL 15.4 on x86_64-pc-linux-gnu".to_string())));
    match a {
        MigrationAction::StartHelper { spec } => {
            assert_eq!(spec.name, "temp-dump-shop-1700000000");
            assert_eq!(spec.image, "postgres:15");
            assert_eq!(spec.network_mode, Some("host".to_string()));
            assert_eq!(spec.cmd, Some(vec!["sleep".to_string(), "300".to_string()]));
        }
        other => panic!("unexpected {:?}", other),
    }
    let a = m.step(MigrationEvent::HelperStarted(Ok(())));
    match a {
        MigrationAction::RunDump { container, cmd, env } => {
            assert_eq!(container, "temp-dump-shop-1700000000");
            assert_eq!(cmd[2], "host.docker.internal");
            assert_eq!(cmd[4], "5432");
            assert_eq!(env, vec!["PGPASSWORD=pw".to_string()]);
        }
        other => panic!("unexpected {:?}", other),
    }
}

fn to_polling(m: &mut Migration) {
    to_dumping(m);
    let a = m.step(MigrationEvent::DumpFinished(Ok((b"CREATE TABLE t();".to_vec(), String::new()))));
    assert!(matches!(a, MigrationAction::RemoveHelper { .. }));
    assert!(matches!(m.step(MigrationEvent::HelperRemoved), MigrationAction::ListPorts));
    let a = m.step(MigrationEvent::PortsListed(Ok(vec![with_port(5544), with_port(5545)])));
    match a {
        MigrationAction::StartDestination { spec } => {
            assert_eq!(spec.name, "migrated-shop");
            assert_eq!(spec.port_bindings[0].host_port, "5546");
            assert_eq!(spec.binds, vec!["migrated-shop_data:/var/lib/postgresql/data".to_string()]);
        }
        other => panic!("unexpected {:?}", other),
    }
    let a = m.step(MigrationEvent::DestinationStarted(Ok("dest-id".to_string())));
    match a {
        MigrationAction::ProbeReady { container, delay_secs, cmd } => {
            assert_eq!(container, "dest-id");
            assert_eq!(delay_secs, 3);
            assert_eq!(cmd, vec!["pg_isready".to_string(), "-U".to_string(), "postgres".to_string()]);
        }
        other => panic!("unexpected {:?}", other),
    }
}

#[test]
fn first_action_probes_the_source() {
    let (m, a) = started();
    assert_eq!(m.phase, MigrationPhase::Probing);
    match a {
        MigrationAction::ProbeVersion { connection } => {
            assert_eq!(connection, "host=localhost port=5432 user=postgres password=pw dbname=shop")
        }
        other => panic!("unexpected {:?}", other),
    }
}

#[test]
fn empty_dump_fails_and_removes_helper_once() {
    let (mut m, _) = started();
    to_dumping(&mut m);
    let mut removals = 0;
    let a = m.step(MigrationEvent::DumpFinished(Ok((vec![], "pg_dump: error: connection refused".to_string()))));
    if let MigrationAction::RemoveHelper { name } = &a {
        assert_eq!(name, "temp-dump-shop-1700000000");
        removals += 1;
    }
    let a = m.step(MigrationEvent::HelperRemoved);
    if let MigrationAction::RemoveHelper { .. } = &a {
        removals += 1;
    }
    match a {
        MigrationAction::Fail(MigrationError::EmptyDump(e)) => assert_eq!(e, "pg_dump: error: connection refused"),
        other => panic!("unexpected {:?}", other),
    }
    assert_eq!(removals, 1);
    assert_eq!(m.helper_removals, 1);
    assert_eq!(m.phase, MigrationPhase::Failed);
}

#[test]
fn helper_start_failure_still_removes_helper() {
    let (mut m, _) = started();
    m.step(MigrationEvent::VersionProbed(Ok("PostgreSQL 16.1".to_string())));
    let a = m.step(MigrationEvent::HelperStarted(Err("no such image".to_string())));
    assert!(matches!(a, MigrationAction::RemoveHelper { .. }));
    let a = m.step(MigrationEvent::HelperRemoved);
    assert!(matches!(a, MigrationAction::Fail(MigrationError::HelperFailed(_))));
    assert_eq!(m.helper_removals, 1);
}

#[test]
fn unreachable_source_creates_nothing() {
    let (mut m, _) = started();
    let a = m.step(MigrationEvent::VersionProbed(Err("refused".to_string())));
    assert!(matches!(a, MigrationAction::Fail(MigrationError::SourceUnreachable(_))));
    assert_eq!(m.helper_removals, 0);
    assert!(!m.helper_started);
}

#[test]
fn readiness_poll_times_out() {
    let (mut m, _) = started();
    to_polling(&mut m);
    let mut last = None;
    for _ in 0..MAX_READY_PROBES {
        last = Some(m.step(MigrationEvent::ProbeFinished(false)));
        if m.phase == MigrationPhase::Failed {
            break;
        }
    }
    assert!(matches!(last, Some(MigrationAction::Fail(MigrationError::NotReady))));
    assert_eq!(m.failed_probes, MAX_READY_PROBES - 1);
}

#[test]
fn readiness_poll_success_proceeds_once() {
    let (mut m, _) = started();
    to_polling(&mut m);
    for _ in 0..3 {
        let a = m.step(MigrationEvent::ProbeFinished(false));
        assert!(matches!(a, MigrationAction::ProbeReady { delay_secs: 2, .. }));
    }
    let a = m.step(MigrationEvent::ProbeFinished(true));
    match a {
        MigrationAction::Upload { container, path, archive } => {
            assert_eq!(container, "dest-id");
            assert_eq!(path, "/tmp");
            assert!(archive.len() > 2);
            assert_eq!(&archive[0..2], &[0x1f, 0x8b]);
        }
        other => panic!("unexpected {:?}", other),
    }
    assert_eq!(m.phase, MigrationPhase::Uploading);
    let a = m.step(MigrationEvent::Uploaded(Ok(())));
    assert!(matches!(a, MigrationAction::Restore { .. }));
    let a = m.step(MigrationEvent::Restored(Ok("WARNING: skipping".to_string())));
    assert!(matches!(a, MigrationAction::Verify { .. }));
    let a = m.step(MigrationEvent::Verified { output: Some(" 3".to_string()), at: "2024-01-01T00:00:00Z".to_string() });
    match a {
        MigrationAction::Complete { record, message } => {
            assert_eq!(record.original_name, "shop");
            assert_eq!(record.container_id, "dest-id");
            assert_eq!(record.container_name, "migrated-shop");
            assert_eq!(record.size, "Unknown");
            assert_eq!(message, "Database 'shop' migrated successfully to container 'migrated-shop' on port 5546");
        }
        other => panic!("unexpected {:?}", other),
    }
}

#[test]
fn fatal_restore_fails() {
    let (mut m, _) = started();
    to_polling(&mut m);
    m.step(MigrationEvent::ProbeFinished(true));
    m.step(MigrationEvent::Uploaded(Ok(())));
    let a = m.step(MigrationEvent::Restored(Ok("psql: FATAL: role does not exist".to_string())));
    assert!(matches!(a, MigrationAction::Fail(MigrationError::RestoreFailed(_))));
    assert!(restore_has_failed("could not connect to server"));
    assert!(!restore_has_failed("NOTICE: relation exists"));
}

#[test]
fn version_banners() {
    assert_eq!(parse_major_version("PostgreSQL 16.1 on aarch64"), "16");
    assert_eq!(parse_major_version("  PostgreSQL   14  "), "14");
    assert_eq!(parse_major_version("PostgreSQL"), "16");
    assert_eq!(parse_major_version(""), "16");
}

#[test]
fn free_port_search() {
    assert_eq!(find_free_port(&vec![5544, 5545, 9000], 5544), Some(5546));
    assert_eq!(find_free_port(&vec![], 5544), Some(5544));
    assert_eq!(find_free_port(&vec![65535], 65535), None);
}

#[test]
fn connection_and_host_text() {
    let mut s = source();
    s.password = String::new();
    assert_eq!(connection_string(&s, None), "host=localhost port=5432 user=postgres");
    assert_eq!(runtime_source_host("127.0.0.1"), "host.docker.internal");
    assert_eq!(runtime_source_host("db.internal"), "db.internal");
    assert_eq!(drop_database_query("shop"), "DROP DATABASE IF EXISTS \"shop\"");
}

#[test]
fn migration_records() {
    let mut store = MigrationStore::new();
    let (mut m, _) = started();
    to_polling(&mut m);
    m.step(MigrationEvent::ProbeFinished(true));
    m.step(MigrationEvent::Uploaded(Ok(())));
    m.step(MigrationEvent::Restored(Ok(String::new())));
    if let MigrationAction::Complete { record, .. } = m.step(MigrationEvent::Verified { output: None, at: "now".to_string() }) {
        store.add(record.clone_record());
        store.add(record);
    }
    assert_eq!(store.list().len(), 2);
    store.remove_container("other");
    assert_eq!(store.list().len(), 2);
    store.remove_container("dest-id");
    assert!(store.list().is_empty());
}
