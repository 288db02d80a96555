use db_manager::compose::{deploy_plan, ComposeConfig, ComposeService};
use db_manager::compose_gen::{generate_compose_config, GenerateError, InspectedContainer};
use db_manager::container::ContainerSummary;
use db_manager::deploy::{DeployAction, DeployEvent, Deployment};
use db_manager::limits::parse_memory_string;
use db_manager::migration::{Migration, MigrationAction, MigrationEvent};
use db_manager::migration_plan::{parse_major_version, LocalPostgresConfig};
use db_manager::teardown::{Teardown, TeardownAction, TeardownEvent};
use db_manager::text::trim;

fn service(image: &str) -> ComposeService {
    ComposeService {
        image: image.to_string(),
        container_name: None,
        ports: None,
        environment: None,
        volumes: None,
        networks: None,
        restart: None,
        depends_on: None,
    }
}

fn publishing(ports: Vec<u16>) -> ContainerSummary {
    ContainerSummary {
        id: "c".to_string(),
        names: vec!["/c".to_string()],
        published_ports: ports,
        state: None,
        image: None,
        created: 0,
        labels: vec![],
        mounts: vec![],
    }
}

fn destination_port(containers: Vec<ContainerSummary>) -> String {
    let source = LocalPostgresConfig {
        host: "db.example".to_string(),
        port: 5432,
        user: "postgres".to_string(),
        password: "pw".to_string(),
    };
    let (mut m, _) = Migration::new(source, "shop".to_string(), 1);
    m.step(MigrationEvent::VersionProbed(Ok("PostgreSQL 16.2".to_string())));
    m.step(MigrationEvent::HelperStarted(Ok(())));
    m.step(MigrationEvent::DumpFinished(Ok((b"x".to_vec(), String::new()))));
    m.step(MigrationEvent::HelperRemoved);
    match m.step(MigrationEvent::PortsListed(Ok(containers))) {
        MigrationAction::StartDestination { spec } => spec.port_bindings[0].host_port.clone(),
        other => panic!("unexpected {:?}", other),
    }
}

#[test]
fn migration_port_avoids_every_published_port() {
    assert_eq!(destination_port(vec![publishing(vec![1, 5544])]), "5545");
    assert_eq!(destination_port(vec![publishing(vec![80, 5545]), publishing(vec![5544])]), "5546");
    assert_eq!(destination_port(vec![publishing(vec![])]), "5544");
}

#[test]
fn manifest_names_must_be_unique() {
    let good = ComposeConfig {
        version: None,
        services: vec![("a".to_string(), service("x")), ("b".to_string(), service("y"))],
        volumes: Some(vec!["v".to_string()]),
        networks: None,
    };
    assert!(good.is_well_formed());
    let mut twice = good.clone();
    twice.services.push(("a".to_string(), service("z")));
    assert!(!twice.is_well_formed());
    let mut vols = good.clone();
    vols.volumes = Some(vec!["v".to_string(), "v".to_string()]);
    assert!(!vols.is_well_formed());
}

#[test]
fn generation_refuses_repeated_names() {
    let c = InspectedContainer {
        name: Some("/a".to_string()),
        image: Some("x".to_string()),
        port_bindings: None,
        env: None,
        mounts: None,
    };
    assert_eq!(generate_compose_config(&vec![c.clone(), c]).err(), Some(GenerateError::DuplicateName));
}

#[test]
fn deployment_tolerates_volume_errors_and_stops_at_service_failure() {
    let config = ComposeConfig {
        version: None,
        services: vec![("a".to_string(), service("x")), ("b".to_string(), service("y"))],
        volumes: Some(vec!["v".to_string()]),
        networks: Some(vec!["n".to_string()]),
    };
    let (mut d, a) = Deployment::new(deploy_plan(&config, "p"));
    assert_eq!(a, DeployAction::CreateVolume(0));
    assert_eq!(d.step(DeployEvent::StepDone(Err("exists".to_string()))), DeployAction::CreateNetwork(0));
    assert_eq!(d.step(DeployEvent::StepDone(Err("exists".to_string()))), DeployAction::PullImage(0));
    assert_eq!(d.step(DeployEvent::StepDone(Err("offline".to_string()))), DeployAction::StartService(0));
    assert_eq!(d.step(DeployEvent::ServiceStarted(Ok("id-a".to_string()))), DeployAction::PullImage(1));
    assert_eq!(d.step(DeployEvent::StepDone(Ok(()))), DeployAction::StartService(1));
    assert_eq!(d.step(DeployEvent::ServiceStarted(Err("name in use".to_string()))), DeployAction::Failed(1));
    assert_eq!(d.created, vec!["id-a".to_string()]);
    assert_eq!(d.error, Some("name in use".to_string()));
}

#[test]
fn deployment_finishes_with_all_ids() {
    let config = ComposeConfig { version: None, services: vec![("a".to_string(), service("x"))], volumes: None, networks: None };
    let (mut d, a) = Deployment::new(deploy_plan(&config, "p"));
    assert_eq!(a, DeployAction::PullImage(0));
    assert_eq!(d.step(DeployEvent::StepDone(Ok(()))), DeployAction::StartService(0));
    assert_eq!(d.step(DeployEvent::ServiceStarted(Ok("id".to_string()))), DeployAction::Finished);
    assert_eq!(d.created, vec!["id".to_string()]);
    let empty = ComposeConfig { version: None, services: vec![], volumes: None, networks: None };
    let (_, a) = Deployment::new(deploy_plan(&empty, "p"));
    assert_eq!(a, DeployAction::Finished);
}

#[test]
fn teardown_removes_project_resources() {
    let (mut t, a) = Teardown::new("shop".to_string(), vec!["c1".to_string()], true);
    assert!(matches!(a, TeardownAction::Stop(ref id) if id == "c1"));
    assert!(matches!(t.step(TeardownEvent::Done), TeardownAction::Remove(ref id) if id == "c1"));
    assert!(matches!(t.step(TeardownEvent::Removed(Ok(()))), TeardownAction::ListVolumes));
    let names = vec!["shop_data".to_string(), "other_data".to_string()];
    match t.step(TeardownEvent::Listed(Ok(names))) {
        TeardownAction::RemoveVolumes(v) => assert_eq!(v, vec!["shop_data".to_string()]),
        other => panic!("unexpected {:?}", other),
    }
    assert!(matches!(t.step(TeardownEvent::Done), TeardownAction::ListNetworks));
    match t.step(TeardownEvent::Listed(Ok(vec!["shop_default".to_string()]))) {
        TeardownAction::RemoveNetworks(v) => assert_eq!(v, vec!["shop_default".to_string()]),
        other => panic!("unexpected {:?}", other),
    }
    assert!(matches!(t.step(TeardownEvent::Done), TeardownAction::Finished));
}

#[test]
fn teardown_stops_at_failed_removal() {
    let (mut t, _) = Teardown::new("shop".to_string(), vec!["c1".to_string(), "c2".to_string()], false);
    t.step(TeardownEvent::Done);
    assert!(matches!(t.step(TeardownEvent::Removed(Err("busy".to_string()))), TeardownAction::Fail(ref e) if e == "busy"));
    let (mut t, _) = Teardown::new("shop".to_string(), vec!["c1".to_string()], false);
    t.step(TeardownEvent::Done);
    assert!(matches!(t.step(TeardownEvent::Removed(Ok(()))), TeardownAction::Finished));
    let (_, a) = Teardown::new("shop".to_string(), vec![], false);
    assert!(matches!(a, TeardownAction::Finished));
}

#[test]
fn unicode_white_space_is_trimmed() {
    assert_eq!(trim("\u{A0}\u{3000}abc\u{2003}\u{B}"), "abc");
    assert_eq!(parse_memory_string("\u{A0}256m\u{2028}"), Ok(268435456));
    assert_eq!(parse_major_version("PostgreSQL\u{A0}15.3\u{2009}on"), "15");
}
