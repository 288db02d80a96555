use db_manager::catalog::DatabaseType;
use db_manager::container::ContainerSummary;
use db_manager::limits::ConfigError;
use db_manager::provision::{
    build_container_spec, needs_pull, plan_database, pull_result, DatabaseConfig, ImageError,
    ProvisionError, PullOutcome,
};

fn existing(name: &str, ports: Vec<u16>) -> ContainerSummary {
    ContainerSummary {
        id: format!("id-{}", name),
        names: vec![format!("/{}", name)],
        published_ports: ports,
        state: Some("exited".to_string()),
        image: Some("postgres:16".to_string()),
        created: 0,
        labels: vec![],
        mounts: vec![],
    }
}

fn config(db_type: DatabaseType, name: &str, port: u16) -> DatabaseConfig {
    DatabaseConfig {
        name: name.to_string(),
        username: "admin".to_string(),
        password: "secret".to_string(),
        port,
        version: "16".to_string(),
        db_type,
        memory: None,
        cpus: None,
        env: None,
        restart_policy: None,
    }
}

#[test]
fn port_conflict_is_refused() {
    let containers = vec![existing("other", vec![8080, 5433])];
    let r = plan_database(&containers, &vec![], &config(DatabaseType::PostgreSQL, "shop", 5433));
    assert_eq!(r.err(), Some(ProvisionError::PortInUse(5433)));
}

#[test]
fn port_conflict_checked_before_name() {
    let containers = vec![existing("postgresql-shop", vec![5433])];
    let r = plan_database(&containers, &vec![], &config(DatabaseType::PostgreSQL, "shop", 5433));
    assert_eq!(r.err(), Some(ProvisionError::PortInUse(5433)));
}

#[test]
fn name_conflict_is_refused() {
    let containers = vec![existing("postgresql-shop", vec![])];
    let r = plan_database(&containers, &vec![], &config(DatabaseType::PostgreSQL, "shop", 5433));
    assert_eq!(r.err(), Some(ProvisionError::NameTaken("postgresql-shop".to_string())));
    let r = plan_database(&containers, &vec![], &config(DatabaseType::MySQL, "shop", 5433));
    assert!(r.is_ok());
}

#[test]
fn invalid_memory_is_refused() {
    let mut c = config(DatabaseType::PostgreSQL, "shop", 5433);
    c.memory = Some("huge".to_string());
    let r = plan_database(&vec![], &vec![], &c);
    assert_eq!(r.err(), Some(ProvisionError::InvalidMemory("huge".to_string())));
    assert_eq!(build_container_spec(&c).err(), Some(ConfigError::InvalidMemory("huge".to_string())));
}

#[test]
fn postgres_spec() {
    let mut c = config(DatabaseType::PostgreSQL, "shop", 5433);
    c.memory = Some("256m".to_string());
    c.cpus = Some("0.5".to_string());
    c.env = Some(vec![("TZ".to_string(), "UTC".to_string())]);
    c.restart_policy = Some("always".to_string());
    let plan = plan_database(&vec![], &vec![vec!["postgres:15".to_string()]], &c).unwrap();
    assert!(plan.pull_image);
    let s = plan.spec;
    assert_eq!(s.name, "postgresql-shop");
    assert_eq!(s.image, "postgres:16");
    assert_eq!(
        s.env,
        vec!["POSTGRES_USER=admin", "POSTGRES_PASSWORD=secret", "POSTGRES_DB=shop", "TZ=UTC"]
    );
    assert_eq!(s.exposed_ports, vec!["5432/tcp"]);
    assert_eq!(s.port_bindings.len(), 1);
    assert_eq!(s.port_bindings[0].container_port, "5432/tcp");
    assert_eq!(s.port_bindings[0].host_ip, "0.0.0.0");
    assert_eq!(s.port_bindings[0].host_port, "5433");
    assert_eq!(s.memory, Some(268435456));
    assert_eq!(s.nano_cpus, Some(500000000));
    assert_eq!(s.restart_policy, Some("always".to_string()));
    assert_eq!(s.cmd, None);
    let labels: Vec<(&str, &str)> = s.labels.iter().map(|(k, v)| (k.as_str(), v.as_str())).collect();
    assert_eq!(
        labels,
        vec![("app", "db-manager"), ("database_name", "shop"), ("db_type", "postgresql"), ("db_icon", "\u{1F418}")]
    );
}

#[test]
fn unreadable_cpus_are_left_out() {
    let mut c = config(DatabaseType::PostgreSQL, "shop", 5433);
    c.cpus = Some("many".to_string());
    let s = build_container_spec(&c).unwrap();
    assert_eq!(s.nano_cpus, None);
}

#[test]
fn mysql_and_mariadb_env() {
    let s = build_container_spec(&config(DatabaseType::MySQL, "app", 3307)).unwrap();
    assert_eq!(
        s.env,
        vec!["MYSQL_ROOT_PASSWORD=secret", "MYSQL_DATABASE=app", "MYSQL_USER=admin", "MYSQL_PASSWORD=secret"]
    );
    assert_eq!(s.exposed_ports, vec!["3306/tcp"]);
    let s = build_container_spec(&config(DatabaseType::MariaDB, "app", 3307)).unwrap();
    assert_eq!(s.env[0], "MARIADB_ROOT_PASSWORD=secret");
    assert_eq!(s.image, "mariadb:16");
}

#[test]
fn mongo_without_credentials_has_no_auth() {
    let mut c = config(DatabaseType::MongoDB, "docs", 27018);
    c.password = String::new();
    let s = build_container_spec(&c).unwrap();
    assert!(s.env.is_empty());
    assert_eq!(s.exposed_ports, vec!["27017/tcp"]);
    let s = build_container_spec(&config(DatabaseType::MongoDB, "docs", 27018)).unwrap();
    assert_eq!(
        s.env,
        vec!["MONGO_INITDB_ROOT_USERNAME=admin", "MONGO_INITDB_ROOT_PASSWORD=secret", "MONGO_INITDB_DATABASE=docs"]
    );
}

#[test]
fn redis_password_goes_to_command() {
    let s = build_container_spec(&config(DatabaseType::Redis, "cache", 6380)).unwrap();
    assert!(s.env.is_empty());
    assert_eq!(s.cmd, Some(vec!["redis-server".to_string(), "--requirepass".to_string(), "secret".to_string()]));
    let mut c = config(DatabaseType::Redis, "cache", 6380);
    c.password = String::new();
    assert_eq!(build_container_spec(&c).unwrap().cmd, None);
}

#[test]
fn present_image_is_not_pulled_again() {
    let images = vec![vec!["redis:7.2".to_string()], vec!["postgres:16".to_string(), "postgres:latest".to_string()]];
    let plan = plan_database(&vec![], &images, &config(DatabaseType::PostgreSQL, "shop", 5433)).unwrap();
    assert!(!plan.pull_image);
    assert!(!needs_pull(&images, "postgres:16"));
    assert!(!needs_pull(&images, "postgres:16"));
    assert!(needs_pull(&images, "postgres:15"));
}

#[test]
fn pull_outcomes_are_distinct() {
    assert_eq!(pull_result(PullOutcome::Completed), Ok(()));
    assert_eq!(pull_result(PullOutcome::Failed("denied".to_string())), Err(ImageError::PullFailed("denied".to_string())));
    assert_eq!(pull_result(PullOutcome::TimedOut), Err(ImageError::Timeout));
}
