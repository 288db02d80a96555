use db_manager::compose::{
    deploy_plan, group_projects, project_container_ids, project_resources, scope_bind,
    split_port_mapping, ComposeConfig, ComposeService,
};
use db_manager::compose_gen::{generate_compose_config, GenerateError, InspectedContainer, MountInfo};
use db_manager::container::ContainerSummary;
use db_manager::inventory::{container_info, find_label, image_info, is_database_image, volume_info};
use db_manager::monitor::{format_hundredths, split_block_io, sum_counters, summarize, usage_alerts, RawStats};

fn service(image: &str) -> ComposeService {
    ComposeService {
        image: image.to_string(),
        container_name: None,
        ports: None,
        environment: None,
        volumes: None,
        networks: None,
        restart: None,
        depends_on: None,
    }
}

fn labelled(id: &str, project: &str, svc: &str) -> ContainerSummary {
    ContainerSummary {
        id: id.to_string(),
        names: vec![format!("/{}", id)],
        published_ports: vec![],
        state: Some("running".to_string()),
        image: Some("nginx".to_string()),
        created: 0,
        labels: vec![
            ("com.docker.compose.project".to_string(), project.to_string()),
            ("com.docker.compose.service".to_string(), svc.to_string()),
        ],
        mounts: vec![],
    }
}

#[test]
fn declared_volume_gets_project_name() {
    let mut db = service("postgres:16");
    db.volumes = Some(vec!["pgdata:/var/lib/postgresql/data".to_string(), "./init:/docker-entrypoint-initdb.d".to_string()]);
    db.ports = Some(vec!["5433:5432".to_string(), "bad".to_string()]);
    db.environment = Some(vec![("POSTGRES_PASSWORD".to_string(), "pw".to_string())]);
    db.restart = Some("always".to_string());
    let config = ComposeConfig {
        version: Some("3.8".to_string()),
        services: vec![("db".to_string(), db)],
        volumes: Some(vec!["pgdata".to_string()]),
        networks: Some(vec!["backend".to_string()]),
    };
    let plan = deploy_plan(&config, "shop");
    assert_eq!(plan.volumes, vec!["shop_pgdata".to_string()]);
    assert_eq!(plan.networks, vec!["shop_backend".to_string()]);
    assert_eq!(plan.services.len(), 1);
    let s = &plan.services[0];
    assert_eq!(s.name, "shop_db");
    assert_eq!(s.binds, vec!["shop_pgdata:/var/lib/postgresql/data".to_string(), "./init:/docker-entrypoint-initdb.d".to_string()]);
    assert_eq!(s.exposed_ports, vec!["5432/tcp".to_string()]);
    assert_eq!(s.port_bindings[0].host_port, "5433");
    assert_eq!(s.env, vec!["POSTGRES_PASSWORD=pw".to_string()]);
    assert_eq!(s.restart_policy, Some("always".to_string()));
    assert_eq!(s.labels[0], ("com.docker.compose.project".to_string(), "shop".to_string()));
    assert_eq!(s.labels[1], ("com.docker.compose.service".to_string(), "db".to_string()));
}

#[test]
fn fixed_container_name_is_kept() {
    let mut web = service("nginx");
    web.container_name = Some("frontend".to_string());
    let config = ComposeConfig { version: None, services: vec![("web".to_string(), web)], volumes: None, networks: None };
    let plan = deploy_plan(&config, "site");
    assert_eq!(plan.services[0].name, "frontend");
    assert!(plan.volumes.is_empty());
    assert!(plan.services[0].binds.is_empty());
}

#[test]
fn binds_and_port_mappings() {
    let vols = vec!["data".to_string(), "logs".to_string()];
    assert_eq!(scope_bind("logs:/var/log", &vols, "p"), "p_logs:/var/log");
    assert_eq!(scope_bind("database:/x", &vols, "p"), "database:/x");
    assert_eq!(scope_bind("/host/data:/data", &vols, "p"), "/host/data:/data");
    assert_eq!(split_port_mapping("8080:80"), Some(("8080".to_string(), "80".to_string())));
    assert_eq!(split_port_mapping("127.0.0.1:80:80"), Some(("127.0.0.1".to_string(), "80:80".to_string())));
    assert_eq!(split_port_mapping("80"), None);
}

#[test]
fn generated_manifest_matches_containers() {
    let inspected = vec![
        InspectedContainer {
            name: Some("/postgresql-shop".to_string()),
            image: Some("postgres:16".to_string()),
            port_bindings: Some(vec![("5432/tcp".to_string(), Some("5433".to_string())), ("9/tcp".to_string(), None)]),
            env: Some(vec!["POSTGRES_DB=shop".to_string(), "A=b=c".to_string(), "NOVALUE".to_string()]),
            mounts: Some(vec![
                MountInfo { source: Some("/var/lib/docker/volumes/pg/_data".to_string()), destination: Some("/var/lib/postgresql/data".to_string()), is_volume: true, name: Some("pg".to_string()) },
                MountInfo { source: Some("/srv".to_string()), destination: Some("/srv".to_string()), is_volume: false, name: None },
            ]),
        },
        InspectedContainer {
            name: Some("/cache".to_string()),
            image: Some("redis:7.2".to_string()),
            port_bindings: None,
            env: None,
            mounts: Some(vec![MountInfo { source: Some("x".to_string()), destination: Some("/data".to_string()), is_volume: true, name: Some("pg".to_string()) }]),
        },
    ];
    let m = generate_compose_config(&inspected).unwrap();
    assert_eq!(m.version, Some("3.8".to_string()));
    assert_eq!(m.services.len(), 2);
    assert_eq!(m.services[0].0, "postgresql-shop");
    assert_eq!(m.services[0].1.image, "postgres:16");
    assert_eq!(m.services[0].1.container_name, Some("postgresql-shop".to_string()));
    assert_eq!(m.services[0].1.ports, Some(vec!["5433:5432/tcp".to_string()]));
    assert_eq!(
        m.services[0].1.environment,
        Some(vec![("POSTGRES_DB".to_string(), "shop".to_string()), ("A".to_string(), "b=c".to_string())])
    );
    assert_eq!(
        m.services[0].1.volumes,
        Some(vec!["/var/lib/docker/volumes/pg/_data:/var/lib/postgresql/data".to_string(), "/srv:/srv".to_string()])
    );
    assert_eq!(m.services[0].1.restart, Some("unless-stopped".to_string()));
    assert_eq!(m.services[1].0, "cache");
    assert_eq!(m.services[1].1.ports, None);
    assert_eq!(m.volumes, Some(vec!["pg".to_string()]));
}

#[test]
fn generation_needs_name_and_image() {
    let c = InspectedContainer { name: None, image: Some("x".to_string()), port_bindings: None, env: None, mounts: None };
    assert_eq!(generate_compose_config(&vec![c]).err(), Some(GenerateError::MissingName));
    let c = InspectedContainer { name: Some("/a".to_string()), image: None, port_bindings: None, env: None, mounts: None };
    assert_eq!(generate_compose_config(&vec![c]).err(), Some(GenerateError::MissingImage));
    let m = generate_compose_config(&vec![]).unwrap();
    assert!(m.services.is_empty());
    assert_eq!(m.volumes, None);
}

#[test]
fn project_membership() {
    let cs = vec![labelled("a", "shop", "db"), labelled("b", "blog", "web"), labelled("c", "shop", "web")];
    assert_eq!(project_container_ids(&cs, "shop"), vec!["a".to_string(), "c".to_string()]);
    assert!(project_container_ids(&cs, "sho").is_empty());
    let names = vec!["shop_data".to_string(), "shopping".to_string(), "blog_data".to_string(), "shop_net".to_string()];
    assert_eq!(project_resources(&names, "shop"), vec!["shop_data".to_string(), "shop_net".to_string()]);
}

#[test]
fn projects_are_grouped() {
    let mut lone = labelled("d", "x", "y");
    lone.labels.pop();
    let cs = vec![labelled("a", "shop", "db"), labelled("b", "blog", "web"), labelled("c", "shop", "web"), lone];
    let ps = group_projects(&cs, "2024-01-01T00:00:00Z");
    assert_eq!(ps.len(), 2);
    assert_eq!(ps[0].name, "shop");
    assert_eq!(ps[0].services.len(), 2);
    assert_eq!(ps[0].services[1].name, "web");
    assert_eq!(ps[0].services[1].container_id, "c");
    assert_eq!(ps[0].services[1].container_name, "c");
    assert_eq!(ps[1].name, "blog");
    assert_eq!(ps[1].created_at, "2024-01-01T00:00:00Z");
}

#[test]
fn container_rows() {
    let mut c = labelled("abc", "p", "s");
    c.names = vec!["/postgresql-shop".to_string()];
    c.published_ports = vec![5433, 8080];
    c.created = 0;
    c.labels = vec![("db_type".to_string(), "mysql".to_string())];
    let row = container_info(&c);
    assert_eq!(row.id, "abc");
    assert_eq!(row.name, "postgresql-shop");
    assert_eq!(row.port, "5433");
    assert_eq!(row.status, "running");
    assert_eq!(row.created, "1970-01-01 00:00");
    assert_eq!(row.database_name, "");
    assert_eq!(row.db_type, "mysql");
    assert_eq!(row.db_icon, "\u{1F418}");
    c.state = None;
    c.created = 1431648000;
    assert_eq!(container_info(&c).status, "unknown");
    assert_eq!(container_info(&c).created, "2015-05-15 00:00");
    assert_eq!(find_label(&c.labels, "db_type"), Some("mysql".to_string()));
}

#[test]
fn image_rows() {
    assert!(is_database_image(&vec!["library/mariadb:11".to_string()]));
    assert!(!is_database_image(&vec!["nginx:latest".to_string()]));
    assert!(image_info(&"sha".to_string(), &vec!["nginx".to_string()], 10, 0).is_none());
    let row = image_info(&"sha".to_string(), &vec!["postgres:16".to_string()], 440401920, 1431648000).unwrap();
    assert_eq!(row.size, "420 MB");
    assert_eq!(row.created, "2015-05-15");
    assert_eq!(row.tags, vec!["postgres:16".to_string()]);
}

#[test]
fn volume_rows() {
    let mut a = labelled("a", "p", "s");
    a.mounts = vec!["pgdata".to_string(), "other".to_string()];
    let b = labelled("b", "p", "s");
    let row = volume_info(&"pgdata".to_string(), &"local".to_string(), &"/m".to_string(), &None, Some(2048), &vec![a, b]);
    assert_eq!(row.containers, vec!["a".to_string()]);
    assert!(row.in_use);
    assert_eq!(row.size, "2.00 KB");
    assert_eq!(row.created, "");
    let row = volume_info(&"free".to_string(), &"local".to_string(), &"/m".to_string(), &Some("t".to_string()), None, &vec![]);
    assert!(!row.in_use);
    assert_eq!(row.size, "Unknown");
}

#[test]
fn usage_from_counters() {
    let s = RawStats {
        cpu_total: 300,
        pre_cpu_total: 100,
        system_total: 2000,
        pre_system_total: 1000,
        online_cpus: 4,
        memory_usage: 256,
        memory_limit: 1024,
        rx_bytes: vec![10, 20],
        tx_bytes: vec![5],
        block_read: vec![],
        block_write: vec![u64::MAX, 1],
    };
    let u = summarize(&s);
    assert_eq!(u.cpu_hundredths, 8000);
    assert_eq!(u.memory_hundredths, 2500);
    assert_eq!(u.network_rx_bytes, 30);
    assert_eq!(u.network_tx_bytes, 5);
    assert_eq!(u.block_read_bytes, 0);
    assert_eq!(u.block_write_bytes, u64::MAX);
    let idle = RawStats { system_total: 1000, memory_limit: 0, ..s.clone() };
    let u = summarize(&idle);
    assert_eq!(u.cpu_hundredths, 0);
    assert_eq!(u.memory_hundredths, 0);
    assert_eq!(sum_counters(&vec![1, 2, 3]), 6);
    let third = RawStats { memory_usage: 1, memory_limit: 3, ..s };
    assert_eq!(summarize(&third).memory_hundredths, 3333);
}

#[test]
fn block_io_and_alerts() {
    let entries = vec![("Read".to_string(), 7), ("write".to_string(), 3), ("sync".to_string(), 9), ("read".to_string(), 1)];
    let (r, w) = split_block_io(&entries);
    assert_eq!(r, vec![7, 1]);
    assert_eq!(w, vec![3]);
    assert_eq!(format_hundredths(8005), "80.05");
    let u = summarize(&RawStats {
        cpu_total: 300,
        pre_cpu_total: 100,
        system_total: 2000,
        pre_system_total: 1000,
        online_cpus: 4,
        memory_usage: 256,
        memory_limit: 1024,
        rx_bytes: vec![],
        tx_bytes: vec![],
        block_read: vec![],
        block_write: vec![],
    });
    let alerts = usage_alerts("web", &u, 5000, 9000);
    assert_eq!(alerts, vec!["\u{26A0}\u{FE0F} web - High CPU usage: 80.00%".to_string()]);
    assert_eq!(usage_alerts("web", &u, 9000, 1000), vec!["\u{26A0}\u{FE0F} web - High Memory usage: 25.00%".to_string()]);
    assert_eq!(usage_alerts("web", &u, 1000, 1000).len(), 2);
}
