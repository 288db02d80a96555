//! Provisioning a database container: conflict checks against the live
//! container set, the image decision, and the container specification.
use vstd::prelude::*;
use crate::catalog::{DatabaseType, type_id, icon, image_ref};
use crate::container::{
    ContainerSpec, ContainerSummary, PortBinding, strs, pairs, bindings_model, joined, joined3,
};
use crate::limits::{ConfigError, memory_bytes, cpu_nanos, parse_memory_string, parse_cpus};
use crate::text::{dec_text, decimal_text, strip_slashes, trim_slashes, same_text};

verus! {

/// What the operator asks for when creating a database.
#[derive(Debug, Clone)]
pub struct DatabaseConfig {
    pub name: String,
    pub username: String,
    pub password: String,
    pub port: u16,
    pub version: String,
    pub db_type: DatabaseType,
    /// Memory limit such as `256m`.
    pub memory: Option<String>,
    /// CPU limit such as `0.5`.
    pub cpus: Option<String>,
    /// Extra environment entries, in order.
    pub env: Option<Vec<(String, String)>>,
    pub restart_policy: Option<String>,
}

/// Some existing container publishes `port` on the host.
pub open spec fn port_taken(cs: Seq<ContainerSummary>, port: u16) -> bool {
    exists|i: int, j: int|
        0 <= i < cs.len() && 0 <= j < cs[i].published_ports@.len() && #[trigger] cs[i].published_ports@[j]
            == port
}

/// Some existing container is named `name` (ignoring the runtime's leading `/`).
pub open spec fn name_taken(cs: Seq<ContainerSummary>, name: Seq<char>) -> bool {
    exists|i: int, j: int|
        0 <= i < cs.len() && 0 <= j < cs[i].names@.len() && strip_slashes(
            #[trigger] cs[i].names@[j]@,
        ) == name
}

/// Some listed image carries the tag `image`.
pub open spec fn image_listed(images: Seq<Vec<String>>, image: Seq<char>) -> bool {
    exists|i: int, j: int|
        0 <= i < images.len() && 0 <= j < images[i]@.len() && #[trigger] images[i]@[j]@ == image
}

/// The container name of a database: its type id, `-`, its name.
pub open spec fn database_container_name(c: DatabaseConfig) -> Seq<char> {
    type_id(c.db_type) + "-"@ + c.name@
}

/// The container port that a kind listens on.
pub open spec fn exposed_port(t: DatabaseType) -> Seq<char> {
    match t {
        DatabaseType::PostgreSQL => "5432/tcp"@,
        DatabaseType::MySQL => "3306/tcp"@,
        DatabaseType::MariaDB => "3306/tcp"@,
        DatabaseType::MongoDB => "27017/tcp"@,
        DatabaseType::Redis => "6379/tcp"@,
    }
}

/// The environment that configures the database server itself.
pub open spec fn base_env(c: DatabaseConfig) -> Seq<Seq<char>> {
    let u = c.username@;
    let p = c.password@;
    let n = c.name@;
    match c.db_type {
        DatabaseType::PostgreSQL => seq![
            "POSTGRES_USER="@ + u,
            "POSTGRES_PASSWORD="@ + p,
            "POSTGRES_DB="@ + n,
        ],
        DatabaseType::MySQL => seq![
            "MYSQL_ROOT_PASSWORD="@ + p,
            "MYSQL_DATABASE="@ + n,
            "MYSQL_USER="@ + u,
            "MYSQL_PASSWORD="@ + p,
        ],
        DatabaseType::MariaDB => seq![
            "MARIADB_ROOT_PASSWORD="@ + p,
            "MARIADB_DATABASE="@ + n,
            "MARIADB_USER="@ + u,
            "MARIADB_PASSWORD="@ + p,
        ],
        DatabaseType::MongoDB => if u.len() > 0 && p.len() > 0 {
            seq![
                "MONGO_INITDB_ROOT_USERNAME="@ + u,
                "MONGO_INITDB_ROOT_PASSWORD="@ + p,
                "MONGO_INITDB_DATABASE="@ + n,
            ]
        } else {
            seq![]
        },
        DatabaseType::Redis => seq![],
    }
}

/// Environment entries `key=value`.
pub open spec fn env_entries(e: Seq<(Seq<char>, Seq<char>)>) -> Seq<Seq<char>> {
    e.map_values(|p: (Seq<char>, Seq<char>)| p.0 + "="@ + p.1)
}

/// The whole environment of a database container.
pub open spec fn database_env(c: DatabaseConfig) -> Seq<Seq<char>> {
    match c.env {
        Some(e) => base_env(c) + env_entries(pairs(e@)),
        None => base_env(c),
    }
}

/// The labels by which managed containers are recognised later.
pub open spec fn database_labels(c: DatabaseConfig) -> Seq<(Seq<char>, Seq<char>)> {
    seq![
        ("app"@, "db-manager"@),
        ("database_name"@, c.name@),
        ("db_type"@, type_id(c.db_type)),
        ("db_icon"@, icon(c.db_type)),
    ]
}

/// The start command: Redis with a password is told to require it.
pub open spec fn database_cmd(c: DatabaseConfig) -> Option<Seq<Seq<char>>> {
    if c.db_type == DatabaseType::Redis && c.password@.len() > 0 {
        Some(seq!["redis-server"@, "--requirepass"@, c.password@])
    } else {
        None
    }
}

/// `s` is the container specification for `c`, given that its memory limit is valid.
pub open spec fn database_spec(s: ContainerSpec, c: DatabaseConfig) -> bool {
    &&& s.name@ == database_container_name(c)
    &&& s.image@ == image_ref(c.db_type, c.version@)
    &&& strs(s.env@) == database_env(c)
    &&& (match (s.cmd, database_cmd(c)) {
        (Some(a), Some(b)) => strs(a@) == b,
        (None, None) => true,
        _ => false,
    })
    &&& strs(s.exposed_ports@) == seq![exposed_port(c.db_type)]
    &&& bindings_model(s.port_bindings@) == seq![
        (exposed_port(c.db_type), "0.0.0.0"@, dec_text(c.port as nat)),
    ]
    &&& s.binds@.len() == 0
    &&& (match c.memory {
        Some(m) => s.memory == Some(memory_bytes(m@).unwrap() as i64),
        None => s.memory.is_none(),
    })
    &&& (match c.cpus {
        Some(t) => match cpu_nanos(t@) {
            Some(v) => s.nano_cpus == Some(v as i64),
            None => s.nano_cpus.is_none(),
        },
        None => s.nano_cpus.is_none(),
    })
    &&& (match (s.restart_policy, c.restart_policy) {
        (Some(a), Some(b)) => a@ == b@,
        (None, None) => true,
        _ => false,
    })
    &&& s.network_mode.is_none()
    &&& pairs(s.labels@) == database_labels(c)
}

/// The memory limit of `c` is absent or readable.
pub open spec fn memory_ok(c: DatabaseConfig) -> bool {
    match c.memory {
        Some(m) => memory_bytes(m@).is_some(),
        None => true,
    }
}

/// Why a database cannot be provisioned; each is found before the runtime
/// is asked to change anything.
#[derive(Debug, Clone, PartialEq, Eq)]
pub enum ProvisionError {
    /// An existing container already publishes this host port.
    PortInUse(u16),
    /// An existing container already has this name.
    NameTaken(String),
    /// The memory limit could not be read; holds the trimmed text.
    InvalidMemory(String),
}

/// What to do to bring a database up.
#[derive(Debug, Clone)]
pub struct ProvisionPlan {
    /// The image is not present locally and must be pulled first.
    pub pull_image: bool,
    pub spec: ContainerSpec,
}

/// Tells whether some container publishes `port`.
pub fn port_in_use(containers: &Vec<ContainerSummary>, port: u16) -> (r: bool)
    ensures
        r == port_taken(containers@, port),
{
    let mut i: usize = 0;
    while i < containers.len()
        invariant
            i <= containers@.len(),
            forall|a: int, b: int|
                0 <= a < i && 0 <= b < containers@[a].published_ports@.len()
                    ==> #[trigger] containers@[a].published_ports@[b] != port,
        decreases containers@.len() - i,
    {
        let ports = &containers[i].published_ports;
        let mut j: usize = 0;
        while j < ports.len()
            invariant
                i < containers@.len(),
                ports@ == containers@[i as int].published_ports@,
                j <= ports@.len(),
                forall|a: int, b: int|
                    0 <= a < i && 0 <= b < containers@[a].published_ports@.len()
                        ==> #[trigger] containers@[a].published_ports@[b] != port,
                forall|b: int| 0 <= b < j ==> #[trigger] ports@[b] != port,
            decreases ports@.len() - j,
        {
            if ports[j] == port {
                return true;
            }
            j = j + 1;
        }
        i = i + 1;
    }
    false
}

/// Tells whether some container is named `name`.
pub fn name_in_use(containers: &Vec<ContainerSummary>, name: &str) -> (r: bool)
    ensures
        r == name_taken(containers@, name@),
{
    let mut i: usize = 0;
    while i < containers.len()
        invariant
            i <= containers@.len(),
            forall|a: int, b: int|
                0 <= a < i && 0 <= b < containers@[a].names@.len() ==> strip_slashes(
                    #[trigger] containers@[a].names@[b]@,
                ) != name@,
        decreases containers@.len() - i,
    {
        let names = &containers[i].names;
        let mut j: usize = 0;
        while j < names.len()
            invariant
                i < containers@.len(),
                names@ == containers@[i as int].names@,
                j <= names@.len(),
                forall|a: int, b: int|
                    0 <= a < i && 0 <= b < containers@[a].names@.len() ==> strip_slashes(
                        #[trigger] containers@[a].names@[b]@,
                    ) != name@,
                forall|b: int| 0 <= b < j ==> strip_slashes(#[trigger] names@[b]@) != name@,
            decreases names@.len() - j,
        {
            let bare = trim_slashes(names[j].as_str());
            if same_text(bare.as_str(), name) {
                return true;
            }
            j = j + 1;
        }
        i = i + 1;
    }
    false
}

/// Tells whether some local image carries the tag `image`.
pub fn image_in_list(images: &Vec<Vec<String>>, image: &str) -> (r: bool)
    ensures
        r == image_listed(images@, image@),
{
    let mut i: usize = 0;
    while i < images.len()
        invariant
            i <= images@.len(),
            forall|a: int, b: int|
                0 <= a < i && 0 <= b < images@[a]@.len() ==> #[trigger] images@[a]@[b]@ != image@,
        decreases images@.len() - i,
    {
        let tags = &images[i];
        let mut j: usize = 0;
        while j < tags.len()
            invariant
                i < images@.len(),
                tags@ == images@[i as int]@,
                j <= tags@.len(),
                forall|a: int, b: int|
                    0 <= a < i && 0 <= b < images@[a]@.len() ==> #[trigger] images@[a]@[b]@
                        != image@,
                forall|b: int| 0 <= b < j ==> #[trigger] tags@[b]@ != image@,
            decreases tags@.len() - j,
        {
            if same_text(tags[j].as_str(), image) {
                return true;
            }
            j = j + 1;
        }
        i = i + 1;
    }
    false
}

fn base_env_of(c: &DatabaseConfig) -> (r: Vec<String>)
    ensures
        strs(r@) == base_env(*c),
{
    let u = c.username.as_str();
    let p = c.password.as_str();
    let n = c.name.as_str();
    let mut r: Vec<String> = Vec::new();
    match c.db_type {
        DatabaseType::PostgreSQL => {
            r.push(joined("POSTGRES_USER=", u));
            r.push(joined("POSTGRES_PASSWORD=", p));
            r.push(joined("POSTGRES_DB=", n));
        },
        DatabaseType::MySQL => {
            r.push(joined("MYSQL_ROOT_PASSWORD=", p));
            r.push(joined("MYSQL_DATABASE=", n));
            r.push(joined("MYSQL_USER=", u));
            r.push(joined("MYSQL_PASSWORD=", p));
        },
        DatabaseType::MariaDB => {
            r.push(joined("MARIADB_ROOT_PASSWORD=", p));
            r.push(joined("MARIADB_DATABASE=", n));
            r.push(joined("MARIADB_USER=", u));
            r.push(joined("MARIADB_PASSWORD=", p));
        },
        DatabaseType::MongoDB => {
            if u.unicode_len() > 0 && p.unicode_len() > 0 {
                r.push(joined("MONGO_INITDB_ROOT_USERNAME=", u));
                r.push(joined("MONGO_INITDB_ROOT_PASSWORD=", p));
                r.push(joined("MONGO_INITDB_DATABASE=", n));
            }
        },
        DatabaseType::Redis => {},
    }
    assert(strs(r@) =~= base_env(*c));
    r
}

fn env_of(c: &DatabaseConfig) -> (r: Vec<String>)
    ensures
        strs(r@) == database_env(*c),
{
    let mut r = base_env_of(c);
    match &c.env {
        Some(extra) => {
            let ghost base = strs(r@);
            let mut i: usize = 0;
            while i < extra.len()
                invariant
                    c.env == Some(*extra),
                    base == base_env(*c),
                    i <= extra@.len(),
                    strs(r@) == base + env_entries(pairs(extra@).take(i as int)),
                decreases extra@.len() - i,
            {
                let ghost before = r@;
                let entry = joined3(extra[i].0.as_str(), "=", extra[i].1.as_str());
                r.push(entry);
                proof {
                    let pe = pairs(extra@);
                    assert(pe.take(i + 1) =~= pe.take(i as int).push(pe[i as int]));
                    assert(env_entries(pe.take(i + 1)) =~= env_entries(pe.take(i as int)).push(
                        pe[i as int].0 + "="@ + pe[i as int].1,
                    ));
                    assert(strs(r@) =~= strs(before).push(entry@));
                    assert(strs(r@) =~= base + env_entries(pe.take(i + 1)));
                }
                i = i + 1;
            }
            assert(pairs(extra@).take(extra@.len() as int) =~= pairs(extra@));
        },
        None => {},
    }
    r
}

fn exposed_port_of(t: DatabaseType) -> (r: &'static str)
    ensures
        r@ == exposed_port(t),
{
    match t {
        DatabaseType::PostgreSQL => "5432/tcp",
        DatabaseType::MySQL => "3306/tcp",
        DatabaseType::MariaDB => "3306/tcp",
        DatabaseType::MongoDB => "27017/tcp",
        DatabaseType::Redis => "6379/tcp",
    }
}

fn labels_of(c: &DatabaseConfig) -> (r: Vec<(String, String)>)
    ensures
        pairs(r@) == database_labels(*c),
{
    let mut r: Vec<(String, String)> = Vec::new();
    r.push((String::from_str("app"), String::from_str("db-manager")));
    r.push((String::from_str("database_name"), c.name.clone()));
    r.push((String::from_str("db_type"), c.db_type.to_string()));
    r.push((String::from_str("db_icon"), String::from_str(c.db_type.get_icon())));
    assert(pairs(r@) =~= database_labels(*c));
    r
}

fn cmd_of(c: &DatabaseConfig) -> (r: Option<Vec<String>>)
    ensures
        match (r, database_cmd(*c)) {
            (Some(a), Some(b)) => strs(a@) == b,
            (None, None) => true,
            _ => false,
        },
{
    if c.db_type == DatabaseType::Redis && c.password.as_str().unicode_len() > 0 {
        let mut v: Vec<String> = Vec::new();
        v.push(String::from_str("redis-server"));
        v.push(String::from_str("--requirepass"));
        v.push(c.password.clone());
        assert(strs(v@) =~= seq!["redis-server"@, "--requirepass"@, c.password@]);
        Some(v)
    } else {
        None
    }
}

/// The container specification for a database, or the memory limit's error.
pub fn build_container_spec(config: &DatabaseConfig) -> (r: Result<ContainerSpec, ConfigError>)
    ensures
        r.is_ok() == memory_ok(*config),
        r matches Ok(s) ==> database_spec(s, *config),
        r matches Err(ConfigError::InvalidMemory(t)) ==> (config.memory matches Some(m) && t@
            == crate::text::trim_blanks(m@)),
{
    let memory = match &config.memory {
        Some(m) => match parse_memory_string(m.as_str()) {
            Ok(b) => Some(b),
            Err(e) => {
                return Err(e);
            },
        },
        None => None,
    };
    let nano_cpus = match &config.cpus {
        Some(t) => parse_cpus(t.as_str()),
        None => None,
    };
    let mut exposed_ports: Vec<String> = Vec::new();
    exposed_ports.push(String::from_str(exposed_port_of(config.db_type)));
    let mut port_bindings: Vec<PortBinding> = Vec::new();
    port_bindings.push(
        PortBinding {
            container_port: String::from_str(exposed_port_of(config.db_type)),
            host_ip: String::from_str("0.0.0.0"),
            host_port: decimal_text(config.port as u64),
        },
    );
    let spec = ContainerSpec {
        name: joined3(config.db_type.to_string().as_str(), "-", config.name.as_str()),
        image: config.db_type.get_image_name(config.version.as_str()),
        env: env_of(config),
        cmd: cmd_of(config),
        exposed_ports,
        port_bindings,
        binds: Vec::new(),
        memory,
        nano_cpus,
        restart_policy: match &config.restart_policy {
            Some(p) => Some(p.clone()),
            None => None,
        },
        network_mode: None,
        labels: labels_of(config),
    };
    assert(strs(spec.exposed_ports@) =~= seq![exposed_port(config.db_type)]);
    assert(bindings_model(spec.port_bindings@) =~= seq![
        (exposed_port(config.db_type), "0.0.0.0"@, dec_text(config.port as nat)),
    ]);
    Ok(spec)
}

/// Checks the request against the live containers and local images, and
/// plans the container. The port is checked first, then the name, then the
/// memory limit; none of them needs the runtime to change anything.
pub fn plan_database(
    containers: &Vec<ContainerSummary>,
    local_images: &Vec<Vec<String>>,
    config: &DatabaseConfig,
) -> (r: Result<ProvisionPlan, ProvisionError>)
    ensures
        port_taken(containers@, config.port) ==> r == Err::<ProvisionPlan, ProvisionError>(
            ProvisionError::PortInUse(config.port),
        ),
        !port_taken(containers@, config.port) && name_taken(
            containers@,
            database_container_name(*config),
        ) ==> (r matches Err(ProvisionError::NameTaken(n)) && n@ == database_container_name(
            *config,
        )),
        r matches Err(ProvisionError::InvalidMemory(_)) ==> !memory_ok(*config),
        r matches Err(ProvisionError::InvalidMemory(t)) ==> (config.memory matches Some(m) && t@
            == crate::text::trim_blanks(m@)),
        r.is_ok() == (!port_taken(containers@, config.port) && !name_taken(
            containers@,
            database_container_name(*config),
        ) && memory_ok(*config)),
        r matches Ok(p) ==> (database_spec(p.spec, *config) && p.pull_image == !image_listed(
            local_images@,
            image_ref(config.db_type, config.version@),
        )),
{
    if port_in_use(containers, config.port) {
        return Err(ProvisionError::PortInUse(config.port));
    }
    let name = joined3(config.db_type.to_string().as_str(), "-", config.name.as_str());
    if name_in_use(containers, name.as_str()) {
        return Err(ProvisionError::NameTaken(name));
    }
    let spec = match build_container_spec(config) {
        Ok(s) => s,
        Err(ConfigError::InvalidMemory(t)) => {
            return Err(ProvisionError::InvalidMemory(t));
        },
    };
    let present = image_in_list(local_images, spec.image.as_str());
    Ok(ProvisionPlan { pull_image: !present, spec })
}

/// The longest an image pull may take, in seconds.
pub const PULL_TIMEOUT_SECS: u64 = 600;

/// How an image pull ended.
#[derive(Debug, Clone)]
pub enum PullOutcome {
    Completed,
    /// The runtime reported an error.
    Failed(String),
    /// The pull ran past `PULL_TIMEOUT_SECS`.
    TimedOut,
}

/// Why an image could not be made present; a timeout is kept apart so that
/// a caller may retry it.
#[derive(Debug, Clone, PartialEq, Eq)]
pub enum ImageError {
    PullFailed(String),
    Timeout,
}

/// Tells whether `image` must be pulled: only when no local image carries its tag.
pub fn needs_pull(local_images: &Vec<Vec<String>>, image: &str) -> (r: bool)
    ensures
        r == !image_listed(local_images@, image@),
{
    !image_in_list(local_images, image)
}

/// The result of making an image present, from how its pull ended.
pub fn pull_result(outcome: PullOutcome) -> (r: Result<(), ImageError>)
    ensures
        match outcome {
            PullOutcome::Completed => r is Ok,
            PullOutcome::Failed(e) => r == Err::<(), ImageError>(ImageError::PullFailed(e)),
            PullOutcome::TimedOut => r == Err::<(), ImageError>(ImageError::Timeout),
        },
{
    match outcome {
        PullOutcome::Completed => Ok(()),
        PullOutcome::Failed(e) => Err(ImageError::PullFailed(e)),
        PullOutcome::TimedOut => Err(ImageError::Timeout),
    }
}

/// A CPU limit never makes provisioning fail: once the port and name are
/// free and the memory limit is readable, a plan comes back, and its CPU
/// limit is the core count in billionths when the text is a decimal number,
/// and left out otherwise (`0.5` gives 500000000, `abc` gives none).
pub proof fn lemma_cpu_limit_never_refuses(
    containers: Seq<ContainerSummary>,
    config: DatabaseConfig,
    r: Result<ProvisionPlan, ProvisionError>,
)
    requires
        !port_taken(containers, config.port),
        !name_taken(containers, database_container_name(config)),
        memory_ok(config),
        r.is_ok() == (!port_taken(containers, config.port) && !name_taken(
            containers,
            database_container_name(config),
        ) && memory_ok(config)),
        r matches Ok(p) ==> database_spec(p.spec, config),
    ensures
        r matches Ok(p) && p.spec.nano_cpus == match config.cpus {
            Some(t) => match cpu_nanos(t@) {
                Some(v) => Some(v as i64),
                None => None,
            },
            None => None,
        },
{
}

/// An image that is already present is never pulled again: making it
/// present a second time issues no pull.
pub proof fn lemma_present_image_not_pulled(
    containers: Seq<ContainerSummary>,
    local_images: Seq<Vec<String>>,
    config: DatabaseConfig,
    plan: ProvisionPlan,
)
    requires
        image_listed(local_images, image_ref(config.db_type, config.version@)),
        database_spec(plan.spec, config),
        plan.pull_image == !image_listed(local_images, plan.spec.image@),
    ensures
        !plan.pull_image,
{
}

} // verus!
