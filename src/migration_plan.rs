//! The pieces of a migration from an external Postgres server: connection
//! text, the probed major version, the dump helper, the destination
//! container, the in-container commands and the free-port search.
use vstd::prelude::*;
use crate::container::{ContainerSpec, PortBinding, strs, pairs, bindings_model, joined, joined3};
use crate::limits::{index_of, lemma_index_of};
use crate::text::{
    dec_text, decimal_text, is_blank, is_blank_char, first_non_blank, lemma_first_non_blank,
    same_text, contains, contains_text,
};

verus! {

/// Where the source Postgres server listens, and how to log in.
#[derive(Debug, Clone)]
pub struct LocalPostgresConfig {
    pub host: String,
    pub port: u16,
    pub user: String,
    pub password: String,
}

/// The first host port tried for a migrated database.
pub const MIGRATION_BASE_PORT: u16 = 5544;

/// The connection text for the source server: host, port, user, the password
/// when there is one, and the database when one is named.
pub open spec fn connection_text(c: LocalPostgresConfig, db: Option<Seq<char>>) -> Seq<char> {
    let base = "host="@ + c.host@ + " port="@ + dec_text(c.port as nat) + " user="@ + c.user@;
    let with_pw = if c.password@.len() > 0 {
        base + " password="@ + c.password@
    } else {
        base
    };
    match db {
        Some(d) => with_pw + " dbname="@ + d,
        None => with_pw,
    }
}

/// Builds the connection text for the source server.
pub fn connection_string(config: &LocalPostgresConfig, dbname: Option<&str>) -> (r: String)
    ensures
        r@ == connection_text(
            *config,
            match dbname {
                Some(d) => Some(d@),
                None => None,
            },
        ),
{
    let mut r = joined("host=", config.host.as_str());
    r.append(" port=");
    r.append(decimal_text(config.port as u64).as_str());
    r.append(" user=");
    r.append(config.user.as_str());
    if config.password.as_str().unicode_len() > 0 {
        r.append(" password=");
        r.append(config.password.as_str());
    }
    match dbname {
        Some(d) => {
            r.append(" dbname=");
            r.append(d);
        },
        None => {},
    }
    r
}

/// Index of the first blank in `s`, or its length.
pub open spec fn first_blank(s: Seq<char>) -> int
    decreases s.len(),
{
    if s.len() == 0 {
        0
    } else if is_blank(s[0]) {
        0
    } else {
        1 + first_blank(s.drop_first())
    }
}

/// The second blank-separated word of `s`, if there is one.
pub open spec fn second_word(s: Seq<char>) -> Option<Seq<char>> {
    let n = s.len() as int;
    let a = first_non_blank(s);
    let b = a + first_blank(s.subrange(a, n));
    let c = b + first_non_blank(s.subrange(b, n));
    if c >= n {
        None
    } else {
        let rest = s.subrange(c, n);
        Some(rest.subrange(0, first_blank(rest)))
    }
}

/// The major version in a server's version banner (`PostgreSQL 16.1 on ...`
/// gives `16`): the second word up to its first `.`, or `16` without one.
pub open spec fn major_version(banner: Seq<char>) -> Seq<char> {
    match second_word(banner) {
        Some(w) => w.subrange(0, index_of(w, '.')),
        None => "16"@,
    }
}

proof fn lemma_first_blank(s: Seq<char>, i: int)
    requires
        0 <= i <= s.len(),
        forall|j: int| 0 <= j < i ==> !is_blank(s[j]),
        i == s.len() || is_blank(s[i]),
    ensures
        first_blank(s) == i,
    decreases i,
{
    if i > 0 {
        lemma_first_blank(s.drop_first(), i - 1);
    }
}

/// The first index from `i` on that is not blank (`want_blank == false`) or
/// that is blank (`want_blank == true`).
fn scan(s: &str, i: usize, want_blank: bool) -> (r: usize)
    requires
        i <= s@.len(),
    ensures
        i <= r <= s@.len(),
        want_blank ==> r - i == first_blank(s@.subrange(i as int, s@.len() as int)),
        !want_blank ==> r - i == first_non_blank(s@.subrange(i as int, s@.len() as int)),
{
    let n = s.unicode_len();
    let mut k: usize = i;
    while k < n && is_blank_char(s.get_char(k)) != want_blank
        invariant
            n == s@.len(),
            i <= k <= n,
            forall|j: int| i <= j < k ==> is_blank(s@[j]) != want_blank,
        decreases n - k,
    {
        k = k + 1;
    }
    proof {
        let t = s@.subrange(i as int, n as int);
        if want_blank {
            lemma_first_blank(t, k - i);
        } else {
            lemma_first_non_blank(t, k - i);
        }
    }
    k
}

/// The major version named in a server's version banner.
pub fn parse_major_version(banner: &str) -> (r: String)
    ensures
        r@ == major_version(banner@),
{
    let n = banner.unicode_len();
    let a = scan(banner, 0, false);
    let b = scan(banner, a, true);
    let c = scan(banner, b, false);
    proof {
        assert(banner@.subrange(0, n as int) =~= banner@);
    }
    if c >= n {
        proof {
            reveal_strlit("16");
        }
        return String::from_str("16");
    }
    let d = scan(banner, c, true);
    let word = banner.substring_char(c, d);
    proof {
        let rest = banner@.subrange(c as int, n as int);
        assert(word@ =~= rest.subrange(0, first_blank(rest)));
    }
    let n_w = word.unicode_len();
    let mut k: usize = 0;
    while k < n_w && word.get_char(k) != '.'
        invariant
            n_w == word@.len(),
            k <= n_w,
            forall|j: int| 0 <= j < k ==> word@[j] != '.',
        decreases n_w - k,
    {
        k = k + 1;
    }
    proof {
        lemma_index_of(word@, '.', k as int);
    }
    String::from_str(word.substring_char(0, k))
}

/// The runtime's name for the machine it runs on, used in place of a
/// loopback source host.
pub open spec fn source_host_in_runtime(host: Seq<char>) -> Seq<char> {
    if host == "localhost"@ || host == "127.0.0.1"@ {
        "host.docker.internal"@
    } else {
        host
    }
}

/// The host that a helper container uses to reach the source server.
pub fn runtime_source_host(host: &str) -> (r: String)
    ensures
        r@ == source_host_in_runtime(host@),
{
    if same_text(host, "localhost") || same_text(host, "127.0.0.1") {
        String::from_str("host.docker.internal")
    } else {
        String::from_str(host)
    }
}

/// The Postgres image of a major version.
pub open spec fn postgres_image(major: Seq<char>) -> Seq<char> {
    "postgres:"@ + major
}

/// The name of the dump helper for `db`, made unique by the start time.
pub open spec fn helper_name(db: Seq<char>, started_at: u64) -> Seq<char> {
    "temp-dump-"@ + db + "-"@ + dec_text(started_at as nat)
}

/// `s` is the dump helper: it only sleeps, on the host's network.
pub open spec fn is_helper_spec(s: ContainerSpec, db: Seq<char>, started_at: u64, major: Seq<char>) -> bool {
    &&& s.name@ == helper_name(db, started_at)
    &&& s.image@ == postgres_image(major)
    &&& s.env@.len() == 0
    &&& (s.cmd matches Some(c) && strs(c@) == seq!["sleep"@, "300"@])
    &&& s.exposed_ports@.len() == 0
    &&& s.port_bindings@.len() == 0
    &&& s.binds@.len() == 0
    &&& s.memory.is_none()
    &&& s.nano_cpus.is_none()
    &&& s.restart_policy.is_none()
    &&& (s.network_mode matches Some(m) && m@ == "host"@)
    &&& s.labels@.len() == 0
}

/// The specification of the dump helper.
pub fn helper_spec(db: &str, started_at: u64, major: &str) -> (r: ContainerSpec)
    ensures
        is_helper_spec(r, db@, started_at, major@),
{
    let mut name = joined3("temp-dump-", db, "-");
    name.append(decimal_text(started_at).as_str());
    let mut cmd: Vec<String> = Vec::new();
    cmd.push(String::from_str("sleep"));
    cmd.push(String::from_str("300"));
    assert(strs(cmd@) =~= seq!["sleep"@, "300"@]);
    ContainerSpec {
        name,
        image: joined("postgres:", major),
        env: Vec::new(),
        cmd: Some(cmd),
        exposed_ports: Vec::new(),
        port_bindings: Vec::new(),
        binds: Vec::new(),
        memory: None,
        nano_cpus: None,
        restart_policy: None,
        network_mode: Some(String::from_str("host")),
        labels: Vec::new(),
    }
}

/// The dump command run inside the helper: plain SQL, without owners or grants.
pub open spec fn dump_command(c: LocalPostgresConfig, db: Seq<char>) -> Seq<Seq<char>> {
    seq![
        "pg_dump"@,
        "-h"@,
        source_host_in_runtime(c.host@),
        "-p"@,
        dec_text(c.port as nat),
        "-U"@,
        c.user@,
        "-d"@,
        db,
        "-F"@,
        "p"@,
        "--no-owner"@,
        "--no-acl"@,
    ]
}

/// Builds the dump command and the environment that carries the password.
pub fn dump_exec(config: &LocalPostgresConfig, db: &str) -> (r: (Vec<String>, Vec<String>))
    ensures
        strs(r.0@) == dump_command(*config, db@),
        strs(r.1@) == seq!["PGPASSWORD="@ + config.password@],
{
    let mut cmd: Vec<String> = Vec::new();
    cmd.push(String::from_str("pg_dump"));
    cmd.push(String::from_str("-h"));
    cmd.push(runtime_source_host(config.host.as_str()));
    cmd.push(String::from_str("-p"));
    cmd.push(decimal_text(config.port as u64));
    cmd.push(String::from_str("-U"));
    cmd.push(config.user.clone());
    cmd.push(String::from_str("-d"));
    cmd.push(String::from_str(db));
    cmd.push(String::from_str("-F"));
    cmd.push(String::from_str("p"));
    cmd.push(String::from_str("--no-owner"));
    cmd.push(String::from_str("--no-acl"));
    let mut env: Vec<String> = Vec::new();
    env.push(joined("PGPASSWORD=", config.password.as_str()));
    assert(strs(cmd@) =~= dump_command(*config, db@));
    assert(strs(env@) =~= seq!["PGPASSWORD="@ + config.password@]);
    (cmd, env)
}

/// The destination container's name.
pub open spec fn destination_name(db: Seq<char>) -> Seq<char> {
    "migrated-"@ + db
}

/// The persistent volume of the destination container.
pub open spec fn destination_volume(db: Seq<char>) -> Seq<char> {
    destination_name(db) + "_data"@
}

/// The labels of a migrated database.
pub open spec fn destination_labels(db: Seq<char>) -> Seq<(Seq<char>, Seq<char>)> {
    seq![
        ("app"@, "docker-db-manager"@),
        ("database_name"@, db),
        ("db_type"@, "postgresql"@),
        ("db_icon"@, "\u{1F418}"@),
        ("migrated"@, "true"@),
        ("original_source"@, "local"@),
        ("volume"@, destination_volume(db)),
    ]
}

/// `s` is the destination container for `db` from `c`, on host port `port`.
pub open spec fn is_destination_spec(
    s: ContainerSpec,
    c: LocalPostgresConfig,
    db: Seq<char>,
    major: Seq<char>,
    port: u16,
) -> bool {
    &&& s.name@ == destination_name(db)
    &&& s.image@ == postgres_image(major)
    &&& strs(s.env@) == seq![
        "POSTGRES_USER="@ + c.user@,
        "POSTGRES_PASSWORD="@ + c.password@,
        "POSTGRES_DB="@ + db,
    ]
    &&& s.cmd.is_none()
    &&& strs(s.exposed_ports@) == seq!["5432/tcp"@]
    &&& bindings_model(s.port_bindings@) == seq![("5432/tcp"@, "0.0.0.0"@, dec_text(port as nat))]
    &&& strs(s.binds@) == seq![destination_volume(db) + ":/var/lib/postgresql/data"@]
    &&& s.memory.is_none()
    &&& s.nano_cpus.is_none()
    &&& s.restart_policy.is_none()
    &&& s.network_mode.is_none()
    &&& pairs(s.labels@) == destination_labels(db)
}

/// The specification of the destination container.
pub fn destination_spec(config: &LocalPostgresConfig, db: &str, major: &str, port: u16) -> (r:
    ContainerSpec)
    ensures
        is_destination_spec(r, *config, db@, major@, port),
{
    let name = joined("migrated-", db);
    let volume = joined(name.as_str(), "_data");
    let mut env: Vec<String> = Vec::new();
    env.push(joined("POSTGRES_USER=", config.user.as_str()));
    env.push(joined("POSTGRES_PASSWORD=", config.password.as_str()));
    env.push(joined("POSTGRES_DB=", db));
    let mut exposed: Vec<String> = Vec::new();
    exposed.push(String::from_str("5432/tcp"));
    let mut bindings: Vec<PortBinding> = Vec::new();
    bindings.push(
        PortBinding {
            container_port: String::from_str("5432/tcp"),
            host_ip: String::from_str("0.0.0.0"),
            host_port: decimal_text(port as u64),
        },
    );
    let mut binds: Vec<String> = Vec::new();
    binds.push(joined(volume.as_str(), ":/var/lib/postgresql/data"));
    let mut labels: Vec<(String, String)> = Vec::new();
    labels.push((String::from_str("app"), String::from_str("docker-db-manager")));
    labels.push((String::from_str("database_name"), String::from_str(db)));
    labels.push((String::from_str("db_type"), String::from_str("postgresql")));
    labels.push((String::from_str("db_icon"), String::from_str("\u{1F418}")));
    labels.push((String::from_str("migrated"), String::from_str("true")));
    labels.push((String::from_str("original_source"), String::from_str("local")));
    labels.push((String::from_str("volume"), volume));
    let r = ContainerSpec {
        name,
        image: joined("postgres:", major),
        env,
        cmd: None,
        exposed_ports: exposed,
        port_bindings: bindings,
        binds,
        memory: None,
        nano_cpus: None,
        restart_policy: None,
        network_mode: None,
        labels,
    };
    assert(strs(r.env@) =~= seq![
        "POSTGRES_USER="@ + config.user@,
        "POSTGRES_PASSWORD="@ + config.password@,
        "POSTGRES_DB="@ + db@,
    ]);
    assert(strs(r.exposed_ports@) =~= seq!["5432/tcp"@]);
    assert(bindings_model(r.port_bindings@) =~= seq![
        ("5432/tcp"@, "0.0.0.0"@, dec_text(port as nat)),
    ]);
    assert(strs(r.binds@) =~= seq![destination_volume(db@) + ":/var/lib/postgresql/data"@]);
    assert(pairs(r.labels@) =~= destination_labels(db@));
    r
}

/// The readiness probe run inside the destination.
pub open spec fn ready_command(c: LocalPostgresConfig) -> Seq<Seq<char>> {
    seq!["pg_isready"@, "-U"@, c.user@]
}

/// Where the dump is placed inside the destination, and its file name there.
pub open spec fn dump_dir() -> Seq<char> {
    "/tmp"@
}

pub open spec fn dump_file_name() -> Seq<char> {
    "dump.sql"@
}

/// The restore command run inside the destination.
pub open spec fn restore_command(c: LocalPostgresConfig, db: Seq<char>) -> Seq<Seq<char>> {
    seq!["psql"@, "-U"@, c.user@, "-d"@, db, "-f"@, "/tmp/dump.sql"@]
}

/// The query that counts the restored tables.
pub open spec fn verify_command(c: LocalPostgresConfig, db: Seq<char>) -> Seq<Seq<char>> {
    seq![
        "psql"@,
        "-U"@,
        c.user@,
        "-d"@,
        db,
        "-t"@,
        "-c"@,
        "SELECT COUNT(*) FROM information_schema.tables WHERE table_schema = 'public';"@,
    ]
}

/// Builds the readiness probe.
pub fn ready_exec(config: &LocalPostgresConfig) -> (r: Vec<String>)
    ensures
        strs(r@) == ready_command(*config),
{
    let mut r: Vec<String> = Vec::new();
    r.push(String::from_str("pg_isready"));
    r.push(String::from_str("-U"));
    r.push(config.user.clone());
    assert(strs(r@) =~= ready_command(*config));
    r
}

/// Builds the restore command.
pub fn restore_exec(config: &LocalPostgresConfig, db: &str) -> (r: Vec<String>)
    ensures
        strs(r@) == restore_command(*config, db@),
{
    let mut r: Vec<String> = Vec::new();
    r.push(String::from_str("psql"));
    r.push(String::from_str("-U"));
    r.push(config.user.clone());
    r.push(String::from_str("-d"));
    r.push(String::from_str(db));
    r.push(String::from_str("-f"));
    r.push(String::from_str("/tmp/dump.sql"));
    assert(strs(r@) =~= restore_command(*config, db@));
    r
}

/// Builds the verification query.
pub fn verify_exec(config: &LocalPostgresConfig, db: &str) -> (r: Vec<String>)
    ensures
        strs(r@) == verify_command(*config, db@),
{
    let mut r: Vec<String> = Vec::new();
    r.push(String::from_str("psql"));
    r.push(String::from_str("-U"));
    r.push(config.user.clone());
    r.push(String::from_str("-d"));
    r.push(String::from_str(db));
    r.push(String::from_str("-t"));
    r.push(String::from_str("-c"));
    r.push(
        String::from_str(
            "SELECT COUNT(*) FROM information_schema.tables WHERE table_schema = 'public';",
        ),
    );
    assert(strs(r@) =~= verify_command(*config, db@));
    r
}

/// A restore failed outright when its error output reports a fatal error or
/// a refused connection; other messages are warnings.
pub open spec fn restore_failed(stderr: Seq<char>) -> bool {
    contains_text(stderr, "FATAL"@) || contains_text(stderr, "could not connect"@)
}

/// Tells whether a restore's error output means it failed.
pub fn restore_has_failed(stderr: &str) -> (r: bool)
    ensures
        r == restore_failed(stderr@),
{
    contains(stderr, "FATAL") || contains(stderr, "could not connect")
}

/// `p` is the first port from `base` upward that is not in `used`.
pub open spec fn lowest_free_port(used: Seq<u16>, base: u16, p: u16) -> bool {
    &&& base <= p
    &&& !used.contains(p)
    &&& forall|q: u16| base <= q < p ==> used.contains(q)
}

/// The first port from `base` upward that is not in `used`; `None` when every
/// port from `base` to 65535 is taken.
pub fn find_free_port(used: &Vec<u16>, base: u16) -> (r: Option<u16>)
    ensures
        r matches Some(p) ==> lowest_free_port(used@, base, p),
        r is None ==> forall|q: u16| base <= q ==> used@.contains(q),
{
    let mut p: u16 = base;
    loop
        invariant
            base <= p,
            forall|q: u16| base <= q < p ==> used@.contains(q),
        decreases 65535 - p,
    {
        let mut taken = false;
        let mut i: usize = 0;
        while i < used.len()
            invariant
                i <= used@.len(),
                taken == exists|j: int| 0 <= j < i && used@[j] == p,
            decreases used@.len() - i,
        {
            if used[i] == p {
                taken = true;
            }
            i = i + 1;
        }
        if !taken {
            assert(!used@.contains(p));
            return Some(p);
        }
        assert(used@.contains(p));
        if p == 65535 {
            return None;
        }
        p = p + 1;
    }
}

/// The query that ends every other session on database `db`.
pub open spec fn terminate_query(db: Seq<char>) -> Seq<char> {
    "SELECT pg_terminate_backend(pg_stat_activity.pid) FROM pg_stat_activity WHERE pg_stat_activity.datname = '"@
        + db + "' AND pid <> pg_backend_pid()"@
}

/// The statement that drops database `db`.
pub open spec fn drop_query(db: Seq<char>) -> Seq<char> {
    "DROP DATABASE IF EXISTS \""@ + db + "\""@
}

/// Builds the query that ends the other sessions on `db`.
pub fn terminate_sessions_query(db: &str) -> (r: String)
    ensures
        r@ == terminate_query(db@),
{
    joined3(
        "SELECT pg_terminate_backend(pg_stat_activity.pid) FROM pg_stat_activity WHERE pg_stat_activity.datname = '",
        db,
        "' AND pid <> pg_backend_pid()",
    )
}

/// Builds the statement that drops `db`.
pub fn drop_database_query(db: &str) -> (r: String)
    ensures
        r@ == drop_query(db@),
{
    joined3("DROP DATABASE IF EXISTS \"", db, "\"")
}

} // verus!
