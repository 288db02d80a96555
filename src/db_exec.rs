//! Commands run inside a managed Postgres container on the operator's
//! behalf, and the plain records the operator interface exchanges.
use vstd::prelude::*;
use crate::container::{strs, joined3};
use crate::text::{dec_text, decimal_text};

verus! {

/// Which container to remove, and whether its volumes go too.
#[derive(Debug, Clone)]
pub struct RemoveContainerParams {
    pub container_id: String,
    pub remove_volumes: bool,
}

/// A container named by id.
#[derive(Debug, Clone)]
pub struct ContainerIdParam {
    pub container_id: String,
}

/// A statement to run in a container's database.
#[derive(Debug, Clone)]
pub struct ExecSqlParams {
    pub container_id: String,
    pub database: String,
    pub username: String,
    pub sql: String,
}

/// A database to dump inside its container.
#[derive(Debug, Clone)]
pub struct BackupParams {
    pub container_id: String,
    pub database: String,
    pub username: String,
}

/// One line of a container's log.
#[derive(Debug, Clone)]
pub struct LogEntry {
    pub timestamp: String,
    pub message: String,
}

/// A database found on the source server.
#[derive(Debug, Clone)]
pub struct LocalDatabase {
    pub name: String,
    pub size: String,
    pub owner: String,
    pub tables: i32,
}

/// The `psql` invocation that runs one statement.
pub open spec fn sql_command(p: ExecSqlParams) -> Seq<Seq<char>> {
    seq!["psql"@, "-U"@, p.username@, "-d"@, p.database@, "-c"@, p.sql@]
}

/// Builds the `psql` invocation that runs `params.sql`.
pub fn exec_sql_command(params: &ExecSqlParams) -> (r: Vec<String>)
    ensures
        strs(r@) == sql_command(*params),
{
    let mut r: Vec<String> = Vec::new();
    r.push(String::from_str("psql"));
    r.push(String::from_str("-U"));
    r.push(params.username.clone());
    r.push(String::from_str("-d"));
    r.push(params.database.clone());
    r.push(String::from_str("-c"));
    r.push(params.sql.clone());
    assert(strs(r@) =~= sql_command(*params));
    r
}

/// Where a dump made at `stamp` (seconds since the epoch) is written inside the container.
pub open spec fn backup_path(db: Seq<char>, stamp: u64) -> Seq<char> {
    "/tmp/backup_"@ + db + "_"@ + dec_text(stamp as nat) + ".sql"@
}

/// The `pg_dump` invocation that writes the dump, and the file it writes.
pub fn backup_command(params: &BackupParams, stamp: u64) -> (r: (Vec<String>, String))
    ensures
        r.1@ == backup_path(params.database@, stamp),
        strs(r.0@) == seq!["pg_dump"@, "-U"@, params.username@, "-d"@, params.database@, "-f"@, r.1@],
{
    let mut file = joined3("/tmp/backup_", params.database.as_str(), "_");
    file.append(decimal_text(stamp).as_str());
    file.append(".sql");
    let mut r: Vec<String> = Vec::new();
    r.push(String::from_str("pg_dump"));
    r.push(String::from_str("-U"));
    r.push(params.username.clone());
    r.push(String::from_str("-d"));
    r.push(params.database.clone());
    r.push(String::from_str("-f"));
    r.push(file.clone());
    assert(strs(r@) =~= seq!["pg_dump"@, "-U"@, params.username@, "-d"@, params.database@, "-f"@, file@]);
    (r, file)
}

} // verus!
