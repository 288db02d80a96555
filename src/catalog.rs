//! The closed set of database kinds and the metadata of each.
use vstd::prelude::*;

verus! {

/// A kind of database that can run in a managed container.
#[derive(Debug, Clone, Copy, PartialEq, Eq, Structural)]
pub enum DatabaseType {
    PostgreSQL,
    MySQL,
    MongoDB,
    Redis,
    MariaDB,
}

/// The canonical identifier of a kind.
pub open spec fn type_id(t: DatabaseType) -> Seq<char> {
    match t {
        DatabaseType::PostgreSQL => "postgresql"@,
        DatabaseType::MySQL => "mysql"@,
        DatabaseType::MongoDB => "mongodb"@,
        DatabaseType::Redis => "redis"@,
        DatabaseType::MariaDB => "mariadb"@,
    }
}

/// The name shown to the operator.
pub open spec fn display_name(t: DatabaseType) -> Seq<char> {
    match t {
        DatabaseType::PostgreSQL => "PostgreSQL"@,
        DatabaseType::MySQL => "MySQL"@,
        DatabaseType::MongoDB => "MongoDB"@,
        DatabaseType::Redis => "Redis"@,
        DatabaseType::MariaDB => "MariaDB"@,
    }
}

/// The icon glyph of a kind.
pub open spec fn icon(t: DatabaseType) -> Seq<char> {
    match t {
        DatabaseType::PostgreSQL => "\u{1F418}"@,
        DatabaseType::MySQL => "\u{1F42C}"@,
        DatabaseType::MongoDB => "\u{1F343}"@,
        DatabaseType::Redis => "\u{1F534}"@,
        DatabaseType::MariaDB => "\u{1F9AD}"@,
    }
}

/// The host port offered by default.
pub open spec fn default_port(t: DatabaseType) -> u16 {
    match t {
        DatabaseType::PostgreSQL => 5544,
        DatabaseType::MySQL => 3306,
        DatabaseType::MongoDB => 27017,
        DatabaseType::Redis => 6379,
        DatabaseType::MariaDB => 3306,
    }
}

/// The administrator account offered by default.
pub open spec fn default_user(t: DatabaseType) -> Seq<char> {
    match t {
        DatabaseType::PostgreSQL => "postgres"@,
        DatabaseType::MySQL => "root"@,
        DatabaseType::MongoDB => "root"@,
        DatabaseType::Redis => ""@,
        DatabaseType::MariaDB => "root"@,
    }
}

/// The selectable versions, newest first.
pub open spec fn versions(t: DatabaseType) -> Seq<Seq<char>> {
    match t {
        DatabaseType::PostgreSQL => seq!["16"@, "15"@, "14"@, "13"@, "12"@],
        DatabaseType::MySQL => seq!["8.2"@, "8.0"@, "5.7"@],
        DatabaseType::MongoDB => seq!["7.0"@, "6.0"@, "5.0"@, "4.4"@],
        DatabaseType::Redis => seq!["7.2"@, "7.0"@, "6.2"@],
        DatabaseType::MariaDB => seq!["11.2"@, "10.11"@, "10.6"@],
    }
}

/// The image repository of a kind.
pub open spec fn image_repo(t: DatabaseType) -> Seq<char> {
    match t {
        DatabaseType::PostgreSQL => "postgres"@,
        DatabaseType::MySQL => "mysql"@,
        DatabaseType::MongoDB => "mongo"@,
        DatabaseType::Redis => "redis"@,
        DatabaseType::MariaDB => "mariadb"@,
    }
}

/// The image reference `repository:version`.
pub open spec fn image_ref(t: DatabaseType, version: Seq<char>) -> Seq<char> {
    image_repo(t) + ":"@ + version
}

/// Every kind, in the order offered to the operator.
pub open spec fn all_types() -> Seq<DatabaseType> {
    seq![
        DatabaseType::PostgreSQL,
        DatabaseType::MySQL,
        DatabaseType::MariaDB,
        DatabaseType::MongoDB,
        DatabaseType::Redis,
    ]
}

/// The metadata of one kind, as handed to the operator's interface.
pub struct DatabaseTypeInfo {
    pub id: String,
    pub name: String,
    pub icon: String,
    pub default_port: u16,
    pub default_user: String,
    pub versions: Vec<String>,
}

/// `info` carries the metadata of `t`.
pub open spec fn describes(info: DatabaseTypeInfo, t: DatabaseType) -> bool {
    &&& info.id@ == type_id(t)
    &&& info.name@ == display_name(t)
    &&& info.icon@ == icon(t)
    &&& info.default_port == default_port(t)
    &&& info.default_user@ == default_user(t)
    &&& info.versions@.len() == versions(t).len()
    &&& forall|i: int| 0 <= i < versions(t).len() ==> #[trigger] info.versions@[i]@ == versions(t)[i]
}

impl DatabaseType {
    /// The canonical identifier, e.g. `postgresql`.
    pub fn to_string(&self) -> (r: String)
        ensures
            r@ == type_id(*self),
    {
        match self {
            DatabaseType::PostgreSQL => String::from_str("postgresql"),
            DatabaseType::MySQL => String::from_str("mysql"),
            DatabaseType::MongoDB => String::from_str("mongodb"),
            DatabaseType::Redis => String::from_str("redis"),
            DatabaseType::MariaDB => String::from_str("mariadb"),
        }
    }

    /// The name shown to the operator, e.g. `PostgreSQL`.
    pub fn get_display_name(&self) -> (r: String)
        ensures
            r@ == display_name(*self),
    {
        match self {
            DatabaseType::PostgreSQL => String::from_str("PostgreSQL"),
            DatabaseType::MySQL => String::from_str("MySQL"),
            DatabaseType::MongoDB => String::from_str("MongoDB"),
            DatabaseType::Redis => String::from_str("Redis"),
            DatabaseType::MariaDB => String::from_str("MariaDB"),
        }
    }

    pub fn get_icon(&self) -> (r: &'static str)
        ensures
            r@ == icon(*self),
    {
        match self {
            DatabaseType::PostgreSQL => "\u{1F418}",
            DatabaseType::MySQL => "\u{1F42C}",
            DatabaseType::MongoDB => "\u{1F343}",
            DatabaseType::Redis => "\u{1F534}",
            DatabaseType::MariaDB => "\u{1F9AD}",
        }
    }

    pub fn get_default_port(&self) -> (r: u16)
        ensures
            r == default_port(*self),
    {
        match self {
            DatabaseType::PostgreSQL => 5544,
            DatabaseType::MySQL => 3306,
            DatabaseType::MongoDB => 27017,
            DatabaseType::Redis => 6379,
            DatabaseType::MariaDB => 3306,
        }
    }

    pub fn get_default_user(&self) -> (r: &'static str)
        ensures
            r@ == default_user(*self),
    {
        match self {
            DatabaseType::PostgreSQL => "postgres",
            DatabaseType::MySQL => "root",
            DatabaseType::MongoDB => "root",
            DatabaseType::Redis => "",
            DatabaseType::MariaDB => "root",
        }
    }

    pub fn get_available_versions(&self) -> (r: Vec<&'static str>)
        ensures
            r@.len() == versions(*self).len(),
            forall|i: int| 0 <= i < r@.len() ==> #[trigger] r@[i]@ == versions(*self)[i],
    {
        let r = match self {
            DatabaseType::PostgreSQL => vec!["16", "15", "14", "13", "12"],
            DatabaseType::MySQL => vec!["8.2", "8.0", "5.7"],
            DatabaseType::MongoDB => vec!["7.0", "6.0", "5.0", "4.4"],
            DatabaseType::Redis => vec!["7.2", "7.0", "6.2"],
            DatabaseType::MariaDB => vec!["11.2", "10.11", "10.6"],
        };
        r
    }

    fn image_repository(&self) -> (r: &'static str)
        ensures
            r@ == image_repo(*self),
    {
        match self {
            DatabaseType::PostgreSQL => "postgres",
            DatabaseType::MySQL => "mysql",
            DatabaseType::MongoDB => "mongo",
            DatabaseType::Redis => "redis",
            DatabaseType::MariaDB => "mariadb",
        }
    }

    /// The image reference `repository:version` for this kind.
    pub fn get_image_name(&self, version: &str) -> (r: String)
        ensures
            r@ == image_ref(*self, version@),
    {
        let mut r = String::from_str(self.image_repository());
        r.append(":");
        r.append(version);
        r
    }

    /// The metadata record of this kind.
    pub fn info(&self) -> (r: DatabaseTypeInfo)
        ensures
            describes(r, *self),
    {
        let vs = self.get_available_versions();
        let mut names: Vec<String> = Vec::new();
        let mut i: usize = 0;
        while i < vs.len()
            invariant
                vs@.len() == versions(*self).len(),
                forall|k: int| 0 <= k < vs@.len() ==> #[trigger] vs@[k]@ == versions(*self)[k],
                i <= vs@.len(),
                names@.len() == i,
                forall|k: int| 0 <= k < i ==> #[trigger] names@[k]@ == versions(*self)[k],
            decreases vs@.len() - i,
        {
            names.push(String::from_str(vs[i]));
            i = i + 1;
        }
        DatabaseTypeInfo {
            id: self.to_string(),
            name: self.get_display_name(),
            icon: String::from_str(self.get_icon()),
            default_port: self.get_default_port(),
            default_user: String::from_str(self.get_default_user()),
            versions: names,
        }
    }
}

/// The metadata of every kind, in the order offered to the operator.
pub fn get_database_types() -> (r: Vec<DatabaseTypeInfo>)
    ensures
        r@.len() == all_types().len(),
        forall|i: int| 0 <= i < r@.len() ==> describes(#[trigger] r@[i], all_types()[i]),
{
    let r = vec![
        DatabaseType::PostgreSQL.info(),
        DatabaseType::MySQL.info(),
        DatabaseType::MariaDB.info(),
        DatabaseType::MongoDB.info(),
        DatabaseType::Redis.info(),
    ];
    r
}

} // verus!
