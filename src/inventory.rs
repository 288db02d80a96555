//! What the operator sees of containers, images and volumes: the rows of
//! each listing, sizes written for people, and container-name checks.
use vstd::prelude::*;
use crate::container::{ContainerSummary, strs, pairs, joined};
use crate::monitor::{hundredths_text, format_hundredths};
use crate::text::{dec_text, decimal_text, strip_slashes, trim_slashes, same_text, contains, contains_text, trim, trim_blanks};

verus! {

/// The UTC time `secs` seconds after the epoch as `YYYY-MM-DD HH:MM`, empty
/// when it cannot be represented.
pub uninterp spec fn utc_minute_text(secs: i64) -> Seq<char>;

/// The UTC date `secs` seconds after the epoch as `YYYY-MM-DD`, empty when it
/// cannot be represented.
pub uninterp spec fn utc_day_text(secs: i64) -> Seq<char>;

/// Whether Unicode counts `c` as a letter or a digit.
pub uninterp spec fn alphanumeric(c: char) -> bool;

/// Relies on chrono's `DateTime::from_timestamp` (UTC, `None` out of range)
/// and `format("%Y-%m-%d %H:%M")`.
#[verifier::external_body]
fn format_minute(secs: i64) -> (r: String)
    ensures
        r@ == utc_minute_text(secs),
{
    match chrono::DateTime::from_timestamp(secs, 0) {
        Some(dt) => dt.format("%Y-%m-%d %H:%M").to_string(),
        None => String::new(),
    }
}

/// Relies on chrono's `DateTime::from_timestamp` (UTC, `None` out of range)
/// and `format("%Y-%m-%d")`.
#[verifier::external_body]
fn format_day(secs: i64) -> (r: String)
    ensures
        r@ == utc_day_text(secs),
{
    match chrono::DateTime::from_timestamp(secs, 0) {
        Some(dt) => dt.format("%Y-%m-%d").to_string(),
        None => String::new(),
    }
}

/// Relies on `char::is_alphanumeric`: Unicode `Alphabetic` or `Numeric`.
#[verifier::external_body]
fn is_alphanumeric(c: char) -> (r: bool)
    ensures
        r == alphanumeric(c),
{
    c.is_alphanumeric()
}

pub const KB: i64 = 1024;
pub const MB: i64 = 1048576;
pub const GB: i64 = 1073741824;

/// `n / d` in hundredths, rounded to the nearest, ties to even.
pub open spec fn hundredths_of(n: nat, d: nat) -> nat
    recommends
        d > 0,
{
    let q = n * 100 / d;
    let r = n * 100 % d;
    if 2 * r > d || (2 * r == d && q % 2 == 1) {
        q + 1
    } else {
        q
    }
}

/// `n / d` rounded to the nearest integer, ties to even.
pub open spec fn units_of(n: nat, d: nat) -> nat
    recommends
        d > 0,
{
    let q = n / d;
    let r = n % d;
    if 2 * r > d || (2 * r == d && q % 2 == 1) {
        q + 1
    } else {
        q
    }
}

/// An integer in decimal, with `-` when negative.
pub open spec fn signed_text(v: int) -> Seq<char> {
    if v < 0 {
        "-"@ + dec_text((-v) as nat)
    } else {
        dec_text(v as nat)
    }
}

/// A byte count for people: two decimals of the largest unit it reaches
/// (`GB`, `MB`, `KB`, powers of 1024), else whole bytes.
pub open spec fn size_text(b: int) -> Seq<char> {
    if b >= GB {
        hundredths_text(hundredths_of(b as nat, GB as nat)) + " GB"@
    } else if b >= MB {
        hundredths_text(hundredths_of(b as nat, MB as nat)) + " MB"@
    } else if b >= KB {
        hundredths_text(hundredths_of(b as nat, KB as nat)) + " KB"@
    } else {
        signed_text(b) + " B"@
    }
}

fn hundredths_exec(n: u64, d: u64) -> (r: u64)
    requires
        d >= 1024,
        n <= i64::MAX,
    ensures
        r as nat == hundredths_of(n as nat, d as nat),
{
    let m: u128 = (n as u128) * 100;
    let q: u128 = m / (d as u128);
    let rem: u128 = m % (d as u128);
    let h: u128 = if 2 * rem > d as u128 || (2 * rem == d as u128 && q % 2 == 1) {
        q + 1
    } else {
        q
    };
    assert(q <= m / 1024) by (nonlinear_arith)
        requires
            q == m / (d as u128),
            d >= 1024,
    ;
    h as u64
}

fn signed_exec(v: i64) -> (r: String)
    ensures
        r@ == signed_text(v as int),
{
    if v < 0 {
        let mag: u64 = if v == i64::MIN {
            9223372036854775808
        } else {
            (-v) as u64
        };
        joined("-", decimal_text(mag).as_str())
    } else {
        decimal_text(v as u64)
    }
}

/// Writes a byte count for people, e.g. `1.50 GB` or `512 B`.
pub fn format_size(bytes: i64) -> (r: String)
    ensures
        r@ == size_text(bytes as int),
{
    if bytes >= GB {
        joined(format_hundredths(hundredths_exec(bytes as u64, GB as u64)).as_str(), " GB")
    } else if bytes >= MB {
        joined(format_hundredths(hundredths_exec(bytes as u64, MB as u64)).as_str(), " MB")
    } else if bytes >= KB {
        joined(format_hundredths(hundredths_exec(bytes as u64, KB as u64)).as_str(), " KB")
    } else {
        joined(signed_exec(bytes).as_str(), " B")
    }
}

/// An image size for people: two decimals of GB above one GB, else whole MB.
pub open spec fn image_size_text(size: int) -> Seq<char> {
    if size > GB {
        hundredths_text(hundredths_of(size as nat, GB as nat)) + " GB"@
    } else if size >= 0 {
        dec_text(units_of(size as nat, MB as nat)) + " MB"@
    } else {
        "0 MB"@
    }
}

/// Writes an image size for people.
pub fn format_image_size(size: i64) -> (r: String)
    ensures
        r@ == image_size_text(size as int),
{
    if size > GB {
        joined(format_hundredths(hundredths_exec(size as u64, GB as u64)).as_str(), " GB")
    } else if size >= 0 {
        let n = size as u64;
        let d = MB as u64;
        let q = n / d;
        let rem = n % d;
        let u = if 2 * rem > d || (2 * rem == d && q % 2 == 1) {
            q + 1
        } else {
            q
        };
        joined(decimal_text(u).as_str(), " MB")
    } else {
        String::from_str("0 MB")
    }
}

/// The value of the first label `key` among `labels`.
pub open spec fn label_of(labels: Seq<(Seq<char>, Seq<char>)>, key: Seq<char>) -> Option<Seq<char>>
    decreases labels.len(),
{
    if labels.len() == 0 {
        None
    } else if labels[0].0 == key {
        Some(labels[0].1)
    } else {
        label_of(labels.drop_first(), key)
    }
}

proof fn lemma_label_skip(labels: Seq<(Seq<char>, Seq<char>)>, key: Seq<char>, i: int)
    requires
        0 <= i < labels.len(),
        labels[i].0 != key,
    ensures
        label_of(labels.subrange(i, labels.len() as int), key) == label_of(
            labels.subrange(i + 1, labels.len() as int),
            key,
        ),
{
    let s = labels.subrange(i, labels.len() as int);
    assert(s[0] == labels[i]);
    assert(s.drop_first() =~= labels.subrange(i + 1, labels.len() as int));
}

/// Looks up the first label `key`.
pub fn find_label(labels: &Vec<(String, String)>, key: &str) -> (r: Option<String>)
    ensures
        match (r, label_of(pairs(labels@), key@)) {
            (Some(a), Some(b)) => a@ == b,
            (None, None) => true,
            _ => false,
        },
{
    let ghost ls = pairs(labels@);
    let mut i: usize = 0;
    assert(ls.subrange(0, ls.len() as int) =~= ls);
    while i < labels.len()
        invariant
            ls == pairs(labels@),
            i <= labels@.len(),
            label_of(ls, key@) == label_of(ls.subrange(i as int, ls.len() as int), key@),
        decreases labels@.len() - i,
    {
        if same_text(labels[i].0.as_str(), key) {
            proof {
                let s = ls.subrange(i as int, ls.len() as int);
                assert(s[0] == ls[i as int]);
            }
            return Some(labels[i].1.clone());
        }
        proof {
            lemma_label_skip(ls, key@, i as int);
        }
        i = i + 1;
    }
    None
}

/// One row of the container listing.
#[derive(Debug, Clone)]
pub struct ContainerInfo {
    pub id: String,
    pub name: String,
    pub status: String,
    pub port: String,
    pub created: String,
    pub database_name: String,
    pub db_type: String,
    pub db_icon: String,
}

/// The row for container `c`: its first name without the leading `/`, its
/// first published port, its state (`unknown` when absent), its creation
/// time, and the database labels (with PostgreSQL defaults for type and icon).
pub open spec fn is_container_row(i: ContainerInfo, c: ContainerSummary) -> bool {
    let labels = pairs(c.labels@);
    &&& i.id@ == c.id@
    &&& i.name@ == if c.names@.len() > 0 {
        strip_slashes(c.names@[0]@)
    } else {
        Seq::empty()
    }
    &&& i.port@ == if c.published_ports@.len() > 0 {
        dec_text(c.published_ports@[0] as nat)
    } else {
        Seq::empty()
    }
    &&& i.status@ == match c.state {
        Some(s) => s@,
        None => "unknown"@,
    }
    &&& i.created@ == utc_minute_text(c.created)
    &&& i.database_name@ == match label_of(labels, "database_name"@) {
        Some(v) => v,
        None => Seq::empty(),
    }
    &&& i.db_type@ == match label_of(labels, "db_type"@) {
        Some(v) => v,
        None => "postgresql"@,
    }
    &&& i.db_icon@ == match label_of(labels, "db_icon"@) {
        Some(v) => v,
        None => "\u{1F418}"@,
    }
}

/// The listing row of one container.
pub fn container_info(c: &ContainerSummary) -> (r: ContainerInfo)
    ensures
        is_container_row(r, *c),
{
    let name = if c.names.len() > 0 {
        trim_slashes(c.names[0].as_str())
    } else {
        String::new()
    };
    let port = if c.published_ports.len() > 0 {
        decimal_text(c.published_ports[0] as u64)
    } else {
        String::new()
    };
    let status = match &c.state {
        Some(s) => s.clone(),
        None => String::from_str("unknown"),
    };
    let database_name = match find_label(&c.labels, "database_name") {
        Some(v) => v,
        None => String::new(),
    };
    let db_type = match find_label(&c.labels, "db_type") {
        Some(v) => v,
        None => String::from_str("postgresql"),
    };
    let db_icon = match find_label(&c.labels, "db_icon") {
        Some(v) => v,
        None => String::from_str("\u{1F418}"),
    };
    ContainerInfo {
        id: c.id.clone(),
        name,
        status,
        port,
        created: format_minute(c.created),
        database_name,
        db_type,
        db_icon,
    }
}

/// Tells whether some listed container has the id `id`.
pub fn has_container(cs: &Vec<ContainerSummary>, id: &str) -> (r: bool)
    ensures
        r == exists|i: int| 0 <= i < cs@.len() && (#[trigger] cs@[i]).id@ == id@,
{
    let mut i: usize = 0;
    while i < cs.len()
        invariant
            i <= cs@.len(),
            forall|j: int| 0 <= j < i ==> (#[trigger] cs@[j]).id@ != id@,
        decreases cs@.len() - i,
    {
        if same_text(cs[i].id.as_str(), id) {
            return true;
        }
        i = i + 1;
    }
    false
}

/// Tags that mark a database image.
pub open spec fn is_database_tag(t: Seq<char>) -> bool {
    contains_text(t, "postgres"@) || contains_text(t, "mysql"@) || contains_text(t, "mongo"@)
        || contains_text(t, "redis"@) || contains_text(t, "mariadb"@)
}

/// Tells whether an image carries a database tag.
pub fn is_database_image(tags: &Vec<String>) -> (r: bool)
    ensures
        r == exists|i: int| 0 <= i < tags@.len() && is_database_tag(#[trigger] tags@[i]@),
{
    let mut i: usize = 0;
    while i < tags.len()
        invariant
            i <= tags@.len(),
            forall|j: int| 0 <= j < i ==> !is_database_tag(#[trigger] tags@[j]@),
        decreases tags@.len() - i,
    {
        let t = tags[i].as_str();
        if contains(t, "postgres") || contains(t, "mysql") || contains(t, "mongo") || contains(
            t,
            "redis",
        ) || contains(t, "mariadb") {
            return true;
        }
        i = i + 1;
    }
    false
}

/// One row of the image listing.
#[derive(Debug, Clone)]
pub struct ImageInfo {
    pub id: String,
    pub tags: Vec<String>,
    pub size: String,
    pub created: String,
}

/// The listing row of a database image, or `None` for other images.
pub fn image_info(id: &String, tags: &Vec<String>, size: i64, created: i64) -> (r: Option<ImageInfo>)
    ensures
        r.is_some() == exists|i: int| 0 <= i < tags@.len() && is_database_tag(#[trigger] tags@[i]@),
        r matches Some(info) ==> (info.id@ == id@ && strs(info.tags@) == strs(tags@) && info.size@
            == image_size_text(size as int) && info.created@ == utc_day_text(created)),
{
    if !is_database_image(tags) {
        return None;
    }
    let mut copied: Vec<String> = Vec::new();
    let mut i: usize = 0;
    while i < tags.len()
        invariant
            i <= tags@.len(),
            copied@.len() == i,
            forall|k: int| 0 <= k < i ==> #[trigger] copied@[k] == tags@[k],
        decreases tags@.len() - i,
    {
        let t = tags[i].clone();
        copied.push(t);
        i = i + 1;
    }
    assert(strs(copied@) =~= strs(tags@));
    Some(
        ImageInfo {
            id: id.clone(),
            tags: copied,
            size: format_image_size(size),
            created: format_day(created),
        },
    )
}

/// Why a new container name is refused.
#[derive(Debug, Clone, Copy, PartialEq, Eq, Structural)]
pub enum NameError {
    /// The name is empty or only blanks.
    Empty,
    /// The name holds a character other than a letter, a digit, `-` or `_`.
    BadCharacter,
}

pub open spec fn name_char_ok(c: char) -> bool {
    alphanumeric(c) || c == '-' || c == '_'
}

/// Checks a new container name: not blank, and only letters, digits, `-` and `_`.
pub fn validate_container_name(name: &str) -> (r: Result<(), NameError>)
    ensures
        trim_blanks(name@).len() == 0 ==> r == Err::<(), NameError>(NameError::Empty),
        trim_blanks(name@).len() > 0 ==> (r == Err::<(), NameError>(NameError::BadCharacter)
            <==> exists|i: int| 0 <= i < name@.len() && !name_char_ok(#[trigger] name@[i])),
        r.is_ok() <==> (trim_blanks(name@).len() > 0 && forall|i: int|
            0 <= i < name@.len() ==> name_char_ok(#[trigger] name@[i])),
{
    let trimmed = trim(name);
    if trimmed.as_str().unicode_len() == 0 {
        return Err(NameError::Empty);
    }
    assert(trim_blanks(name@).len() > 0);
    let n = name.unicode_len();
    let mut i: usize = 0;
    while i < n
        invariant
            n == name@.len(),
            i <= n,
            trim_blanks(name@).len() > 0,
            forall|j: int| 0 <= j < i ==> name_char_ok(#[trigger] name@[j]),
        decreases n - i,
    {
        let c = name.get_char(i);
        if !(is_alphanumeric(c) || c == '-' || c == '_') {
            assert(!name_char_ok(name@[i as int]));
            return Err(NameError::BadCharacter);
        }
        i = i + 1;
    }
    Ok(())
}

/// One row of the volume listing.
#[derive(Debug, Clone)]
pub struct VolumeInfo {
    pub name: String,
    pub driver: String,
    pub mountpoint: String,
    pub created: String,
    pub size: String,
    pub in_use: bool,
    pub containers: Vec<String>,
}

/// The containers (by first name) that mount the volume `v`, once per mount.
pub open spec fn users_of(cs: Seq<ContainerSummary>, v: Seq<char>) -> Seq<Seq<char>>
    decreases cs.len(),
{
    if cs.len() == 0 {
        Seq::empty()
    } else {
        let c = cs.last();
        let here = if c.names@.len() > 0 {
            c.mounts@.filter(|m: String| m@ == v).map_values(|m: String| strip_slashes(c.names@[0]@))
        } else {
            Seq::empty()
        };
        users_of(cs.drop_last(), v) + here
    }
}

/// The listing row of a volume, given every container. The size is written
/// for people when the runtime reports it, else `Unknown`.
pub fn volume_info(
    name: &String,
    driver: &String,
    mountpoint: &String,
    created: &Option<String>,
    usage_size: Option<i64>,
    containers: &Vec<ContainerSummary>,
) -> (r: VolumeInfo)
    ensures
        r.name@ == name@,
        r.driver@ == driver@,
        r.mountpoint@ == mountpoint@,
        r.created@ == match created {
            Some(c) => c@,
            None => Seq::empty(),
        },
        r.size@ == match usage_size {
            Some(s) => size_text(s as int),
            None => "Unknown"@,
        },
        strs(r.containers@) == users_of(containers@, name@),
        r.in_use == (r.containers@.len() > 0),
{
    let mut users: Vec<String> = Vec::new();
    let mut i: usize = 0;
    while i < containers.len()
        invariant
            i <= containers@.len(),
            strs(users@) == users_of(containers@.take(i as int), name@),
        decreases containers@.len() - i,
    {
        let c = &containers[i];
        let ghost before = strs(users@);
        let ghost here = if c.names@.len() > 0 {
            c.mounts@.filter(|m: String| m@ == name@).map_values(
                |m: String| strip_slashes(c.names@[0]@),
            )
        } else {
            Seq::<Seq<char>>::empty()
        };
        if c.names.len() > 0 {
            let first = trim_slashes(c.names[0].as_str());
            let mut j: usize = 0;
            while j < c.mounts.len()
                invariant
                    c == &containers@[i as int],
                    c.names@.len() > 0,
                    first@ == strip_slashes(c.names@[0]@),
                    j <= c.mounts@.len(),
                    strs(users@) == before + c.mounts@.take(j as int).filter(
                        |m: String| m@ == name@,
                    ).map_values(|m: String| strip_slashes(c.names@[0]@)),
                decreases c.mounts@.len() - j,
            {
                proof {
                    reveal(Seq::filter);
                    assert(c.mounts@.take(j + 1).drop_last() =~= c.mounts@.take(j as int));
                    assert(c.mounts@.take(j + 1).last() == c.mounts@[j as int]);
                }
                let ghost u0 = strs(users@);
                if same_text(c.mounts[j].as_str(), name.as_str()) {
                    users.push(first.clone());
                    assert(strs(users@) =~= u0.push(first@));
                }
                assert(strs(users@) =~= before + c.mounts@.take(j + 1).filter(
                    |m: String| m@ == name@,
                ).map_values(|m: String| strip_slashes(c.names@[0]@)));
                j = j + 1;
            }
            assert(c.mounts@.take(c.mounts@.len() as int) =~= c.mounts@);
        } else {
            assert(before + here =~= before);
        }
        proof {
            let t = containers@.take(i + 1);
            assert(t.drop_last() =~= containers@.take(i as int));
            assert(t.last() == containers@[i as int]);
            assert(strs(users@) =~= users_of(t, name@));
        }
        i = i + 1;
    }
    assert(containers@.take(containers@.len() as int) =~= containers@);
    let in_use = users.len() > 0;
    VolumeInfo {
        name: name.clone(),
        driver: driver.clone(),
        mountpoint: mountpoint.clone(),
        created: match created {
            Some(c) => c.clone(),
            None => String::new(),
        },
        size: match usage_size {
            Some(s) => format_size(s),
            None => String::from_str("Unknown"),
        },
        in_use,
        containers: users,
    }
}

} // verus!
