//! Backing a volume up to a host directory and restoring it, each through a
//! short-lived container that runs `tar`.
use vstd::prelude::*;
use crate::container::{ContainerSpec, strs, joined, joined3};
use crate::inventory::{size_text, format_size};
use crate::text::{dec_text, decimal_text};

verus! {

/// The image of the helper that packs or unpacks a volume.
pub open spec fn tar_image() -> Seq<char> {
    "alpine:latest"@
}

/// Index of the last `/` in `s`, or -1 when there is none.
pub open spec fn last_slash(s: Seq<char>) -> int
    decreases s.len(),
{
    if s.len() == 0 {
        -1
    } else if s.last() == '/' {
        s.len() - 1
    } else {
        last_slash(s.drop_last())
    }
}

/// A backup file's directory and name: split at the last `/`; `None` when
/// the name part is empty.
pub open spec fn backup_parts(path: Seq<char>) -> Option<(Seq<char>, Seq<char>)> {
    let k = last_slash(path);
    let file = path.subrange(k + 1, path.len() as int);
    if file.len() == 0 {
        None
    } else if k < 0 {
        Some((Seq::empty(), file))
    } else {
        Some((path.subrange(0, k), file))
    }
}

proof fn lemma_last_slash(s: Seq<char>, k: int)
    requires
        -1 <= k < s.len(),
        k >= 0 ==> s[k] == '/',
        forall|j: int| k < j < s.len() ==> s[j] != '/',
    ensures
        last_slash(s) == k,
    decreases s.len(),
{
    if s.len() > 0 && s.last() != '/' {
        lemma_last_slash(s.drop_last(), k);
    }
}

/// Splits a backup file path into its directory and file name.
pub fn split_backup_path(path: &str) -> (r: Option<(String, String)>)
    ensures
        match (r, backup_parts(path@)) {
            (Some(a), Some(b)) => a.0@ == b.0 && a.1@ == b.1,
            (None, None) => true,
            _ => false,
        },
{
    let n = path.unicode_len();
    let mut k: usize = n;
    while k > 0 && path.get_char(k - 1) != '/'
        invariant
            n == path@.len(),
            k <= n,
            forall|j: int| k <= j < n ==> path@[j] != '/',
        decreases k,
    {
        k = k - 1;
    }
    proof {
        lemma_last_slash(path@, k - 1);
    }
    if k == n {
        return None;
    }
    let file = String::from_str(path.substring_char(k, n));
    let dir = if k == 0 {
        String::new()
    } else {
        String::from_str(path.substring_char(0, k - 1))
    };
    proof {
        if k == 0 {
            assert(dir@ =~= Seq::<char>::empty());
        }
    }
    Some((dir, file))
}

/// `s` is the helper that packs volume `volume` into `dir/volume-backup.tar.gz`.
pub open spec fn is_backup_spec(s: ContainerSpec, volume: Seq<char>, dir: Seq<char>, stamp: u64) -> bool {
    &&& s.name@ == "backup-"@ + dec_text(stamp as nat)
    &&& s.image@ == tar_image()
    &&& (s.cmd matches Some(c) && strs(c@) == seq![
        "tar"@,
        "-czf"@,
        "/backup/volume-backup.tar.gz"@,
        "-C"@,
        "/volume-data"@,
        "."@,
    ])
    &&& strs(s.binds@) == seq![volume + ":/volume-data:ro"@, dir + ":/backup"@]
    &&& s.env@.len() == 0
    &&& s.exposed_ports@.len() == 0
    &&& s.port_bindings@.len() == 0
    &&& s.labels@.len() == 0
    &&& s.memory.is_none() && s.nano_cpus.is_none() && s.restart_policy.is_none()
    &&& s.network_mode.is_none()
}

/// `s` is the helper that unpacks `dir/file` into volume `volume`.
pub open spec fn is_restore_spec(s: ContainerSpec, volume: Seq<char>, dir: Seq<char>, file: Seq<char>, stamp: u64) -> bool {
    &&& s.name@ == "restore-"@ + dec_text(stamp as nat)
    &&& s.image@ == tar_image()
    &&& (s.cmd matches Some(c) && strs(c@) == seq![
        "tar"@,
        "-xzf"@,
        "/backup/"@ + file,
        "-C"@,
        "/volume-data"@,
    ])
    &&& strs(s.binds@) == seq![volume + ":/volume-data"@, dir + ":/backup:ro"@]
    &&& s.env@.len() == 0
    &&& s.exposed_ports@.len() == 0
    &&& s.port_bindings@.len() == 0
    &&& s.labels@.len() == 0
    &&& s.memory.is_none() && s.nano_cpus.is_none() && s.restart_policy.is_none()
    &&& s.network_mode.is_none()
}

fn tar_helper(name: String, cmd: Vec<String>, binds: Vec<String>) -> (r: ContainerSpec)
    ensures
        r.name == name,
        r.image@ == tar_image(),
        r.cmd == Some(cmd),
        r.binds == binds,
        r.env@.len() == 0,
        r.exposed_ports@.len() == 0,
        r.port_bindings@.len() == 0,
        r.labels@.len() == 0,
        r.memory.is_none() && r.nano_cpus.is_none() && r.restart_policy.is_none(),
        r.network_mode.is_none(),
{
    ContainerSpec {
        name,
        image: String::from_str("alpine:latest"),
        env: Vec::new(),
        cmd: Some(cmd),
        exposed_ports: Vec::new(),
        port_bindings: Vec::new(),
        binds,
        memory: None,
        nano_cpus: None,
        restart_policy: None,
        network_mode: None,
        labels: Vec::new(),
    }
}

/// The helper that backs `volume` up into the host directory `dir`;
/// `stamp` (seconds since the epoch) names it.
pub fn backup_spec(volume: &str, dir: &str, stamp: u64) -> (r: ContainerSpec)
    ensures
        is_backup_spec(r, volume@, dir@, stamp),
{
    let mut cmd: Vec<String> = Vec::new();
    cmd.push(String::from_str("tar"));
    cmd.push(String::from_str("-czf"));
    cmd.push(String::from_str("/backup/volume-backup.tar.gz"));
    cmd.push(String::from_str("-C"));
    cmd.push(String::from_str("/volume-data"));
    cmd.push(String::from_str("."));
    let mut binds: Vec<String> = Vec::new();
    binds.push(joined(volume, ":/volume-data:ro"));
    binds.push(joined(dir, ":/backup"));
    assert(strs(cmd@) =~= seq![
        "tar"@,
        "-czf"@,
        "/backup/volume-backup.tar.gz"@,
        "-C"@,
        "/volume-data"@,
        "."@,
    ]);
    assert(strs(binds@) =~= seq![volume@ + ":/volume-data:ro"@, dir@ + ":/backup"@]);
    tar_helper(joined("backup-", decimal_text(stamp).as_str()), cmd, binds)
}

/// The helper that restores `volume` from the backup file `backup_file`;
/// `None` when the path names no file.
pub fn restore_spec(volume: &str, backup_file: &str, stamp: u64) -> (r: Option<ContainerSpec>)
    ensures
        r.is_some() == backup_parts(backup_file@).is_some(),
        r matches Some(s) ==> is_restore_spec(
            s,
            volume@,
            backup_parts(backup_file@)->Some_0.0,
            backup_parts(backup_file@)->Some_0.1,
            stamp,
        ),
{
    let (dir, file) = match split_backup_path(backup_file) {
        Some(p) => p,
        None => {
            return None;
        },
    };
    let mut cmd: Vec<String> = Vec::new();
    cmd.push(String::from_str("tar"));
    cmd.push(String::from_str("-xzf"));
    cmd.push(joined("/backup/", file.as_str()));
    cmd.push(String::from_str("-C"));
    cmd.push(String::from_str("/volume-data"));
    let mut binds: Vec<String> = Vec::new();
    binds.push(joined(volume, ":/volume-data"));
    binds.push(joined(dir.as_str(), ":/backup:ro"));
    assert(strs(cmd@) =~= seq!["tar"@, "-xzf"@, "/backup/"@ + file@, "-C"@, "/volume-data"@]);
    assert(strs(binds@) =~= seq![volume@ + ":/volume-data"@, dir@ + ":/backup:ro"@]);
    Some(tar_helper(joined("restore-", decimal_text(stamp).as_str()), cmd, binds))
}

/// The report of a volume prune.
pub open spec fn prune_text(removed: nat, reclaimed: int) -> Seq<char> {
    "Removed "@ + dec_text(removed) + " unused volumes, reclaimed "@ + size_text(reclaimed)
}

/// Reports a volume prune: how many volumes went and the space they freed.
pub fn prune_message(removed: u64, reclaimed: i64) -> (r: String)
    ensures
        r@ == prune_text(removed as nat, reclaimed as int),
{
    let mut r = joined3("Removed ", decimal_text(removed).as_str(), " unused volumes, reclaimed ");
    r.append(format_size(reclaimed).as_str());
    r
}

} // verus!
