//! A compose manifest recovered from existing containers: image, published
//! ports, environment and mounts of each, and the named volumes they use.
use vstd::prelude::*;
use crate::compose::{ComposeConfig, ComposeService, declared, service_names, split_first, split_once};
use crate::container::{strs, pairs, joined3};
use crate::text::{strip_slashes, trim_slashes, same_text};

verus! {

/// A mount of an inspected container.
#[derive(Debug, Clone)]
pub struct MountInfo {
    pub source: Option<String>,
    pub destination: Option<String>,
    /// The mount is a named volume rather than a host path.
    pub is_volume: bool,
    pub name: Option<String>,
}

/// What inspecting a container tells about it.
#[derive(Debug, Clone)]
pub struct InspectedContainer {
    pub name: Option<String>,
    pub image: Option<String>,
    /// Each container port with the first host port bound to it, if any.
    pub port_bindings: Option<Vec<(String, Option<String>)>>,
    /// Entries `KEY=value`.
    pub env: Option<Vec<String>>,
    pub mounts: Option<Vec<MountInfo>>,
}

/// A container that cannot be described in a manifest.
#[derive(Debug, Clone, PartialEq, Eq)]
pub enum GenerateError {
    MissingName,
    MissingImage,
    /// Two containers would give services of the same name.
    DuplicateName,
}

/// The service name a container gets: its name without the leading `/`.
pub open spec fn generated_name(c: InspectedContainer) -> Seq<char> {
    match c.name {
        Some(n) => strip_slashes(n@),
        None => Seq::empty(),
    }
}

/// No two containers give the same service name.
pub open spec fn distinct_names(cs: Seq<InspectedContainer>) -> bool {
    forall|a: int, b: int| 0 <= a < b < cs.len() ==> generated_name(cs[a]) != generated_name(cs[b])
}

/// A binding as a manifest port mapping `host:container`, when a host port is bound.
pub open spec fn published(b: (String, Option<String>)) -> Option<Seq<char>> {
    match b.1 {
        Some(h) => Some(h@ + ":"@ + b.0@),
        None => None,
    }
}

/// An environment entry split at its first `=`.
pub open spec fn env_pair(e: String) -> Option<(Seq<char>, Seq<char>)> {
    split_first(e@, '=')
}

/// A mount as `source:destination`, when both are known.
pub open spec fn mount_text(m: MountInfo) -> Option<Seq<char>> {
    match (m.source, m.destination) {
        (Some(s), Some(d)) => Some(s@ + ":"@ + d@),
        _ => None,
    }
}

/// The volume a mount names, when it is a named volume with both ends known.
pub open spec fn mount_volume(m: MountInfo) -> Option<Seq<char>> {
    match (m.source, m.destination, m.name) {
        (Some(_), Some(_), Some(n)) => if m.is_volume {
            Some(n@)
        } else {
            None
        },
        _ => None,
    }
}

pub open spec fn mounts_of(c: InspectedContainer) -> Seq<MountInfo> {
    match c.mounts {
        Some(m) => m@,
        None => Seq::empty(),
    }
}

/// Some container among `cs` mounts the named volume `v`.
pub open spec fn volume_used(cs: Seq<InspectedContainer>, v: Seq<char>) -> bool {
    exists|i: int| 0 <= i < cs.len() && (#[trigger] mounts_of(cs[i])).filter_map(
        |m: MountInfo| mount_volume(m),
    ).contains(v)
}

/// `e` is the manifest entry recovered from `c`.
pub open spec fn is_generated_service(e: (String, ComposeService), c: InspectedContainer) -> bool {
    &&& (c.name matches Some(n) && e.0@ == strip_slashes(n@))
    &&& (c.image matches Some(i) && e.1.image@ == i@)
    &&& (e.1.container_name matches Some(x) && x@ == e.0@)
    &&& match (e.1.ports, c.port_bindings) {
        (Some(p), Some(b)) => strs(p@) == b@.filter_map(|x: (String, Option<String>)| published(x)),
        (None, None) => true,
        _ => false,
    }
    &&& match (e.1.environment, c.env) {
        (Some(p), Some(v)) => pairs(p@) == v@.filter_map(|x: String| env_pair(x)),
        (None, None) => true,
        _ => false,
    }
    &&& match (e.1.volumes, c.mounts) {
        (Some(p), Some(m)) => strs(p@) == m@.filter_map(|x: MountInfo| mount_text(x)),
        (None, None) => true,
        _ => false,
    }
    &&& e.1.networks.is_none()
    &&& (e.1.restart matches Some(r) && r@ == "unless-stopped"@)
    &&& e.1.depends_on.is_none()
}

/// Every container can be described: it has a name and an image.
pub open spec fn all_describable(cs: Seq<InspectedContainer>) -> bool {
    forall|i: int| 0 <= i < cs.len() ==> (#[trigger] cs[i]).name.is_some() && cs[i].image.is_some()
}

fn ports_text(b: &Vec<(String, Option<String>)>) -> (r: Vec<String>)
    ensures
        strs(r@) == b@.filter_map(|x: (String, Option<String>)| published(x)),
{
    let ghost f = |x: (String, Option<String>)| published(x);
    let mut r: Vec<String> = Vec::new();
    let mut i: usize = 0;
    while i < b.len()
        invariant
            f == (|x: (String, Option<String>)| published(x)),
            i <= b@.len(),
            strs(r@) == b@.take(i as int).filter_map(f),
        decreases b@.len() - i,
    {
        proof {
            b@.lemma_filter_map_take_succ(f, i as int);
        }
        match &b[i].1 {
            Some(h) => {
                let t = joined3(h.as_str(), ":", b[i].0.as_str());
                let ghost before = r@;
                r.push(t);
                assert(strs(r@) =~= strs(before) + seq![t@]);
            },
            None => {},
        }
        i = i + 1;
    }
    assert(b@.take(b@.len() as int) =~= b@);
    r
}

fn env_pairs(v: &Vec<String>) -> (r: Vec<(String, String)>)
    ensures
        pairs(r@) == v@.filter_map(|x: String| env_pair(x)),
{
    let ghost f = |x: String| env_pair(x);
    let mut r: Vec<(String, String)> = Vec::new();
    let mut i: usize = 0;
    while i < v.len()
        invariant
            f == (|x: String| env_pair(x)),
            i <= v@.len(),
            pairs(r@) == v@.take(i as int).filter_map(f),
        decreases v@.len() - i,
    {
        proof {
            v@.lemma_filter_map_take_succ(f, i as int);
        }
        match split_once(v[i].as_str(), '=') {
            Some(p) => {
                let ghost before = r@;
                let ghost pv = (p.0@, p.1@);
                r.push(p);
                assert(pairs(r@) =~= pairs(before) + seq![pv]);
            },
            None => {},
        }
        i = i + 1;
    }
    assert(v@.take(v@.len() as int) =~= v@);
    r
}

fn mounts_text(m: &Vec<MountInfo>) -> (r: Vec<String>)
    ensures
        strs(r@) == m@.filter_map(|x: MountInfo| mount_text(x)),
{
    let ghost f = |x: MountInfo| mount_text(x);
    let mut r: Vec<String> = Vec::new();
    let mut i: usize = 0;
    while i < m.len()
        invariant
            f == (|x: MountInfo| mount_text(x)),
            i <= m@.len(),
            strs(r@) == m@.take(i as int).filter_map(f),
        decreases m@.len() - i,
    {
        proof {
            m@.lemma_filter_map_take_succ(f, i as int);
        }
        match (&m[i].source, &m[i].destination) {
            (Some(s), Some(d)) => {
                let t = joined3(s.as_str(), ":", d.as_str());
                let ghost before = r@;
                r.push(t);
                assert(strs(r@) =~= strs(before) + seq![t@]);
            },
            _ => {},
        }
        i = i + 1;
    }
    assert(m@.take(m@.len() as int) =~= m@);
    r
}

/// The manifest entry of one inspected container.
pub fn generated_service(c: &InspectedContainer) -> (r: Result<(String, ComposeService), GenerateError>)
    ensures
        r.is_ok() == (c.name.is_some() && c.image.is_some()),
        r matches Ok(e) ==> is_generated_service(e, *c),
        r == Err::<(String, ComposeService), GenerateError>(GenerateError::MissingName) <==> c.name.is_none(),
        r == Err::<(String, ComposeService), GenerateError>(GenerateError::MissingImage) <==> (c.name.is_some()
            && c.image.is_none()),
{
    let name = match &c.name {
        Some(n) => trim_slashes(n.as_str()),
        None => {
            return Err(GenerateError::MissingName);
        },
    };
    let image = match &c.image {
        Some(i) => i.clone(),
        None => {
            return Err(GenerateError::MissingImage);
        },
    };
    let ports = match &c.port_bindings {
        Some(b) => Some(ports_text(b)),
        None => None,
    };
    let environment = match &c.env {
        Some(v) => Some(env_pairs(v)),
        None => None,
    };
    let volumes = match &c.mounts {
        Some(m) => Some(mounts_text(m)),
        None => None,
    };
    let service = ComposeService {
        image,
        container_name: Some(name.clone()),
        ports,
        environment,
        volumes,
        networks: None,
        restart: Some(String::from_str("unless-stopped")),
        depends_on: None,
    };
    Ok((name, service))
}

fn has_name(acc: &Vec<String>, n: &str) -> (r: bool)
    ensures
        r == strs(acc@).contains(n@),
{
    let mut k: usize = 0;
    while k < acc.len()
        invariant
            k <= acc@.len(),
            forall|j: int| 0 <= j < k ==> acc@[j]@ != n@,
        decreases acc@.len() - k,
    {
        if same_text(acc[k].as_str(), n) {
            assert(strs(acc@)[k as int] == n@);
            return true;
        }
        k = k + 1;
    }
    assert forall|j: int| 0 <= j < strs(acc@).len() implies strs(acc@)[j] != n@ by {
        assert(strs(acc@)[j] == acc@[j]@);
    }
    false
}

/// Adds the named volumes of `ms` to `acc`, skipping those already there.
fn add_named_volumes(acc: &mut Vec<String>, ms: &Vec<MountInfo>)
    requires
        strs(old(acc)@).no_duplicates(),
    ensures
        strs(final(acc)@).no_duplicates(),
        forall|x: Seq<char>|
            strs(final(acc)@).contains(x) <==> (strs(old(acc)@).contains(x) || ms@.filter_map(
                |m: MountInfo| mount_volume(m),
            ).contains(x)),
{
    let ghost f = |m: MountInfo| mount_volume(m);
    let ghost start = strs(acc@);
    let mut i: usize = 0;
    while i < ms.len()
        invariant
            f == (|m: MountInfo| mount_volume(m)),
            i <= ms@.len(),
            strs(acc@).no_duplicates(),
            forall|x: Seq<char>|
                strs(acc@).contains(x) <==> (start.contains(x) || ms@.take(i as int).filter_map(
                    f,
                ).contains(x)),
        decreases ms@.len() - i,
    {
        proof {
            ms@.lemma_filter_map_take_succ(f, i as int);
        }
        let named = match (&ms[i].source, &ms[i].destination, &ms[i].name) {
            (Some(_), Some(_), Some(n)) => if ms[i].is_volume {
                Some(n)
            } else {
                None
            },
            _ => None,
        };
        match named {
            Some(n) => {
                let seen = has_name(acc, n.as_str());
                let ghost before = strs(acc@);
                if !seen {
                    acc.push(n.clone());
                    assert(strs(acc@) =~= before.push(n@));
                    assert(strs(acc@).no_duplicates()) by {
                        assert forall|a: int, b: int|
                            0 <= a < strs(acc@).len() && 0 <= b < strs(acc@).len() && a != b
                                implies strs(acc@)[a] != strs(acc@)[b] by {
                            if a < before.len() && b < before.len() {
                            } else if a == before.len() {
                                assert(!before.contains(n@));
                                assert(before[b] == strs(acc@)[b]);
                            } else {
                                assert(!before.contains(n@));
                                assert(before[a] == strs(acc@)[a]);
                            }
                        }
                    }
                    assert forall|x: Seq<char>| strs(acc@).contains(x) <==> (before.contains(x) || x
                        == n@) by {
                        if strs(acc@).contains(x) && x != n@ {
                            let j = choose|j: int| 0 <= j < strs(acc@).len() && strs(acc@)[j] == x;
                            assert(before[j] == x);
                        }
                        if before.contains(x) {
                            let j = choose|j: int| 0 <= j < before.len() && before[j] == x;
                            assert(strs(acc@)[j] == x);
                        }
                        if x == n@ {
                            assert(strs(acc@)[before.len() as int] == x);
                        }
                    }
                }
                assert(f(ms@[i as int]) == Some(n@));
                assert forall|x: Seq<char>| (ms@.take(i as int).filter_map(f) + seq![n@]).contains(x)
                    <==> (ms@.take(i as int).filter_map(f).contains(x) || x == n@) by {
                    let p = ms@.take(i as int).filter_map(f);
                    if (p + seq![n@]).contains(x) {
                        let j = choose|j: int| 0 <= j < p.len() + 1 && (p + seq![n@])[j] == x;
                        if j < p.len() {
                            assert(p[j] == x);
                        }
                    }
                    if p.contains(x) {
                        let j = choose|j: int| 0 <= j < p.len() && p[j] == x;
                        assert((p + seq![n@])[j] == x);
                    }
                    if x == n@ {
                        assert((p + seq![n@])[p.len() as int] == x);
                    }
                }
                assert(ms@.take(i + 1).filter_map(f) == ms@.take(i as int).filter_map(f) + seq![
                    n@,
                ]);
                assert forall|x: Seq<char>| strs(acc@).contains(x) <==> (before.contains(x) || x
                    == n@) by {
                    if seen && x == n@ {
                        assert(before.contains(n@));
                    }
                }
                assert forall|x: Seq<char>| strs(acc@).contains(x) <==> (start.contains(x)
                    || ms@.take(i + 1).filter_map(f).contains(x)) by {
                    assert(before.contains(x) <==> (start.contains(x) || ms@.take(
                        i as int,
                    ).filter_map(f).contains(x)));
                    assert((ms@.take(i as int).filter_map(f) + seq![n@]).contains(x) <==> (ms@.take(
                        i as int,
                    ).filter_map(f).contains(x) || x == n@));
                }
            },
            None => {
                assert(f(ms@[i as int]) is None);
                assert(ms@.take(i + 1).filter_map(f) =~= ms@.take(i as int).filter_map(f));
                assert forall|x: Seq<char>| strs(acc@).contains(x) <==> (start.contains(x)
                    || ms@.take(i + 1).filter_map(f).contains(x)) by {
                    assert(ms@.take(i + 1).filter_map(f) == ms@.take(i as int).filter_map(f));
                }
            },
        }
        let ghost done = ms@.take(i + 1).filter_map(f);
        assert(forall|x: Seq<char>| strs(acc@).contains(x) <==> (start.contains(x) || done.contains(x)));
        i = i + 1;
        assert(ms@.take(i as int).filter_map(f) == done);
    }
    assert(ms@.take(ms@.len() as int) =~= ms@);
}

/// The manifest that describes the containers `cs`, in order, with the
/// named volumes they use declared once each.
pub fn generate_compose_config(cs: &Vec<InspectedContainer>) -> (r: Result<ComposeConfig, GenerateError>)
    ensures
        r.is_ok() == (all_describable(cs@) && distinct_names(cs@)),
        r matches Ok(m) ==> {
            &&& m.wf()
            &&& (m.version matches Some(v) && v@ == "3.8"@)
            &&& m.services@.len() == cs@.len()
            &&& (forall|i: int| 0 <= i < cs@.len() ==> is_generated_service(#[trigger] m.services@[i], cs@[i]))
            &&& m.networks.is_none()
            &&& match m.volumes {
                Some(v) => strs(v@).no_duplicates() && strs(v@).len() > 0 && forall|x: Seq<char>|
                    strs(v@).contains(x) <==> volume_used(cs@, x),
                None => forall|x: Seq<char>| !volume_used(cs@, x),
            }
        },
{
    let mut services: Vec<(String, ComposeService)> = Vec::new();
    let mut names: Vec<String> = Vec::new();
    let mut vols: Vec<String> = Vec::new();
    let mut i: usize = 0;
    while i < cs.len()
        invariant
            i <= cs@.len(),
            services@.len() == i,
            names@.len() == i,
            forall|k: int| 0 <= k < i ==> #[trigger] names@[k]@ == generated_name(cs@[k]),
            forall|a: int, b: int|
                0 <= a < b < i ==> generated_name(cs@[a]) != generated_name(cs@[b]),
            all_describable(cs@.take(i as int)),
            forall|k: int| 0 <= k < i ==> is_generated_service(#[trigger] services@[k], cs@[k]),
            strs(vols@).no_duplicates(),
            forall|x: Seq<char>| strs(vols@).contains(x) <==> volume_used(cs@.take(i as int), x),
        decreases cs@.len() - i,
    {
        let e = match generated_service(&cs[i]) {
            Ok(e) => e,
            Err(err) => {
                assert(!all_describable(cs@)) by {
                    assert(cs@[i as int].name.is_none() || cs@[i as int].image.is_none());
                }
                return Err(err);
            },
        };
        assert(e.0@ == generated_name(cs@[i as int]));
        if has_name(&names, e.0.as_str()) {
            assert(!distinct_names(cs@)) by {
                let k = choose|k: int| 0 <= k < strs(names@).len() && strs(names@)[k] == e.0@;
                assert(names@[k]@ == generated_name(cs@[k]));
            }
            return Err(GenerateError::DuplicateName);
        }
        assert forall|a: int| 0 <= a < i implies generated_name(cs@[a]) != generated_name(
            cs@[i as int],
        ) by {
            assert(strs(names@)[a] == names@[a]@);
        }
        names.push(e.0.clone());
        services.push(e);
        let ghost before = strs(vols@);
        match &cs[i].mounts {
            Some(ms) => {
                add_named_volumes(&mut vols, ms);
            },
            None => {},
        }
        proof {
            let t = cs@.take(i + 1);
            assert(all_describable(t)) by {
                assert forall|k: int| 0 <= k < t.len() implies (#[trigger] t[k]).name.is_some()
                    && t[k].image.is_some() by {
                    if k < i {
                        assert(t[k] == cs@.take(i as int)[k]);
                    }
                }
            }
            assert forall|x: Seq<char>| strs(vols@).contains(x) <==> volume_used(t, x) by {
                let f = |m: MountInfo| mount_volume(m);
                if volume_used(t, x) {
                    let k = choose|k: int| 0 <= k < t.len() && (#[trigger] mounts_of(t[k])).filter_map(f).contains(x);
                    if k < i {
                        assert(cs@.take(i as int)[k] == t[k]);
                        assert(volume_used(cs@.take(i as int), x));
                    } else {
                        assert(t[k] == cs@[i as int]);
                        if cs@[i as int].mounts.is_none() {
                            assert(mounts_of(t[k]).filter_map(f) =~= Seq::<Seq<char>>::empty());
                        }
                    }
                }
                if volume_used(cs@.take(i as int), x) {
                    let k = choose|k: int| 0 <= k < i && (#[trigger] mounts_of(cs@.take(i as int)[k])).filter_map(f).contains(x);
                    assert(cs@.take(i as int)[k] == t[k]);
                }
                if cs@[i as int].mounts.is_some() && mounts_of(cs@[i as int]).filter_map(f).contains(x) {
                    assert(t[i as int] == cs@[i as int]);
                }
            }
        }
        i = i + 1;
    }
    assert(cs@.take(cs@.len() as int) =~= cs@);
    assert(all_describable(cs@));
    assert(distinct_names(cs@));
    assert(forall|x: Seq<char>| strs(vols@).contains(x) <==> volume_used(cs@, x));
    let volumes = if vols.len() > 0 {
        Some(vols)
    } else {
        assert(strs(vols@).len() == 0);
        assert(forall|x: Seq<char>| !strs(vols@).contains(x));
        None
    };
    let r = ComposeConfig {
        version: Some(String::from_str("3.8")),
        services,
        volumes,
        networks: None,
    };
    proof {
        assert(declared(r.networks) =~= Seq::<Seq<char>>::empty());
        assert forall|a: int, b: int|
            0 <= a < service_names(r).len() && 0 <= b < service_names(r).len() && a != b
            implies service_names(r)[a] != service_names(r)[b] by {
            assert(service_names(r)[a] == generated_name(cs@[a]));
            assert(service_names(r)[b] == generated_name(cs@[b]));
        }
        if r.volumes.is_none() {
            assert(declared(r.volumes) =~= Seq::<Seq<char>>::empty());
        }
    }
    Ok(r)
}

/// A generated manifest reproduces the containers it was made from: one
/// service per container, in order, named after the container, with its
/// image and its published ports `host:container`.
pub proof fn lemma_generated_manifest_reproduces(cs: Seq<InspectedContainer>, m: ComposeConfig)
    requires
        m.services@.len() == cs.len(),
        forall|i: int| 0 <= i < cs.len() ==> is_generated_service(#[trigger] m.services@[i], cs[i]),
    ensures
        forall|i: int|
            0 <= i < cs.len() ==> {
                &&& (cs[i].name matches Some(n) && (#[trigger] m.services@[i]).0@ == strip_slashes(n@))
                &&& (cs[i].image matches Some(img) && m.services@[i].1.image@ == img@)
                &&& match cs[i].port_bindings {
                    Some(b) => m.services@[i].1.ports matches Some(p) && strs(p@) == b@.filter_map(
                        |x: (String, Option<String>)| published(x),
                    ),
                    None => m.services@[i].1.ports.is_none(),
                }
            },
{
}

} // verus!
