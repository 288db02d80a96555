//! Compose manifests: deployment planning with project-scoped names and
//! labels, and the reverse direction, a manifest recovered from running
//! containers.
use vstd::prelude::*;
use crate::container::{ContainerSpec, ContainerSummary, PortBinding, strs, pairs, bindings_model, joined, joined3};
use crate::limits::{index_of, lemma_index_of};
use crate::inventory::{label_of, find_label};
use crate::text::{has_prefix, starts_with_text, strip_slashes, trim_slashes, same_text};

verus! {

/// The label that names a container's compose project.
pub open spec fn project_label() -> Seq<char> {
    "com.docker.compose.project"@
}

/// The label that names a container's compose service.
pub open spec fn service_label() -> Seq<char> {
    "com.docker.compose.service"@
}

/// One service of a manifest.
#[derive(Debug, Clone)]
pub struct ComposeService {
    pub image: String,
    pub container_name: Option<String>,
    /// Port mappings `host:container`.
    pub ports: Option<Vec<String>>,
    pub environment: Option<Vec<(String, String)>>,
    /// Mounts `source:destination`; a source may name a declared volume.
    pub volumes: Option<Vec<String>>,
    pub networks: Option<Vec<String>>,
    pub restart: Option<String>,
    pub depends_on: Option<Vec<String>>,
}

/// A manifest: its services in order, and the named volumes and networks it declares.
#[derive(Debug, Clone)]
pub struct ComposeConfig {
    pub version: Option<String>,
    pub services: Vec<(String, ComposeService)>,
    pub volumes: Option<Vec<String>>,
    pub networks: Option<Vec<String>>,
}

/// A resource name inside a project: `project_name`.
pub open spec fn scoped(project: Seq<char>, name: Seq<char>) -> Seq<char> {
    project + "_"@ + name
}

/// Names a resource inside a project.
pub fn scoped_name(project: &str, name: &str) -> (r: String)
    ensures
        r@ == scoped(project@, name@),
{
    joined3(project, "_", name)
}

/// A mount source that names the first declared volume it starts with
/// (followed by `:`) is given that volume's project-scoped name.
pub open spec fn scoped_bind(bind: Seq<char>, vols: Seq<Seq<char>>, project: Seq<char>) -> Seq<char>
    decreases vols.len(),
{
    if vols.len() == 0 {
        bind
    } else if has_prefix(bind, vols[0] + ":"@) {
        scoped(project, vols[0]) + bind.subrange(vols[0].len() as int, bind.len() as int)
    } else {
        scoped_bind(bind, vols.drop_first(), project)
    }
}

proof fn lemma_scoped_bind_skip(bind: Seq<char>, vols: Seq<Seq<char>>, project: Seq<char>, i: int)
    requires
        0 <= i < vols.len(),
        !has_prefix(bind, vols[i] + ":"@),
    ensures
        scoped_bind(bind, vols.subrange(i, vols.len() as int), project) == scoped_bind(
            bind,
            vols.subrange(i + 1, vols.len() as int),
            project,
        ),
{
    let s = vols.subrange(i, vols.len() as int);
    assert(s[0] == vols[i]);
    assert(s.drop_first() =~= vols.subrange(i + 1, vols.len() as int));
}

/// Gives a mount the project-scoped name of the declared volume it uses.
pub fn scope_bind(bind: &str, vols: &Vec<String>, project: &str) -> (r: String)
    ensures
        r@ == scoped_bind(bind@, strs(vols@), project@),
{
    let ghost vs = strs(vols@);
    let mut i: usize = 0;
    assert(vs.subrange(0, vs.len() as int) =~= vs);
    while i < vols.len()
        invariant
            vs == strs(vols@),
            i <= vols@.len(),
            scoped_bind(bind@, vs, project@) == scoped_bind(
                bind@,
                vs.subrange(i as int, vs.len() as int),
                project@,
            ),
        decreases vols@.len() - i,
    {
        let prefix = joined(vols[i].as_str(), ":");
        if starts_with_text(bind, prefix.as_str()) {
            let n = bind.unicode_len();
            let cut = vols[i].as_str().unicode_len();
            let rest = bind.substring_char(cut, n);
            let r = joined(scoped_name(project, vols[i].as_str()).as_str(), rest);
            proof {
                let s = vs.subrange(i as int, vs.len() as int);
                assert(s[0] == vs[i as int]);
            }
            return r;
        }
        proof {
            lemma_scoped_bind_skip(bind@, vs, project@, i as int);
        }
        i = i + 1;
    }
    proof {
        assert(vs.subrange(vs.len() as int, vs.len() as int).len() == 0);
    }
    String::from_str(bind)
}

/// A mount that names the only declared volume gets the project-scoped
/// volume name: `vol:dest` becomes `project_vol:dest`.
pub proof fn lemma_declared_volume_is_scoped(project: Seq<char>, vol: Seq<char>, dest: Seq<char>)
    ensures
        scoped_bind(vol + ":"@ + dest, seq![vol], project) == scoped(project, vol) + ":"@ + dest,
{
    let b = vol + ":"@ + dest;
    assert(b.subrange(0, (vol + ":"@).len() as int) =~= vol + ":"@);
    assert(b.subrange(vol.len() as int, b.len() as int) =~= ":"@ + dest);
    assert(scoped(project, vol) + (":"@ + dest) =~= scoped(project, vol) + ":"@ + dest);
}

/// `m` split at its first `c` into the parts before and after it.
pub open spec fn split_first(m: Seq<char>, c: char) -> Option<(Seq<char>, Seq<char>)> {
    let k = index_of(m, c);
    if k < m.len() {
        Some((m.subrange(0, k), m.subrange(k + 1, m.len() as int)))
    } else {
        None
    }
}

/// A port mapping split at its first `:` into host and container parts.
pub open spec fn port_split(m: Seq<char>) -> Option<(Seq<char>, Seq<char>)> {
    split_first(m, ':')
}

/// Splits a port mapping at its first `:`.
pub fn split_port_mapping(m: &str) -> (r: Option<(String, String)>)
    ensures
        match (r, port_split(m@)) {
            (Some(a), Some(b)) => a.0@ == b.0 && a.1@ == b.1,
            (None, None) => true,
            _ => false,
        },
{
    split_once(m, ':')
}

/// Splits `m` at its first `c`.
pub fn split_once(m: &str, c: char) -> (r: Option<(String, String)>)
    ensures
        match (r, split_first(m@, c)) {
            (Some(a), Some(b)) => a.0@ == b.0 && a.1@ == b.1,
            (None, None) => true,
            _ => false,
        },
{
    let n = m.unicode_len();
    let mut k: usize = 0;
    while k < n && m.get_char(k) != c
        invariant
            n == m@.len(),
            k <= n,
            forall|j: int| 0 <= j < k ==> m@[j] != c,
        decreases n - k,
    {
        k = k + 1;
    }
    proof {
        lemma_index_of(m@, c, k as int);
    }
    if k < n {
        Some((String::from_str(m.substring_char(0, k)), String::from_str(m.substring_char(k + 1, n))))
    } else {
        None
    }
}

/// The port mappings of a service that have a `:`, as `(host, container)`.
pub open spec fn port_pairs(ports: Seq<Seq<char>>) -> Seq<(Seq<char>, Seq<char>)>
    decreases ports.len(),
{
    if ports.len() == 0 {
        Seq::empty()
    } else {
        let rest = port_pairs(ports.drop_last());
        match port_split(ports.last()) {
            Some(p) => rest.push(p),
            None => rest,
        }
    }
}

/// The mappings of a service, or none.
pub open spec fn service_ports(s: ComposeService) -> Seq<Seq<char>> {
    match s.ports {
        Some(p) => strs(p@),
        None => Seq::empty(),
    }
}

/// The names a manifest declares in one section (none when the section is absent).
pub open spec fn declared(v: Option<Vec<String>>) -> Seq<Seq<char>> {
    match v {
        Some(v) => strs(v@),
        None => Seq::empty(),
    }
}

/// The service names of a manifest, in order.
pub open spec fn service_names(c: ComposeConfig) -> Seq<Seq<char>> {
    c.services@.map_values(|e: (String, ComposeService)| e.0@)
}

impl ComposeConfig {
    /// Service names are unique, and so are volume names and network names.
    pub open spec fn wf(&self) -> bool {
        &&& service_names(*self).no_duplicates()
        &&& declared(self.volumes).no_duplicates()
        &&& declared(self.networks).no_duplicates()
    }

    /// Tells whether the manifest's names are unique in each section.
    pub fn is_well_formed(&self) -> (r: bool)
        ensures
            r == self.wf(),
    {
        let mut names: Vec<String> = Vec::new();
        let mut i: usize = 0;
        while i < self.services.len()
            invariant
                i <= self.services@.len(),
                names@.len() == i,
                forall|k: int| 0 <= k < i ==> #[trigger] names@[k]@ == self.services@[k].0@,
            decreases self.services@.len() - i,
        {
            names.push(self.services[i].0.clone());
            i = i + 1;
        }
        assert(strs(names@) =~= service_names(*self));
        let empty: Vec<String> = Vec::new();
        assert(strs(empty@) =~= Seq::<Seq<char>>::empty());
        let volumes_ok = match &self.volumes {
            Some(v) => all_distinct(v),
            None => all_distinct(&empty),
        };
        let networks_ok = match &self.networks {
            Some(v) => all_distinct(v),
            None => all_distinct(&empty),
        };
        all_distinct(&names) && volumes_ok && networks_ok
    }
}

/// Tells whether no two strings of `v` are equal.
pub fn all_distinct(v: &Vec<String>) -> (r: bool)
    ensures
        r == strs(v@).no_duplicates(),
{
    let mut i: usize = 0;
    while i < v.len()
        invariant
            i <= v@.len(),
            forall|a: int, b: int| 0 <= a < b < i ==> v@[a]@ != v@[b]@,
        decreases v@.len() - i,
    {
        let mut j: usize = 0;
        while j < i
            invariant
                i < v@.len(),
                j <= i,
                forall|a: int, b: int| 0 <= a < b < i ==> v@[a]@ != v@[b]@,
                forall|a: int| 0 <= a < j ==> v@[a]@ != v@[i as int]@,
            decreases i - j,
        {
            if same_text(v[j].as_str(), v[i].as_str()) {
                assert(strs(v@)[j as int] == strs(v@)[i as int]);
                return false;
            }
            j = j + 1;
        }
        i = i + 1;
    }
    assert forall|a: int, b: int| 0 <= a < strs(v@).len() && 0 <= b < strs(v@).len() && a != b
        implies strs(v@)[a] != strs(v@)[b] by {
        if a < b {
            assert(v@[a]@ != v@[b]@);
        } else {
            assert(v@[b]@ != v@[a]@);
        }
    }
    true
}

/// The container name of a service: its fixed name, or `project_service`.
pub open spec fn service_container_name(project: Seq<char>, name: Seq<char>, s: ComposeService) -> Seq<char> {
    match s.container_name {
        Some(n) => n@,
        None => scoped(project, name),
    }
}

/// `c` is the container of service `name` of project `project`, given the
/// declared volumes `vols`.
pub open spec fn is_service_spec(
    c: ContainerSpec,
    project: Seq<char>,
    name: Seq<char>,
    s: ComposeService,
    vols: Seq<Seq<char>>,
) -> bool {
    let pp = port_pairs(service_ports(s));
    &&& c.name@ == service_container_name(project, name, s)
    &&& c.image@ == s.image@
    &&& strs(c.env@) == match s.environment {
        Some(e) => pairs(e@).map_values(|p: (Seq<char>, Seq<char>)| p.0 + "="@ + p.1),
        None => Seq::empty(),
    }
    &&& c.cmd.is_none()
    &&& strs(c.exposed_ports@) == pp.map_values(|p: (Seq<char>, Seq<char>)| p.1 + "/tcp"@)
    &&& bindings_model(c.port_bindings@) == pp.map_values(
        |p: (Seq<char>, Seq<char>)| (p.1 + "/tcp"@, "0.0.0.0"@, p.0),
    )
    &&& strs(c.binds@) == declared(s.volumes).map_values(
        |b: Seq<char>| scoped_bind(b, vols, project),
    )
    &&& c.memory.is_none()
    &&& c.nano_cpus.is_none()
    &&& (match (c.restart_policy, s.restart) {
        (Some(r), Some(d)) => r@ == d@,
        (None, None) => true,
        _ => false,
    })
    &&& c.network_mode.is_none()
    &&& pairs(c.labels@) == seq![(project_label(), project), (service_label(), name)]
}

fn env_entries_of(e: &Vec<(String, String)>) -> (r: Vec<String>)
    ensures
        strs(r@) == pairs(e@).map_values(|p: (Seq<char>, Seq<char>)| p.0 + "="@ + p.1),
{
    let mut r: Vec<String> = Vec::new();
    let mut i: usize = 0;
    while i < e.len()
        invariant
            i <= e@.len(),
            strs(r@) == pairs(e@).take(i as int).map_values(
                |p: (Seq<char>, Seq<char>)| p.0 + "="@ + p.1,
            ),
        decreases e@.len() - i,
    {
        let entry = joined3(e[i].0.as_str(), "=", e[i].1.as_str());
        let ghost before = r@;
        r.push(entry);
        assert(strs(r@) =~= strs(before).push(entry@));
        assert(pairs(e@).take(i + 1) =~= pairs(e@).take(i as int).push(pairs(e@)[i as int]));
        assert(strs(r@) =~= pairs(e@).take(i + 1).map_values(
            |p: (Seq<char>, Seq<char>)| p.0 + "="@ + p.1,
        ));
        i = i + 1;
    }
    assert(pairs(e@).take(e@.len() as int) =~= pairs(e@));
    r
}

fn ports_of(ports: &Vec<String>) -> (r: (Vec<String>, Vec<PortBinding>))
    ensures
        strs(r.0@) == port_pairs(strs(ports@)).map_values(
            |p: (Seq<char>, Seq<char>)| p.1 + "/tcp"@,
        ),
        bindings_model(r.1@) == port_pairs(strs(ports@)).map_values(
            |p: (Seq<char>, Seq<char>)| (p.1 + "/tcp"@, "0.0.0.0"@, p.0),
        ),
{
    let mut exposed: Vec<String> = Vec::new();
    let mut bindings: Vec<PortBinding> = Vec::new();
    let mut i: usize = 0;
    while i < ports.len()
        invariant
            i <= ports@.len(),
            strs(exposed@) == port_pairs(strs(ports@).take(i as int)).map_values(
                |p: (Seq<char>, Seq<char>)| p.1 + "/tcp"@,
            ),
            bindings_model(bindings@) == port_pairs(strs(ports@).take(i as int)).map_values(
                |p: (Seq<char>, Seq<char>)| (p.1 + "/tcp"@, "0.0.0.0"@, p.0),
            ),
        decreases ports@.len() - i,
    {
        let ghost t = strs(ports@).take(i + 1);
        assert(t.drop_last() =~= strs(ports@).take(i as int));
        assert(t.last() == ports@[i as int]@);
        match split_port_mapping(ports[i].as_str()) {
            Some((host, container)) => {
                let key = joined(container.as_str(), "/tcp");
                let ghost e0 = exposed@;
                let ghost b0 = bindings@;
                exposed.push(key.clone());
                bindings.push(
                    PortBinding { container_port: key, host_ip: String::from_str("0.0.0.0"), host_port: host },
                );
                assert(strs(exposed@) =~= strs(e0).push(container@ + "/tcp"@));
                assert(bindings_model(bindings@) =~= bindings_model(b0).push(
                    (container@ + "/tcp"@, "0.0.0.0"@, host@),
                ));
            },
            None => {},
        }
        assert(strs(exposed@) =~= port_pairs(t).map_values(
            |p: (Seq<char>, Seq<char>)| p.1 + "/tcp"@,
        ));
        assert(bindings_model(bindings@) =~= port_pairs(t).map_values(
            |p: (Seq<char>, Seq<char>)| (p.1 + "/tcp"@, "0.0.0.0"@, p.0),
        ));
        i = i + 1;
    }
    assert(strs(ports@).take(ports@.len() as int) =~= strs(ports@));
    (exposed, bindings)
}

fn binds_of(binds: &Vec<String>, vols: &Vec<String>, project: &str) -> (r: Vec<String>)
    ensures
        strs(r@) == strs(binds@).map_values(|b: Seq<char>| scoped_bind(b, strs(vols@), project@)),
{
    let mut r: Vec<String> = Vec::new();
    let mut i: usize = 0;
    while i < binds.len()
        invariant
            i <= binds@.len(),
            strs(r@) == strs(binds@).take(i as int).map_values(
                |b: Seq<char>| scoped_bind(b, strs(vols@), project@),
            ),
        decreases binds@.len() - i,
    {
        let b = scope_bind(binds[i].as_str(), vols, project);
        let ghost before = r@;
        r.push(b);
        assert(strs(r@) =~= strs(before).push(b@));
        assert(strs(binds@).take(i + 1) =~= strs(binds@).take(i as int).push(binds@[i as int]@));
        assert(strs(r@) =~= strs(binds@).take(i + 1).map_values(
            |b: Seq<char>| scoped_bind(b, strs(vols@), project@),
        ));
        i = i + 1;
    }
    assert(strs(binds@).take(binds@.len() as int) =~= strs(binds@));
    r
}

/// The container for one service of a project.
pub fn service_spec(project: &str, name: &str, service: &ComposeService, vols: &Vec<String>) -> (r:
    ContainerSpec)
    ensures
        is_service_spec(r, project@, name@, *service, strs(vols@)),
{
    let container_name = match &service.container_name {
        Some(n) => n.clone(),
        None => scoped_name(project, name),
    };
    let env = match &service.environment {
        Some(e) => env_entries_of(e),
        None => Vec::new(),
    };
    let empty: Vec<String> = Vec::new();
    let (exposed, bindings) = match &service.ports {
        Some(p) => ports_of(p),
        None => ports_of(&empty),
    };
    let binds = match &service.volumes {
        Some(b) => binds_of(b, vols, project),
        None => Vec::new(),
    };
    let mut labels: Vec<(String, String)> = Vec::new();
    labels.push((String::from_str("com.docker.compose.project"), String::from_str(project)));
    labels.push((String::from_str("com.docker.compose.service"), String::from_str(name)));
    let r = ContainerSpec {
        name: container_name,
        image: service.image.clone(),
        env,
        cmd: None,
        exposed_ports: exposed,
        port_bindings: bindings,
        binds,
        memory: None,
        nano_cpus: None,
        restart_policy: match &service.restart {
            Some(r) => Some(r.clone()),
            None => None,
        },
        network_mode: None,
        labels,
    };
    proof {
        assert(strs(empty@) =~= Seq::<Seq<char>>::empty());
        if service.environment.is_none() {
            assert(strs(r.env@) =~= Seq::<Seq<char>>::empty());
        }
        if service.volumes.is_none() {
            assert(strs(r.binds@) =~= declared(service.volumes).map_values(
                |b: Seq<char>| scoped_bind(b, strs(vols@), project@),
            ));
        }
        assert(pairs(r.labels@) =~= seq![(project_label(), project@), (service_label(), name@)]);
    }
    r
}

/// What deploying a manifest does, in order: create the volumes, then the
/// networks (an error on either, such as one that already exists, is only
/// reported), then create and start each service's container after pulling
/// its image (an error there ends the deployment; containers already made stay).
#[derive(Debug, Clone)]
pub struct DeployPlan {
    pub volumes: Vec<String>,
    pub networks: Vec<String>,
    pub services: Vec<ContainerSpec>,
}

fn scoped_all(project: &str, names: &Option<Vec<String>>) -> (r: Vec<String>)
    ensures
        strs(r@) == declared(*names).map_values(|n: Seq<char>| scoped(project@, n)),
{
    let mut r: Vec<String> = Vec::new();
    match names {
        Some(v) => {
            let mut i: usize = 0;
            while i < v.len()
                invariant
                    *names == Some(*v),
                    i <= v@.len(),
                    strs(r@) == strs(v@).take(i as int).map_values(
                        |n: Seq<char>| scoped(project@, n),
                    ),
                decreases v@.len() - i,
            {
                let s = scoped_name(project, v[i].as_str());
                let ghost before = r@;
                r.push(s);
                assert(strs(r@) =~= strs(before).push(s@));
                assert(strs(v@).take(i + 1) =~= strs(v@).take(i as int).push(v@[i as int]@));
                assert(strs(r@) =~= strs(v@).take(i + 1).map_values(
                    |n: Seq<char>| scoped(project@, n),
                ));
                i = i + 1;
            }
            assert(strs(v@).take(v@.len() as int) =~= strs(v@));
        },
        None => {
            assert(strs(r@) =~= declared(*names).map_values(|n: Seq<char>| scoped(project@, n)));
        },
    }
    r
}

/// Plans the deployment of `config` as project `project`.
pub fn deploy_plan(config: &ComposeConfig, project: &str) -> (r: DeployPlan)
    requires
        config.wf(),
    ensures
        strs(r.volumes@) == declared(config.volumes).map_values(|n: Seq<char>| scoped(project@, n)),
        strs(r.networks@) == declared(config.networks).map_values(
            |n: Seq<char>| scoped(project@, n),
        ),
        r.services@.len() == config.services@.len(),
        forall|i: int|
            0 <= i < r.services@.len() ==> is_service_spec(
                #[trigger] r.services@[i],
                project@,
                config.services@[i].0@,
                config.services@[i].1,
                declared(config.volumes),
            ),
{
    let empty: Vec<String> = Vec::new();
    let vols = match &config.volumes {
        Some(v) => v,
        None => &empty,
    };
    assert(strs(vols@) == declared(config.volumes)) by {
        if config.volumes.is_none() {
            assert(strs(empty@) =~= Seq::<Seq<char>>::empty());
        }
    }
    let mut services: Vec<ContainerSpec> = Vec::new();
    let mut i: usize = 0;
    while i < config.services.len()
        invariant
            strs(vols@) == declared(config.volumes),
            i <= config.services@.len(),
            services@.len() == i,
            forall|k: int|
                0 <= k < i ==> is_service_spec(
                    #[trigger] services@[k],
                    project@,
                    config.services@[k].0@,
                    config.services@[k].1,
                    declared(config.volumes),
                ),
        decreases config.services@.len() - i,
    {
        let s = service_spec(project, config.services[i].0.as_str(), &config.services[i].1, vols);
        services.push(s);
        i = i + 1;
    }
    DeployPlan {
        volumes: scoped_all(project, &config.volumes),
        networks: scoped_all(project, &config.networks),
        services,
    }
}

/// The compose project and service that a container's labels name, when both are there.
pub open spec fn compose_labels(c: ContainerSummary) -> Option<(Seq<char>, Seq<char>)> {
    match (label_of(pairs(c.labels@), project_label()), label_of(pairs(c.labels@), service_label())) {
        (Some(p), Some(s)) => Some((p, s)),
        _ => None,
    }
}

/// Container `c` belongs to project `p`.
pub open spec fn in_project(c: ContainerSummary, p: Seq<char>) -> bool {
    label_of(pairs(c.labels@), project_label()) == Some(p)
}

/// The ids of the containers of project `project`, in order.
pub fn project_container_ids(cs: &Vec<ContainerSummary>, project: &str) -> (r: Vec<String>)
    ensures
        strs(r@) == cs@.filter(|c: ContainerSummary| in_project(c, project@)).map_values(
            |c: ContainerSummary| c.id@,
        ),
{
    let ghost keep = |c: ContainerSummary| in_project(c, project@);
    let mut r: Vec<String> = Vec::new();
    let mut i: usize = 0;
    while i < cs.len()
        invariant
            keep == (|c: ContainerSummary| in_project(c, project@)),
            i <= cs@.len(),
            strs(r@) == cs@.take(i as int).filter(keep).map_values(|c: ContainerSummary| c.id@),
        decreases cs@.len() - i,
    {
        proof {
            reveal(Seq::filter);
            assert(cs@.take(i + 1).drop_last() =~= cs@.take(i as int));
            assert(cs@.take(i + 1).last() == cs@[i as int]);
        }
        let ghost before = strs(r@);
        let belongs = match find_label(&cs[i].labels, "com.docker.compose.project") {
            Some(p) => same_text(p.as_str(), project),
            None => false,
        };
        if belongs {
            r.push(cs[i].id.clone());
            assert(strs(r@) =~= before.push(cs@[i as int].id@));
        }
        assert(strs(r@) =~= cs@.take(i + 1).filter(keep).map_values(|c: ContainerSummary| c.id@));
        i = i + 1;
    }
    assert(cs@.take(cs@.len() as int) =~= cs@);
    r
}

/// The volume or network names that belong to project `project`: those
/// that start with `project_`.
pub fn project_resources(names: &Vec<String>, project: &str) -> (r: Vec<String>)
    ensures
        strs(r@) == strs(names@).filter(|n: Seq<char>| has_prefix(n, project@ + "_"@)),
{
    let ghost keep = |n: Seq<char>| has_prefix(n, project@ + "_"@);
    let prefix = joined(project, "_");
    let mut r: Vec<String> = Vec::new();
    let mut i: usize = 0;
    while i < names.len()
        invariant
            keep == (|n: Seq<char>| has_prefix(n, project@ + "_"@)),
            prefix@ == project@ + "_"@,
            i <= names@.len(),
            strs(r@) == strs(names@).take(i as int).filter(keep),
        decreases names@.len() - i,
    {
        proof {
            reveal(Seq::filter);
            assert(strs(names@).take(i + 1).drop_last() =~= strs(names@).take(i as int));
            assert(strs(names@).take(i + 1).last() == names@[i as int]@);
        }
        let ghost before = strs(r@);
        if starts_with_text(names[i].as_str(), prefix.as_str()) {
            r.push(names[i].clone());
            assert(strs(r@) =~= before.push(names@[i as int]@));
        }
        assert(strs(r@) =~= strs(names@).take(i + 1).filter(keep));
        i = i + 1;
    }
    assert(strs(names@).take(names@.len() as int) =~= strs(names@));
    r
}

/// One service of a running compose project.
#[derive(Debug, Clone)]
pub struct ComposeServiceStatus {
    pub name: String,
    pub container_id: String,
    pub container_name: String,
    pub status: String,
    pub image: String,
}

/// A compose project as found among the live containers.
#[derive(Debug, Clone)]
pub struct ComposeProject {
    pub name: String,
    pub services: Vec<ComposeServiceStatus>,
    pub created_at: String,
}

/// `s` is the status row of container `c`, a member of service `service`.
pub open spec fn is_service_status(s: ComposeServiceStatus, c: ContainerSummary, service: Seq<char>) -> bool {
    &&& s.name@ == service
    &&& s.container_id@ == c.id@
    &&& s.container_name@ == if c.names@.len() > 0 {
        strip_slashes(c.names@[0]@)
    } else {
        Seq::empty()
    }
    &&& s.status@ == match c.state {
        Some(t) => t@,
        None => Seq::empty(),
    }
    &&& s.image@ == match c.image {
        Some(t) => t@,
        None => Seq::empty(),
    }
}

fn service_status(c: &ContainerSummary, service: String) -> (r: ComposeServiceStatus)
    ensures
        is_service_status(r, *c, service@),
{
    ComposeServiceStatus {
        name: service,
        container_id: c.id.clone(),
        container_name: if c.names.len() > 0 {
            trim_slashes(c.names[0].as_str())
        } else {
            String::new()
        },
        status: match &c.state {
            Some(t) => t.clone(),
            None => String::new(),
        },
        image: match &c.image {
            Some(t) => t.clone(),
            None => String::new(),
        },
    }
}

/// The containers that carry both compose labels, with project `p`.
pub open spec fn members(cs: Seq<ContainerSummary>, p: Seq<char>) -> Seq<ContainerSummary> {
    cs.filter(member_of(p))
}

/// Carries both compose labels, with project `p`.
pub open spec fn member_of(p: Seq<char>) -> spec_fn(ContainerSummary) -> bool {
    |c: ContainerSummary| compose_labels(c) matches Some(l) && l.0 == p
}

/// Some project in `r` is named `p`.
fn has_project(r: &Vec<ComposeProject>, p: &str) -> (b: bool)
    ensures
        b == exists|x: int| 0 <= x < r@.len() && r@[x].name@ == p@,
{
    let mut k: usize = 0;
    while k < r.len()
        invariant
            k <= r@.len(),
            forall|x: int| 0 <= x < k ==> r@[x].name@ != p@,
        decreases r@.len() - k,
    {
        if same_text(r[k].name.as_str(), p) {
            return true;
        }
        k = k + 1;
    }
    false
}

/// Groups the containers that carry both compose labels by project, each
/// project once, in the order of its first container; each project lists
/// its containers in order.
pub fn group_projects(cs: &Vec<ContainerSummary>, created_at: &str) -> (r: Vec<ComposeProject>)
    ensures
        forall|a: int, b: int|
            0 <= a < b < r@.len() ==> #[trigger] r@[a].name@ != #[trigger] r@[b].name@,
        forall|i: int|
            0 <= i < cs@.len() ==> (#[trigger] compose_labels(cs@[i]) matches Some(l) ==> exists|k: int|
                0 <= k < r@.len() && r@[k].name@ == l.0),
        forall|k: int|
            0 <= k < r@.len() ==> {
                let m = members(cs@, (#[trigger] r@[k]).name@);
                &&& r@[k].created_at@ == created_at@
                &&& m.len() > 0
                &&& r@[k].services@.len() == m.len()
                &&& forall|j: int|
                    0 <= j < m.len() ==> is_service_status(
                        #[trigger] r@[k].services@[j],
                        m[j],
                        compose_labels(m[j])->Some_0.1,
                    )
            },
{
    let mut r: Vec<ComposeProject> = Vec::new();
    let mut i: usize = 0;
    while i < cs.len()
        invariant
            i <= cs@.len(),
            forall|a: int, b: int|
                0 <= a < b < r@.len() ==> #[trigger] r@[a].name@ != #[trigger] r@[b].name@,
            forall|x: int|
                0 <= x < i ==> (#[trigger] compose_labels(cs@[x]) matches Some(l) ==> exists|k: int|
                    0 <= k < r@.len() && r@[k].name@ == l.0),
            forall|k: int|
                0 <= k < r@.len() ==> {
                    let m = members(cs@, (#[trigger] r@[k]).name@);
                    &&& r@[k].created_at@ == created_at@
                    &&& m.len() > 0
                    &&& r@[k].services@.len() == m.len()
                    &&& forall|j: int|
                        0 <= j < m.len() ==> is_service_status(
                            #[trigger] r@[k].services@[j],
                            m[j],
                            compose_labels(m[j])->Some_0.1,
                        )
                },
        decreases cs@.len() - i,
    {
        let labels = (
            find_label(&cs[i].labels, "com.docker.compose.project"),
            find_label(&cs[i].labels, "com.docker.compose.service"),
        );
        match labels {
            (Some(p), Some(s)) => {
                assert(compose_labels(cs@[i as int]) == Some((p@, s@)));
                if !has_project(&r, p.as_str()) {
                    let services = project_services(cs, p.as_str());
                    proof {
                        cs@.lemma_filter_contains(member_of(p@), i as int);
                    }
                    let ghost r0 = r@;
                    r.push(
                        ComposeProject { name: p, services, created_at: String::from_str(created_at) },
                    );
                    assert(r@[r@.len() - 1].name@ == p@);
                    assert forall|k: int| 0 <= k < r@.len() - 1 implies r@[k] == r0[k] by {}
                }
            },
            _ => {},
        }
        i = i + 1;
    }
    r
}

fn project_services(cs: &Vec<ContainerSummary>, p: &str) -> (r: Vec<ComposeServiceStatus>)
    ensures
        r@.len() == members(cs@, p@).len(),
        forall|j: int|
            0 <= j < r@.len() ==> is_service_status(
                #[trigger] r@[j],
                members(cs@, p@)[j],
                compose_labels(members(cs@, p@)[j])->Some_0.1,
            ),
{
    let ghost keep = member_of(p@);
    let mut r: Vec<ComposeServiceStatus> = Vec::new();
    let mut i: usize = 0;
    while i < cs.len()
        invariant
            keep == member_of(p@),
            i <= cs@.len(),
            r@.len() == cs@.take(i as int).filter(keep).len(),
            forall|j: int|
                0 <= j < r@.len() ==> is_service_status(
                    #[trigger] r@[j],
                    cs@.take(i as int).filter(keep)[j],
                    compose_labels(cs@.take(i as int).filter(keep)[j])->Some_0.1,
                ),
        decreases cs@.len() - i,
    {
        proof {
            reveal(Seq::filter);
            assert(cs@.take(i + 1).drop_last() =~= cs@.take(i as int));
            assert(cs@.take(i + 1).last() == cs@[i as int]);
        }
        let labels = (
            find_label(&cs[i].labels, "com.docker.compose.project"),
            find_label(&cs[i].labels, "com.docker.compose.service"),
        );
        match labels {
            (Some(q), Some(s)) => {
                if same_text(q.as_str(), p) {
                    let st = service_status(&cs[i], s);
                    r.push(st);
                }
            },
            _ => {},
        }
        i = i + 1;
    }
    assert(cs@.take(cs@.len() as int) =~= cs@);
    r
}

} // verus!
