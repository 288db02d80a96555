//! A runtime-agnostic description of a container to create, and the
//! runtime's view of an existing container.
use vstd::prelude::*;

verus! {

/// The character sequences of a vector of strings.
pub open spec fn strs(v: Seq<String>) -> Seq<Seq<char>> {
    v.map_values(|s: String| s@)
}

/// The character sequences of a vector of key/value pairs.
pub open spec fn pairs(v: Seq<(String, String)>) -> Seq<(Seq<char>, Seq<char>)> {
    v.map_values(|p: (String, String)| (p.0@, p.1@))
}

/// `a` followed by `b`.
pub fn joined(a: &str, b: &str) -> (r: String)
    ensures
        r@ == a@ + b@,
{
    let mut r = String::from_str(a);
    r.append(b);
    r
}

/// `a`, then `b`, then `c`.
pub fn joined3(a: &str, b: &str, c: &str) -> (r: String)
    ensures
        r@ == a@ + b@ + c@,
{
    let mut r = String::from_str(a);
    r.append(b);
    r.append(c);
    r
}

/// A host port published for a container port.
#[derive(Debug, Clone)]
pub struct PortBinding {
    /// The container side, as `port/protocol`.
    pub container_port: String,
    pub host_ip: String,
    pub host_port: String,
}

/// Everything the runtime needs to create a container.
#[derive(Debug, Clone)]
pub struct ContainerSpec {
    pub name: String,
    pub image: String,
    pub env: Vec<String>,
    /// Replaces the image's start command when present.
    pub cmd: Option<Vec<String>>,
    pub exposed_ports: Vec<String>,
    pub port_bindings: Vec<PortBinding>,
    /// Mounts as `source:destination`.
    pub binds: Vec<String>,
    /// Memory limit in bytes.
    pub memory: Option<i64>,
    /// CPU limit in billionths of a core.
    pub nano_cpus: Option<i64>,
    pub restart_policy: Option<String>,
    pub network_mode: Option<String>,
    pub labels: Vec<(String, String)>,
}

/// The mathematical value of a port binding.
pub open spec fn binding_model(b: PortBinding) -> (Seq<char>, Seq<char>, Seq<char>) {
    (b.container_port@, b.host_ip@, b.host_port@)
}

pub open spec fn bindings_model(v: Seq<PortBinding>) -> Seq<(Seq<char>, Seq<char>, Seq<char>)> {
    v.map_values(|b: PortBinding| binding_model(b))
}

/// A container as the runtime lists it.
#[derive(Debug, Clone)]
pub struct ContainerSummary {
    pub id: String,
    /// Names as the runtime reports them, each with a leading `/`.
    pub names: Vec<String>,
    /// The host ports it publishes, in the runtime's order.
    pub published_ports: Vec<u16>,
    pub state: Option<String>,
    pub image: Option<String>,
    /// Seconds since the Unix epoch.
    pub created: i64,
    pub labels: Vec<(String, String)>,
    /// The names of the volumes it mounts, once per mount.
    pub mounts: Vec<String>,
}

} // verus!
