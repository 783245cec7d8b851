//! The declarative description of an actor and the projections the deployer
//! consumes: source locator, build mode, environment and ports.

use crate::locator::{locator, opt_text, url};
use crate::status::ActorStatus;
use vstd::prelude::*;

verus! {

/// Whether no two entries of a name/value list share a name.
pub open spec fn names_unique(vars: Seq<(String, String)>) -> bool {
    forall|i: int, j: int|
        0 <= i < vars.len() && 0 <= j < vars.len() && i != j ==> (#[trigger] vars[i]).0@
            != (#[trigger] vars[j]).0@
}

/// Describes how images are built.
#[derive(Clone, Debug, PartialEq)]
pub struct Build {
    /// Directory containing the artifact's sources.
    pub context: Option<String>,
    /// Build-time variables, as name/value pairs with unique names.
    pub env: Option<Vec<(String, String)>>,
    /// The Dockerfile, relative to the workspace; its presence selects a
    /// Dockerfile build.
    pub dockerfile: Option<String>,
    /// Builder image for a Cloud Native Buildpacks build.
    pub builder: Option<String>,
    /// The buildpacks to use with the builder, in order.
    pub buildpacks: Option<Vec<String>>,
}

/// A port the container listens on.
#[derive(Clone, Debug, PartialEq)]
pub struct Port {
    pub port: i32,
    pub protocol: Option<String>,
    /// Whether the port is exposed on the network; absent means not.
    pub expose: Option<bool>,
}

/// Defines the behaviour of a service.
#[derive(Clone, Debug, PartialEq)]
pub struct Service {
    pub kind: Option<String>,
    pub ports: Vec<Port>,
}

/// A named dependency on another actor, fetched from its own source.
#[derive(Clone, Debug, PartialEq)]
pub struct Partner {
    /// The name of the partner.
    pub name: String,
    /// Source code repository the partner is cloned from.
    pub repository: String,
    /// Relative path from the repository root to the configuration file.
    pub path: Option<String>,
    /// Git reference the partner is cloned from.
    pub reference: Option<String>,
}

/// A port declared on the runtime container.
#[derive(Clone, Debug, PartialEq)]
pub struct ContainerPort {
    pub container_port: i32,
    pub protocol: Option<String>,
}

/// A port routed through the network service.
#[derive(Clone, Debug, PartialEq)]
pub struct ServicePort {
    pub port: i32,
    pub protocol: Option<String>,
}

/// An environment variable set in the container.
#[derive(Clone, Debug, PartialEq)]
pub struct EnvVar {
    pub name: String,
    pub value: Option<String>,
}

/// The declarative description of one actor.
#[derive(Clone, Debug, PartialEq)]
pub struct ActorSpec {
    /// The name of the actor.
    pub name: String,
    /// The description of the actor.
    pub description: String,
    /// The image to launch, `[<registry>/][<project>/]<image>[:<tag>|@<digest>]`.
    pub image: String,
    /// Overrides the default command of the image.
    pub command: Option<String>,
    /// Source code repository the actor is cloned from.
    pub repository: String,
    /// Relative path from the repository root to the configuration file.
    pub path: Option<String>,
    /// Git reference the actor is cloned from.
    pub reference: Option<String>,
    /// The resolved commit of the source.
    pub commit: String,
    /// Environment variables of the container, as name/value pairs with
    /// unique names.
    pub environments: Option<Vec<(String, String)>>,
    /// Other actors this one depends on.
    pub partners: Option<Vec<Partner>>,
    /// The services of the actor, in order.
    pub services: Option<Vec<Service>>,
    /// Rebuild and redeploy on every push to the source.
    pub sync: Option<bool>,
    /// How the image is built.
    pub build: Option<Build>,
}

/// An actor resource: its name, its specification and its observed status.
#[derive(Clone, Debug, PartialEq)]
pub struct Actor {
    pub name: String,
    pub spec: ActorSpec,
    pub status: Option<ActorStatus>,
}

/// The container port that declares `p`.
pub open spec fn container_port_of(p: Port) -> ContainerPort {
    ContainerPort { container_port: p.port, protocol: p.protocol }
}

/// The service port that routes `p`.
pub open spec fn service_port_of(p: Port) -> ServicePort {
    ServicePort { port: p.port, protocol: p.protocol }
}

/// Whether `p` is exposed on the network.
pub open spec fn is_exposed(p: Port) -> bool {
    p.expose == Some(true)
}

/// Every port of every service, in order, as container ports.
pub open spec fn container_ports_of(services: Seq<Service>) -> Seq<ContainerPort>
    decreases services.len(),
{
    if services.len() == 0 {
        seq![]
    } else {
        container_ports_of(services.drop_last()) + services.last().ports@.map_values(
            |p: Port| container_port_of(p),
        )
    }
}

/// The exposed ports of one list, in order, as service ports.
pub open spec fn exposed_ports_of(ports: Seq<Port>) -> Seq<ServicePort>
    decreases ports.len(),
{
    if ports.len() == 0 {
        seq![]
    } else {
        exposed_ports_of(ports.drop_last()) + if is_exposed(ports.last()) {
            seq![service_port_of(ports.last())]
        } else {
            seq![]
        }
    }
}

/// The exposed ports of every service, in order, as service ports.
pub open spec fn service_ports_of(services: Seq<Service>) -> Seq<ServicePort>
    decreases services.len(),
{
    if services.len() == 0 {
        seq![]
    } else {
        service_ports_of(services.drop_last()) + exposed_ports_of(services.last().ports@)
    }
}

/// The number of ports over all services.
pub open spec fn total_ports(services: Seq<Service>) -> int
    decreases services.len(),
{
    if services.len() == 0 {
        0
    } else {
        total_ports(services.drop_last()) + services.last().ports@.len()
    }
}

/// The number of exposed ports in one list.
pub open spec fn exposed_count(ports: Seq<Port>) -> int
    decreases ports.len(),
{
    if ports.len() == 0 {
        0
    } else {
        exposed_count(ports.drop_last()) + if is_exposed(ports.last()) {
            1int
        } else {
            0int
        }
    }
}

/// The number of exposed ports over all services.
pub open spec fn total_exposed(services: Seq<Service>) -> int
    decreases services.len(),
{
    if services.len() == 0 {
        0
    } else {
        total_exposed(services.drop_last()) + exposed_count(services.last().ports@)
    }
}

fn copy_text(o: &Option<String>) -> (r: Option<String>)
    ensures
        r == *o,
{
    match o {
        Some(s) => Some(s.clone()),
        None => None,
    }
}

/// The environment variable that sets `var.0` to `var.1`.
pub open spec fn env_var_of(var: (String, String)) -> EnvVar {
    EnvVar { name: var.0, value: Some(var.1) }
}

/// One environment variable per name/value pair, in order.
pub open spec fn env_vars_of(vars: Seq<(String, String)>) -> Seq<EnvVar> {
    vars.map_values(|v: (String, String)| env_var_of(v))
}

/// Turns name/value pairs into environment variables, one per pair.
pub fn to_env_var(vars: &Vec<(String, String)>) -> (r: Vec<EnvVar>)
    ensures
        r@ == env_vars_of(vars@),
{
    let mut out: Vec<EnvVar> = Vec::new();
    let mut i: usize = 0;
    while i < vars.len()
        invariant
            i <= vars@.len(),
            out@ == env_vars_of(vars@.take(i as int)),
        decreases vars@.len() - i,
    {
        let (name, value) = &vars[i];
        out.push(EnvVar { name: name.clone(), value: Some(value.clone()) });
        proof {
            assert(env_vars_of(vars@.take(i + 1)) =~= env_vars_of(vars@.take(i as int)).push(
                env_var_of(vars@[i as int]),
            ));
        }
        i += 1;
    }
    proof {
        assert(vars@.take(i as int) =~= vars@);
    }
    out
}

/// Concatenates `a`, `sep` and `b`.
fn join(a: &String, sep: &str, b: &String) -> (r: String)
    ensures
        r@ == a@ + sep@ + b@,
{
    let mut out = a.clone();
    out.append(sep);
    out.append(b.as_str());
    out
}

impl Actor {
    /// An actor named `name` with the given specification and no status yet.
    pub fn new(name: &str, spec: ActorSpec) -> (r: Actor)
        ensures
            r.name@ == name@,
            r.spec == spec,
            r.status is None,
    {
        Actor { name: name.to_owned(), spec, status: None }
    }

    /// The name of the image build: `name-commit`.
    pub fn build_name(&self) -> (r: String)
        ensures
            r@ == self.spec.name@ + seq!['-'] + self.spec.commit@,
    {
        proof {
            reveal_strlit("-");
        }
        join(&self.spec.name, "-", &self.spec.commit)
    }

    /// The tag of the built image: `image:commit`.
    pub fn docker_tag(&self) -> (r: String)
        ensures
            r@ == self.spec.image@ + seq![':'] + self.spec.commit@,
    {
        proof {
            reveal_strlit(":");
        }
        join(&self.spec.image, ":", &self.spec.commit)
    }
}

impl Partner {
    /// The source locator of the partner.
    pub fn url(&self) -> (r: String)
        ensures
            r@ == locator(self.repository@, opt_text(self.reference), opt_text(self.path)),
    {
        url(self.repository.as_str(), &self.reference, &self.path)
    }
}

impl ActorSpec {
    /// The source locator of the actor.
    pub fn url(&self) -> (r: String)
        ensures
            r@ == locator(self.repository@, opt_text(self.reference), opt_text(self.path)),
    {
        url(self.repository.as_str(), &self.reference, &self.path)
    }

    /// Whether the image is built from a Dockerfile.
    pub fn has_dockerfile(&self) -> (r: bool)
        ensures
            r == (self.build is Some && self.build->0.dockerfile is Some),
    {
        match &self.build {
            Some(build) => build.dockerfile.is_some(),
            None => false,
        }
    }

    /// The container's environment variables, one per declared pair; absent
    /// when no environment is declared.
    pub fn environments(&self) -> (r: Option<Vec<EnvVar>>)
        ensures
            match self.environments {
                None => r is None,
                Some(vars) => r is Some && r->0@ == env_vars_of(vars@),
            },
    {
        match &self.environments {
            Some(vars) => Some(to_env_var(vars)),
            None => None,
        }
    }
    /// The ports the container listens on: every port of every service,
    /// exposed or not, in order; absent when no services are declared.
    pub fn container_ports(&self) -> (r: Option<Vec<ContainerPort>>)
        ensures
            match self.services {
                None => r is None,
                Some(services) => r is Some && r->0@ == container_ports_of(services@),
            },
    {
        let services = match &self.services {
            Some(s) => s,
            None => return None,
        };
        let mut ports: Vec<ContainerPort> = Vec::new();
        let mut i: usize = 0;
        while i < services.len()
            invariant
                i <= services@.len(),
                ports@ == container_ports_of(services@.take(i as int)),
            decreases services@.len() - i,
        {
            let service = &services[i];
            let ghost before = ports@;
            let mut j: usize = 0;
            while j < service.ports.len()
                invariant
                    j <= service.ports@.len(),
                    ports@ == before + service.ports@.take(j as int).map_values(
                        |p: Port| container_port_of(p),
                    ),
                decreases service.ports@.len() - j,
            {
                let p = &service.ports[j];
                ports.push(ContainerPort { container_port: p.port, protocol: copy_text(&p.protocol) });
                proof {
                    assert(service.ports@.take(j + 1).map_values(|p: Port| container_port_of(p))
                        =~= service.ports@.take(j as int).map_values(|p: Port| container_port_of(p)).push(
                        container_port_of(service.ports@[j as int]),
                    ));
                }
                j += 1;
            }
            proof {
                assert(services@.take(i + 1).drop_last() =~= services@.take(i as int));
                assert(service.ports@.take(j as int) =~= service.ports@);
            }
            i += 1;
        }
        proof {
            assert(services@.take(i as int) =~= services@);
        }
        Some(ports)
    }
    /// The ports routed through the network: the exposed ports of every
    /// service, in order; absent when no services are declared or none of
    /// their ports is exposed.
    pub fn service_ports(&self) -> (r: Option<Vec<ServicePort>>)
        ensures
            match self.services {
                None => r is None,
                Some(services) => if service_ports_of(services@).len() == 0 {
                    r is None
                } else {
                    r is Some && r->0@ == service_ports_of(services@)
                },
            },
    {
        let services = match &self.services {
            Some(s) => s,
            None => return None,
        };
        let mut ports: Vec<ServicePort> = Vec::new();
        let mut i: usize = 0;
        while i < services.len()
            invariant
                i <= services@.len(),
                ports@ == service_ports_of(services@.take(i as int)),
            decreases services@.len() - i,
        {
            let service = &services[i];
            let ghost before = ports@;
            let mut j: usize = 0;
            while j < service.ports.len()
                invariant
                    j <= service.ports@.len(),
                    ports@ == before + exposed_ports_of(service.ports@.take(j as int)),
                decreases service.ports@.len() - j,
            {
                let p = &service.ports[j];
                proof {
                    assert(service.ports@.take(j + 1).drop_last() =~= service.ports@.take(j as int));
                }
                if p.expose.unwrap_or(false) {
                    ports.push(ServicePort { port: p.port, protocol: copy_text(&p.protocol) });
                }
                proof {
                    assert(ports@ =~= before + exposed_ports_of(service.ports@.take(j + 1)));
                }
                j += 1;
            }
            proof {
                assert(services@.take(i + 1).drop_last() =~= services@.take(i as int));
                assert(service.ports@.take(j as int) =~= service.ports@);
            }
            i += 1;
        }
        proof {
            assert(services@.take(i as int) =~= services@);
        }
        if ports.len() == 0 {
            None
        } else {
            Some(ports)
        }
    }
}

} // verus!
