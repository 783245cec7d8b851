use amp_actor::actor::{
    Actor, ActorSpec, Build, ContainerPort, EnvVar, Partner, Port, Service, ServicePort,
};
use amp_actor::locator::url;
use amp_actor::status::{ActorState, ActorStatus};

fn spec(repository: &str, reference: Option<&str>, path: Option<&str>) -> ActorSpec {
    ActorSpec {
        name: "hello".to_string(),
        description: "a greeting service".to_string(),
        image: "registry.example.com/apps/hello".to_string(),
        command: None,
        repository: repository.to_string(),
        path: path.map(|p| p.to_string()),
        reference: reference.map(|r| r.to_string()),
        commit: "abc123".to_string(),
        environments: None,
        partners: None,
        services: None,
        sync: None,
        build: None,
    }
}

fn port(port: i32, expose: Option<bool>) -> Port {
    Port { port, protocol: Some("TCP".to_string()), expose }
}

fn build_with(dockerfile: Option<&str>, builder: Option<&str>) -> Build {
    Build {
        context: None,
        env: None,
        dockerfile: dockerfile.map(|d| d.to_string()),
        builder: builder.map(|b| b.to_string()),
        buildpacks: None,
    }
}

#[test]
fn locator_without_reference_is_repository() {
    let s = spec("https://example.com/r.git", None, None);
    assert_eq!(s.url(), "https://example.com/r.git");
}

#[test]
fn locator_ignores_path_without_reference() {
    let s = spec("https://example.com/r.git", None, Some("svc/.amp.toml"));
    assert_eq!(s.url(), "https://example.com/r.git");
}

#[test]
fn locator_with_reference_only() {
    let s = spec("https://example.com/r.git", Some("main"), None);
    assert_eq!(s.url(), "https://example.com/r.git#main");
}

#[test]
fn locator_with_reference_and_path() {
    let s = spec("https://example.com/r.git", Some("v1.2"), Some("a/b.toml"));
    let first = s.url();
    assert_eq!(first, "https://example.com/r.git#v1.2:a/b.toml");
    let at_ref = first.find("v1.2").unwrap();
    let at_path = first.find("a/b.toml").unwrap();
    assert!(at_ref < at_path);
    assert_eq!(s.url(), first);
}

#[test]
fn locator_free_function() {
    let r = Some("dev".to_string());
    let p = Some("x/.amp.toml".to_string());
    assert_eq!(url("git@example.com:o/r.git", &r, &p), "git@example.com:o/r.git#dev:x/.amp.toml");
    assert_eq!(url("git@example.com:o/r.git", &None, &p), "git@example.com:o/r.git");
}

#[test]
fn partner_locator_matches_actor_locator() {
    let partner = Partner {
        name: "db".to_string(),
        repository: "https://example.com/db.git".to_string(),
        path: Some("db/.amp.toml".to_string()),
        reference: Some("stable".to_string()),
    };
    let s = spec("https://example.com/db.git", Some("stable"), Some("db/.amp.toml"));
    assert_eq!(partner.url(), "https://example.com/db.git#stable:db/.amp.toml");
    assert_eq!(partner.url(), s.url());
}

#[test]
fn has_dockerfile_follows_build() {
    let mut s = spec("r", None, None);
    assert!(!s.has_dockerfile());
    s.build = Some(build_with(None, Some("paketobuildpacks/builder")));
    assert!(!s.has_dockerfile());
    s.build = Some(build_with(Some("Dockerfile"), None));
    assert!(s.has_dockerfile());
    s.build = Some(build_with(Some("Dockerfile"), Some("paketobuildpacks/builder")));
    assert!(s.has_dockerfile());
}

#[test]
fn ports_absent_without_services() {
    let s = spec("r", None, None);
    assert_eq!(s.container_ports(), None);
    assert_eq!(s.service_ports(), None);
}

#[test]
fn ports_of_empty_services() {
    let mut s = spec("r", None, None);
    s.services = Some(vec![]);
    assert_eq!(s.container_ports(), Some(vec![]));
    assert_eq!(s.service_ports(), None);
}

#[test]
fn container_ports_count_every_port() {
    let mut s = spec("r", None, None);
    s.services = Some(vec![
        Service { kind: None, ports: vec![port(80, Some(true)), port(81, None)] },
        Service { kind: Some("worker".to_string()), ports: vec![] },
        Service { kind: None, ports: vec![port(90, Some(false)), port(91, Some(true)), port(92, None)] },
    ]);
    let c = s.container_ports().unwrap();
    assert_eq!(c.len(), 5);
    let numbers: Vec<i32> = c.iter().map(|p| p.container_port).collect();
    assert_eq!(numbers, vec![80, 81, 90, 91, 92]);
    assert_eq!(c[0], ContainerPort { container_port: 80, protocol: Some("TCP".to_string()) });
    let sp = s.service_ports().unwrap();
    assert_eq!(
        sp,
        vec![
            ServicePort { port: 80, protocol: Some("TCP".to_string()) },
            ServicePort { port: 91, protocol: Some("TCP".to_string()) },
        ]
    );
}

#[test]
fn service_ports_absent_when_nothing_exposed() {
    let mut s = spec("r", None, None);
    s.services = Some(vec![Service { kind: None, ports: vec![port(80, None), port(81, Some(false))] }]);
    assert_eq!(s.container_ports().unwrap().len(), 2);
    assert_eq!(s.service_ports(), None);
}

#[test]
fn environments_projection() {
    let mut s = spec("r", None, None);
    assert_eq!(s.environments(), None);
    s.environments = Some(vec![
        ("A".to_string(), "1".to_string()),
        ("B".to_string(), "2".to_string()),
    ]);
    let vars = s.environments().unwrap();
    assert_eq!(vars.len(), 2);
    let a = EnvVar { name: "A".to_string(), value: Some("1".to_string()) };
    let b = EnvVar { name: "B".to_string(), value: Some("2".to_string()) };
    assert!(vars.contains(&a));
    assert!(vars.contains(&b));
}

#[test]
fn environments_empty_map() {
    let mut s = spec("r", None, None);
    s.environments = Some(vec![]);
    assert_eq!(s.environments(), Some(vec![]));
}

#[test]
fn build_name_and_docker_tag() {
    let actor = Actor::new("hello", spec("r", None, None));
    assert_eq!(actor.name, "hello");
    assert!(actor.status.is_none());
    assert_eq!(actor.build_name(), "hello-abc123");
    assert_eq!(actor.docker_tag(), "registry.example.com/apps/hello:abc123");
}

#[test]
fn state_names() {
    assert_eq!(ActorState::Pending.to_string(), "Pending");
    assert_eq!(ActorState::Building.to_string(), "Building");
    assert_eq!(ActorState::Running.to_string(), "Running");
    assert_eq!(ActorState::Failed.to_string(), "Failed");
}

#[test]
fn constructed_conditions() {
    let p = ActorState::pending();
    assert_eq!(p.type_, "Pending");
    assert_eq!(p.status, "True");
    assert_eq!(p.reason, "Created");
    assert_eq!(p.message, "");
    assert_eq!(p.observed_generation, None);
    assert!(p.last_transition_time > 0);
    let b = ActorState::building();
    assert_eq!(b.type_, "Building");
    assert_eq!(b.reason, "Build");
    let r = ActorState::running(false, "image_pull_backoff", Some("waiting".to_string()));
    assert_eq!(r.type_, "Running");
    assert_eq!(r.status, "False");
    assert_eq!(r.reason, "ImagePullBackoff");
    assert_eq!(r.message, "waiting");
    let f = ActorState::failed(true, "build failed", None);
    assert_eq!(f.type_, "Failed");
    assert_eq!(f.status, "True");
    assert_eq!(f.reason, "BuildFailed");
    assert_eq!(f.message, "");
}

#[test]
fn empty_status_asserts_nothing() {
    let st = ActorStatus::new();
    assert!(st.conditions().is_empty());
    assert!(!st.pending());
    assert!(!st.building());
    assert!(!st.running());
    assert!(!st.failed());
}

#[test]
fn status_queries_after_push() {
    let mut st = ActorStatus::new();
    st.push(ActorState::pending());
    assert!(st.pending());
    assert!(!st.building());
    st.push(ActorState::building());
    assert!(st.building());
    st.push(ActorState::running(true, "Started", None));
    assert!(st.running());
    assert!(!st.failed());
    st.push(ActorState::failed(true, "Crashed", Some("exit 1".to_string())));
    assert!(st.failed());
    assert_eq!(st.conditions().len(), 4);
}

#[test]
fn running_false_is_not_running() {
    let mut st = ActorStatus::new();
    st.push(ActorState::running(false, "Stopped", None));
    assert!(!st.running());
    st.push(ActorState::failed(false, "Recovered", None));
    assert!(!st.failed());
}

#[test]
fn end_to_end_scenario() {
    let mut s = spec("https://example.com/r.git", Some("main"), Some("svc/.amp.toml"));
    s.services = Some(vec![Service {
        kind: None,
        ports: vec![
            Port { port: 8080, protocol: None, expose: Some(true) },
            Port { port: 9090, protocol: None, expose: Some(false) },
        ],
    }]);
    s.build = Some(build_with(Some("Dockerfile"), None));
    let locator = s.url();
    assert!(locator.contains("main"));
    assert!(locator.contains("svc/.amp.toml"));
    assert!(s.has_dockerfile());
    let container: Vec<i32> = s.container_ports().unwrap().iter().map(|p| p.container_port).collect();
    assert_eq!(container, vec![8080, 9090]);
    let service: Vec<i32> = s.service_ports().unwrap().iter().map(|p| p.port).collect();
    assert_eq!(service, vec![8080]);
}

#[test]
fn upsert_replaces_same_type() {
    let mut st = ActorStatus::new();
    st.upsert(ActorState::pending());
    st.upsert(ActorState::running(false, "Starting", None));
    assert!(!st.running());
    st.upsert(ActorState::running(true, "Started", None));
    assert!(st.running());
    assert!(st.pending());
    assert_eq!(st.conditions().len(), 2);
    assert_eq!(st.conditions()[1].reason, "Started");
    st.upsert(ActorState::running(true, "Started", None));
    assert_eq!(st.conditions().len(), 2);
    st.upsert(ActorState::failed(true, "Crashed", None));
    assert_eq!(st.conditions().len(), 3);
    assert_eq!(st.conditions()[2].type_, "Failed");
}

#[test]
fn push_keeps_duplicates() {
    let mut st = ActorStatus::new();
    st.push(ActorState::running(false, "Stopped", None));
    st.push(ActorState::running(true, "Started", None));
    assert_eq!(st.conditions().len(), 2);
    assert!(st.running());
}
