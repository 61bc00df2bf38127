use doco::plan::{service_links, DOCKER_HOST, SELENIUM_PORT};
use doco::{ContainerPlan, HostEntry, HostTarget, Server, Service};

use testcontainers::Image;

fn host_names(plan: &ContainerPlan) -> Vec<String> {
    plan.hosts().iter().map(|h| h.name().clone()).collect()
}

#[test]
fn selenium_plan_runs_firefox_with_webdriver_port() {
    let plan = ContainerPlan::selenium();

    assert_eq!(plan.image(), "selenium/standalone-firefox");
    assert_eq!(plan.tag(), "latest");
    assert_eq!(plan.exposed_port(), Some(4444));
    assert_eq!(SELENIUM_PORT, 4444);
    assert!(plan.has_wait());
    assert_eq!(host_names(&plan), vec!["host.docker.internal".to_string()]);
    assert_eq!(plan.hosts()[0].target(), HostTarget::Gateway);
    assert!(plan.envs().is_empty());
    assert!(plan.mounts().is_empty());
    assert!(plan.cmd().is_none());
}

#[test]
fn service_plan_reaches_host_as_doco() {
    let service = Service::builder()
        .image("postgres")
        .tag("16")
        .env("POSTGRES_PASSWORD", "secret")
        .wait(testcontainers::core::WaitFor::seconds(1))
        .build();

    let plan = ContainerPlan::for_service(&service);

    assert_eq!(plan.image(), "postgres");
    assert_eq!(plan.tag(), "16");
    assert_eq!(plan.exposed_port(), None);
    assert!(plan.has_wait());
    assert_eq!(host_names(&plan), vec!["doco".to_string()]);
    assert_eq!(plan.hosts()[0].target(), HostTarget::Gateway);
    assert_eq!(plan.envs().len(), 1);
    assert_eq!(plan.envs()[0].name(), "POSTGRES_PASSWORD");
    assert_eq!(plan.envs()[0].value(), "secret");
    assert!(plan.cmd().is_none());
}

#[test]
fn empty_command_keeps_image_default() {
    let server = Server::builder().image("doco").tag("latest").port(8080).build();
    let plan = ContainerPlan::for_server(&server, &Vec::new());

    assert!(plan.cmd().is_none());
}

#[test]
fn command_arguments_override_in_order() {
    let server = Server::builder()
        .image("caddy")
        .tag("2-alpine")
        .port(80)
        .cmd_arg("caddy")
        .cmd_arg("respond")
        .cmd_arg("--listen")
        .cmd_arg(":80")
        .cmd_arg("Hello World")
        .build();

    let plan = ContainerPlan::for_server(&server, &Vec::new());

    assert_eq!(
        plan.cmd().clone().unwrap(),
        vec!["caddy", "respond", "--listen", ":80", "Hello World"]
    );
}

#[test]
fn server_plan_links_services_after_docker_host() {
    let server = Server::builder()
        .image("app")
        .tag("latest")
        .port(8080)
        .env("DATABASE_URL", "postgres://postgres/app")
        .mount(testcontainers::core::Mount::bind_mount("/host/dist", "/srv"))
        .build();
    let services = vec![
        Service::builder().image("postgres").tag("16").build(),
        Service::builder().image("redis").tag("7").build(),
    ];
    let addresses = vec![HostTarget::Ipv4([172, 17, 0, 2]), HostTarget::Ipv4([172, 17, 0, 3])];

    let links = service_links(&services, &addresses);
    let plan = ContainerPlan::for_server(&server, &links);

    assert_eq!(plan.image(), "app");
    assert_eq!(plan.exposed_port(), Some(8080));
    assert!(!plan.has_wait());
    assert_eq!(host_names(&plan), vec![DOCKER_HOST, "postgres", "redis"]);
    assert_eq!(plan.hosts()[0].target(), HostTarget::Gateway);
    assert_eq!(plan.hosts()[1].target(), HostTarget::Ipv4([172, 17, 0, 2]));
    assert_eq!(plan.hosts()[2].target(), HostTarget::Ipv4([172, 17, 0, 3]));
    assert_eq!(plan.envs().len(), 1);
    assert_eq!(plan.envs()[0].value(), "postgres://postgres/app");
    assert_eq!(plan.mounts().len(), 1);
    assert_eq!(plan.mounts()[0].source(), Some("/host/dist"));
    assert_eq!(plan.mounts()[0].target(), Some("/srv"));
}

#[test]
fn host_entry_for_service_uses_image_name() {
    let service = Service::builder().image("redis").tag("7").build();
    let entry = HostEntry::for_service(&service, HostTarget::Ipv6([0; 16]));

    assert_eq!(entry.name(), "redis");
    assert_eq!(entry.target(), HostTarget::Ipv6([0; 16]));
}

#[test]
fn request_carries_the_plan() {
    let server = Server::builder()
        .image("caddy")
        .tag("2-alpine")
        .port(80)
        .env("A", "1")
        .env("B", "2")
        .mount(testcontainers::core::Mount::bind_mount("/host/dist", "/srv"))
        .cmd_arg("caddy")
        .cmd_arg("run")
        .build();
    let links = vec![HostEntry::new("postgres", HostTarget::Ipv4([10, 0, 0, 7]))];

    let request = ContainerPlan::for_server(&server, &links).into_request().0;

    assert_eq!(request.image().name(), "caddy");
    assert_eq!(request.image().tag(), "2-alpine");
    assert_eq!(request.image().expose_ports().len(), 1);
    let envs: Vec<(String, String)> = request
        .env_vars()
        .map(|(name, value)| (name.to_string(), value.to_string()))
        .collect();
    assert_eq!(
        envs,
        vec![("A".to_string(), "1".to_string()), ("B".to_string(), "2".to_string())]
    );
    let hosts: Vec<(String, String)> = request
        .hosts()
        .map(|(name, host)| (name.to_string(), host.to_string()))
        .collect();
    assert_eq!(
        hosts,
        vec![
            ("host.docker.internal".to_string(), "host-gateway".to_string()),
            ("postgres".to_string(), "10.0.0.7".to_string()),
        ]
    );
    assert_eq!(request.mounts().count(), 1);
    let cmd: Vec<String> = request.cmd().map(|c| c.to_string()).collect();
    assert_eq!(cmd, vec!["caddy", "run"]);
}

#[test]
fn request_without_command_keeps_default() {
    let service = Service::builder().image("redis").tag("7").build();

    let request = ContainerPlan::for_service(&service).into_request().0;

    assert_eq!(request.cmd().count(), 0);
    assert!(request.image().expose_ports().is_empty());
    let hosts: Vec<String> = request.hosts().map(|(name, _)| name.to_string()).collect();
    assert_eq!(hosts, vec!["doco"]);
}

#[test]
fn selenium_request_waits_and_exposes_webdriver() {
    let request = ContainerPlan::selenium().into_request().0;

    assert_eq!(request.image().name(), "selenium/standalone-firefox");
    assert_eq!(request.image().ready_conditions().len(), 1);
    assert_eq!(request.image().expose_ports().len(), 1);
}

#[test]
fn later_variable_replaces_earlier_in_request() {
    let server = Server::builder()
        .image("app")
        .tag("latest")
        .port(8080)
        .env("LOG_LEVEL", "info")
        .env("LOG_LEVEL", "debug")
        .build();

    let plan = ContainerPlan::for_server(&server, &Vec::new());
    assert_eq!(plan.envs().len(), 2);
    let request = plan.into_request().0;

    let envs: Vec<(String, String)> = request
        .env_vars()
        .map(|(name, value)| (name.to_string(), value.to_string()))
        .collect();
    assert_eq!(envs, vec![("LOG_LEVEL".to_string(), "debug".to_string())]);
}

#[test]
fn ipv6_service_address_reaches_request() {
    let services = vec![Service::builder().image("cache").tag("1").build()];
    let mut octets = [0u8; 16];
    octets[15] = 1;
    let links = service_links(&services, &vec![HostTarget::Ipv6(octets)]);
    let server = Server::builder().image("app").tag("latest").port(8080).build();

    let request = ContainerPlan::for_server(&server, &links).into_request().0;

    let hosts: Vec<(String, String)> = request
        .hosts()
        .map(|(name, host)| (name.to_string(), host.to_string()))
        .collect();
    assert_eq!(
        hosts,
        vec![
            ("cache".to_string(), "::1".to_string()),
            ("host.docker.internal".to_string(), "host-gateway".to_string()),
        ]
    );
}

#[test]
fn request_carries_image_port_and_mounts_in_order() {
    let server = Server::builder()
        .image("doco")
        .tag("latest")
        .port(8080)
        .mount(testcontainers::core::Mount::bind_mount("/host/path", "/container/path"))
        .mount(testcontainers::core::Mount::bind_mount("/host/other", "/container/other"))
        .wait(testcontainers::core::WaitFor::seconds(1))
        .build();

    let request = ContainerPlan::for_server(&server, &Vec::new()).into_request().0;

    assert_eq!(request.image().name(), "doco");
    assert_eq!(request.image().tag(), "latest");
    assert_eq!(
        request.image().expose_ports(),
        &[testcontainers::core::ContainerPort::Tcp(8080)]
    );
    assert_eq!(request.image().ready_conditions().len(), 1);
    let targets: Vec<Option<&str>> = request.mounts().map(|m| m.target()).collect();
    assert_eq!(targets, vec![Some("/container/path"), Some("/container/other")]);
}

#[test]
fn service_request_exposes_nothing() {
    let service = Service::builder()
        .image("postgres")
        .tag("16")
        .mount(testcontainers::core::Mount::tmpfs_mount("/data"))
        .build();

    let request = ContainerPlan::for_service(&service).into_request().0;

    assert_eq!(request.image().name(), "postgres");
    assert_eq!(request.image().tag(), "16");
    assert!(request.image().expose_ports().is_empty());
    assert!(request.image().ready_conditions().is_empty());
    assert_eq!(request.mounts().count(), 1);
}

#[test]
fn selenium_request_waits_for_standalone_message() {
    let request = ContainerPlan::selenium().into_request().0;

    assert_eq!(request.image().tag(), "latest");
    assert_eq!(
        request.image().expose_ports(),
        &[testcontainers::core::ContainerPort::Tcp(4444)]
    );
    let conditions = format!("{:?}", request.image().ready_conditions());
    assert!(conditions.contains("StdOut"));
    let expected = format!("{:?}", testcontainers::core::WaitFor::message_on_stdout("Started Selenium Standalone"));
    assert_eq!(conditions, format!("[{expected}]"));
}

#[test]
fn only_the_planned_port_is_exposed() {
    let service = Service::builder().image("redis").tag("7").build();
    let server = Server::builder().image("app").tag("latest").port(3000).build();

    assert!(ContainerPlan::for_service(&service).into_request().0.image().expose_ports().is_empty());
    assert_eq!(
        ContainerPlan::for_server(&server, &Vec::new()).into_request().0.image().expose_ports(),
        &[testcontainers::core::ContainerPort::Tcp(3000)]
    );
}
