use doco::{Server, Variable};


fn assert_send<T: Send>() {}
fn assert_sync<T: Sync>() {}
fn assert_unpin<T: Unpin>() {}

#[test]
fn cmd_arg_collects_args() {
    let server = Server::builder()
        .image("doco")
        .tag("latest")
        .port(8080)
        .cmd_arg("--config")
        .cmd_arg("/etc/app.toml")
        .build();

    assert_eq!(2, server.cmd().len());
}

#[test]
fn env_collects_variables() {
    let server = Server::builder()
        .image("doco")
        .tag("latest")
        .port(8080)
        .env("LOG_LEVEL", "debug")
        .env("PORT", "8080")
        .build();

    assert_eq!(2, server.envs().len());
}

#[test]
fn mount_collects_mounts() {
    let server = Server::builder()
        .image("doco")
        .tag("latest")
        .port(8080)
        .mount(testcontainers::core::Mount::bind_mount("/host/path", "/container/path"))
        .mount(testcontainers::core::Mount::bind_mount("/host/other", "/container/other"))
        .build();

    assert_eq!(2, server.mounts().len());
}

#[test]
fn server_trait_send() {
    assert_send::<Server>();
}

#[test]
fn server_trait_sync() {
    assert_sync::<Server>();
}

#[test]
fn server_trait_unpin() {
    assert_unpin::<Server>();
}

#[test]
fn builder_keeps_image_tag_and_port() {
    let server = Server::builder().port(3000).tag("v1.0.0").image("crccheck/hello-world").build();

    assert_eq!(server.image(), "crccheck/hello-world");
    assert_eq!(server.tag(), "v1.0.0");
    assert_eq!(server.port(), 3000);
    assert!(server.envs().is_empty());
    assert!(server.mounts().is_empty());
    assert!(server.cmd().is_empty());
    assert!(server.wait().is_none());
}

#[test]
fn builder_keeps_collected_values_in_order() {
    let server = Server::builder()
        .image("caddy")
        .tag("2-alpine")
        .port(80)
        .cmd_arg("caddy")
        .env("A", "1")
        .cmd_arg("respond")
        .env("B", "2")
        .build();

    assert_eq!(server.cmd(), &vec!["caddy".to_string(), "respond".to_string()]);
    let names: Vec<&str> = server.envs().iter().map(|v| v.name().as_str()).collect();
    let values: Vec<&str> = server.envs().iter().map(|v| v.value().as_str()).collect();
    assert_eq!(names, vec!["A", "B"]);
    assert_eq!(values, vec!["1", "2"]);
}

#[test]
fn builder_keeps_wait_condition() {
    let server = Server::builder()
        .image("doco")
        .tag("latest")
        .port(8080)
        .wait(testcontainers::core::WaitFor::seconds(1))
        .build();

    assert!(server.wait().is_some());
}

#[test]
fn variable_keeps_name_and_value() {
    let var = Variable::new("LOG_LEVEL", "debug");
    assert_eq!(var.name(), "LOG_LEVEL");
    assert_eq!(var.value(), "debug");
    let copy = var.duplicate();
    assert_eq!(copy.name(), "LOG_LEVEL");
    assert_eq!(copy.value(), "debug");
}
