use doco::{Doco, Server, Service, Viewport};


fn assert_send<T: Send>() {}
fn assert_sync<T: Sync>() {}
fn assert_unpin<T: Unpin>() {}

fn hello_world() -> Server {
    Server::builder()
        .image("crccheck/hello-world")
        .tag("v1.0.0")
        .port(8000)
        .build()
}

#[test]
fn doco_service_collects_services() {
    let server = Server::builder()
        .image("crccheck/hello-world")
        .tag("v1.0.0")
        .port(8000)
        .build();

    let doco = Doco::builder()
        .server(server)
        .service(Service::builder().image("first").tag("latest").build())
        .service(Service::builder().image("second").tag("latest").build())
        .build();

    assert_eq!(doco.services().len(), 2);
}

#[test]
fn doco_trait_send() {
    assert_send::<Doco>();
}

#[test]
fn doco_trait_sync() {
    assert_sync::<Doco>();
}

#[test]
fn doco_trait_unpin() {
    assert_unpin::<Doco>();
}

#[test]
fn services_keep_their_order() {
    let doco = Doco::builder()
        .service(Service::builder().image("postgres").tag("16").build())
        .server(hello_world())
        .service(Service::builder().image("redis").tag("7").build())
        .build();

    let images: Vec<&str> = doco.services().iter().map(|s| s.image().as_str()).collect();
    assert_eq!(images, vec!["postgres", "redis"]);
    assert_eq!(doco.server().image(), "crccheck/hello-world");
    assert_eq!(doco.server().port(), 8000);
}

#[test]
fn headless_defaults_to_ci_detection() {
    let doco = Doco::builder().server(hello_world()).build();

    assert_eq!(doco.headless_setting(), None);
    assert!(doco.headless(true));
    assert!(!doco.headless(false));
}

#[test]
fn explicit_headless_overrides_ci_detection() {
    let headed = Doco::builder().server(hello_world()).headless(false).build();
    let headless = Doco::builder().server(hello_world()).headless(true).build();

    assert_eq!(headed.headless_setting(), Some(false));
    assert!(!headed.headless(true));
    assert!(headless.headless(false));
}

#[test]
fn viewport_is_optional() {
    let without = Doco::builder().server(hello_world()).build();
    let with = Doco::builder().server(hello_world()).viewport(Viewport::new(1280, 720)).build();

    assert_eq!(*without.viewport(), None);
    assert_eq!(*with.viewport(), Some(Viewport::new(1280, 720)));
}

#[test]
fn service_builder_collects_configuration() {
    let service = Service::builder()
        .image("postgres")
        .tag("16")
        .env("POSTGRES_PASSWORD", "secret")
        .mount(testcontainers::core::Mount::tmpfs_mount("/var/lib/postgresql/data"))
        .cmd_arg("postgres")
        .cmd_arg("-c")
        .build();

    assert_eq!(service.image(), "postgres");
    assert_eq!(service.tag(), "16");
    assert_eq!(service.envs().len(), 1);
    assert_eq!(service.envs()[0].name(), "POSTGRES_PASSWORD");
    assert_eq!(service.mounts().len(), 1);
    assert_eq!(service.cmd().len(), 2);
    assert!(service.wait().is_none());
}
