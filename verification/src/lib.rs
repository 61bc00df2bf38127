//! Doco: configuration and container planning for end-to-end tests of web applications.
//!
//! The library holds the verified part of Doco: the configuration of the server under test, its
//! services and the browser, and the decisions that turn that configuration into container
//! requests, WebDriver endpoints and base URLs.

pub mod browser;
pub mod containers;
pub mod config;
pub mod environment;
pub mod plan;
pub mod server;
pub mod service;
pub mod text;
pub mod viewport;

pub use crate::viewport::Viewport;
pub use crate::environment::Variable;
pub use crate::server::{Server, ServerBuilder};
pub use crate::service::{Service, ServiceBuilder};
pub use crate::config::{Doco, DocoBuilder};
pub use crate::plan::{ContainerPlan, HostEntry, HostTarget};
