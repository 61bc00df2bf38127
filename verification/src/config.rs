//! Configuration for end-to-end tests with Doco

use crate::server::{Server, ServerView};
use crate::service::{Service, ServiceView};
use crate::viewport::Viewport;
use vstd::prelude::*;

verus! {

/// The log filter that applies when `RUST_LOG` holds none: Doco's own messages from the info
/// level up, and warnings from everything else
pub const DEFAULT_LOG_FILTER: &'static str = "doco=info,warn";

/// The views of a sequence of services, in order
pub open spec fn services_view(s: Seq<Service>) -> Seq<ServiceView> {
    s.map_values(|x: Service| x@)
}

/// Whether the browser runs headless: as set explicitly, or else exactly when the `CI`
/// environment variable is set
pub open spec fn resolve_headless(setting: Option<bool>, ci_present: bool) -> bool {
    match setting {
        Some(headless) => headless,
        None => ci_present,
    }
}

/// An explicit headless setting decides the mode whatever the `CI` environment variable says;
/// only without one does the mode follow `CI`.
pub proof fn lemma_explicit_headless_wins(setting: bool, ci_present: bool)
    ensures
        resolve_headless(Some(setting), ci_present) == setting,
        resolve_headless(None, ci_present) == ci_present,
        resolve_headless(Some(false), ci_present) == false,
        resolve_headless(Some(true), ci_present) == true,
{
}

/// What a [`Doco`] configures
pub struct DocoView {
    /// The server that Doco will test
    pub server: ServerView,
    /// The services that the server depends on, in the order in which they were added
    pub services: Seq<ServiceView>,
    /// Whether the browser runs headless; `None` leaves it to the `CI` environment variable
    pub headless: Option<bool>,
    /// The browser viewport dimensions, if any
    pub viewport: Option<Viewport>,
}

/// Configuration for end-to-end tests with Doco
///
/// The `Doco` struct configures the environment that is used to run each test, most importantly
/// the application server and any additional services that it depends on. An instance of this
/// struct must be returned by the `main` function of the test suite.
#[derive(Clone, Debug)]
pub struct Doco {
    /// The server that Doco will test
    server: Server,
    /// Additional services (e.g. databases or caches) that the server depends on
    services: Vec<Service>,
    /// Whether to run the browser in headless mode
    ///
    /// When `Some(true)`, Firefox runs without a visible window. When not set, it is headless
    /// exactly when the `CI` environment variable is set.
    headless: Option<bool>,
    /// The browser viewport dimensions
    ///
    /// When set, the browser window is resized to these dimensions before each test runs.
    viewport: Option<Viewport>,
}

impl View for Doco {
    type V = DocoView;

    closed spec fn view(&self) -> DocoView {
        DocoView {
            server: self.server@,
            services: services_view(self.services@),
            headless: self.headless,
            viewport: self.viewport,
        }
    }
}

/// What a [`DocoBuilder`] has collected so far; the server is `()` until set
pub struct DocoBuilderView<S> {
    pub server: S,
    pub services: Seq<ServiceView>,
    pub headless: Option<bool>,
    pub viewport: Option<Viewport>,
}

/// Builder for a [`Doco`] configuration
///
/// The server must be set once before [`DocoBuilder::build`] can be called; services are
/// collected in order.
pub struct DocoBuilder<S> {
    server: S,
    services: Vec<Service>,
    headless: Option<bool>,
    viewport: Option<Viewport>,
}

impl<S> View for DocoBuilder<S> {
    type V = DocoBuilderView<S>;

    closed spec fn view(&self) -> DocoBuilderView<S> {
        DocoBuilderView {
            server: self.server,
            services: services_view(self.services@),
            headless: self.headless,
            viewport: self.viewport,
        }
    }
}

impl Doco {
    /// Starts building a configuration, with nothing configured
    pub fn builder() -> (b: DocoBuilder<()>)
        ensures
            b@.services == Seq::<ServiceView>::empty(),
            b@.headless is None,
            b@.viewport is None,
    {
        let b = DocoBuilder { server: (), services: Vec::new(), headless: None, viewport: None };
        assert(services_view(b.services@) =~= Seq::empty());
        b
    }

    /// The server that Doco will test
    pub fn server(&self) -> (server: &Server)
        ensures
            server@ == self@.server,
    {
        &self.server
    }

    /// Additional services (e.g. databases or caches) that the server depends on
    pub fn services(&self) -> (services: &Vec<Service>)
        ensures
            services_view(services@) == self@.services,
    {
        &self.services
    }

    /// Whether the headless mode was set explicitly, and to what
    pub fn headless_setting(&self) -> (setting: Option<bool>)
        ensures
            setting == self@.headless,
    {
        self.headless
    }

    /// Whether to run the browser in headless mode
    ///
    /// The mode that was set explicitly, or else auto-detection: headless exactly when the `CI`
    /// environment variable is set, which the caller reports in `ci_present`.
    pub fn headless(&self, ci_present: bool) -> (headless: bool)
        ensures
            headless == resolve_headless(self@.headless, ci_present),
            self@.headless matches Some(setting) ==> headless == setting,
            self@.headless is None ==> headless == ci_present,
    {
        match self.headless {
            Some(headless) => headless,
            None => ci_present,
        }
    }

    /// The browser viewport dimensions, if set
    pub fn viewport(&self) -> (viewport: &Option<Viewport>)
        ensures
            *viewport == self@.viewport,
    {
        &self.viewport
    }
}

impl DocoBuilder<()> {
    /// Sets the server that Doco will test
    pub fn server(self, server: Server) -> (b: DocoBuilder<Server>)
        ensures
            b@.server == server,
            b@.services == self@.services,
            b@.headless == self@.headless,
            b@.viewport == self@.viewport,
    {
        DocoBuilder {
            server,
            services: self.services,
            headless: self.headless,
            viewport: self.viewport,
        }
    }
}

impl<S> DocoBuilder<S> {
    /// Adds a service that the server depends on
    pub fn service(self, service: Service) -> (b: Self)
        ensures
            b@ == (DocoBuilderView { services: self@.services.push(service@), ..self@ }),
    {
        let mut b = self;
        let ghost before = b.services@;
        b.services.push(service);
        assert(services_view(b.services@) =~= services_view(before).push(service@));
        b
    }

    /// Sets whether the browser runs in headless mode
    pub fn headless(self, headless: bool) -> (b: Self)
        ensures
            b@ == (DocoBuilderView { headless: Some(headless), ..self@ }),
    {
        let mut b = self;
        b.headless = Some(headless);
        b
    }

    /// Sets the browser viewport dimensions
    pub fn viewport(self, viewport: Viewport) -> (b: Self)
        ensures
            b@ == (DocoBuilderView { viewport: Some(viewport), ..self@ }),
    {
        let mut b = self;
        b.viewport = Some(viewport);
        b
    }
}

impl DocoBuilder<Server> {
    /// Builds the configuration from what has been collected
    pub fn build(self) -> (doco: Doco)
        ensures
            doco@ == (DocoView {
                server: self@.server@,
                services: self@.services,
                headless: self@.headless,
                viewport: self@.viewport,
            }),
    {
        Doco {
            server: self.server,
            services: self.services,
            headless: self.headless,
            viewport: self.viewport,
        }
    }
}

} // verus!
