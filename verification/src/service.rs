//! Auxiliary services, such as databases or caches, that the server depends on

use crate::environment::{variables_view, Variable};
use crate::text::strings_view;
use vstd::prelude::*;

verus! {

/// What a [`Service`] configures
pub struct ServiceView {
    /// The name of the Docker image
    pub image: Seq<char>,
    /// The tag of the Docker image
    pub tag: Seq<char>,
    /// The environment variables, in the order in which they were added
    pub envs: Seq<(Seq<char>, Seq<char>)>,
    /// The filesystem mounts, in the order in which they were added
    pub mounts: Seq<testcontainers::core::Mount>,
    /// The arguments of the container's command, in the order in which they were added
    pub cmd: Seq<Seq<char>>,
    /// The condition to wait for until the service has started, if any
    pub wait: Option<testcontainers::core::WaitFor>,
}

/// An auxiliary service that the server depends on, e.g. a database or a cache
///
/// Doco runs each service as a Docker container, using a prebuilt image, before it starts the
/// server. The server reaches a service under the service's image name.
#[derive(Clone, Debug)]
pub struct Service {
    /// The name of the Docker image for the service, e.g. `postgres`
    image: String,
    /// The tag for the Docker image, e.g. `latest`
    tag: String,
    /// Environment variables to set in the service's container
    envs: Vec<Variable>,
    /// Filesystem mounts for the service's container
    mounts: Vec<testcontainers::core::Mount>,
    /// Arguments for the container's command, overriding the image default
    cmd: Vec<String>,
    /// An optional condition to wait until the service has properly started
    wait: Option<testcontainers::core::WaitFor>,
}

impl View for Service {
    type V = ServiceView;

    closed spec fn view(&self) -> ServiceView {
        ServiceView {
            image: self.image@,
            tag: self.tag@,
            envs: variables_view(self.envs@),
            mounts: self.mounts@,
            cmd: strings_view(self.cmd@),
            wait: self.wait,
        }
    }
}

/// What a [`ServiceBuilder`] has collected so far; the image and tag are `()` until set
pub struct ServiceBuilderView<I, T> {
    pub image: I,
    pub tag: T,
    pub envs: Seq<(Seq<char>, Seq<char>)>,
    pub mounts: Seq<testcontainers::core::Mount>,
    pub cmd: Seq<Seq<char>>,
    pub wait: Option<testcontainers::core::WaitFor>,
}

/// Builder for a [`Service`]
///
/// The image and the tag must each be set once before [`ServiceBuilder::build`] can be
/// called; environment variables, mounts and command arguments are collected in order.
pub struct ServiceBuilder<I, T> {
    image: I,
    tag: T,
    envs: Vec<Variable>,
    mounts: Vec<testcontainers::core::Mount>,
    cmd: Vec<String>,
    wait: Option<testcontainers::core::WaitFor>,
}

impl<I, T> View for ServiceBuilder<I, T> {
    type V = ServiceBuilderView<I, T>;

    closed spec fn view(&self) -> ServiceBuilderView<I, T> {
        ServiceBuilderView {
            image: self.image,
            tag: self.tag,
            envs: variables_view(self.envs@),
            mounts: self.mounts@,
            cmd: strings_view(self.cmd@),
            wait: self.wait,
        }
    }
}

impl Service {
    /// Starts building a service, with nothing configured
    pub fn builder() -> (b: ServiceBuilder<(), ()>)
        ensures
            b@.envs == Seq::<(Seq<char>, Seq<char>)>::empty(),
            b@.mounts == Seq::<testcontainers::core::Mount>::empty(),
            b@.cmd == Seq::<Seq<char>>::empty(),
            b@.wait is None,
    {
        let b = ServiceBuilder {
            image: (),
            tag: (),
            envs: Vec::new(),
            mounts: Vec::new(),
            cmd: Vec::new(),
            wait: None,
        };
        assert(variables_view(b.envs@) =~= Seq::empty());
        assert(strings_view(b.cmd@) =~= Seq::empty());
        b
    }

    /// The name of the Docker image for the service, e.g. `postgres`
    pub fn image(&self) -> (image: &String)
        ensures
            image@ == self@.image,
    {
        &self.image
    }

    /// The tag for the Docker image, e.g. `latest`
    pub fn tag(&self) -> (tag: &String)
        ensures
            tag@ == self@.tag,
    {
        &self.tag
    }

    /// Environment variables to set in the service's container
    pub fn envs(&self) -> (envs: &Vec<Variable>)
        ensures
            variables_view(envs@) == self@.envs,
    {
        &self.envs
    }

    /// Filesystem mounts for the service's container
    pub fn mounts(&self) -> (mounts: &Vec<testcontainers::core::Mount>)
        ensures
            mounts@ == self@.mounts,
    {
        &self.mounts
    }

    /// Arguments for the container's command, overriding the image default
    pub fn cmd(&self) -> (cmd: &Vec<String>)
        ensures
            strings_view(cmd@) == self@.cmd,
    {
        &self.cmd
    }

    /// An optional condition to wait until the service has properly started
    pub fn wait(&self) -> (wait: &Option<testcontainers::core::WaitFor>)
        ensures
            *wait == self@.wait,
    {
        &self.wait
    }
}

impl<T> ServiceBuilder<(), T> {
    /// Sets the name of the Docker image for the service
    pub fn image(self, image: &str) -> (b: ServiceBuilder<String, T>)
        ensures
            b@.image@ == image@,
            b@.tag == self@.tag,
            b@.envs == self@.envs,
            b@.mounts == self@.mounts,
            b@.cmd == self@.cmd,
            b@.wait == self@.wait,
    {
        ServiceBuilder {
            image: image.to_owned(),
            tag: self.tag,
            envs: self.envs,
            mounts: self.mounts,
            cmd: self.cmd,
            wait: self.wait,
        }
    }
}

impl<I> ServiceBuilder<I, ()> {
    /// Sets the tag for the Docker image
    pub fn tag(self, tag: &str) -> (b: ServiceBuilder<I, String>)
        ensures
            b@.image == self@.image,
            b@.tag@ == tag@,
            b@.envs == self@.envs,
            b@.mounts == self@.mounts,
            b@.cmd == self@.cmd,
            b@.wait == self@.wait,
    {
        ServiceBuilder {
            image: self.image,
            tag: tag.to_owned(),
            envs: self.envs,
            mounts: self.mounts,
            cmd: self.cmd,
            wait: self.wait,
        }
    }
}

impl<I, T> ServiceBuilder<I, T> {
    /// Adds an environment variable to the service's container
    pub fn env(self, name: &str, value: &str) -> (b: Self)
        ensures
            b@ == (ServiceBuilderView { envs: self@.envs.push((name@, value@)), ..self@ }),
    {
        let mut b = self;
        let ghost before = b.envs@;
        b.envs.push(Variable::new(name, value));
        assert(variables_view(b.envs@) =~= variables_view(before).push((name@, value@)));
        b
    }

    /// Adds a filesystem mount to the service's container
    pub fn mount(self, mount: testcontainers::core::Mount) -> (b: Self)
        ensures
            b@ == (ServiceBuilderView { mounts: self@.mounts.push(mount), ..self@ }),
    {
        let mut b = self;
        b.mounts.push(mount);
        b
    }

    /// Adds an argument to the container's command
    pub fn cmd_arg(self, arg: &str) -> (b: Self)
        ensures
            b@ == (ServiceBuilderView { cmd: self@.cmd.push(arg@), ..self@ }),
    {
        let mut b = self;
        let ghost before = b.cmd@;
        b.cmd.push(arg.to_owned());
        assert(strings_view(b.cmd@) =~= strings_view(before).push(arg@));
        b
    }

    /// Sets a condition to wait for until the service has properly started
    pub fn wait(self, wait: testcontainers::core::WaitFor) -> (b: Self)
        ensures
            b@ == (ServiceBuilderView { wait: Some(wait), ..self@ }),
    {
        let mut b = self;
        b.wait = Some(wait);
        b
    }
}

impl ServiceBuilder<String, String> {
    /// Builds the service from what has been collected
    pub fn build(self) -> (service: Service)
        ensures
            service@ == (ServiceView {
                image: self@.image@,
                tag: self@.tag@,
                envs: self@.envs,
                mounts: self@.mounts,
                cmd: self@.cmd,
                wait: self@.wait,
            }),
    {
        Service {
            image: self.image,
            tag: self.tag,
            envs: self.envs,
            mounts: self.mounts,
            cmd: self.cmd,
            wait: self.wait,
        }
    }
}

} // verus!
