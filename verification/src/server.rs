//! Server for the web application that is being tested

use crate::environment::{variables_view, Variable};
use crate::text::strings_view;
use vstd::prelude::*;

verus! {

/// What a [`Server`] configures
pub struct ServerView {
    /// The name of the Docker image
    pub image: Seq<char>,
    /// The tag of the Docker image
    pub tag: Seq<char>,
    /// The port that the server listens on
    pub port: u16,
    /// The environment variables, in the order in which they were added
    pub envs: Seq<(Seq<char>, Seq<char>)>,
    /// The filesystem mounts, in the order in which they were added
    pub mounts: Seq<testcontainers::core::Mount>,
    /// The arguments of the container's command, in the order in which they were added
    pub cmd: Seq<Seq<char>>,
    /// The condition to wait for until the server has started, if any
    pub wait: Option<testcontainers::core::WaitFor>,
}

/// Server for the web application that is being tested
///
/// The `Server` struct configures the server that is being tested. Doco runs the server as a
/// Docker container, using a prebuilt image.
#[derive(Clone, Debug)]
pub struct Server {
    /// The name of the Docker image for the server, e.g. `rust`
    image: String,
    /// The tag for the Docker image, e.g. `latest`
    tag: String,
    /// The port that the server listens on, e.g. `8080`
    port: u16,
    /// Environment variables to set in the server's container
    envs: Vec<Variable>,
    /// Filesystem mounts for the server's container
    mounts: Vec<testcontainers::core::Mount>,
    /// Arguments for the container's command, overriding the image default
    cmd: Vec<String>,
    /// An optional condition to wait until the server has properly started
    wait: Option<testcontainers::core::WaitFor>,
}

impl View for Server {
    type V = ServerView;

    closed spec fn view(&self) -> ServerView {
        ServerView {
            image: self.image@,
            tag: self.tag@,
            port: self.port,
            envs: variables_view(self.envs@),
            mounts: self.mounts@,
            cmd: strings_view(self.cmd@),
            wait: self.wait,
        }
    }
}

/// What a [`ServerBuilder`] has collected so far; the image, tag and port are `()` until set
pub struct ServerBuilderView<I, T, P> {
    pub image: I,
    pub tag: T,
    pub port: P,
    pub envs: Seq<(Seq<char>, Seq<char>)>,
    pub mounts: Seq<testcontainers::core::Mount>,
    pub cmd: Seq<Seq<char>>,
    pub wait: Option<testcontainers::core::WaitFor>,
}

/// Builder for a [`Server`]
///
/// The image, the tag and the port must each be set once before [`ServerBuilder::build`] can be
/// called; environment variables, mounts and command arguments are collected in order.
pub struct ServerBuilder<I, T, P> {
    image: I,
    tag: T,
    port: P,
    envs: Vec<Variable>,
    mounts: Vec<testcontainers::core::Mount>,
    cmd: Vec<String>,
    wait: Option<testcontainers::core::WaitFor>,
}

impl<I, T, P> View for ServerBuilder<I, T, P> {
    type V = ServerBuilderView<I, T, P>;

    closed spec fn view(&self) -> ServerBuilderView<I, T, P> {
        ServerBuilderView {
            image: self.image,
            tag: self.tag,
            port: self.port,
            envs: variables_view(self.envs@),
            mounts: self.mounts@,
            cmd: strings_view(self.cmd@),
            wait: self.wait,
        }
    }
}

impl Server {
    /// Starts building a server, with nothing configured
    pub fn builder() -> (b: ServerBuilder<(), (), ()>)
        ensures
            b@.envs == Seq::<(Seq<char>, Seq<char>)>::empty(),
            b@.mounts == Seq::<testcontainers::core::Mount>::empty(),
            b@.cmd == Seq::<Seq<char>>::empty(),
            b@.wait is None,
    {
        let b = ServerBuilder {
            image: (),
            tag: (),
            port: (),
            envs: Vec::new(),
            mounts: Vec::new(),
            cmd: Vec::new(),
            wait: None,
        };
        assert(variables_view(b.envs@) =~= Seq::empty());
        assert(strings_view(b.cmd@) =~= Seq::empty());
        b
    }

    /// The name of the Docker image for the server, e.g. `rust`
    pub fn image(&self) -> (image: &String)
        ensures
            image@ == self@.image,
    {
        &self.image
    }

    /// The tag for the Docker image, e.g. `latest`
    pub fn tag(&self) -> (tag: &String)
        ensures
            tag@ == self@.tag,
    {
        &self.tag
    }

    /// The port that the server listens on, e.g. `8080`
    pub fn port(&self) -> (port: u16)
        ensures
            port == self@.port,
    {
        self.port
    }

    /// Environment variables to set in the server's container
    pub fn envs(&self) -> (envs: &Vec<Variable>)
        ensures
            variables_view(envs@) == self@.envs,
    {
        &self.envs
    }

    /// Filesystem mounts for the server's container
    pub fn mounts(&self) -> (mounts: &Vec<testcontainers::core::Mount>)
        ensures
            mounts@ == self@.mounts,
    {
        &self.mounts
    }

    /// Arguments for the container's command, overriding the image default
    pub fn cmd(&self) -> (cmd: &Vec<String>)
        ensures
            strings_view(cmd@) == self@.cmd,
    {
        &self.cmd
    }

    /// An optional condition to wait until the server has properly started
    pub fn wait(&self) -> (wait: &Option<testcontainers::core::WaitFor>)
        ensures
            *wait == self@.wait,
    {
        &self.wait
    }
}

impl<T, P> ServerBuilder<(), T, P> {
    /// Sets the name of the Docker image for the server
    pub fn image(self, image: &str) -> (b: ServerBuilder<String, T, P>)
        ensures
            b@.image@ == image@,
            b@.tag == self@.tag,
            b@.port == self@.port,
            b@.envs == self@.envs,
            b@.mounts == self@.mounts,
            b@.cmd == self@.cmd,
            b@.wait == self@.wait,
    {
        ServerBuilder {
            image: image.to_owned(),
            tag: self.tag,
            port: self.port,
            envs: self.envs,
            mounts: self.mounts,
            cmd: self.cmd,
            wait: self.wait,
        }
    }
}

impl<I, P> ServerBuilder<I, (), P> {
    /// Sets the tag for the Docker image
    pub fn tag(self, tag: &str) -> (b: ServerBuilder<I, String, P>)
        ensures
            b@.image == self@.image,
            b@.tag@ == tag@,
            b@.port == self@.port,
            b@.envs == self@.envs,
            b@.mounts == self@.mounts,
            b@.cmd == self@.cmd,
            b@.wait == self@.wait,
    {
        ServerBuilder {
            image: self.image,
            tag: tag.to_owned(),
            port: self.port,
            envs: self.envs,
            mounts: self.mounts,
            cmd: self.cmd,
            wait: self.wait,
        }
    }
}

impl<I, T> ServerBuilder<I, T, ()> {
    /// Sets the port that the server listens on
    pub fn port(self, port: u16) -> (b: ServerBuilder<I, T, u16>)
        ensures
            b@.image == self@.image,
            b@.tag == self@.tag,
            b@.port == port,
            b@.envs == self@.envs,
            b@.mounts == self@.mounts,
            b@.cmd == self@.cmd,
            b@.wait == self@.wait,
    {
        ServerBuilder {
            image: self.image,
            tag: self.tag,
            port,
            envs: self.envs,
            mounts: self.mounts,
            cmd: self.cmd,
            wait: self.wait,
        }
    }
}

impl<I, T, P> ServerBuilder<I, T, P> {
    /// Adds an environment variable to the server's container
    pub fn env(self, name: &str, value: &str) -> (b: Self)
        ensures
            b@ == (ServerBuilderView { envs: self@.envs.push((name@, value@)), ..self@ }),
    {
        let mut b = self;
        let ghost before = b.envs@;
        b.envs.push(Variable::new(name, value));
        assert(variables_view(b.envs@) =~= variables_view(before).push((name@, value@)));
        b
    }

    /// Adds a filesystem mount to the server's container
    pub fn mount(self, mount: testcontainers::core::Mount) -> (b: Self)
        ensures
            b@ == (ServerBuilderView { mounts: self@.mounts.push(mount), ..self@ }),
    {
        let mut b = self;
        b.mounts.push(mount);
        b
    }

    /// Adds an argument to the container's command
    pub fn cmd_arg(self, arg: &str) -> (b: Self)
        ensures
            b@ == (ServerBuilderView { cmd: self@.cmd.push(arg@), ..self@ }),
    {
        let mut b = self;
        let ghost before = b.cmd@;
        b.cmd.push(arg.to_owned());
        assert(strings_view(b.cmd@) =~= strings_view(before).push(arg@));
        b
    }

    /// Sets a condition to wait for until the server has properly started
    pub fn wait(self, wait: testcontainers::core::WaitFor) -> (b: Self)
        ensures
            b@ == (ServerBuilderView { wait: Some(wait), ..self@ }),
    {
        let mut b = self;
        b.wait = Some(wait);
        b
    }
}

impl ServerBuilder<String, String, u16> {
    /// Builds the server from what has been collected
    pub fn build(self) -> (server: Server)
        ensures
            server@ == (ServerView {
                image: self@.image@,
                tag: self@.tag@,
                port: self@.port,
                envs: self@.envs,
                mounts: self@.mounts,
                cmd: self@.cmd,
                wait: self@.wait,
            }),
    {
        Server {
            image: self.image,
            tag: self.tag,
            port: self.port,
            envs: self.envs,
            mounts: self.mounts,
            cmd: self.cmd,
            wait: self.wait,
        }
    }
}

} // verus!
