//! Container plans: what Doco asks Docker to start for Selenium, each service and the server
//!
//! A plan holds, as plain values, everything that goes into a `testcontainers` request: the
//! image, the exposed port, the readiness condition, the host entries, the environment, the
//! mounts and the command. The verified functions here decide the plan from the configuration;
//! [`ContainerPlan::into_request`] hands it to `testcontainers`.

use crate::containers::{
    clone_mount, clone_wait_for, generic_image, image_exposed_ports, image_name,
    image_ready_conditions, image_request, image_tag, image_with_exposed_tcp_port,
    image_with_wait_for, request_command, request_env_vars, request_hosts, request_image,
    request_mounts, request_with_cmd, request_with_env_var, request_with_gateway_host,
    request_with_ipv4_host, request_with_ipv6_host, request_with_mount, stdout_message_condition,
    wait_for_stdout_message, PortProtocol, StartRequest,
};
use crate::environment::{copy_variables, variables_view, Variable};
use crate::config::{services_view, DocoView};
use crate::server::{Server, ServerView};
use crate::service::{Service, ServiceView};
use crate::text::{copy_strings, strings_view};
use vstd::prelude::*;

verus! {

/// The host name under which containers reach the machine that runs Docker
pub const DOCKER_HOST: &'static str = "host.docker.internal";

/// The host name under which a service reaches the machine that runs Docker
pub const SERVICE_HOST_ALIAS: &'static str = "doco";

/// The image of the Selenium container
pub const SELENIUM_IMAGE: &'static str = "selenium/standalone-firefox";

/// The tag of the Selenium image
pub const SELENIUM_TAG: &'static str = "latest";

/// The port on which Selenium serves WebDriver
pub const SELENIUM_PORT: u16 = 4444;

/// The line that Selenium prints on stdout once it accepts sessions
pub const SELENIUM_READY_MESSAGE: &'static str = "Started Selenium Standalone";

/// Where a host name inside a container points
#[derive(Clone, Copy, Debug, PartialEq, Eq)]
pub enum HostTarget {
    /// The machine that runs Docker
    Gateway,
    /// An IPv4 address, by its octets
    Ipv4([u8; 4]),
    /// An IPv6 address, by its octets
    Ipv6([u8; 16]),
}

/// A host name that is added to a container's hosts file, and where it points
#[derive(Clone, Debug)]
pub struct HostEntry {
    /// The host name
    name: String,
    /// Where the host name points
    target: HostTarget,
}

impl View for HostEntry {
    type V = (Seq<char>, HostTarget);

    closed spec fn view(&self) -> (Seq<char>, HostTarget) {
        (self.name@, self.target)
    }
}

/// The views of a sequence of host entries, in order
pub open spec fn hosts_view(s: Seq<HostEntry>) -> Seq<(Seq<char>, HostTarget)> {
    s.map_values(|h: HostEntry| h@)
}

impl HostEntry {
    /// A host entry with this name and target
    pub fn new(name: &str, target: HostTarget) -> (entry: Self)
        ensures
            entry@ == (name@, target),
    {
        HostEntry { name: name.to_owned(), target }
    }

    /// The entry under which the server reaches a running service: the service's image name,
    /// pointing at the address that the service's container got on the bridge network
    pub fn for_service(service: &Service, address: HostTarget) -> (entry: Self)
        ensures
            entry@ == (service@.image, address),
    {
        HostEntry { name: service.image().clone(), target: address }
    }

    /// The host name
    pub fn name(&self) -> (name: &String)
        ensures
            name@ == self@.0,
    {
        &self.name
    }

    /// Where the host name points
    pub fn target(&self) -> (target: HostTarget)
        ensures
            target == self@.1,
    {
        self.target
    }

    /// A copy of this entry
    pub fn duplicate(&self) -> (copy: Self)
        ensures
            copy@ == self@,
    {
        HostEntry { name: self.name.clone(), target: self.target }
    }
}

/// What a [`ContainerPlan`] asks for
pub struct ContainerPlanView {
    /// The name of the image
    pub image: Seq<char>,
    /// The tag of the image
    pub tag: Seq<char>,
    /// The TCP port that is exposed, if any
    pub exposed_port: Option<u16>,
    /// The condition to wait for until the container is ready, if any
    pub wait: Option<testcontainers::core::WaitFor>,
    /// The host entries, in the order in which they are added
    pub hosts: Seq<(Seq<char>, HostTarget)>,
    /// The environment variables, in the order in which they are set
    pub envs: Seq<(Seq<char>, Seq<char>)>,
    /// The filesystem mounts, in order
    pub mounts: Seq<testcontainers::core::Mount>,
    /// The command that overrides the image default, if any
    pub cmd: Option<Seq<Seq<char>>>,
}

/// A request to start a container, as plain values
pub struct ContainerPlan {
    image: String,
    tag: String,
    exposed_port: Option<u16>,
    wait: Option<testcontainers::core::WaitFor>,
    hosts: Vec<HostEntry>,
    envs: Vec<Variable>,
    mounts: Vec<testcontainers::core::Mount>,
    cmd: Option<Vec<String>>,
}

impl View for ContainerPlan {
    type V = ContainerPlanView;

    closed spec fn view(&self) -> ContainerPlanView {
        ContainerPlanView {
            image: self.image@,
            tag: self.tag@,
            exposed_port: self.exposed_port,
            wait: self.wait,
            hosts: hosts_view(self.hosts@),
            envs: variables_view(self.envs@),
            mounts: self.mounts@,
            cmd: match self.cmd {
                Some(cmd) => Some(strings_view(cmd@)),
                None => None,
            },
        }
    }
}

/// The command override of a configuration: none when no argument was given, so that the
/// image's default command runs
pub open spec fn command_override(cmd: Seq<Seq<char>>) -> Option<Seq<Seq<char>>> {
    if cmd.len() == 0 {
        None
    } else {
        Some(cmd)
    }
}

/// A configured command replaces the image default as soon as it has one argument, with exactly
/// those arguments in order; only an empty argument list keeps the image default.
pub proof fn lemma_command_override_keeps_arguments(cmd: Seq<Seq<char>>)
    ensures
        cmd.len() == 0 ==> command_override(cmd) is None,
        cmd.len() > 0 ==> command_override(cmd) == Some(cmd),
        command_override(cmd) matches Some(c) ==> c.len() == cmd.len() && forall|i: int|
            0 <= i < cmd.len() ==> c[i] == cmd[i],
{
}

/// Every service and the server run the command they were configured with: whenever at least one
/// argument was added, the container plan overrides the image default with exactly those
/// arguments in order; with none, the image default runs.
pub proof fn lemma_plans_run_configured_command(
    service: ServiceView,
    server: ServerView,
    links: Seq<(Seq<char>, HostTarget)>,
)
    ensures
        service.cmd.len() > 0 ==> service_plan_view(service).cmd == Some(service.cmd),
        service.cmd.len() == 0 ==> service_plan_view(service).cmd is None,
        server.cmd.len() > 0 ==> server_plan_view(server, links).cmd == Some(server.cmd),
        server.cmd.len() == 0 ==> server_plan_view(server, links).cmd is None,
{
}

/// The Selenium container: Firefox with WebDriver on its port, ready once it says so, and able to
/// reach the machine that runs Docker
pub open spec fn selenium_plan_view(p: ContainerPlanView) -> bool {
    &&& p.image == SELENIUM_IMAGE@
    &&& p.tag == SELENIUM_TAG@
    &&& p.exposed_port == Some(SELENIUM_PORT)
    &&& p.wait == Some(stdout_message_condition(SELENIUM_READY_MESSAGE@))
    &&& p.hosts == seq![(DOCKER_HOST@, HostTarget::Gateway)]
    &&& p.envs == Seq::<(Seq<char>, Seq<char>)>::empty()
    &&& p.mounts == Seq::<testcontainers::core::Mount>::empty()
    &&& p.cmd is None
}

/// The container of a service: its image, readiness condition, environment, mounts and command,
/// and the host alias under which it reaches the machine that runs Docker
pub open spec fn service_plan_view(s: ServiceView) -> ContainerPlanView {
    ContainerPlanView {
        image: s.image,
        tag: s.tag,
        exposed_port: None,
        wait: s.wait,
        hosts: seq![(SERVICE_HOST_ALIAS@, HostTarget::Gateway)],
        envs: s.envs,
        mounts: s.mounts,
        cmd: command_override(s.cmd),
    }
}

/// The container of the server: its image with its port exposed, its readiness condition, a host
/// entry for the machine that runs Docker followed by one per linked service, its environment,
/// mounts and command
pub open spec fn server_plan_view(
    s: ServerView,
    links: Seq<(Seq<char>, HostTarget)>,
) -> ContainerPlanView {
    ContainerPlanView {
        image: s.image,
        tag: s.tag,
        exposed_port: Some(s.port),
        wait: s.wait,
        hosts: seq![(DOCKER_HOST@, HostTarget::Gateway)] + links,
        envs: s.envs,
        mounts: s.mounts,
        cmd: command_override(s.cmd),
    }
}

/// The host entries that link the server to running services: each service's image name, pointing
/// at the address that its container got, in the order of the services
pub open spec fn links_view(services: Seq<ServiceView>, addresses: Seq<HostTarget>) -> Seq<
    (Seq<char>, HostTarget),
> {
    Seq::new(services.len(), |i: int| (services[i].image, addresses[i]))
}

/// The host entries that link the server to the running services, one per service in order, each
/// under the service's image name and pointing at the address that its container got
pub fn service_links(services: &Vec<Service>, addresses: &Vec<HostTarget>) -> (links: Vec<
    HostEntry,
>)
    requires
        addresses@.len() == services@.len(),
    ensures
        hosts_view(links@) == links_view(services_view(services@), addresses@),
{
    let mut links: Vec<HostEntry> = Vec::new();
    let mut i: usize = 0;
    let ghost views = services_view(services@);
    while i < services.len()
        invariant
            i <= services@.len(),
            addresses@.len() == services@.len(),
            views == services_view(services@),
            hosts_view(links@) == links_view(views, addresses@).take(i as int),
        decreases services@.len() - i,
    {
        let ghost before = links@;
        links.push(HostEntry::for_service(&services[i], addresses[i]));
        assert(hosts_view(links@) =~= hosts_view(before).push(links@[i as int]@));
        assert(links_view(views, addresses@).take(i + 1) =~= links_view(views, addresses@).take(
            i as int,
        ).push(links_view(views, addresses@)[i as int]));
        i = i + 1;
    }
    assert(links_view(views, addresses@).take(services@.len() as int) =~= links_view(
        views,
        addresses@,
    ));
    links
}

/// The server reaches the machine that runs Docker, and every configured service under the
/// service's image name at the address that the service's container got: whatever the
/// configuration, the server's host entries are the Docker host followed by one entry per service,
/// in the order in which the services were added.
pub proof fn lemma_server_reaches_every_service(doco: DocoView, addresses: Seq<HostTarget>)
    requires
        addresses.len() == doco.services.len(),
    ensures
        ({
            let hosts = server_plan_view(doco.server, links_view(doco.services, addresses)).hosts;
            &&& hosts.len() == doco.services.len() + 1
            &&& hosts[0] == (DOCKER_HOST@, HostTarget::Gateway)
            &&& forall|i: int|
                0 <= i < doco.services.len() ==> #[trigger] hosts[i + 1] == (
                    doco.services[i].image,
                    addresses[i],
                )
        }),
{
    let links = links_view(doco.services, addresses);
    let hosts = server_plan_view(doco.server, links).hosts;
    assert forall|i: int| 0 <= i < doco.services.len() implies #[trigger] hosts[i + 1] == (
        doco.services[i].image,
        addresses[i],
    ) by {
        assert(hosts[i + 1] == links[i]);
    }
}

/// An entry that no later entry renames is in the map of the entries, with its value
pub proof fn lemma_entries_map_keeps_last<V>(entries: Seq<(Seq<char>, V)>, i: int)
    requires
        0 <= i < entries.len(),
        forall|j: int| i < j < entries.len() ==> (#[trigger] entries[j]).0 != entries[i].0,
    ensures
        entries_map(entries).contains_key(entries[i].0),
        entries_map(entries)[entries[i].0] == entries[i].1,
    decreases entries.len(),
{
    if i < entries.len() - 1 {
        let prefix = entries.drop_last();
        assert forall|j: int| i < j < prefix.len() implies (#[trigger] prefix[j]).0 != prefix[i].0 by {
            assert(prefix[j] == entries[j]);
        }
        lemma_entries_map_keeps_last(prefix, i);
        assert(entries[entries.len() - 1].0 != entries[i].0);
    }
}

/// The request for the server's container maps the image name of every service to the address
/// of that service's container, unless a later service has the same image name, in which case
/// the later one wins; whatever the configuration.
pub proof fn lemma_request_reaches_every_service(
    doco: DocoView,
    addresses: Seq<HostTarget>,
    i: int,
)
    requires
        addresses.len() == doco.services.len(),
        0 <= i < doco.services.len(),
        forall|j: int|
            i < j < doco.services.len() ==> (#[trigger] doco.services[j]).image
                != doco.services[i].image,
    ensures
        ({
            let hosts = entries_map(
                server_plan_view(doco.server, links_view(doco.services, addresses)).hosts,
            );
            &&& hosts.contains_key(doco.services[i].image)
            &&& hosts[doco.services[i].image] == addresses[i]
        }),
{
    let links = links_view(doco.services, addresses);
    let hosts = server_plan_view(doco.server, links).hosts;
    lemma_server_reaches_every_service(doco, addresses);
    assert forall|j: int| i + 1 < j < hosts.len() implies (#[trigger] hosts[j]).0 != hosts[i
        + 1].0 by {
        assert(hosts[(j - 1) + 1] == (doco.services[j - 1].image, addresses[j - 1]));
        assert(doco.services[j - 1].image != doco.services[i].image);
    }
    lemma_entries_map_keeps_last(hosts, i + 1);
}

/// Copies a list of mounts, keeping their order
fn copy_mounts(mounts: &Vec<testcontainers::core::Mount>) -> (copy: Vec<
    testcontainers::core::Mount,
>)
    ensures
        copy@ == mounts@,
{
    let mut copy: Vec<testcontainers::core::Mount> = Vec::new();
    let mut i: usize = 0;
    while i < mounts.len()
        invariant
            i <= mounts@.len(),
            copy@ == mounts@.take(i as int),
        decreases mounts@.len() - i,
    {
        copy.push(clone_mount(&mounts[i]));
        assert(mounts@.take(i + 1) == mounts@.take(i as int).push(mounts@[i as int]));
        i = i + 1;
    }
    assert(mounts@.take(mounts@.len() as int) == mounts@);
    copy
}

/// Copies an optional readiness condition
fn copy_wait(wait: &Option<testcontainers::core::WaitFor>) -> (copy: Option<
    testcontainers::core::WaitFor,
>)
    ensures
        copy == *wait,
{
    match wait {
        Some(w) => Some(clone_wait_for(w)),
        None => None,
    }
}

/// The command override of a configuration's arguments
fn command_of(cmd: &Vec<String>) -> (over: Option<Vec<String>>)
    ensures
        match over {
            Some(c) => command_override(strings_view(cmd@)) == Some(strings_view(c@)),
            None => command_override(strings_view(cmd@)) is None,
        },
        over is None <==> cmd@.len() == 0,
        over matches Some(c) ==> c@ == cmd@,
{
    if cmd.len() == 0 {
        None
    } else {
        let copy = copy_strings(cmd);
        Some(copy)
    }
}

/// Copies a list of host entries, keeping their order
fn copy_hosts(hosts: &Vec<HostEntry>) -> (copy: Vec<HostEntry>)
    ensures
        hosts_view(copy@) == hosts_view(hosts@),
{
    let mut copy: Vec<HostEntry> = Vec::new();
    let mut i: usize = 0;
    while i < hosts.len()
        invariant
            i <= hosts@.len(),
            hosts_view(copy@) == hosts_view(hosts@.take(i as int)),
        decreases hosts@.len() - i,
    {
        let ghost before = copy@;
        copy.push(hosts[i].duplicate());
        assert(hosts_view(copy@) =~= hosts_view(before).push(hosts@[i as int]@));
        assert(hosts@.take(i + 1) == hosts@.take(i as int).push(hosts@[i as int]));
        assert(hosts_view(hosts@.take(i + 1)) =~= hosts_view(hosts@.take(i as int)).push(
            hosts@[i as int]@,
        ));
        i = i + 1;
    }
    assert(hosts@.take(hosts@.len() as int) == hosts@);
    copy
}

impl ContainerPlan {
    /// The plan for the Selenium container that drives Firefox
    pub fn selenium() -> (plan: Self)
        ensures
            selenium_plan_view(plan@),
    {
        let mut hosts: Vec<HostEntry> = Vec::new();
        hosts.push(HostEntry::new(DOCKER_HOST, HostTarget::Gateway));
        let plan = ContainerPlan {
            image: SELENIUM_IMAGE.to_owned(),
            tag: SELENIUM_TAG.to_owned(),
            exposed_port: Some(SELENIUM_PORT),
            wait: Some(wait_for_stdout_message(SELENIUM_READY_MESSAGE)),
            hosts,
            envs: Vec::new(),
            mounts: Vec::new(),
            cmd: None,
        };
        assert(hosts_view(plan.hosts@) =~= seq![(DOCKER_HOST@, HostTarget::Gateway)]);
        assert(variables_view(plan.envs@) =~= Seq::empty());
        plan
    }

    /// The plan for the container of a service
    pub fn for_service(service: &Service) -> (plan: Self)
        ensures
            plan@ == service_plan_view(service@),
            plan@.cmd is None <==> service@.cmd.len() == 0,
            service@.cmd.len() > 0 ==> plan@.cmd == Some(service@.cmd),
    {
        let mut hosts: Vec<HostEntry> = Vec::new();
        hosts.push(HostEntry::new(SERVICE_HOST_ALIAS, HostTarget::Gateway));
        let envs = copy_variables(service.envs());
        let plan = ContainerPlan {
            image: service.image().clone(),
            tag: service.tag().clone(),
            exposed_port: None,
            wait: copy_wait(service.wait()),
            hosts,
            envs,
            mounts: copy_mounts(service.mounts()),
            cmd: command_of(service.cmd()),
        };
        assert(hosts_view(plan.hosts@) =~= seq![(SERVICE_HOST_ALIAS@, HostTarget::Gateway)]);
        assert(variables_view(plan.envs@) =~= service@.envs);
        plan
    }

    /// The plan for the server's container, linked to the running services in `links`
    pub fn for_server(server: &Server, links: &Vec<HostEntry>) -> (plan: Self)
        ensures
            plan@ == server_plan_view(server@, hosts_view(links@)),
            plan@.cmd is None <==> server@.cmd.len() == 0,
            server@.cmd.len() > 0 ==> plan@.cmd == Some(server@.cmd),
    {
        let mut hosts: Vec<HostEntry> = Vec::new();
        hosts.push(HostEntry::new(DOCKER_HOST, HostTarget::Gateway));
        let mut i: usize = 0;
        while i < links.len()
            invariant
                i <= links@.len(),
                hosts_view(hosts@) == seq![(DOCKER_HOST@, HostTarget::Gateway)] + hosts_view(
                    links@.take(i as int),
                ),
            decreases links@.len() - i,
        {
            let ghost before = hosts@;
            hosts.push(links[i].duplicate());
            assert(hosts_view(hosts@) =~= hosts_view(before).push(links@[i as int]@));
            assert(links@.take(i + 1) == links@.take(i as int).push(links@[i as int]));
            assert(hosts_view(links@.take(i + 1)) =~= hosts_view(links@.take(i as int)).push(
                links@[i as int]@,
            ));
            i = i + 1;
        }
        assert(links@.take(links@.len() as int) == links@);
        let envs = copy_variables(server.envs());
        let plan = ContainerPlan {
            image: server.image().clone(),
            tag: server.tag().clone(),
            exposed_port: Some(server.port()),
            wait: copy_wait(server.wait()),
            hosts,
            envs,
            mounts: copy_mounts(server.mounts()),
            cmd: command_of(server.cmd()),
        };
        assert(variables_view(plan.envs@) =~= server@.envs);
        plan
    }

    /// The name of the image
    pub fn image(&self) -> (image: &String)
        ensures
            image@ == self@.image,
    {
        &self.image
    }

    /// The tag of the image
    pub fn tag(&self) -> (tag: &String)
        ensures
            tag@ == self@.tag,
    {
        &self.tag
    }

    /// The TCP port that is exposed, if any
    pub fn exposed_port(&self) -> (port: Option<u16>)
        ensures
            port == self@.exposed_port,
    {
        self.exposed_port
    }

    /// Whether the container has a readiness condition
    pub fn has_wait(&self) -> (has: bool)
        ensures
            has == self@.wait is Some,
    {
        self.wait.is_some()
    }

    /// The host entries, in order
    pub fn hosts(&self) -> (hosts: &Vec<HostEntry>)
        ensures
            hosts_view(hosts@) == self@.hosts,
    {
        &self.hosts
    }

    /// The environment variables, in order
    pub fn envs(&self) -> (envs: &Vec<Variable>)
        ensures
            variables_view(envs@) == self@.envs,
    {
        &self.envs
    }

    /// The filesystem mounts, in order
    pub fn mounts(&self) -> (mounts: &Vec<testcontainers::core::Mount>)
        ensures
            mounts@ == self@.mounts,
    {
        &self.mounts
    }

    /// The command that overrides the image default, if any
    pub fn cmd(&self) -> (cmd: &Option<Vec<String>>)
        ensures
            match *cmd {
                Some(c) => self@.cmd == Some(strings_view(c@)),
                None => self@.cmd is None,
            },
    {
        &self.cmd
    }

    /// Hands the plan to `testcontainers`: the image with its exposed port and readiness
    /// condition, then the host entries, environment variables and mounts in order, and the
    /// command override if there is one
    ///
    /// In the request, a later host entry or environment variable replaces an earlier one with
    /// the same name.
    pub fn into_request(self) -> (request: StartRequest)
        ensures
            image_name(request_image(request)) == self@.image,
            image_tag(request_image(request)) == self@.tag,
            image_exposed_ports(request_image(request)) == tcp_ports(self@.exposed_port),
            image_ready_conditions(request_image(request)) == option_list(self@.wait),
            request_mounts(request) == self@.mounts,
            request_hosts(request) == entries_map(self@.hosts),
            request_env_vars(request) == entries_map(self@.envs),
            request_command(request) == match self@.cmd {
                Some(cmd) => cmd,
                None => Seq::<Seq<char>>::empty(),
            },
    {
        let ghost view = self@;
        let mut image = generic_image(self.image.as_str(), self.tag.as_str());
        if let Some(port) = self.exposed_port {
            image = image_with_exposed_tcp_port(image, port);
        }
        if let Some(wait) = self.wait {
            image = image_with_wait_for(image, wait);
        }
        assert(image_exposed_ports(image) =~= tcp_ports(view.exposed_port));
        assert(image_ready_conditions(image) =~= option_list(view.wait));
        let ghost final_image = image;
        let mut request = image_request(image);
        assert(request_hosts(request) =~= entries_map(view.hosts.take(0)));
        assert(request_env_vars(request) =~= Map::<Seq<char>, Seq<char>>::empty());
        let mut i: usize = 0;
        while i < self.hosts.len()
            invariant
                i <= self.hosts@.len(),
                view.hosts == hosts_view(self.hosts@),
                request_image(request) == final_image,
                request_mounts(request).len() == 0,
                request_hosts(request) == entries_map(view.hosts.take(i as int)),
                request_env_vars(request) == Map::<Seq<char>, Seq<char>>::empty(),
                request_command(request) == Seq::<Seq<char>>::empty(),
            decreases self.hosts@.len() - i,
        {
            let entry = &self.hosts[i];
            let name = entry.name().as_str();
            request = match entry.target() {
                HostTarget::Gateway => request_with_gateway_host(request, name),
                HostTarget::Ipv4(octets) => request_with_ipv4_host(request, name, octets),
                HostTarget::Ipv6(octets) => request_with_ipv6_host(request, name, octets),
            };
            proof {
                lemma_entries_map_step(view.hosts, i as int);
            }
            i = i + 1;
        }
        proof {
            assert(view.hosts.take(view.hosts.len() as int) == view.hosts);
            assert(entries_map(view.envs.take(0)) =~= Map::<Seq<char>, Seq<char>>::empty());
        }
        let mut i: usize = 0;
        while i < self.envs.len()
            invariant
                i <= self.envs@.len(),
                view.envs == variables_view(self.envs@),
                view.hosts == hosts_view(self.hosts@),
                request_image(request) == final_image,
                request_mounts(request).len() == 0,
                request_hosts(request) == entries_map(view.hosts),
                request_env_vars(request) == entries_map(view.envs.take(i as int)),
                request_command(request) == Seq::<Seq<char>>::empty(),
            decreases self.envs@.len() - i,
        {
            let var = &self.envs[i];
            request = request_with_env_var(request, var.name().as_str(), var.value().as_str());
            proof {
                lemma_entries_map_step(view.envs, i as int);
            }
            i = i + 1;
        }
        proof {
            assert(view.envs.take(view.envs.len() as int) == view.envs);
        }
        let mut i: usize = 0;
        while i < self.mounts.len()
            invariant
                i <= self.mounts@.len(),
                view.mounts == self.mounts@,
                request_image(request) == final_image,
                request_mounts(request) == view.mounts.take(i as int),
                request_hosts(request) == entries_map(view.hosts),
                request_env_vars(request) == entries_map(view.envs),
                request_command(request) == Seq::<Seq<char>>::empty(),
            decreases self.mounts@.len() - i,
        {
            request = request_with_mount(request, clone_mount(&self.mounts[i]));
            assert(view.mounts.take(i + 1) =~= view.mounts.take(i as int).push(view.mounts[i as int]));
            i = i + 1;
        }
        assert(view.mounts.take(view.mounts.len() as int) =~= view.mounts);
        if let Some(cmd) = self.cmd {
            request = request_with_cmd(request, cmd);
        }
        request
    }
}

/// The list of at most one element that an optional value gives
pub open spec fn option_list<T>(value: Option<T>) -> Seq<T> {
    match value {
        Some(v) => seq![v],
        None => Seq::empty(),
    }
}

/// The exposed ports that an optional TCP port gives: that port over TCP, or none at all
pub open spec fn tcp_ports(port: Option<u16>) -> Seq<(u16, PortProtocol)> {
    match port {
        Some(p) => seq![(p, PortProtocol::Tcp)],
        None => Seq::empty(),
    }
}

/// The map that a sequence of named entries gives when they are inserted in order: a later entry
/// replaces an earlier one with the same name
pub open spec fn entries_map<V>(entries: Seq<(Seq<char>, V)>) -> Map<Seq<char>, V>
    decreases entries.len(),
{
    if entries.len() == 0 {
        Map::empty()
    } else {
        entries_map(entries.drop_last()).insert(entries.last().0, entries.last().1)
    }
}

/// Inserting one more entry extends the map of the entries before it
proof fn lemma_entries_map_step<V>(entries: Seq<(Seq<char>, V)>, i: int)
    requires
        0 <= i < entries.len(),
    ensures
        entries_map(entries.take(i + 1)) == entries_map(entries.take(i)).insert(
            entries[i].0,
            entries[i].1,
        ),
{
    assert(entries.take(i + 1).drop_last() == entries.take(i));
}

} // verus!
