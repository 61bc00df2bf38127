//! The container types of `testcontainers` that Doco's configuration carries, and the calls that
//! turn a container plan into a `testcontainers` request
//!
//! Every function here makes one call into `testcontainers`, and its contract states what that
//! call does to the image or to the request: the image's name, tag, exposed ports and readiness
//! conditions, and the request's image, environment variables, host entries, mounts and command
//! override.

use crate::plan::HostTarget;
use crate::text::strings_view;
use testcontainers::ContainerRequest;
use testcontainers::GenericImage;
use testcontainers::ImageExt;
use vstd::prelude::*;

verus! {

/// A filesystem mount of `testcontainers` (`testcontainers::core::Mount`)
#[verifier::external_type_specification]
#[verifier::external_body]
pub struct ExMount(testcontainers::core::Mount);

/// A readiness condition of `testcontainers` (`testcontainers::core::WaitFor`)
#[verifier::external_type_specification]
#[verifier::external_body]
pub struct ExWaitFor(testcontainers::core::WaitFor);

/// An image that a container is started from (`testcontainers::GenericImage`)
#[verifier::external_type_specification]
#[verifier::external_body]
pub struct ExGenericImage(GenericImage);

/// A request to start a container from a generic image, as `testcontainers` builds it
///
/// `testcontainers::ContainerRequest` is generic over images bound by the trait `Image`; Doco only
/// ever requests generic images, so the request for one is held here, opaquely.
#[verifier::external_body]
pub struct StartRequest(pub ContainerRequest<GenericImage>);

/// Clones a mount with `Mount::clone`, which `derive(Clone)` writes field by field; the
/// contract claims that the copy is the same value.
#[verifier::external_body]
pub(crate) fn clone_mount(mount: &testcontainers::core::Mount) -> (copy:
    testcontainers::core::Mount)
    ensures
        copy == *mount,
{
    mount.clone()
}

/// Clones a readiness condition with `WaitFor::clone`, which `derive(Clone)` writes variant by
/// variant; the contract claims that the copy is the same value.
#[verifier::external_body]
pub(crate) fn clone_wait_for(wait: &testcontainers::core::WaitFor) -> (copy:
    testcontainers::core::WaitFor)
    ensures
        copy == *wait,
{
    wait.clone()
}

/// The condition `WaitFor::message_on_stdout` builds for a message: wait until the message
/// appears on the container's stdout
pub uninterp spec fn stdout_message_condition(message: Seq<char>) -> testcontainers::core::WaitFor;

/// Calls `WaitFor::message_on_stdout`, whose condition depends on the message alone.
#[verifier::external_body]
pub(crate) fn wait_for_stdout_message(message: &str) -> (wait: testcontainers::core::WaitFor)
    ensures
        wait == stdout_message_condition(message@),
{
    testcontainers::core::WaitFor::message_on_stdout(message)
}

/// The name of an image: `GenericImage::name`
pub uninterp spec fn image_name(image: GenericImage) -> Seq<char>;

/// The tag of an image: `GenericImage::tag`
pub uninterp spec fn image_tag(image: GenericImage) -> Seq<char>;

/// The protocol of an exposed port, as the variants of `ContainerPort` give it
#[derive(Clone, Copy, Debug, PartialEq, Eq)]
pub enum PortProtocol {
    /// `ContainerPort::Tcp`
    Tcp,
    /// `ContainerPort::Udp`
    Udp,
    /// `ContainerPort::Sctp`
    Sctp,
}

/// The exposed ports of an image (`Image::expose_ports`), each as its number and protocol, in
/// order
pub uninterp spec fn image_exposed_ports(image: GenericImage) -> Seq<(u16, PortProtocol)>;

/// The readiness conditions of an image (`Image::ready_conditions`), in order
pub uninterp spec fn image_ready_conditions(image: GenericImage) -> Seq<
    testcontainers::core::WaitFor,
>;

/// Calls `GenericImage::new`, which stores the name and the tag, and starts with no exposed ports
/// of any protocol and no readiness conditions.
#[verifier::external_body]
pub(crate) fn generic_image(name: &str, tag: &str) -> (image: GenericImage)
    ensures
        image_name(image) == name@,
        image_tag(image) == tag@,
        image_exposed_ports(image).len() == 0,
        image_ready_conditions(image).len() == 0,
{
    GenericImage::new(name, tag)
}

/// Calls `GenericImage::with_exposed_port` with the TCP port `port.tcp()`, which appends the port
/// and leaves the rest of the image as it was.
#[verifier::external_body]
pub(crate) fn image_with_exposed_tcp_port(image: GenericImage, port: u16) -> (r: GenericImage)
    ensures
        image_exposed_ports(r) == image_exposed_ports(image).push((port, PortProtocol::Tcp)),
        image_name(r) == image_name(image),
        image_tag(r) == image_tag(image),
        image_ready_conditions(r) == image_ready_conditions(image),
{
    image.with_exposed_port(testcontainers::core::IntoContainerPort::tcp(port))
}

/// Calls `GenericImage::with_wait_for`, which appends the condition and leaves the rest of the
/// image as it was.
#[verifier::external_body]
pub(crate) fn image_with_wait_for(image: GenericImage, wait: testcontainers::core::WaitFor) -> (r:
    GenericImage)
    ensures
        image_ready_conditions(r) == image_ready_conditions(image).push(wait),
        image_name(r) == image_name(image),
        image_tag(r) == image_tag(image),
        image_exposed_ports(r) == image_exposed_ports(image),
{
    image.with_wait_for(wait)
}

/// The image that a request starts a container from: `ContainerRequest::image`
pub uninterp spec fn request_image(request: StartRequest) -> GenericImage;

/// The mounts of a request: the list `ContainerRequest` keeps of the mounts added to it, in order
pub uninterp spec fn request_mounts(request: StartRequest) -> Seq<testcontainers::core::Mount>;

/// The environment variables of a request: the map `ContainerRequest::env_vars` holds, from name
/// to value
pub uninterp spec fn request_env_vars(request: StartRequest) -> Map<Seq<char>, Seq<char>>;

/// The host entries of a request: the map `ContainerRequest::hosts` holds, from host name to where
/// it points
pub uninterp spec fn request_hosts(request: StartRequest) -> Map<Seq<char>, HostTarget>;

/// The command that overrides the image default in a request: the list
/// `ContainerRequest::overridden_cmd`, empty when the image default runs
pub uninterp spec fn request_command(request: StartRequest) -> Seq<Seq<char>>;

/// Calls `ContainerRequest::from` on an image, which keeps the image and starts with no mounts,
/// no environment variables, no host entries and no command override.
#[verifier::external_body]
pub(crate) fn image_request(image: GenericImage) -> (r: StartRequest)
    ensures
        request_image(r) == image,
        request_mounts(r).len() == 0,
        request_env_vars(r).dom() == Set::<Seq<char>>::empty(),
        request_hosts(r).dom() == Set::<Seq<char>>::empty(),
        request_command(r).len() == 0,
{
    StartRequest(ContainerRequest::from(image))
}

/// Calls `ImageExt::with_host` with `Host::HostGateway`, which inserts the entry into the hosts
/// map and leaves the rest of the request as it was.
#[verifier::external_body]
pub(crate) fn request_with_gateway_host(request: StartRequest, name: &str) -> (r: StartRequest)
    ensures
        request_hosts(r) == request_hosts(request).insert(name@, HostTarget::Gateway),
        request_image(r) == request_image(request),
        request_mounts(r) == request_mounts(request),
        request_env_vars(r) == request_env_vars(request),
        request_command(r) == request_command(request),
{
    StartRequest(request.0.with_host(name, testcontainers::core::Host::HostGateway))
}

/// Calls `ImageExt::with_host` with `Host::Addr` of the IPv4 address with these octets, which
/// inserts the entry into the hosts map and leaves the rest of the request as it was.
#[verifier::external_body]
pub(crate) fn request_with_ipv4_host(request: StartRequest, name: &str, octets: [u8; 4]) -> (r:
    StartRequest)
    ensures
        request_hosts(r) == request_hosts(request).insert(name@, HostTarget::Ipv4(octets)),
        request_image(r) == request_image(request),
        request_mounts(r) == request_mounts(request),
        request_env_vars(r) == request_env_vars(request),
        request_command(r) == request_command(request),
{
    StartRequest(request.0.with_host(name, testcontainers::core::Host::Addr(octets.into())))
}

/// Calls `ImageExt::with_host` with `Host::Addr` of the IPv6 address with these octets, which
/// inserts the entry into the hosts map and leaves the rest of the request as it was.
#[verifier::external_body]
pub(crate) fn request_with_ipv6_host(request: StartRequest, name: &str, octets: [u8; 16]) -> (r:
    StartRequest)
    ensures
        request_hosts(r) == request_hosts(request).insert(name@, HostTarget::Ipv6(octets)),
        request_image(r) == request_image(request),
        request_mounts(r) == request_mounts(request),
        request_env_vars(r) == request_env_vars(request),
        request_command(r) == request_command(request),
{
    StartRequest(request.0.with_host(name, testcontainers::core::Host::Addr(octets.into())))
}

/// Calls `ImageExt::with_env_var`, which inserts the variable into the environment map and leaves
/// the rest of the request as it was.
#[verifier::external_body]
pub(crate) fn request_with_env_var(request: StartRequest, name: &str, value: &str) -> (r:
    StartRequest)
    ensures
        request_env_vars(r) == request_env_vars(request).insert(name@, value@),
        request_image(r) == request_image(request),
        request_mounts(r) == request_mounts(request),
        request_hosts(r) == request_hosts(request),
        request_command(r) == request_command(request),
{
    StartRequest(request.0.with_env_var(name, value))
}

/// Calls `ImageExt::with_mount`, which appends the mount and leaves the rest of the request as
/// it was.
#[verifier::external_body]
pub(crate) fn request_with_mount(request: StartRequest, mount: testcontainers::core::Mount) -> (r:
    StartRequest)
    ensures
        request_mounts(r) == request_mounts(request).push(mount),
        request_image(r) == request_image(request),
        request_env_vars(r) == request_env_vars(request),
        request_hosts(r) == request_hosts(request),
        request_command(r) == request_command(request),
{
    StartRequest(request.0.with_mount(mount))
}

/// Calls `ImageExt::with_cmd`, which replaces the command override with these arguments and
/// leaves the rest of the request as it was.
#[verifier::external_body]
pub(crate) fn request_with_cmd(request: StartRequest, cmd: Vec<String>) -> (r: StartRequest)
    ensures
        request_command(r) == strings_view(cmd@),
        request_image(r) == request_image(request),
        request_mounts(r) == request_mounts(request),
        request_env_vars(r) == request_env_vars(request),
        request_hosts(r) == request_hosts(request),
{
    StartRequest(request.0.with_cmd(cmd))
}

/// A parsed URL (`url::Url`, which `reqwest::Url` re-exports)
#[verifier::external_type_specification]
#[verifier::external_body]
pub struct ExUrl(url::Url);

/// Why a URL could not be parsed (`url::ParseError`)
#[verifier::external_type_specification]
#[verifier::external_body]
pub struct ExUrlParseError(url::ParseError);

/// What `Url::parse` gives for a text: the parsed URL, or why the text is not one. It depends on
/// the text alone.
pub uninterp spec fn parsed_url(text: Seq<char>) -> Result<url::Url, url::ParseError>;

/// Calls `Url::parse` (which `str::parse` into a `Url` calls).
#[verifier::external_body]
pub(crate) fn parse_url(text: &str) -> (r: Result<url::Url, url::ParseError>)
    ensures
        r == parsed_url(text@),
{
    url::Url::parse(text)
}

} // verus!
