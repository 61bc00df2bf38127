//! The browser side of a session: Firefox's capabilities and the addresses that WebDriver and
//! the browser use

use crate::containers::{parse_url, parsed_url};
use crate::plan::DOCKER_HOST;
use crate::text::{decimal, decimal_string, lemma_decimal_injective};
use vstd::prelude::*;

verus! {

/// The capabilities that Firefox is asked for (`thirtyfour::FirefoxCapabilities`)
#[verifier::external_type_specification]
#[verifier::external_body]
pub struct ExFirefoxCapabilities(thirtyfour::FirefoxCapabilities);

/// An error of `thirtyfour` (`thirtyfour::error::WebDriverError`)
#[verifier::external_type_specification]
#[verifier::external_body]
pub struct ExWebDriverError(thirtyfour::error::WebDriverError);

/// The command-line arguments that Firefox capabilities pass to the browser, in order: the list
/// under `moz:firefoxOptions` / `args`, which `FirefoxCapabilities::args` reads
pub uninterp spec fn firefox_arguments(caps: thirtyfour::FirefoxCapabilities) -> Seq<Seq<char>>;

/// The argument that runs Firefox without a visible window
pub open spec fn headless_argument() -> Seq<char> {
    "-headless"@
}

/// Calls `DesiredCapabilities::firefox`, which is `FirefoxCapabilities::new`: it sets the browser
/// name only, so the capabilities carry no browser arguments.
#[verifier::external_body]
fn firefox_capabilities() -> (caps: thirtyfour::FirefoxCapabilities)
    ensures
        firefox_arguments(caps) == Seq::<Seq<char>>::empty(),
{
    thirtyfour::DesiredCapabilities::firefox()
}

/// Calls `FirefoxCapabilities::set_headless`, which adds the argument `-headless` unless it is
/// there already. It always succeeds: the only fallible steps serialise a list of strings and a
/// JSON value, neither of which can fail.
#[verifier::external_body]
fn set_headless(caps: &mut thirtyfour::FirefoxCapabilities) -> (r: Result<
    (),
    thirtyfour::error::WebDriverError,
>)
    ensures
        r is Ok,
        firefox_arguments(*final(caps)) == (if firefox_arguments(*old(caps)).contains(
            "-headless"@,
        ) {
            firefox_arguments(*old(caps))
        } else {
            firefox_arguments(*old(caps)).push("-headless"@)
        }),
{
    caps.set_headless()
}

/// The Firefox capabilities for a session: the browser name, and the headless argument exactly
/// when `headless` is set
pub fn browser_capabilities(headless: bool) -> (caps: thirtyfour::FirefoxCapabilities)
    ensures
        firefox_arguments(caps) == (if headless {
            seq![headless_argument()]
        } else {
            Seq::<Seq<char>>::empty()
        }),
{
    let mut caps = firefox_capabilities();
    if headless {
        let added = set_headless(&mut caps);
        proof {
            reveal_strlit("-headless");
            assert(added is Ok);
            assert(!Seq::<Seq<char>>::empty().contains("-headless"@));
            assert(Seq::<Seq<char>>::empty().push("-headless"@) =~= seq![headless_argument()]);
        }
    }
    caps
}

/// The URL of the WebDriver endpoint that Selenium serves at `host` and `port`
pub open spec fn endpoint_view(host: Seq<char>, port: u16) -> Seq<char> {
    "http://"@ + host + ":"@ + decimal(port as nat)
}

/// Different ports give different endpoints: the port can be read back from the end of the URL,
/// so two endpoints on one host agree only when their ports do.
pub proof fn lemma_endpoint_determines_port(host: Seq<char>, p: u16, q: u16)
    requires
        endpoint_view(host, p) == endpoint_view(host, q),
    ensures
        p == q,
{
    let prefix = "http://"@ + host + ":"@;
    let a = endpoint_view(host, p);
    let b = endpoint_view(host, q);
    assert(a == prefix + decimal(p as nat));
    assert(b == prefix + decimal(q as nat));
    assert(a.subrange(prefix.len() as int, a.len() as int) =~= decimal(p as nat));
    assert(b.subrange(prefix.len() as int, b.len() as int) =~= decimal(q as nat));
    lemma_decimal_injective(p as nat, q as nat);
}

/// The URL of the WebDriver endpoint that Selenium serves at `host` and `port`, as
/// `http://{host}:{port}`
pub fn webdriver_endpoint(host: &str, port: u16) -> (url: String)
    ensures
        url@ == endpoint_view(host@, port),
{
    let mut url = "http://".to_owned();
    url.append(host);
    url.append(":");
    let digits = decimal_string(port as u32);
    url.append(digits.as_str());
    url
}

/// The base URL under which the browser reaches the server, whose container port is mapped to
/// `port` on the machine that runs Docker: `http://host.docker.internal:{port}`
pub fn server_base_url(port: u16) -> (url: String)
    ensures
        url@ == endpoint_view(DOCKER_HOST@, port),
{
    webdriver_endpoint(DOCKER_HOST, port)
}

/// The base URL under which the browser reaches the server, parsed: what `Url::parse` gives for
/// [`server_base_url`]
pub fn parse_server_base_url(port: u16) -> (r: Result<url::Url, url::ParseError>)
    ensures
        r == parsed_url(endpoint_view(DOCKER_HOST@, port)),
{
    let text = server_base_url(port);
    parse_url(text.as_str())
}

} // verus!
