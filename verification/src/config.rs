//! How the two HTTP clients are set up: where the local agent keeps its
//! secret, which header carries it, and which address each client talks to.

use vstd::prelude::*;
use vstd::string::*;

verus! {

/// Base address of the management service when none is configured.
pub const CENTRAL_BASEURL: &'static str = "https://my.zerotier.com/api/v1";

/// Address on which the local agent listens.
pub const LOCAL_BASEURL: &'static str = "http://127.0.0.1:9993";

/// Header that authenticates a request to the management service.
pub const CENTRAL_AUTH_HEADER: &'static str = "Authorization";

/// Header that authenticates a request to the local agent.
pub const LOCAL_AUTH_HEADER: &'static str = "X-ZT1-Auth";

/// The operating system this process runs on, as far as the location of the
/// agent's secret depends on it.
#[derive(Clone, Copy, Debug, PartialEq, Eq, Structural)]
pub enum Platform {
    Linux,
    Windows,
    MacOs,
    /// Any system on which the agent has no known install location.
    Other,
}

/// Why a client could not be set up.
#[derive(Clone, Copy, Debug, PartialEq, Eq, Structural)]
pub enum ConfigError {
    /// The file that holds the agent's secret is missing or unreadable.
    CredentialsUnreadable,
    /// The secret or token cannot be sent as the value of an HTTP header.
    MalformedHeaderValue,
}

/// Everything needed to build one HTTP client: the address it talks to,
/// whether it refuses plain HTTP, and the one header it adds to each request.
#[derive(Clone, Debug, PartialEq, Eq)]
pub struct ClientConfig {
    pub base_url: String,
    pub https_only: bool,
    pub header_name: String,
    pub header_value: String,
}

/// A [`ClientConfig`] with its strings as character sequences.
pub struct ClientConfigView {
    pub base_url: Seq<char>,
    pub https_only: bool,
    pub header_name: Seq<char>,
    pub header_value: Seq<char>,
}

impl View for ClientConfig {
    type V = ClientConfigView;

    open spec fn view(&self) -> ClientConfigView {
        ClientConfigView {
            base_url: self.base_url@,
            https_only: self.https_only,
            header_name: self.header_name@,
            header_value: self.header_value@,
        }
    }
}

/// Where the agent keeps its secret on a platform with a known install
/// location. On [`Platform::Other`] there is no such place and the value is
/// empty.
pub open spec fn default_authtoken_path(platform: Platform) -> Seq<char> {
    match platform {
        Platform::Linux => "/var/lib/zerotier-one/authtoken.secret"@,
        Platform::Windows => "C:/ProgramData/ZeroTier/One/authtoken.secret"@,
        Platform::MacOs => "/Library/Application Support/ZeroTier/One/authtoken.secret"@,
        Platform::Other => Seq::empty(),
    }
}

/// Whether the secret's location is known: a path was given, or the platform
/// has a default one.
pub open spec fn authtoken_path_known(arg: Option<&str>, platform: Platform) -> bool {
    arg is Some || platform != Platform::Other
}

/// The path of the file that holds the agent's secret: the path given, and
/// without one the platform's default.
pub open spec fn authtoken_path_of(arg: Option<&str>, platform: Platform) -> Seq<char> {
    match arg {
        Some(path) => path@,
        None => default_authtoken_path(platform),
    }
}

/// Determines the path of the file that holds the agent's secret.
///
/// An explicit path always wins. Without one the platform decides, and a
/// platform without a default location has no answer: callers rule that out
/// beforehand, with [`find_authtoken_path`] if need be.
pub fn authtoken_path<'a>(arg: Option<&'a str>, platform: Platform) -> (path: &'a str)
    requires
        authtoken_path_known(arg, platform),
    ensures
        path@ == authtoken_path_of(arg, platform),
{
    if let Some(given) = arg {
        return given;
    }
    match platform {
        Platform::Linux => "/var/lib/zerotier-one/authtoken.secret",
        Platform::Windows => "C:/ProgramData/ZeroTier/One/authtoken.secret",
        Platform::MacOs => "/Library/Application Support/ZeroTier/One/authtoken.secret",
        Platform::Other => "",
    }
}

/// Determines the path of the file that holds the agent's secret, or finds
/// that it is not known.
pub fn find_authtoken_path<'a>(arg: Option<&'a str>, platform: Platform) -> (found: Option<&'a str>)
    ensures
        found is Some <==> authtoken_path_known(arg, platform),
        found matches Some(path) ==> path@ == authtoken_path_of(arg, platform),
{
    if arg.is_none() {
        if let Platform::Other = platform {
            return None;
        }
    }
    Some(authtoken_path(arg, platform))
}

/// Whether `c` may occur in the value of an HTTP header: anything but the
/// control characters, of which only the tab is let through.
pub open spec fn is_header_char(c: char) -> bool {
    (c as u32 >= 32 && c as u32 != 127) || c as u32 == 9
}

/// Whether `s` can be sent as the value of an HTTP header as it stands.
pub open spec fn is_header_value(s: Seq<char>) -> bool {
    forall|i: int| 0 <= i < s.len() ==> is_header_char(#[trigger] s[i])
}

/// Asks `http::HeaderValue::from_str` whether it takes `value`.
///
/// Not proved: that it takes exactly the strings of [`is_header_value`]. It
/// scans the UTF-8 bytes and turns down the first one below 32 other than the
/// tab, and 127; every byte of a character beyond ASCII is above 127, so the
/// test on bytes and the test on characters agree.
#[verifier::external_body]
fn header_value_accepted(value: &str) -> (accepted: bool)
    ensures
        accepted == is_header_value(value@),
{
    http::HeaderValue::from_str(value).is_ok()
}

/// The header value that carries `token` to the management service.
pub open spec fn bearer(token: Seq<char>) -> Seq<char> {
    "bearer "@ + token
}

/// The address of the management service: the configured one, and without it
/// [`CENTRAL_BASEURL`].
pub open spec fn central_base_url(instance: Option<String>) -> Seq<char> {
    match instance {
        Some(url) => url@,
        None => CENTRAL_BASEURL@,
    }
}

/// The client set-up for the management service with `token`.
pub open spec fn central_config(token: Seq<char>, instance: Option<String>) -> ClientConfigView {
    ClientConfigView {
        base_url: central_base_url(instance),
        https_only: true,
        header_name: CENTRAL_AUTH_HEADER@,
        header_value: bearer(token),
    }
}

/// The client set-up for the local agent with the secret `authtoken`.
pub open spec fn local_config(authtoken: Seq<char>) -> ClientConfigView {
    ClientConfigView {
        base_url: LOCAL_BASEURL@,
        https_only: false,
        header_name: LOCAL_AUTH_HEADER@,
        header_value: authtoken,
    }
}

/// What setting up the local client gives for a secret.
pub open spec fn local_client_outcome(authtoken: Seq<char>) -> Result<ClientConfigView, ConfigError> {
    if is_header_value(authtoken) {
        Ok(local_config(authtoken))
    } else {
        Err(ConfigError::MalformedHeaderValue)
    }
}

/// What setting up the local client gives for the outcome of reading the
/// secret's file; `None` stands for a file that could not be read.
pub open spec fn local_client_from_file_outcome(contents: Option<Seq<char>>) -> Result<
    ClientConfigView,
    ConfigError,
> {
    match contents {
        Some(authtoken) => local_client_outcome(authtoken),
        None => Err(ConfigError::CredentialsUnreadable),
    }
}

/// The outcome of a client set-up, with the strings of the set-up as
/// character sequences.
pub open spec fn setup_view(outcome: Result<ClientConfig, ConfigError>) -> Result<
    ClientConfigView,
    ConfigError,
> {
    match outcome {
        Ok(config) => Ok(config@),
        Err(e) => Err(e),
    }
}

/// Sets up the client for the management service.
///
/// The client talks HTTPS only, to `instance` if one is configured and to
/// [`CENTRAL_BASEURL`] otherwise, and authenticates with `bearer <token>`.
/// A token that cannot stand in a header is turned down.
pub fn central_client(token: String, instance: Option<String>) -> (outcome: Result<
    ClientConfig,
    ConfigError,
>)
    ensures
        setup_view(outcome) == if is_header_value(bearer(token@)) {
            Ok::<ClientConfigView, ConfigError>(central_config(token@, instance))
        } else {
            Err::<ClientConfigView, ConfigError>(ConfigError::MalformedHeaderValue)
        },
{
    let header_value = "bearer ".to_owned().concat(token.as_str());
    if !header_value_accepted(header_value.as_str()) {
        return Err(ConfigError::MalformedHeaderValue);
    }
    let base_url = match instance {
        Some(url) => url,
        None => CENTRAL_BASEURL.to_owned(),
    };
    Ok(
        ClientConfig {
            base_url,
            https_only: true,
            header_name: CENTRAL_AUTH_HEADER.to_owned(),
            header_value,
        },
    )
}

/// Sets up the client for the local agent from its secret.
///
/// The client talks to [`LOCAL_BASEURL`] and sends the secret as it stands.
/// A secret that cannot stand in a header is turned down; a trailing line
/// break is enough for that.
pub fn local_client(authtoken: String) -> (outcome: Result<ClientConfig, ConfigError>)
    ensures
        setup_view(outcome) == local_client_outcome(authtoken@),
{
    if !header_value_accepted(authtoken.as_str()) {
        return Err(ConfigError::MalformedHeaderValue);
    }
    Ok(
        ClientConfig {
            base_url: LOCAL_BASEURL.to_owned(),
            https_only: false,
            header_name: LOCAL_AUTH_HEADER.to_owned(),
            header_value: authtoken,
        },
    )
}

/// The contents of the secret's file as a character sequence.
pub open spec fn contents_view(contents: Option<String>) -> Option<Seq<char>> {
    match contents {
        Some(text) => Some(text@),
        None => None,
    }
}

/// Sets up the client for the local agent from what reading the secret's
/// file gave: its contents, or `None` when it could not be read.
pub fn local_client_from_file(contents: Option<String>) -> (outcome: Result<
    ClientConfig,
    ConfigError,
>)
    ensures
        setup_view(outcome) == local_client_from_file_outcome(contents_view(contents)),
{
    match contents {
        Some(authtoken) => local_client(authtoken),
        None => Err(ConfigError::CredentialsUnreadable),
    }
}

} // verus!
