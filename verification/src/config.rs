//! What the client tells nsqd about itself, and what nsqd answers.

use vstd::prelude::*;
use vstd::string::*;

verus! {

/// The client's settings, sent to nsqd with `IDENTIFY`.
#[derive(Clone, Debug, PartialEq)]
pub struct Config<S> {
    /// Identifiers sent to nsqd representing this client (consumer specific)
    ///
    /// Default: **hostname** where connection is started
    pub client_id: Option<String>,
    /// Hostname where client is deployed.
    ///
    /// Default: **hostname** where connection is started
    pub hostname: Option<String>,
    /// Enable feature_negotiation
    ///
    /// Default: **true**
    pub feature_negotiation: bool,
    /// Duration of time between heartbeats (milliseconds).
    ///
    /// Valid values:
    /// * -1 disables heartbeats
    /// * 1000 <= heartbeat_interval <= configured_max
    ///
    /// Default: **30000**
    pub heartbeat_interval: i64,
    /// Size of the buffer (in bytes) used by nsqd for buffering writes to this connection
    ///
    /// Default: **16384**
    pub output_buffer_size: u64,
    /// The timeout after which data nsqd has buffered will be flushed to this client.
    ///
    /// Default: **250**
    pub output_buffer_timeout: u32,
    /// Enable TLS negotiation (set by `tls`).
    ///
    /// Default: **false**
    pub tls_v1: bool,
    /// Enable snappy compression.
    ///
    /// Default: **false**
    pub snappy: bool,
    /// Enable deflate compression.
    ///
    /// Default: **false**
    pub deflate: bool,
    /// Configure deflate compression level.
    ///
    /// Default: **6**
    pub deflate_level: u16,
    /// Integer percentage to sample the channel.
    ///
    /// Default: **0**
    pub sample_rate: u16,
    /// String identifying the agent for this connection.
    ///
    /// Default: **hostname** where connection is started
    pub user_agent: Option<String>,
    /// Timeout used by nsqd before flushing buffered writes in milliseconds (0 disables it).
    ///
    /// Default: **0**
    pub message_timeout: u32,
    /// How the server's certificate is checked; not sent to nsqd. `NoCheck`
    /// turns the check off (not for production), `PublicCA` checks against
    /// the webpki Mozilla root list, `PrivateCA(file)` adds a private CA chain.
    ///
    /// Default: **PublicCA**
    pub verify_server: VerifyServerCert<S>,
}

/// Calls `hostname::get_hostname`: the name of this machine, when it can be
/// read. It depends on the machine, so nothing is said of the result.
#[verifier::external_body]
fn machine_hostname() -> Option<String> {
    hostname::get_hostname()
}

impl<S> Config<S> {
    /// Every setting but those that default to the machine's hostname
    /// (client id, hostname, user agent) has its default value.
    pub open spec fn has_default_settings(&self) -> bool {
        &&& !self.deflate
        &&& self.deflate_level == 6
        &&& !self.snappy
        &&& self.feature_negotiation
        &&& self.heartbeat_interval == 30000
        &&& self.message_timeout == 0
        &&& self.output_buffer_size == 16384
        &&& self.output_buffer_timeout == 250
        &&& self.sample_rate == 0
        &&& !self.tls_v1
        &&& self.verify_server is PublicCA
    }

    /// Client id, hostname and user agent all hold `h`.
    pub open spec fn names_host(&self, h: Option<String>) -> bool {
        &&& self.client_id == h
        &&& self.hostname == h
        &&& self.user_agent == h
    }

    /// The default settings, with `h` as client id, hostname and user agent.
    pub fn with_hostname(h: Option<String>) -> (r: Config<S>)
        ensures
            r.has_default_settings(),
            r.names_host(h),
    {
        Config {
            client_id: copy_name(&h),
            user_agent: copy_name(&h),
            hostname: h,
            deflate: false,
            deflate_level: 6,
            snappy: false,
            feature_negotiation: true,
            heartbeat_interval: 30000,
            message_timeout: 0,
            output_buffer_size: 16384,
            output_buffer_timeout: 250,
            sample_rate: 0,
            tls_v1: false,
            verify_server: VerifyServerCert::PublicCA,
        }
    }

    /// Create default [Config](struct.Config.html): the default settings,
    /// with this machine's name as client id, hostname and user agent.
    pub fn new() -> (r: Config<S>)
        ensures
            r.has_default_settings(),
            r.names_host(r.hostname),
    {
        Self::default()
    }

    /// Change [client_id](struct.Config.html#structfield.client_id)
    pub fn client_id(self, client_id: &str) -> (r: Self)
        ensures
            r.client_id matches Some(c) && c@ == client_id@,
            r == (Config { client_id: r.client_id, ..self }),
    {
        let mut this = self;
        this.client_id = Some(client_id.to_owned());
        this
    }

    /// Change [hostname](struct.Config.html#structfield.hostname)
    pub fn hostname(self, hostname: &str) -> (r: Self)
        ensures
            r.hostname matches Some(h) && h@ == hostname@,
            r == (Config { hostname: r.hostname, ..self }),
    {
        let mut this = self;
        this.hostname = Some(hostname.to_owned());
        this
    }

    /// Change [user_agent](struct.Config.html#structfield.user_agent)
    pub fn user_agent(self, user_agent: &str) -> (r: Self)
        ensures
            r.user_agent matches Some(u) && u@ == user_agent@,
            r == (Config { user_agent: r.user_agent, ..self }),
    {
        let mut this = self;
        this.user_agent = Some(user_agent.to_owned());
        this
    }

    /// Turn TLS on, checking the server's certificate as `verify_server_cert` says.
    pub fn tls(&mut self, verify_server_cert: VerifyServerCert<S>)
        ensures
            *final(self) == (Config { tls_v1: true, verify_server: verify_server_cert, ..*old(self) }),
    {
        self.tls_v1 = true;
        self.verify_server = verify_server_cert;
    }
}

/// A copy of a name.
fn copy_name(h: &Option<String>) -> (r: Option<String>)
    ensures
        r == *h,
{
    match h {
        Some(s) => Some(s.clone()),
        None => None,
    }
}

impl<S> Default for Config<S> {
    /// The default settings, with the name of this machine, read once, as
    /// client id, hostname and user agent (see `with_hostname`).
    fn default() -> (r: Config<S>)
        ensures
            r.has_default_settings(),
            r.names_host(r.hostname),
    {
        Self::with_hostname(machine_hostname())
    }
}

/// What nsqd answers to `IDENTIFY`.
#[derive(Clone, Debug, PartialEq, Default)]
pub struct NsqdConfig {
    pub max_rdy_count: u32,
    pub version: String,
    pub max_msg_timeout: u64,
    pub msg_timeout: u64,
    pub tls_v1: bool,
    pub deflate: bool,
    pub deflate_level: u16,
    pub max_deflate_level: u16,
    pub snappy: bool,
    pub sample_rate: u16,
    pub auth_required: bool,
    pub output_buffer_size: u64,
    pub output_buffer_timeout: u32,
}

/// How the server's certificate is checked: not at all, against a private
/// CA, or against the public roots.
#[derive(PartialEq, Clone, Debug)]
pub enum VerifyServerCert<S> {
    NoCheck,
    PrivateCA(S),
    PublicCA,
}

impl<S> Default for VerifyServerCert<S> {
    fn default() -> (r: Self)
        ensures
            r is NoCheck,
    {
        VerifyServerCert::NoCheck
    }
}

/// How a TLS session checks nsqd's certificate.
#[derive(Debug, PartialEq, Eq, Structural, Clone, Copy)]
pub enum TlsVerifier {
    /// No check at all.
    NoCheck,
    /// Against the chain of a private CA file.
    PrivateCA,
    /// Against the public (webpki Mozilla) roots.
    PublicRoots,
}

/// The check a TLS session makes: against the private CA whenever a CA file
/// is named, whatever `verify_server_cert` says; else none when
/// `verify_server_cert` is false; else against the public roots.
pub fn tls_verifier(verify_server_cert: bool, private_ca: &str) -> (r: TlsVerifier)
    ensures
        r == (if private_ca@.len() > 0 {
            TlsVerifier::PrivateCA
        } else if !verify_server_cert {
            TlsVerifier::NoCheck
        } else {
            TlsVerifier::PublicRoots
        }),
{
    if !private_ca.is_empty() {
        TlsVerifier::PrivateCA
    } else if !verify_server_cert {
        TlsVerifier::NoCheck
    } else {
        TlsVerifier::PublicRoots
    }
}

/// What a connection needs to subscribe: the secret, the channel, the topic.
#[derive(Clone)]
pub struct ConnConfig<S> {
    pub secret: Option<S>,
    pub channel: String,
    pub topic: String,
}

impl<S> ConnConfig<S> {
    pub fn new(secret: Option<S>, channel: String, topic: String) -> (r: ConnConfig<S>)
        ensures
            r.secret == secret,
            r.channel == channel,
            r.topic == topic,
    {
        ConnConfig { secret, channel, topic }
    }
}

} // verus!
