//! Static configuration: the streaming side with its defaults, and the
//! broker side, whose fields are all required.
use vstd::prelude::*;
use vstd::string::StringExecFns;

verus! {

/// The whole configuration of a bridge.
pub struct Config {
    pub sse: SseConfig,
    pub mqtt: MqttConfig,
}

/// Where the streaming endpoint listens, and how much each client may lag.
pub struct SseConfig {
    pub ip: String,
    pub port: u16,
    pub endpoint: String,
    /// How many recent messages the hub keeps for slow clients.
    pub buffer_size: usize,
}

/// How to reach the broker and which topic to relay.
pub struct MqttConfig {
    pub host: String,
    pub port: u16,
    pub client_id: String,
    pub username: Option<String>,
    pub password: Option<String>,
    pub topic: String,
}

pub fn default_ip() -> (r: String)
    ensures
        r@ == "127.0.0.1"@,
{
    "127.0.0.1".to_string()
}

pub fn default_port() -> (r: u16)
    ensures
        r == 3030,
{
    3030
}

pub fn default_endpoint() -> (r: String)
    ensures
        r@ == "events"@,
{
    "events".to_string()
}

pub fn default_buffer_size() -> (r: usize)
    ensures
        r == 1024,
{
    crate::hub::DEFAULT_BUFFER_SIZE
}

impl Default for SseConfig {
    fn default() -> (r: SseConfig)
        ensures
            r.ip@ == "127.0.0.1"@,
            r.port == 3030,
            r.endpoint@ == "events"@,
            r.buffer_size == 1024,
    {
        SseConfig {
            ip: default_ip(),
            port: default_port(),
            endpoint: default_endpoint(),
            buffer_size: default_buffer_size(),
        }
    }
}

/// Decimal digits of `n`, most significant first, with no leading zero.
pub open spec fn decimal(n: nat) -> Seq<char>
    decreases n,
{
    if n < 10 {
        seq![digit_char(n)]
    } else {
        decimal(n / 10).push(digit_char(n % 10))
    }
}

pub open spec fn digit_char(d: nat) -> char {
    (('0' as nat) + d) as char
}

/// Relies on the `Display` of `u16`: its decimal digits, no sign, no
/// leading zero.
#[verifier::external_body]
fn port_text(n: u16) -> (r: String)
    ensures
        r@ == decimal(n as nat),
{
    n.to_string()
}

impl MqttConfig {
    /// Credentials count only when both a username and a password are given.
    pub open spec fn has_credentials(&self) -> bool {
        self.username.is_some() && self.password.is_some()
    }

    /// The username and password to authenticate with, when both are given.
    pub fn credentials(&self) -> (r: Option<(String, String)>)
        ensures
            r.is_some() == self.has_credentials(),
            r matches Some((u, p)) ==> u@ == self.username.unwrap()@ && p@
                == self.password.unwrap()@,
    {
        match (&self.username, &self.password) {
            (Some(u), Some(p)) => Some((u.clone(), p.clone())),
            _ => None,
        }
    }

    /// The word the summary shows for the credentials: never their values.
    pub open spec fn credentials_word(&self) -> Seq<char> {
        if self.has_credentials() {
            "provided"@
        } else {
            "none"@
        }
    }

    /// The human-readable account of this configuration.
    pub open spec fn summary_text(&self) -> Seq<char> {
        "MQTT Configuration:\nClient ID: "@ + self.client_id@ + "\nHost: "@ + self.host@
            + "\nPort: "@ + decimal(self.port as nat) + "\nTopic: "@ + self.topic@
            + "\nCredentials: "@ + self.credentials_word() + "\n"@
    }

    /// Client id, host, port, topic, and whether credentials were supplied.
    pub fn summary(&self) -> (r: String)
        ensures
            r@ == self.summary_text(),
    {
        let mut s = String::new();
        s.append("MQTT Configuration:\nClient ID: ");
        s.append(self.client_id.as_str());
        s.append("\nHost: ");
        s.append(self.host.as_str());
        s.append("\nPort: ");
        let port = port_text(self.port);
        s.append(port.as_str());
        s.append("\nTopic: ");
        s.append(self.topic.as_str());
        s.append("\nCredentials: ");
        if self.username.is_some() && self.password.is_some() {
            s.append("provided");
        } else {
            s.append("none");
        }
        s.append("\n");
        proof {
            assert(s@ =~= self.summary_text());
        }
        s
    }
}

} // verus!
