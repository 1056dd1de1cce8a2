//! What a bridge instance is started with, and the names derived from it:
//! the broker topic, the client identity and the certificate files.

use vstd::prelude::*;
use vstd::string::*;

verus! {

/// The broker port used when none is configured.
pub const DEFAULT_PORT: u16 = 8883;

/// Seconds of silence after which the client pings the broker.
pub const KEEP_ALIVE_SECS: u64 = 5;

/// How many requests may wait between the client and its connection.
pub const REQUEST_CAPACITY: usize = 10;

/// Whether the broker keeps a published text for devices that subscribe
/// later. It does not: a clipboard text is for the devices that are listening.
pub const PUBLISH_RETAINED: bool = false;

/// Delivery guarantee of a subscription or a publish.
#[derive(Debug, Clone, Copy, PartialEq, Eq, Structural)]
pub enum QoS {
    /// A message may be lost, and is never repeated.
    AtMostOnce,
    /// A message is repeated until acknowledged; it may arrive twice.
    AtLeastOnce,
}

/// The guarantee asked for inbound traffic. A lost or repeated inbound text is
/// harmless, so the cheapest level is used.
pub open spec fn subscribe_qos() -> QoS {
    QoS::AtMostOnce
}

/// The guarantee asked for outbound traffic. A local change is worth a retry.
pub open spec fn publish_qos() -> QoS {
    QoS::AtLeastOnce
}

/// The topic shared by all devices of `user`.
pub open spec fn topic_of(user: Seq<char>) -> Seq<char> {
    "clipboard/"@ + user
}

/// The name under which the files of a device's client identity are stored.
pub open spec fn identity_of(user: Seq<char>, device: Seq<char>) -> Seq<char> {
    user + "-"@ + device
}

/// The file that holds the broker's certificate authority.
pub open spec fn ca_file_name() -> Seq<char> {
    "ca.crt"@
}

/// The file that holds the client certificate of `device` of `user`.
pub open spec fn cert_file_of(user: Seq<char>, device: Seq<char>) -> Seq<char> {
    identity_of(user, device) + ".crt"@
}

/// The file that holds the private key of `device` of `user`.
pub open spec fn key_file_of(user: Seq<char>, device: Seq<char>) -> Seq<char> {
    identity_of(user, device) + ".key"@
}

/// The topic on which the devices of `user` publish and to which they
/// subscribe. It depends on the user alone: devices are not told apart.
pub fn topic_for_user(user: &str) -> (topic: String)
    ensures
        topic@ == topic_of(user@),
{
    let mut topic = String::from_str("clipboard/");
    topic.append(user);
    topic
}

/// Startup configuration of one bridge instance.
#[derive(Debug, PartialEq, Eq)]
pub struct BridgeConfig {
    /// Identifies this device to the broker.
    pub device: String,
    /// The user whose devices share one clipboard.
    pub user: String,
    /// Directory of the certificate files.
    pub cert_dir: String,
    /// Host name or address of the broker.
    pub server: String,
    /// Port of the broker.
    pub port: u16,
}

impl BridgeConfig {
    /// The topic of this instance, used for both subscribe and publish.
    pub fn topic(&self) -> (topic: String)
        ensures
            topic@ == topic_of(self.user@),
    {
        topic_for_user(self.user.as_str())
    }

    /// The identity under which the client connects: the device, not the
    /// user.
    pub fn client_id(&self) -> (id: String)
        ensures
            id@ == self.device@,
    {
        self.device.clone()
    }

    /// Name of the certificate authority file inside `cert_dir`.
    pub fn ca_file(&self) -> (name: String)
        ensures
            name@ == ca_file_name(),
    {
        String::from_str("ca.crt")
    }

    fn identity(&self) -> (name: String)
        ensures
            name@ == identity_of(self.user@, self.device@),
    {
        let mut name = self.user.clone();
        name.append("-");
        name.append(self.device.as_str());
        name
    }

    /// Name of the client certificate file inside `cert_dir`.
    pub fn cert_file(&self) -> (name: String)
        ensures
            name@ == cert_file_of(self.user@, self.device@),
    {
        let mut name = self.identity();
        name.append(".crt");
        name
    }

    /// Name of the client key file inside `cert_dir`.
    pub fn key_file(&self) -> (name: String)
        ensures
            name@ == key_file_of(self.user@, self.device@),
    {
        let mut name = self.identity();
        name.append(".key");
        name
    }

    /// What the connection to the broker is made with, given the contents of
    /// the three certificate files. The client presents itself as the device
    /// and proves it with the client certificate and key; the broker is held
    /// to the certificate authority.
    pub fn transport(&self, ca: Vec<u8>, client_cert: Vec<u8>, client_key: Vec<u8>) -> (transport:
        TransportConfig)
        ensures
            transport.client_id@ == self.device@,
            transport.host@ == self.server@,
            transport.port == self.port,
            transport.keep_alive_secs == KEEP_ALIVE_SECS,
            transport.request_capacity == REQUEST_CAPACITY,
            transport.ca@ == ca@,
            transport.client_cert@ == client_cert@,
            transport.client_key@ == client_key@,
    {
        TransportConfig {
            client_id: self.device.clone(),
            host: self.server.clone(),
            port: self.port,
            keep_alive_secs: KEEP_ALIVE_SECS,
            request_capacity: REQUEST_CAPACITY,
            ca,
            client_cert,
            client_key,
        }
    }
}

/// A mutually authenticated, encrypted session to the broker, as plain
/// values.
#[derive(Debug, PartialEq, Eq)]
pub struct TransportConfig {
    /// The identity under which the client connects.
    pub client_id: String,
    /// Host name or address of the broker.
    pub host: String,
    /// Port of the broker.
    pub port: u16,
    /// Seconds of silence after which the client pings the broker.
    pub keep_alive_secs: u64,
    /// How many requests may wait between the client and its connection.
    pub request_capacity: usize,
    /// The certificate authority that the broker's certificate must chain to.
    pub ca: Vec<u8>,
    /// The certificate that the client presents.
    pub client_cert: Vec<u8>,
    /// The private key of the client certificate.
    pub client_key: Vec<u8>,
}

} // verus!
