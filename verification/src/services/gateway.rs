use vstd::prelude::*;
use vstd::string::*;

use crate::config::MqttBrokerageConfig;

verus! {

broadcast use vstd::string::group_string_axioms;

/// mDNS settings advertised by the device.
#[derive(Debug)]
pub struct MdnsConfig {
    pub hostname: String,
    pub port: u16,
}

/// Registration payload sent by a device with the device handshake.
#[derive(Debug)]
pub struct DeviceInfo {
    pub address: String,
    pub mdns: MdnsConfig,
    /// PEM-encoded Certificate Signing Request for the device.
    pub csr_pem: String,
}

#[derive(Debug)]
pub struct MqttTopicConfig {
    pub topic: String,
    pub qos: u8,
}

/// Broker connection details returned to a device after a successful handshake.
#[derive(Debug)]
pub struct MqttBrokerageInfo {
    pub address: String,
    pub port: u16,
    pub topics: Vec<MqttTopicConfig>,
}

/// Mathematical value of a [`MqttBrokerageInfo`].
pub struct BrokerageInfoView {
    pub address: Seq<char>,
    pub port: u16,
    pub topics: Seq<(Seq<char>, u8)>,
}

impl View for MqttBrokerageInfo {
    type V = BrokerageInfoView;

    open spec fn view(&self) -> BrokerageInfoView {
        BrokerageInfoView {
            address: self.address@,
            port: self.port,
            topics: self.topics@.map_values(|t: MqttTopicConfig| (t.topic@, t.qos)),
        }
    }
}

impl MqttBrokerageInfo {
    pub fn duplicate(&self) -> (r: MqttBrokerageInfo)
        ensures
            r@ == self@,
    {
        let mut topics: Vec<MqttTopicConfig> = Vec::new();
        let mut i: usize = 0;
        while i < self.topics.len()
            invariant
                i <= self.topics@.len(),
                topics@.len() == i,
                forall|j: int| 0 <= j < i ==> #[trigger] topics@[j].topic@ == self.topics@[j].topic@ && topics@[j].qos == self.topics@[j].qos,
            decreases self.topics.len() - i,
        {
            let t = &self.topics[i];
            topics.push(MqttTopicConfig { topic: t.topic.clone(), qos: t.qos });
            i = i + 1;
        }
        let r = MqttBrokerageInfo { address: self.address.clone(), port: self.port, topics };
        assert(r@.topics =~= self@.topics);
        r
    }

    /// The same details with another broker address.
    pub fn with_address(self, address: String) -> (r: MqttBrokerageInfo)
        ensures
            r@ == (BrokerageInfoView { address: address@, ..self@ }),
    {
        MqttBrokerageInfo { address, port: self.port, topics: self.topics }
    }
}

/// The broker details handed to devices: the broker on `localhost`, on its
/// TLS port when TLS is enabled, with the one topic devices use.
pub fn build_brokerage_info(config: &MqttBrokerageConfig) -> (info: MqttBrokerageInfo)
    ensures
        info@.address == "localhost"@,
        info@.port == (if config.tls_enabled { config.mqtts_port } else { config.port }),
        info@.topics == seq![("placenet/test"@, 1u8)],
{
    let port = if config.tls_enabled { config.mqtts_port } else { config.port };
    let mut topics: Vec<MqttTopicConfig> = Vec::new();
    topics.push(MqttTopicConfig { topic: String::from_str("placenet/test"), qos: 1 });
    let info = MqttBrokerageInfo { address: String::from_str("localhost"), port, topics };
    assert(info@.topics =~= seq![("placenet/test"@, 1u8)]);
    info
}

/// The protocol version of the device handshake this node speaks.
pub open spec fn supported_version() -> Seq<char> {
    "0.0.1"@
}

/// A request header as the handler sees it.
pub enum HeaderField {
    /// The header is not in the request.
    Absent,
    /// The header is present but not visible ASCII text.
    Unreadable,
    /// The header's text.
    Text(String),
}

/// A plain-text reply.
pub struct TextReply {
    pub status: u16,
    pub message: String,
}

pub open spec fn is_text_reply(r: TextReply, status: u16, message: Seq<char>) -> bool {
    r.status == status && r.message@ == message
}

pub fn text_reply(status: u16, message: &str) -> (r: TextReply)
    ensures
        is_text_reply(r, status, message@),
{
    TextReply { status, message: String::from_str(message) }
}

/// How a request to the gateway is handled.
#[derive(Debug, Clone, Copy, PartialEq, Eq, Structural)]
pub enum Route {
    /// `X-PlaceNet-Init`: device handshake.
    DeviceInit,
    /// `X-PlaceNet-Register`: client certificate registration.
    ClientRegister,
    /// Anything else is passed to the upstream server.
    Forward,
}

/// PlaceNet protocol requests are handled locally, everything else is
/// passed upstream; the device handshake header wins over the register one.
pub fn route(has_init_header: bool, has_register_header: bool) -> (r: Route)
    ensures
        r == (if has_init_header {
            Route::DeviceInit
        } else if has_register_header {
            Route::ClientRegister
        } else {
            Route::Forward
        }),
{
    if has_init_header {
        Route::DeviceInit
    } else if has_register_header {
        Route::ClientRegister
    } else {
        Route::Forward
    }
}

/// The reply when the upstream server cannot be reached.
pub fn forward_failure() -> (r: TextReply)
    ensures
        is_text_reply(r, 502, "Bad Gateway"@),
{
    text_reply(502, "Bad Gateway")
}

/// The `X-PlaceNet-Init` header must hold the supported version.
pub fn check_init_version(header: &HeaderField) -> (r: Result<(), TextReply>)
    ensures
        (match header {
            HeaderField::Text(v) => if v@ == supported_version() {
                r is Ok
            } else {
                r matches Err(t) && is_text_reply(t, 400, "Unsupported version"@)
            },
            _ => r matches Err(t) && is_text_reply(t, 400, "Invalid X-PlaceNet-Init header"@),
        }),
{
    match header {
        HeaderField::Text(v) => {
            let supported = String::from_str("0.0.1");
            if *v == supported {
                Ok(())
            } else {
                Err(text_reply(400, "Unsupported version"))
            }
        },
        _ => Err(text_reply(400, "Invalid X-PlaceNet-Init header")),
    }
}

/// What reading and decoding a JSON request body gave.
pub enum BodyOutcome<T> {
    /// The body could not be read (or was too large).
    ReadFailed,
    /// The body is not the expected JSON.
    Malformed,
    Parsed(T),
}

/// The decoded body, or the reply for a body that could not be read (400)
/// or decoded (422).
pub fn parsed_body<T>(body: BodyOutcome<T>) -> (r: Result<T, TextReply>)
    ensures
        (match body {
            BodyOutcome::ReadFailed => r matches Err(t) && is_text_reply(t, 400, "Failed to read request body"@),
            BodyOutcome::Malformed => r matches Err(t) && is_text_reply(t, 422, "Invalid JSON body"@),
            BodyOutcome::Parsed(v) => r == Ok::<T, TextReply>(v),
        }),
{
    match body {
        BodyOutcome::ReadFailed => Err(text_reply(400, "Failed to read request body")),
        BodyOutcome::Malformed => Err(text_reply(422, "Invalid JSON body")),
        BodyOutcome::Parsed(v) => Ok(v),
    }
}

/// Successful device handshake: the signed certificate and the broker details.
pub struct DeviceInitReply {
    pub status: u16,
    pub cert_pem: String,
    pub brokerage: MqttBrokerageInfo,
}

/// The handshake reply once the device's CSR has been signed (or not).
pub fn device_init_reply(brokerage: MqttBrokerageInfo, signed: Result<String, String>) -> (r: Result<DeviceInitReply, TextReply>)
    ensures
        signed is Err ==> (r matches Err(t) && is_text_reply(t, 500, "Failed to sign device certificate"@)),
        signed matches Ok(cert) ==> (r matches Ok(d) && d.status == 200 && d.cert_pem@ == cert@ && d.brokerage@ == brokerage@),
{
    match signed {
        Ok(cert_pem) => Ok(DeviceInitReply { status: 200, cert_pem, brokerage }),
        Err(_) => Err(text_reply(500, "Failed to sign device certificate")),
    }
}

/// Successful client registration: the new client's id, its certificate, and
/// the CA certificate to trust.
pub struct ClientRegisterReply {
    pub status: u16,
    pub client_id: String,
    pub cert_pem: String,
    pub ca_cert_pem: String,
}

/// The registration reply from the signing outcome and the CA certificate
/// (consulted only once the certificate is signed).
pub fn client_register_reply(client_id: String, signed: Result<String, String>, ca_cert: Result<String, String>) -> (r: Result<ClientRegisterReply, TextReply>)
    ensures
        signed is Err ==> (r matches Err(t) && is_text_reply(t, 500, "Failed to sign client certificate"@)),
        signed is Ok && ca_cert is Err ==> (r matches Err(t) && is_text_reply(t, 500, "Failed to retrieve CA certificate"@)),
        signed matches Ok(cert) ==> (ca_cert matches Ok(ca) ==> r matches Ok(c) && c.status == 201
            && c.client_id@ == client_id@ && c.cert_pem@ == cert@ && c.ca_cert_pem@ == ca@),
{
    let cert_pem = match signed {
        Ok(c) => c,
        Err(_) => return Err(text_reply(500, "Failed to sign client certificate")),
    };
    let ca_cert_pem = match ca_cert {
        Ok(c) => c,
        Err(_) => return Err(text_reply(500, "Failed to retrieve CA certificate")),
    };
    Ok(ClientRegisterReply { status: 201, client_id, cert_pem, ca_cert_pem })
}

/// Whether `id` has the form of a version-4 UUID in lower-case hyphenated
/// form: 36 characters, hyphens at positions 8, 13, 18 and 23, lower-case
/// hexadecimal digits elsewhere, the version digit `4` at position 14 and
/// one of the RFC 4122 variant digits `8`, `9`, `a`, `b` at position 19.
pub open spec fn is_uuid_v4_text(id: Seq<char>) -> bool {
    &&& id.len() == 36
    &&& forall|i: int| 0 <= i < 36 ==> (if i == 8 || i == 13 || i == 18 || i == 23 {
        #[trigger] id[i] == '-'
    } else {
        ('0' <= id[i] && id[i] <= '9') || ('a' <= id[i] && id[i] <= 'f')
    })
    &&& id[14] == '4'
    &&& (id[19] == '8' || id[19] == '9' || id[19] == 'a' || id[19] == 'b')
}

/// `uuid::Uuid::new_v4()` printed with `to_string()`. Claimed: the text has
/// the form of a version-4 UUID (`new_v4` sets the version and variant bits,
/// and uuid's `Display` writes the lower-case hyphenated form); which UUID
/// comes out is random.
#[verifier::external_body]
fn random_uuid_text() -> (r: String)
    ensures
        is_uuid_v4_text(r@),
{
    uuid::Uuid::new_v4().to_string()
}

/// A fresh identifier for a registering client.
pub fn issue_client_id() -> (id: String)
    ensures
        is_uuid_v4_text(id@),
{
    random_uuid_text()
}

} // verus!
