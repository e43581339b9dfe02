use vstd::prelude::*;
use vstd::string::*;

use crate::service_id::ServiceId;
use crate::services::gateway::{is_text_reply, text_reply, supported_version, HeaderField, TextReply};
use crate::supervisor::{initial_status, Supervisor};

pub use crate::services::gateway::{DeviceInfo, MdnsConfig};

verus! {

broadcast use vstd::string::group_string_axioms;

/// Register the HTTP service with the supervisor; it is always available.
pub fn register_onto<S>(supervisor: &mut Supervisor<S>, service: S)
    requires
        old(supervisor).wf(),
    ensures
        final(supervisor).wf(),
        final(supervisor)@ == old(supervisor)@.insert(ServiceId::Http, initial_status(true)),
        final(supervisor).services() == old(supervisor).services().insert(ServiceId::Http, service),
        final(supervisor).queue_capacity() == old(supervisor).queue_capacity(),
{
    supervisor.register(ServiceId::Http, service, true);
}

/// `GET /health`: a liveness probe.
pub fn health() -> (r: TextReply)
    ensures
        is_text_reply(r, 200, "Hello, World!"@),
{
    text_reply(200, "Hello, World!")
}

/// `POST /peer/message`: a message from a peer node is acknowledged.
pub fn peer_message() -> (r: TextReply)
    ensures
        is_text_reply(r, 200, "Message received"@),
{
    text_reply(200, "Message received")
}

/// The reply to a device handshake (`POST /`) whose `X-PlaceNet-Init` header
/// is missing, unreadable, or names another version; `Ok` when it names the
/// supported one.
pub fn check_init_header(header: &HeaderField) -> (r: Result<(), TextReply>)
    ensures
        (match header {
            HeaderField::Absent => r matches Err(t) && is_text_reply(t, 400, "Missing required header: X-PlaceNet-Init"@),
            HeaderField::Unreadable => r matches Err(t) && is_text_reply(t, 400, "X-PlaceNet-Init header must be valid ASCII"@),
            HeaderField::Text(v) => if v@ == supported_version() {
                r is Ok
            } else {
                r matches Err(t) && is_text_reply(t, 400, "Unsupported version '"@ + v@ + "'; expected '"@ + supported_version() + "'"@)
            },
        }),
{
    match header {
        HeaderField::Absent => Err(text_reply(400, "Missing required header: X-PlaceNet-Init")),
        HeaderField::Unreadable => Err(text_reply(400, "X-PlaceNet-Init header must be valid ASCII")),
        HeaderField::Text(v) => {
            let supported = String::from_str("0.0.1");
            if *v == supported {
                Ok(())
            } else {
                let message = String::from_str("Unsupported version '").concat(v.as_str()).concat("'; expected '").concat(
                    "0.0.1",
                ).concat("'");
                Err(TextReply { status: 400, message })
            }
        },
    }
}

/// The reply to a request body that cannot be read.
pub fn unreadable_body() -> (r: TextReply)
    ensures
        is_text_reply(r, 400, "Failed to read request body"@),
{
    text_reply(400, "Failed to read request body")
}

/// The reply to a body that is not the expected JSON, with the decoder's
/// explanation.
pub fn invalid_json(cause: &str) -> (r: TextReply)
    ensures
        is_text_reply(r, 422, "Invalid JSON body: "@ + cause@),
{
    TextReply { status: 422, message: String::from_str("Invalid JSON body: ").concat(cause) }
}

} // verus!
