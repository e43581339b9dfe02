use vstd::prelude::*;
use vstd::string::*;

use crate::service_id::ServiceId;
use crate::services::gateway::{
    is_text_reply, text_reply, DeviceInitReply, HeaderField, MqttBrokerageInfo, TextReply,
    BrokerageInfoView,
};
use crate::supervisor::{initial_status, Supervisor};
use crate::text::{chars_of, last_index_of, rfind_char};

verus! {

broadcast use vstd::string::group_string_axioms;

/// Register the local gateway with the supervisor; it is always available.
pub fn register_onto<S>(supervisor: &mut Supervisor<S>, service: S)
    requires
        old(supervisor).wf(),
    ensures
        final(supervisor).wf(),
        final(supervisor)@ == old(supervisor)@.insert(ServiceId::Gateway, initial_status(true)),
        final(supervisor).services() == old(supervisor).services().insert(ServiceId::Gateway, service),
        final(supervisor).queue_capacity() == old(supervisor).queue_capacity(),
{
    supervisor.register(ServiceId::Gateway, service, true);
}

/// `X-PlaceNet-Health`: the gateway answers `200 OK`.
pub fn health_reply() -> (r: TextReply)
    ensures
        is_text_reply(r, 200, "OK"@),
{
    text_reply(200, "OK")
}

/// A `Host` header without its port: everything before the last `:`, unless
/// the host is a bracketed IPv6 literal, which is kept whole.
pub open spec fn host_without_port(h: Seq<char>) -> Seq<char> {
    match last_index_of(h, ':') {
        Some(i) => if h.len() > 0 && h[0] == '[' {
            h
        } else {
            h.take(i)
        },
        None => h,
    }
}

/// The broker address to give a device: the host it used to reach this
/// node (without port), or `localhost` when the request names none.
pub open spec fn broker_host_view(host: Option<Seq<char>>) -> Seq<char> {
    match host {
        Some(h) => host_without_port(h),
        None => "localhost"@,
    }
}

pub open spec fn header_text(h: HeaderField) -> Option<Seq<char>> {
    match h {
        HeaderField::Text(s) => Some(s@),
        _ => None,
    }
}

pub fn broker_host(host: &HeaderField) -> (r: String)
    ensures
        r@ == broker_host_view(header_text(*host)),
{
    match host {
        HeaderField::Text(h) => {
            let s = h.as_str();
            match rfind_char(s, ':') {
                Some(i) => {
                    let v = chars_of(s);
                    if v.len() > 0 && v[0] == '[' {
                        String::from_str(s)
                    } else {
                        String::from_str(s.substring_char(0, i))
                    }
                },
                None => String::from_str(s),
            }
        },
        _ => String::from_str("localhost"),
    }
}

/// The handshake reply once the device's CSR has been signed (or not): the
/// broker details name the host the device used to reach this node.
pub fn device_init_reply(brokerage: MqttBrokerageInfo, broker_host: String, signed: Result<String, String>) -> (r: Result<DeviceInitReply, TextReply>)
    ensures
        signed is Err ==> (r matches Err(t) && is_text_reply(t, 500, "Failed to sign device certificate"@)),
        signed matches Ok(cert) ==> (r matches Ok(d) && d.status == 200 && d.cert_pem@ == cert@
            && d.brokerage@ == (BrokerageInfoView { address: broker_host@, ..brokerage@ })),
{
    match signed {
        Ok(cert_pem) => Ok(DeviceInitReply { status: 200, cert_pem, brokerage: brokerage.with_address(broker_host) }),
        Err(_) => Err(text_reply(500, "Failed to sign device certificate")),
    }
}

/// The broker address given to a device keeps every character of the host
/// it used before the port: it is a prefix of that host.
pub proof fn law_broker_host_is_prefix(h: Seq<char>)
    ensures
        host_without_port(h).len() <= h.len(),
        host_without_port(h) == h.take(host_without_port(h).len() as int),
        !h.contains(':') ==> host_without_port(h) == h,
{
    crate::text::lemma_last_index_of(h, ':');
    match last_index_of(h, ':') {
        Some(i) => {
            if !(h.len() > 0 && h[0] == '[') {
                assert(h.take(i).len() == i);
                assert(h.take(i) =~= h.take(i).take(i));
                assert(h.take(i) =~= h.take(h.take(i).len() as int));
            } else {
                assert(h =~= h.take(h.len() as int));
            }
        },
        None => {
            assert(h =~= h.take(h.len() as int));
        },
    }
}

/// The broker address handed to a device is the host it used with the port
/// taken off: for a Host header that is not a bracketed IPv6 literal and
/// holds a `:`, it is exactly the text before the last `:` (whatever the
/// host name); a header without `:`, or a bracketed one, is kept whole.
pub proof fn law_broker_host_drops_port(h: Seq<char>)
    ensures
        h.contains(':') && !(h.len() > 0 && h[0] == '[') ==> ({
            let r = host_without_port(h);
            &&& r.len() < h.len()
            &&& r == h.take(r.len() as int)
            &&& h[r.len() as int] == ':'
            &&& forall|j: int| r.len() < j < h.len() ==> h[j] != ':'
        }),
        !h.contains(':') || (h.len() > 0 && h[0] == '[') ==> host_without_port(h) == h,
{
    crate::text::lemma_last_index_of(h, ':');
    if let Some(i) = last_index_of(h, ':') {
        assert(h.take(i).len() == i);
        assert(h.take(i) =~= h.take(h.take(i).len() as int));
    }
}

} // verus!
