use vstd::prelude::*;

use crate::service_id::ServiceId;
use crate::supervisor::{initial_status, Supervisor};

verus! {

/// Build and register the cloud gateway client service.
///
/// Returns `None` when `gateway_url` is not configured — in that case the
/// service is registered as `Unavailable` (standing for it: `unconfigured`)
/// and will not be started. Otherwise `build` makes the service and the
/// handle the caller keeps from the server and gateway URLs, and the service
/// is registered as available.
pub fn register_onto<S, H, F: FnOnce(String, String) -> (S, H)>(
    supervisor: &mut Supervisor<S>,
    server_url: String,
    gateway_url: Option<String>,
    build: F,
    unconfigured: S,
) -> (r: Option<H>)
    requires
        old(supervisor).wf(),
        gateway_url matches Some(u) ==> build.requires((server_url, u)),
    ensures
        final(supervisor).wf(),
        r is Some <==> gateway_url is Some,
        final(supervisor)@ == old(supervisor)@.insert(ServiceId::CloudGateway, initial_status(gateway_url is Some)),
        gateway_url is None ==> final(supervisor).services() == old(supervisor).services().insert(
            ServiceId::CloudGateway,
            unconfigured,
        ),
        gateway_url matches Some(u) ==> (r matches Some(h) && build.ensures(
            (server_url, u),
            (final(supervisor).services()[ServiceId::CloudGateway], h),
        )),
        final(supervisor).services().dom() == old(supervisor).services().dom().insert(ServiceId::CloudGateway),
        final(supervisor).queue_capacity() == old(supervisor).queue_capacity(),
{
    match gateway_url {
        None => {
            supervisor.register(ServiceId::CloudGateway, unconfigured, false);
            None
        },
        Some(url) => {
            let (service, handle) = build(server_url, url);
            supervisor.register(ServiceId::CloudGateway, service, true);
            Some(handle)
        },
    }
}

} // verus!
