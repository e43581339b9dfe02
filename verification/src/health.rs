use vstd::prelude::*;

use crate::service_id::ServiceId;
use crate::supervisor::ServiceStatus;

verus! {

/// Detailed health: the status of every service and whether the node's MQTT
/// client is connected.
#[derive(Debug)]
pub struct HealthInfo {
    pub services: Vec<(ServiceId, ServiceStatus)>,
    pub mqtt_connected: bool,
}

/// The health reply: the statuses reported by the supervisor, or status 500
/// when the supervisor could not be asked.
pub fn health(statuses: Result<Vec<(ServiceId, ServiceStatus)>, String>, mqtt_connected: bool) -> (r: Result<HealthInfo, u16>)
    ensures
        statuses is Err ==> r == Err::<HealthInfo, u16>(500),
        statuses matches Ok(s) ==> (r matches Ok(h) && h.services@ == s@ && h.mqtt_connected == mqtt_connected),
{
    match statuses {
        Ok(services) => Ok(HealthInfo { services, mqtt_connected }),
        Err(_) => Err(500),
    }
}

} // verus!
