use placenet_home::service_id::ServiceId;
use placenet_home::supervisor::{ServiceStatus, Supervisor};

fn status_of(s: &Supervisor<&'static str>, id: ServiceId) -> Option<ServiceStatus> {
    s.status(id)
}

#[test]
fn new_supervisor_is_empty_with_default_queue() {
    let s: Supervisor<&'static str> = Supervisor::new();
    assert!(s.statuses().is_empty());
    assert_eq!(s.channel_buffer(), 32);
}

#[test]
fn register_available_service_is_stopped() {
    let mut s = Supervisor::new();
    s.register(ServiceId::Mosquitto, "broker", true);
    assert!(matches!(status_of(&s, ServiceId::Mosquitto), Some(ServiceStatus::Stopped)));
    assert!(status_of(&s, ServiceId::Http).is_none());
}

#[test]
fn register_unavailable_service_cannot_start() {
    let mut s = Supervisor::new();
    s.register(ServiceId::Mosquitto, "broker", false);
    assert!(matches!(status_of(&s, ServiceId::Mosquitto), Some(ServiceStatus::Unavailable)));
    assert_eq!(
        s.begin_start(ServiceId::Mosquitto),
        Err("Mosquitto is not installed on this system".to_string())
    );
    assert_eq!(s.begin_stop(ServiceId::Mosquitto), Err("Mosquitto is not available".to_string()));
}

#[test]
fn start_then_stop_round_trip() {
    let mut s = Supervisor::new();
    s.register(ServiceId::MqttClient, "client", true);
    assert_eq!(s.begin_start(ServiceId::MqttClient), Ok(()));
    assert!(matches!(status_of(&s, ServiceId::MqttClient), Some(ServiceStatus::Starting)));
    assert_eq!(
        s.begin_start(ServiceId::MqttClient),
        Err("MqttClient is already starting".to_string())
    );
    assert_eq!(s.finish_start(ServiceId::MqttClient, Ok(4242)), Ok(()));
    assert!(matches!(status_of(&s, ServiceId::MqttClient), Some(ServiceStatus::Running { pid: 4242 })));
    assert_eq!(
        s.begin_start(ServiceId::MqttClient),
        Err("MqttClient is already running".to_string())
    );
    assert!(s.restart_needs_stop(ServiceId::MqttClient));
    assert_eq!(s.begin_stop(ServiceId::MqttClient), Ok(()));
    assert_eq!(s.finish_stop(ServiceId::MqttClient, Ok(())), Ok(()));
    assert!(matches!(status_of(&s, ServiceId::MqttClient), Some(ServiceStatus::Stopped)));
    assert_eq!(
        s.begin_stop(ServiceId::MqttClient),
        Err("MqttClient is already stopped".to_string())
    );
}

#[test]
fn failed_start_is_recorded_and_retryable() {
    let mut s = Supervisor::new();
    s.register(ServiceId::Http, "http", true);
    assert_eq!(s.begin_start(ServiceId::Http), Ok(()));
    assert_eq!(
        s.finish_start(ServiceId::Http, Err("bind failed".to_string())),
        Err("bind failed".to_string())
    );
    match status_of(&s, ServiceId::Http) {
        Some(ServiceStatus::Failed { reason }) => assert_eq!(reason, "bind failed"),
        other => panic!("unexpected status {:?}", other),
    }
    assert!(!s.restart_needs_stop(ServiceId::Http));
    assert_eq!(s.begin_start(ServiceId::Http), Ok(()));
}

#[test]
fn unregistered_service_messages() {
    let mut s: Supervisor<&'static str> = Supervisor::new();
    assert_eq!(s.begin_start(ServiceId::Gateway), Err("Gateway is not registered".to_string()));
    assert_eq!(s.begin_stop(ServiceId::CloudGateway), Err("CloudGateway not registered".to_string()));
}

#[test]
fn failed_stop_leaves_status() {
    let mut s = Supervisor::new();
    s.register(ServiceId::Gateway, "gw", true);
    s.begin_start(ServiceId::Gateway).unwrap();
    s.finish_start(ServiceId::Gateway, Ok(0)).unwrap();
    assert_eq!(
        s.finish_stop(ServiceId::Gateway, Err("GatewayService is not running".to_string())),
        Err("GatewayService is not running".to_string())
    );
    assert!(matches!(status_of(&s, ServiceId::Gateway), Some(ServiceStatus::Running { pid: 0 })));
}

#[test]
fn statuses_are_in_canonical_order() {
    let mut s = Supervisor::new();
    s.register(ServiceId::CloudGateway, "c", true);
    s.register(ServiceId::Mosquitto, "m", false);
    let all = s.statuses();
    assert_eq!(all.len(), 2);
    assert_eq!(all[0].0, ServiceId::Mosquitto);
    assert_eq!(all[1].0, ServiceId::CloudGateway);
}

#[test]
fn service_mut_reaches_registered_service() {
    let mut s = Supervisor::new();
    s.register(ServiceId::Http, String::from("a"), true);
    if let Some(svc) = s.service_mut(ServiceId::Http) {
        svc.push('b');
    }
    assert_eq!(s.service_mut(ServiceId::Http).map(|x| x.clone()), Some("ab".to_string()));
    assert!(s.service_mut(ServiceId::Mosquitto).is_none());
}

#[test]
fn restart_of_running_service() {
    let mut s = Supervisor::new();
    s.register(ServiceId::Mosquitto, "broker", true);
    s.register(ServiceId::Gateway, "gateway", true);
    assert_eq!(s.begin_start(ServiceId::Mosquitto), Ok(()));
    assert_eq!(s.finish_start(ServiceId::Mosquitto, Ok(7)), Ok(()));
    // A restart whose stop fails: the service is still running, so the start is refused.
    assert!(s.restart_needs_stop(ServiceId::Mosquitto));
    assert_eq!(s.begin_stop(ServiceId::Mosquitto), Ok(()));
    assert_eq!(s.finish_stop(ServiceId::Mosquitto, Err("busy".to_string())), Err("busy".to_string()));
    assert_eq!(s.begin_start(ServiceId::Mosquitto), Err("Mosquitto is already running".to_string()));
    // A restart whose stop succeeds starts the service again.
    assert_eq!(s.begin_stop(ServiceId::Mosquitto), Ok(()));
    assert_eq!(s.finish_stop(ServiceId::Mosquitto, Ok(())), Ok(()));
    assert_eq!(s.begin_start(ServiceId::Mosquitto), Ok(()));
    assert_eq!(s.finish_start(ServiceId::Mosquitto, Ok(8)), Ok(()));
    assert!(matches!(status_of(&s, ServiceId::Mosquitto), Some(ServiceStatus::Running { pid: 8 })));
    // Nothing of this touched the other service.
    assert!(matches!(status_of(&s, ServiceId::Gateway), Some(ServiceStatus::Stopped)));
}
