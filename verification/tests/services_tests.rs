use placenet_home::capabilities::{BinaryInfo, ServiceCapabilities};
use placenet_home::service_id::ServiceId;
use placenet_home::services::mqtt_brokerage::{
    after_wait, broker_binaries, delete_user_command, passwd_outcome, poll_outcome, register_onto, seeds_password,
    set_password_command, spawned_pid, start_command, stop_plan, ChildPoll, WaitOutcome,
};
use placenet_home::services::lifecycle::{listen_address, ListenOutcome, TaskLifecycle};
use placenet_home::services::{cloud_gateway, http, local_gateway, mqtt_client};
use placenet_home::startup::{startup_order, StartupAction, StartupEvent, StartupPlan};
use placenet_home::supervisor::{ServiceStatus, Supervisor};

fn caps_with_broker(found: bool) -> ServiceCapabilities {
    let mut caps = ServiceCapabilities::new();
    caps.insert(
        "mosquitto".to_string(),
        if found { Some(BinaryInfo { path: "/opt/mosq".to_string(), version: None }) } else { None },
    );
    caps.insert(
        "mosquitto_passwd".to_string(),
        Some(BinaryInfo { path: "/opt/mosq_passwd".to_string(), version: None }),
    );
    caps
}

#[test]
fn broker_registration_follows_binary_presence() {
    let mut s = Supervisor::new();
    assert!(register_onto(&mut s, &caps_with_broker(true), "svc"));
    assert!(matches!(s.status(ServiceId::Mosquitto), Some(ServiceStatus::Stopped)));
    let mut s2 = Supervisor::new();
    assert!(!register_onto(&mut s2, &caps_with_broker(false), "svc"));
    assert!(matches!(s2.status(ServiceId::Mosquitto), Some(ServiceStatus::Unavailable)));
}

#[test]
fn broker_binaries_fall_back_to_bare_name() {
    let b = broker_binaries(&caps_with_broker(false));
    assert_eq!(b.broker, "mosquitto");
    assert_eq!(b.passwd, Some("/opt/mosq_passwd".to_string()));
    let b = broker_binaries(&caps_with_broker(true));
    assert_eq!(b.broker, "/opt/mosq");
}

#[test]
fn password_seeding_only_without_tls() {
    assert!(seeds_password(true, false));
    assert!(!seeds_password(true, true));
    assert!(!seeds_password(false, false));
}

#[test]
fn start_command_checks() {
    assert_eq!(start_command("mosquitto", true, "c.conf", true).err(), Some("Mosquitto is already running".to_string()));
    assert_eq!(
        start_command("mosquitto", false, "cfg/mosquitto.conf", false).err(),
        Some("Config file not found at cfg/mosquitto.conf. Call write_config() first.".to_string())
    );
    let c = start_command("/usr/sbin/mosquitto", false, "cfg/mosquitto.conf", true).ok().unwrap();
    assert_eq!(c.program, "/usr/sbin/mosquitto");
    assert_eq!(c.args, vec!["-c".to_string(), "cfg/mosquitto.conf".to_string()]);
    assert_eq!(spawned_pid(Some(12)), Ok(12));
    assert_eq!(spawned_pid(None), Err("Failed to get mosquitto PID".to_string()));
    assert_eq!(stop_plan(false, Some(3)).err(), Some("Mosquitto is not running".to_string()));
    let plan = stop_plan(true, Some(3)).ok().unwrap();
    assert_eq!((plan.terminate_pid, plan.grace_secs), (Some(3), 5));
    assert_eq!(after_wait(WaitOutcome::TimedOut), (true, Ok(())));
    assert_eq!(after_wait(WaitOutcome::Exited), (false, Ok(())));
    assert_eq!(after_wait(WaitOutcome::WaitFailed), (false, Ok(())));
}

#[test]
fn task_start_runs_only_once_listening() {
    assert_eq!(listen_address("0.0.0.0", 8080), "0.0.0.0:8080");
    let mut l = TaskLifecycle::new();
    assert_eq!(l.check_start("GatewayService"), Ok(()));
    assert_eq!(
        l.finish_start("listener", "0.0.0.0:8080", ListenOutcome::BindFailed("in use".to_string())),
        Err("Failed to bind listener on 0.0.0.0:8080: in use".to_string())
    );
    assert!(!l.is_running());
    assert_eq!(
        l.finish_start("HTTP listener", "h:1", ListenOutcome::AddressFailed("gone".to_string())),
        Err("Failed to get local address: gone".to_string())
    );
    assert!(!l.is_running());
    assert_eq!(l.finish_start("listener", "h:1", ListenOutcome::Listening), Ok(0));
    assert!(l.is_running());
    assert_eq!(l.check_start("GatewayService"), Err("GatewayService is already running".to_string()));
    assert_eq!(l.stop("GatewayService"), Ok(()));
    assert_eq!(l.stop("GatewayService"), Err("GatewayService is not running".to_string()));
}

#[test]
fn poll_outcomes() {
    assert_eq!(poll_outcome(false, ChildPoll::StillRunning), (false, false));
    assert_eq!(poll_outcome(true, ChildPoll::Exited), (false, false));
    assert_eq!(poll_outcome(true, ChildPoll::StillRunning), (true, true));
    assert_eq!(poll_outcome(true, ChildPoll::PollFailed), (false, true));
}

#[test]
fn passwd_commands() {
    assert_eq!(
        set_password_command(None, "p", true, "u", "pw").err(),
        Some("mosquitto_passwd is not installed".to_string())
    );
    let c = set_password_command(Some("mp"), "cfg/pw", false, "admin", "secret").ok().unwrap();
    assert_eq!(c.program, "mp");
    assert_eq!(c.args, vec!["-c", "-b", "cfg/pw", "admin", "secret"]);
    let c = set_password_command(Some("mp"), "cfg/pw", true, "admin", "secret").ok().unwrap();
    assert_eq!(c.args, vec!["-b", "cfg/pw", "admin", "secret"]);
    assert_eq!(delete_user_command(Some("mp"), "cfg/pw", false, "u").err(), Some("Password file does not exist".to_string()));
    let c = delete_user_command(Some("mp"), "cfg/pw", true, "u").ok().unwrap();
    assert_eq!(c.args, vec!["-D", "cfg/pw", "u"]);
    assert_eq!(passwd_outcome(false, "bad"), Err("mosquitto_passwd failed: bad".to_string()));
    assert_eq!(passwd_outcome(true, "ignored"), Ok(()));
}

#[test]
fn other_registrations() {
    let mut s = Supervisor::new();
    http::register_onto(&mut s, "http");
    local_gateway::register_onto(&mut s, "gw");
    mqtt_client::register_onto(&mut s, "client", false);
    assert!(matches!(s.status(ServiceId::Http), Some(ServiceStatus::Stopped)));
    assert!(matches!(s.status(ServiceId::Gateway), Some(ServiceStatus::Stopped)));
    assert!(matches!(s.status(ServiceId::MqttClient), Some(ServiceStatus::Unavailable)));
}

#[test]
fn cloud_gateway_is_unavailable_unless_configured() {
    let mut s = Supervisor::new();
    let none = cloud_gateway::register_onto(
        &mut s,
        "srv".to_string(),
        None,
        |srv: String, gw: String| (format!("{srv}|{gw}"), 1u8),
        "unconfigured".to_string(),
    );
    assert!(none.is_none());
    assert!(matches!(s.status(ServiceId::CloudGateway), Some(ServiceStatus::Unavailable)));
    assert_eq!(
        s.begin_start(ServiceId::CloudGateway),
        Err("CloudGateway is not installed on this system".to_string())
    );
    let some = cloud_gateway::register_onto(
        &mut s,
        "srv".to_string(),
        Some("wss://gw".to_string()),
        |srv: String, gw: String| (format!("{srv}|{gw}"), 7u8),
        "unconfigured".to_string(),
    );
    assert_eq!(some, Some(7));
    assert!(matches!(s.status(ServiceId::CloudGateway), Some(ServiceStatus::Stopped)));
    assert_eq!(s.service_mut(ServiceId::CloudGateway).map(|x| x.clone()), Some("srv|wss://gw".to_string()));
}

#[test]
fn startup_order_cases() {
    assert_eq!(
        startup_order(true, true),
        vec![ServiceId::Mosquitto, ServiceId::MqttClient, ServiceId::Gateway, ServiceId::CloudGateway]
    );
    assert_eq!(startup_order(false, false), vec![ServiceId::Gateway]);
}

#[test]
fn startup_plan_subscribes_before_the_gateway() {
    let mut plan = StartupPlan::new(true, true);
    let mut actions = Vec::new();
    let events = [
        StartupEvent::Begin,
        StartupEvent::Started(true),
        StartupEvent::Paused,
        StartupEvent::Started(true),
        StartupEvent::Connected(true),
        StartupEvent::Subscribed,
        StartupEvent::Started(true),
        StartupEvent::Started(true),
        StartupEvent::Begin,
    ];
    for e in events {
        actions.push(plan.next(e));
    }
    assert_eq!(
        actions,
        vec![
            StartupAction::Start(ServiceId::Mosquitto),
            StartupAction::Pause(500),
            StartupAction::Start(ServiceId::MqttClient),
            StartupAction::AwaitConnection,
            StartupAction::Subscribe,
            StartupAction::Start(ServiceId::Gateway),
            StartupAction::Start(ServiceId::CloudGateway),
            StartupAction::Done,
            StartupAction::Done,
        ]
    );

    // A broker that fails to start gets no pause; a client that never
    // connects is not subscribed.
    let mut plan = StartupPlan::new(true, false);
    assert_eq!(plan.next(StartupEvent::Begin), StartupAction::Start(ServiceId::Mosquitto));
    assert_eq!(plan.next(StartupEvent::Started(false)), StartupAction::Start(ServiceId::MqttClient));
    assert_eq!(plan.next(StartupEvent::Started(false)), StartupAction::AwaitConnection);
    assert_eq!(plan.next(StartupEvent::Connected(false)), StartupAction::Start(ServiceId::Gateway));
    assert_eq!(plan.next(StartupEvent::Started(true)), StartupAction::Done);

    // Without the broker only the gateways start.
    let mut plan = StartupPlan::new(false, false);
    assert_eq!(plan.next(StartupEvent::Begin), StartupAction::Start(ServiceId::Gateway));
    assert_eq!(plan.next(StartupEvent::Started(true)), StartupAction::Done);
}
