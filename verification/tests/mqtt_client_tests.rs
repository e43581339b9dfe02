use placenet_home::config::MqttClientConfig;
use placenet_home::services::mqtt_client::{
    command_failure, connect_plan, required_subscriptions, tls_read_error, ClientAuth, ClientLifecycle, CommandKind,
    EventLoopState, LoopAction, LoopEvent, QosLevel, SubscribeAll, SubscribeStep, TlsFile,
};

fn config(tls: bool) -> MqttClientConfig {
    MqttClientConfig {
        client_id: "node".to_string(),
        host: "localhost".to_string(),
        port: 1883,
        tls_enabled: tls,
        username: "u".to_string(),
        password: "p".to_string(),
        cafile: "ca.pem".to_string(),
        certfile: "node.pem".to_string(),
        keyfile: "node.key".to_string(),
    }
}

#[test]
fn required_subscription_is_registration() {
    let subs = required_subscriptions();
    assert_eq!(subs.len(), 1);
    assert_eq!(subs[0].topic, "registration");
    assert_eq!(subs[0].qos, QosLevel::AtLeastOnce);
}

#[test]
fn client_starts_only_once() {
    let mut l = ClientLifecycle::new();
    assert!(!l.is_running());
    assert_eq!(l.begin_start(), Ok(()));
    l.finish_start(true);
    assert!(l.is_running());
    assert_eq!(l.begin_start(), Err("MqttClientService is already running".to_string()));
    assert_eq!(l.stop(), Ok(()));
    assert_eq!(l.stop(), Err("MqttClientService is not running".to_string()));
    assert_eq!(l.begin_start(), Err("MqttClientService command receiver already consumed".to_string()));
}

#[test]
fn failed_setup_leaves_client_stopped_and_unstartable() {
    let mut l = ClientLifecycle::new();
    assert_eq!(l.begin_start(), Ok(()));
    l.finish_start(false);
    assert!(!l.is_running());
    assert!(l.begin_start().is_err());
}

#[test]
fn connect_plans() {
    let p = connect_plan(&config(false));
    assert_eq!(p.keep_alive_secs, 30);
    assert!(matches!(p.auth, ClientAuth::Credentials { ref username, ref password } if username == "u" && password == "p"));
    let p = connect_plan(&config(true));
    assert!(matches!(p.auth, ClientAuth::Tls { ref cafile, .. } if cafile == "ca.pem"));
}

#[test]
fn connected_is_signalled_once() {
    let mut s = EventLoopState::new();
    assert!(matches!(s.on_event(LoopEvent::Other), LoopAction::Ignore));
    assert!(matches!(s.on_event(LoopEvent::ConnAck), LoopAction::SignalConnected));
    assert!(matches!(s.on_event(LoopEvent::ConnAck), LoopAction::Reconnected));
    assert!(matches!(s.on_event(LoopEvent::PollError), LoopAction::BackOff(5)));
    assert!(matches!(s.on_event(LoopEvent::Disconnect), LoopAction::ReportDisconnect));
    match s.on_event(LoopEvent::Publish { topic: "registration".to_string(), payload: b"{}".to_vec() }) {
        LoopAction::Forward(m) => {
            assert_eq!(m.topic, "registration");
            assert_eq!(m.payload, b"{}".to_vec());
        }
        _ => panic!("expected a forwarded message"),
    }
}

#[test]
fn error_texts() {
    assert_eq!(command_failure(CommandKind::Subscribe, "x"), "subscribe failed: x");
    assert_eq!(command_failure(CommandKind::Unsubscribe, "x"), "unsubscribe failed: x");
    assert_eq!(command_failure(CommandKind::Publish, "x"), "publish failed: x");
    assert_eq!(tls_read_error(TlsFile::CaCert, "ca.pem", "nope"), "Failed to read CA cert 'ca.pem': nope");
    assert_eq!(tls_read_error(TlsFile::ClientKey, "k", "e"), "Failed to read client key 'k': e");
}

#[test]
fn subscriptions_run_in_order_until_first_error() {
    let mut all_ok = SubscribeAll::new(3);
    let mut asked = Vec::new();
    loop {
        match all_ok.next() {
            SubscribeStep::Subscribe(i) => {
                asked.push(i);
                all_ok.record(Ok(()));
            }
            SubscribeStep::Finished(r) => {
                assert_eq!(r, Ok(()));
                break;
            }
        }
    }
    assert_eq!(asked, vec![0, 1, 2]);

    let mut failing = SubscribeAll::new(3);
    assert!(matches!(failing.next(), SubscribeStep::Subscribe(0)));
    failing.record(Ok(()));
    assert!(matches!(failing.next(), SubscribeStep::Subscribe(1)));
    failing.record(Err("subscribe failed: closed".to_string()));
    match failing.next() {
        SubscribeStep::Finished(Err(e)) => assert_eq!(e, "subscribe failed: closed"),
        _ => panic!("the first failure must end the run"),
    }

    let empty = SubscribeAll::new(0);
    assert!(matches!(empty.next(), SubscribeStep::Finished(Ok(()))));
}
