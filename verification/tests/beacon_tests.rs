use placenet_home::beacon::{BeaconDecision, BeaconTracker};

#[test]
fn own_gateway_is_never_connected() {
    let mut t = BeaconTracker::new(Some("wss://home".to_string()));
    let d = t.on_beacon(br#"{"gateway_url":"wss://home"}"#);
    assert!(matches!(d, BeaconDecision::AlreadyConnected(ref u) if u == "wss://home"));
}

#[test]
fn new_gateway_connects_once() {
    let mut t = BeaconTracker::new(None);
    let d = t.on_beacon(br#"{"gateway_url":"wss://other","rssi":-40}"#);
    assert!(matches!(d, BeaconDecision::Connect(ref u) if u == "wss://other"));
    let d = t.on_beacon(br#"{"gateway_url":"wss://other"}"#);
    assert!(matches!(d, BeaconDecision::AlreadyConnected(_)));
    let d = t.on_beacon(br#"{"gateway_url":"wss://third"}"#);
    assert!(matches!(d, BeaconDecision::Connect(ref u) if u == "wss://third"));
}

#[test]
fn payloads_without_gateway() {
    let mut t = BeaconTracker::new(None);
    assert!(matches!(t.on_beacon(b"not json at all"), BeaconDecision::NoGateway));
    assert!(matches!(t.on_beacon(br#"["gateway_url"]"#), BeaconDecision::NoGateway));
    assert!(matches!(t.on_beacon(br#"{"gateway_url":42}"#), BeaconDecision::NoGateway));
    assert!(matches!(t.on_beacon(br#"{"other":"x"}"#), BeaconDecision::NoGateway));
    assert!(matches!(t.on_beacon(br#""wss://x""#), BeaconDecision::NoGateway));
}

#[test]
fn decide_without_json() {
    let mut t = BeaconTracker::new(None);
    assert!(matches!(t.decide(None), BeaconDecision::NoGateway));
    assert!(matches!(t.decide(Some("a".to_string())), BeaconDecision::Connect(_)));
    assert!(t.knows(&"a".to_string()));
    assert!(matches!(t.decide(Some("a".to_string())), BeaconDecision::AlreadyConnected(_)));
}
