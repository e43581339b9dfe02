use placenet_home::config::MqttBrokerageConfig;
use placenet_home::services::gateway::{
    build_brokerage_info, check_init_version, client_register_reply, device_init_reply, forward_failure,
    issue_client_id, parsed_body, route, BodyOutcome, HeaderField, Route,
};
use placenet_home::services::{http, local_gateway};

fn broker_config(tls: bool) -> MqttBrokerageConfig {
    MqttBrokerageConfig {
        port: 1883,
        mqtts_port: 8883,
        tls_enabled: tls,
        username: "admin".to_string(),
        password: "pw".to_string(),
        config_file: "config/mosquitto.conf".to_string(),
        password_file: "config/mosquitto.passwd".to_string(),
        cafile: "certs/ca.crt".to_string(),
        certfile: "certs/broker.crt".to_string(),
        keyfile: "certs/broker.key".to_string(),
    }
}

fn text(s: &str) -> HeaderField {
    HeaderField::Text(s.to_string())
}

#[test]
fn brokerage_info_uses_tls_port_when_enabled() {
    let plain = build_brokerage_info(&broker_config(false));
    assert_eq!(plain.address, "localhost");
    assert_eq!(plain.port, 1883);
    assert_eq!(plain.topics.len(), 1);
    assert_eq!(plain.topics[0].topic, "placenet/test");
    assert_eq!(plain.topics[0].qos, 1);
    assert_eq!(build_brokerage_info(&broker_config(true)).port, 8883);
}

#[test]
fn routing_prefers_init_header() {
    assert_eq!(route(true, true), Route::DeviceInit);
    assert_eq!(route(false, true), Route::ClientRegister);
    assert_eq!(route(false, false), Route::Forward);
    let r = forward_failure();
    assert_eq!((r.status, r.message.as_str()), (502, "Bad Gateway"));
}

#[test]
fn init_version_checks() {
    assert!(check_init_version(&text("0.0.1")).is_ok());
    let e = check_init_version(&text("0.0.2")).err().unwrap();
    assert_eq!((e.status, e.message.as_str()), (400, "Unsupported version"));
    for h in [HeaderField::Absent, HeaderField::Unreadable] {
        let e = check_init_version(&h).err().unwrap();
        assert_eq!((e.status, e.message.as_str()), (400, "Invalid X-PlaceNet-Init header"));
    }
}

#[test]
fn body_outcomes() {
    let e = parsed_body::<u8>(BodyOutcome::ReadFailed).err().unwrap();
    assert_eq!((e.status, e.message.as_str()), (400, "Failed to read request body"));
    let e = parsed_body::<u8>(BodyOutcome::Malformed).err().unwrap();
    assert_eq!((e.status, e.message.as_str()), (422, "Invalid JSON body"));
    assert_eq!(parsed_body(BodyOutcome::Parsed(5u8)).ok(), Some(5));
}

#[test]
fn device_init_replies() {
    let info = build_brokerage_info(&broker_config(false));
    let e = device_init_reply(info, Err("boom".to_string())).err().unwrap();
    assert_eq!((e.status, e.message.as_str()), (500, "Failed to sign device certificate"));
    let info = build_brokerage_info(&broker_config(false));
    let ok = device_init_reply(info, Ok("CERT".to_string())).ok().unwrap();
    assert_eq!(ok.status, 200);
    assert_eq!(ok.cert_pem, "CERT");
    assert_eq!(ok.brokerage.address, "localhost");
}

#[test]
fn local_gateway_uses_request_host() {
    assert_eq!(local_gateway::broker_host(&text("192.168.2.39:8080")), "192.168.2.39");
    assert_eq!(local_gateway::broker_host(&text("node.local")), "node.local");
    assert_eq!(local_gateway::broker_host(&text("[fe80::1]:8080")), "[fe80::1]:8080");
    assert_eq!(local_gateway::broker_host(&HeaderField::Absent), "localhost");
    assert_eq!(local_gateway::broker_host(&HeaderField::Unreadable), "localhost");
    let info = build_brokerage_info(&broker_config(true));
    let ok = local_gateway::device_init_reply(info, "192.168.2.39".to_string(), Ok("C".to_string())).ok().unwrap();
    assert_eq!(ok.brokerage.address, "192.168.2.39");
    assert_eq!(ok.brokerage.port, 8883);
    let h = local_gateway::health_reply();
    assert_eq!((h.status, h.message.as_str()), (200, "OK"));
}

#[test]
fn client_register_replies() {
    let e = client_register_reply("id".to_string(), Err("x".to_string()), Ok("CA".to_string())).err().unwrap();
    assert_eq!((e.status, e.message.as_str()), (500, "Failed to sign client certificate"));
    let e = client_register_reply("id".to_string(), Ok("C".to_string()), Err("x".to_string())).err().unwrap();
    assert_eq!((e.status, e.message.as_str()), (500, "Failed to retrieve CA certificate"));
    let ok = client_register_reply("id".to_string(), Ok("C".to_string()), Ok("CA".to_string())).ok().unwrap();
    assert_eq!((ok.status, ok.client_id.as_str(), ok.cert_pem.as_str(), ok.ca_cert_pem.as_str()), (201, "id", "C", "CA"));
}

#[test]
fn client_ids_are_fresh_v4_uuids() {
    let a = issue_client_id();
    let b = issue_client_id();
    assert_ne!(a, b);
    assert_eq!(a.len(), 36);
    for (i, c) in a.chars().enumerate() {
        if [8, 13, 18, 23].contains(&i) {
            assert_eq!(c, '-');
        } else {
            assert!(c.is_ascii_hexdigit() && !c.is_ascii_uppercase());
        }
    }
    assert_eq!(a.chars().nth(14), Some('4'));
    assert!(matches!(a.chars().nth(19), Some('8' | '9' | 'a' | 'b')));
}

#[test]
fn http_route_replies() {
    let h = http::health();
    assert_eq!((h.status, h.message.as_str()), (200, "Hello, World!"));
    let p = http::peer_message();
    assert_eq!((p.status, p.message.as_str()), (200, "Message received"));
    let e = http::check_init_header(&HeaderField::Absent).err().unwrap();
    assert_eq!((e.status, e.message.as_str()), (400, "Missing required header: X-PlaceNet-Init"));
    let e = http::check_init_header(&HeaderField::Unreadable).err().unwrap();
    assert_eq!((e.status, e.message.as_str()), (400, "X-PlaceNet-Init header must be valid ASCII"));
    let e = http::check_init_header(&text("9.9")).err().unwrap();
    assert_eq!((e.status, e.message.as_str()), (400, "Unsupported version '9.9'; expected '0.0.1'"));
    assert!(http::check_init_header(&text("0.0.1")).is_ok());
    let j = http::invalid_json("EOF");
    assert_eq!((j.status, j.message.as_str()), (422, "Invalid JSON body: EOF"));
    let u = http::unreadable_body();
    assert_eq!((u.status, u.message.as_str()), (400, "Failed to read request body"));
}
