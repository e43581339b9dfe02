use placenet_home::config::{join_path, Config, MqttConfig};
use placenet_home::text::{first_line_raw, parse_u16, rfind_char, trim, u32_to_decimal};

#[test]
fn config_defaults_when_nothing_is_set() {
    let c = Config::from_values(None, None, None);
    assert_eq!(c.config_dir, "config");
    assert_eq!(c.mqtt.port, 1883);
    assert_eq!(c.mqtt.client_id, "placenet-home");
    assert_eq!(c.mqtt.config_file, "config/mosquitto.conf");
    assert_eq!(c.mqtt.password_file, "config/mosquitto.passwd");
}

#[test]
fn config_uses_given_values() {
    let c = Config::from_values(Some("/etc/placenet/".to_string()), Some("8883".to_string()), Some("node-7".to_string()));
    assert_eq!(c.config_dir, "/etc/placenet/");
    assert_eq!(c.mqtt.port, 8883);
    assert_eq!(c.mqtt.client_id, "node-7");
    assert_eq!(c.mqtt.config_file, "/etc/placenet/mosquitto.conf");
}

#[test]
fn unparsable_port_falls_back() {
    for bad in ["", "abc", "65536", "-1", "+", " 1883", "18 83"] {
        let m = MqttConfig::from_values("cfg", Some(bad.to_string()), None);
        assert_eq!(m.port, 1883, "input {:?}", bad);
    }
    let m = MqttConfig::from_values("cfg", Some("+1884".to_string()), None);
    assert_eq!(m.port, 1884);
}

#[test]
fn parse_u16_matches_std() {
    for s in ["0", "00042", "65535", "65536", "99999999999", "+7", "+", "-0", "", "12a", "٣"] {
        assert_eq!(parse_u16(s), s.parse::<u16>().ok(), "input {:?}", s);
    }
}

#[test]
fn join_path_inserts_one_separator() {
    assert_eq!(join_path("config", "a.conf"), "config/a.conf");
    assert_eq!(join_path("config/", "a.conf"), "config/a.conf");
    assert_eq!(join_path("", "a.conf"), "a.conf");
    for dir in ["config", "config/", "", "/"] {
        let expected = std::path::PathBuf::from(dir).join("a.conf");
        assert_eq!(join_path(dir, "a.conf"), expected.to_string_lossy());
    }
}

#[test]
fn trim_matches_std() {
    for s in ["", "  ", "  /usr/bin/mosquitto\n", "\u{a0}x\u{3000}", "a b", "\t\r\nq\u{2029}"] {
        assert_eq!(trim(s), s.trim(), "input {:?}", s);
    }
}

#[test]
fn first_line_is_before_line_feed() {
    assert_eq!(first_line_raw("mosquitto version 2.0.18\nmore"), "mosquitto version 2.0.18");
    assert_eq!(first_line_raw("no newline"), "no newline");
    assert_eq!(first_line_raw("\nsecond"), "");
}

#[test]
fn rfind_char_finds_last() {
    assert_eq!(rfind_char("a:b:c", ':'), Some(3));
    assert_eq!(rfind_char("abc", ':'), None);
}

#[test]
fn decimal_rendering() {
    for n in [0u32, 7, 10, 1883, 65535, u32::MAX] {
        assert_eq!(u32_to_decimal(n), n.to_string());
    }
}
