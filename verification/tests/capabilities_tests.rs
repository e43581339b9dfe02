use placenet_home::capabilities::{
    path_from_which, required_binaries, version_from_output, BinaryInfo, CommandOutput, ServiceCapabilities,
};

fn out(success: bool, stdout: &str, stderr: &str) -> CommandOutput {
    CommandOutput { success, stdout: stdout.to_string(), stderr: stderr.to_string() }
}

#[test]
fn lookups_follow_inserts() {
    let mut caps = ServiceCapabilities::new();
    caps.insert(
        "mosquitto".to_string(),
        Some(BinaryInfo { path: "/usr/sbin/mosquitto".to_string(), version: Some("2.0.18".to_string()) }),
    );
    caps.insert("mosquitto_passwd".to_string(), None);
    assert!(caps.is_available("mosquitto"));
    assert!(!caps.is_available("mosquitto_passwd"));
    assert!(!caps.is_available("unknown"));
    assert_eq!(caps.binary_path("mosquitto"), Some("/usr/sbin/mosquitto"));
    assert_eq!(caps.binary_path("mosquitto_passwd"), None);
    caps.insert("mosquitto".to_string(), None);
    assert!(!caps.is_available("mosquitto"));
}

#[test]
fn which_output_gives_path() {
    assert_eq!(path_from_which(Some(out(true, "/usr/bin/mosquitto\n", ""))), Some("/usr/bin/mosquitto".to_string()));
    assert_eq!(path_from_which(Some(out(false, "", "not found"))), None);
    assert_eq!(path_from_which(None), None);
}

#[test]
fn version_comes_from_first_nonempty_stream() {
    assert_eq!(
        version_from_output(Some(out(true, "mosquitto version 2.0.18\n\nusage", "ignored"))),
        Some("mosquitto version 2.0.18".to_string())
    );
    assert_eq!(version_from_output(Some(out(false, "", "  v1.2  \nrest"))), Some("v1.2".to_string()));
    assert_eq!(version_from_output(Some(out(true, "", ""))), None);
    assert_eq!(version_from_output(Some(out(true, "   \nsecond", ""))), None);
    assert_eq!(version_from_output(None), None);
}

#[test]
fn required_binaries_are_broker_and_passwd() {
    assert_eq!(required_binaries(), vec!["mosquitto", "mosquitto_passwd"]);
}
