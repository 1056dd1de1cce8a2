use clip_sync::config::{
    topic_for_user, BridgeConfig, DEFAULT_PORT, KEEP_ALIVE_SECS, PUBLISH_RETAINED,
    REQUEST_CAPACITY,
};

fn config(user: &str, device: &str) -> BridgeConfig {
    BridgeConfig {
        device: device.to_string(),
        user: user.to_string(),
        cert_dir: "/etc/clip/certs".to_string(),
        server: "broker.example".to_string(),
        port: DEFAULT_PORT,
    }
}

#[test]
fn default_port_is_the_secure_broker_port() {
    assert_eq!(DEFAULT_PORT, 8883);
}

#[test]
fn connection_constants() {
    assert_eq!(KEEP_ALIVE_SECS, 5);
    assert_eq!(REQUEST_CAPACITY, 10);
    assert!(!PUBLISH_RETAINED);
}

#[test]
fn topic_is_prefix_and_user() {
    assert_eq!(topic_for_user("alice"), "clipboard/alice");
    assert_eq!(topic_for_user("bob"), "clipboard/bob");
}

#[test]
fn topic_of_empty_user_is_the_prefix() {
    assert_eq!(topic_for_user(""), "clipboard/");
}

#[test]
fn topic_keeps_the_user_as_written() {
    assert_eq!(topic_for_user("Alice Smith"), "clipboard/Alice Smith");
    assert_eq!(topic_for_user("a/b"), "clipboard/a/b");
    assert_eq!(topic_for_user("j\u{fc}rgen"), "clipboard/j\u{fc}rgen");
}

#[test]
fn topic_does_not_depend_on_the_device() {
    assert_eq!(config("alice", "phone1").topic(), "clipboard/alice");
    assert_eq!(config("alice", "laptop").topic(), "clipboard/alice");
    assert_eq!(config("alice", "phone1").topic(), config("alice", "laptop").topic());
}

#[test]
fn different_users_have_different_topics() {
    assert_ne!(config("alice", "phone1").topic(), config("bob", "phone1").topic());
}

#[test]
fn client_id_is_the_device() {
    assert_eq!(config("alice", "phone1").client_id(), "phone1");
}

#[test]
fn certificate_file_names() {
    let c = config("alice", "phone1");
    assert_eq!(c.ca_file(), "ca.crt");
    assert_eq!(c.cert_file(), "alice-phone1.crt");
    assert_eq!(c.key_file(), "alice-phone1.key");
}

#[test]
fn certificate_file_names_keep_user_and_device_as_written() {
    let c = config("a-b", "c");
    assert_eq!(c.cert_file(), "a-b-c.crt");
    assert_eq!(c.key_file(), "a-b-c.key");
    let empty = config("", "");
    assert_eq!(empty.cert_file(), "-.crt");
    assert_eq!(empty.key_file(), "-.key");
}

#[test]
fn ca_file_is_the_same_for_everyone() {
    assert_eq!(config("alice", "phone1").ca_file(), config("bob", "tablet").ca_file());
}

#[test]
fn transport_connects_as_the_device_to_the_configured_broker() {
    let mut c = config("alice", "phone1");
    c.server = "mqtt.example.org".to_string();
    c.port = 1884;
    let t = c.transport(b"CA".to_vec(), b"CERT".to_vec(), b"KEY".to_vec());
    assert_eq!(t.client_id, "phone1");
    assert_eq!(t.host, "mqtt.example.org");
    assert_eq!(t.port, 1884);
    assert_eq!(t.keep_alive_secs, 5);
    assert_eq!(t.request_capacity, 10);
}

#[test]
fn transport_carries_the_certificate_material_unchanged() {
    let t = config("alice", "phone1").transport(vec![1, 2, 3], vec![4, 5], vec![6]);
    assert_eq!(t.ca, vec![1, 2, 3]);
    assert_eq!(t.client_cert, vec![4, 5]);
    assert_eq!(t.client_key, vec![6]);
}
