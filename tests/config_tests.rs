use mqtt_sse_bridge::config::{
    default_buffer_size, default_endpoint, default_ip, default_port, MqttConfig, SseConfig,
};

fn mqtt(username: Option<&str>, password: Option<&str>) -> MqttConfig {
    MqttConfig {
        host: "broker.local".to_string(),
        port: 1883,
        client_id: "bridge-1".to_string(),
        username: username.map(|s| s.to_string()),
        password: password.map(|s| s.to_string()),
        topic: "sensors/temp".to_string(),
    }
}

#[test]
fn streaming_defaults() {
    assert_eq!(default_ip(), "127.0.0.1");
    assert_eq!(default_port(), 3030);
    assert_eq!(default_endpoint(), "events");
    assert_eq!(default_buffer_size(), 1024);
    let d = SseConfig::default();
    assert_eq!(d.ip, "127.0.0.1");
    assert_eq!(d.port, 3030);
    assert_eq!(d.endpoint, "events");
    assert_eq!(d.buffer_size, 1024);
}

#[test]
fn summary_with_credentials() {
    let c = mqtt(Some("user"), Some("SECRET-REDACTED"));
    assert_eq!(
        c.summary(),
        "MQTT Configuration:\nClient ID: bridge-1\nHost: broker.local\nPort: 1883\nTopic: sensors/temp\nCredentials: provided\n"
    );
    assert!(!c.summary().contains("SECRET-REDACTED"));
    assert_eq!(c.credentials(), Some(("user".to_string(), "SECRET-REDACTED".to_string())));
}

#[test]
fn summary_without_full_credentials() {
    let c = mqtt(Some("user"), None);
    assert!(c.summary().ends_with("Credentials: none\n"));
    assert_eq!(c.credentials(), None);
    let c = mqtt(None, None);
    assert!(c.summary().contains("Port: 1883\n"));
    assert_eq!(c.credentials(), None);
}
