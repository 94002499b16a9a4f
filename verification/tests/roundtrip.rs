use sparkplug_rs::DeviceMessageType;
use sparkplug_rs::NodeMessageType;
use sparkplug_rs::TopicName;
use sparkplug_rs::TopicNameError;
use sparkplug_rs::TopicNamespace;

#[test]
fn node_message_round_trip() {
    let node = TopicName::new_node_message(
        TopicNamespace::SPBV1_0,
        "my_group".to_string(),
        NodeMessageType::NBIRTH,
        "nodeId".to_string(),
    );
    assert_eq!(node.to_string(), "spBv1.0/my_group/NBIRTH/nodeId");
    let parsed = TopicName::from_str("spBv1.0/my_group/NBIRTH/nodeId").unwrap();
    assert_eq!(parsed, node);
    assert_eq!(parsed.to_string(), "spBv1.0/my_group/NBIRTH/nodeId");
}

#[test]
fn device_message_round_trip() {
    let device = TopicName::new_device_message(
        TopicNamespace::SPBV1_0,
        "my_group".to_string(),
        DeviceMessageType::DBIRTH,
        "nodeId".to_string(),
        "deviceId".to_string(),
    );
    assert_eq!(device.to_string(), "spBv1.0/my_group/DBIRTH/nodeId/deviceId");
    let parsed = TopicName::from_str("spBv1.0/my_group/DBIRTH/nodeId/deviceId").unwrap();
    assert_eq!(parsed, device);
    assert_eq!(parsed.to_string(), "spBv1.0/my_group/DBIRTH/nodeId/deviceId");
}

#[test]
fn state_message_round_trip() {
    let state = TopicName::new_state_message("scada_host_id".to_string());
    assert_eq!(state.to_string(), "STATE/scada_host_id");
    let parsed = TopicName::from_str("STATE/scada_host_id").unwrap();
    assert_eq!(parsed, state);
    assert_eq!(parsed.to_string(), "STATE/scada_host_id");
}

#[test]
fn empty_string_is_malformed() {
    let err = TopicName::from_str("").unwrap_err();
    assert!(matches!(err, TopicNameError::Malformed(_)));
}

#[test]
fn wrong_node_type_is_node_type_error() {
    let err = TopicName::from_str("spBv1.0/my_group/WRONG/nodeId").unwrap_err();
    assert!(matches!(err, TopicNameError::NodeType(_)));
}

#[test]
fn wrong_namespace_is_namespace_error() {
    let err = TopicName::from_str("wrong_ns/g/NBIRTH/n").unwrap_err();
    assert!(matches!(err, TopicNameError::Namespace(_)));
}

#[test]
fn wrong_device_type_is_device_type_error() {
    let err = TopicName::from_str("spAv1.0/g/NBIRTH/n/d").unwrap_err();
    assert!(matches!(err, TopicNameError::DeviceType(_)));
}

#[test]
fn spav1_0_node_round_trip() {
    let parsed = TopicName::from_str("spAv1.0/g/NCMD/n").unwrap();
    let node = TopicName::new_node_message(
        TopicNamespace::SPAV1_0,
        "g".to_string(),
        NodeMessageType::NCMD,
        "n".to_string(),
    );
    assert_eq!(parsed, node);
    assert_eq!(parsed.to_string(), "spAv1.0/g/NCMD/n");
}

#[test]
fn arity_other_than_two_four_five_is_malformed() {
    for topic in [
        "STATE",
        "a/b/c",
        "spBv1.0/g/NBIRTH",
        "spBv1.0/g/DBIRTH/n/d/extra",
        "a/b/c/d/e/f/g",
    ] {
        let err = TopicName::from_str(topic).unwrap_err();
        assert!(matches!(err, TopicNameError::Malformed(_)), "{}", topic);
    }
}

#[test]
fn two_segments_without_state_marker_is_malformed() {
    let err = TopicName::from_str("state/scada").unwrap_err();
    assert!(matches!(err, TopicNameError::Malformed(_)));
    let err = TopicName::from_str("spBv1.0/scada").unwrap_err();
    assert!(matches!(err, TopicNameError::Malformed(_)));
}

#[test]
fn empty_segments_are_kept() {
    let parsed = TopicName::from_str("STATE/").unwrap();
    assert_eq!(parsed, TopicName::new_state_message(String::new()));
    assert_eq!(parsed.to_string(), "STATE/");

    let parsed = TopicName::from_str("spBv1.0//NDATA/").unwrap();
    let node = TopicName::new_node_message(
        TopicNamespace::SPBV1_0,
        String::new(),
        NodeMessageType::NDATA,
        String::new(),
    );
    assert_eq!(parsed, node);
    assert_eq!(parsed.to_string(), "spBv1.0//NDATA/");

    let err = TopicName::from_str("//").unwrap_err();
    assert!(matches!(err, TopicNameError::Malformed(_)));
}

#[test]
fn namespace_error_precedes_message_type_error() {
    let err = TopicName::from_str("nope/g/WRONG/n").unwrap_err();
    assert!(matches!(err, TopicNameError::Namespace(_)));
    let err = TopicName::from_str("nope/g/WRONG/n/d").unwrap_err();
    assert!(matches!(err, TopicNameError::Namespace(_)));
}

#[test]
fn node_tokens_are_not_device_tokens() {
    let err = TopicName::from_str("spBv1.0/g/DBIRTH/n").unwrap_err();
    assert!(matches!(err, TopicNameError::NodeType(_)));
    let err = TopicName::from_str("spBv1.0/g/NBIRTH/n/d").unwrap_err();
    assert!(matches!(err, TopicNameError::DeviceType(_)));
}
