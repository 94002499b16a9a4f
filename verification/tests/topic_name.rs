use sparkplug_rs::DeviceMessageType;
use sparkplug_rs::NodeMessageType;
use sparkplug_rs::TopicName;
use sparkplug_rs::TopicNamespace;

#[test]
fn parse_state() {
    TopicName::from_str("STATE/scada_id").unwrap();
}

#[test]
fn test_errors() {
    assert_eq!(
        TopicName::from_str("").unwrap_err().to_string(),
        "TopicNameParseError"
    );
    assert_eq!(
        TopicName::from_str("STATE/to_many/slashes")
            .unwrap_err()
            .to_string(),
        "TopicNameParseError"
    );
    assert_eq!(
        TopicName::from_str("STATE/to_many/slashes/x/x/x")
            .unwrap_err()
            .to_string(),
        "TopicNameParseError"
    );
    assert_eq!(
        TopicName::from_str("wrong_namespace/to_many/slashes/x/x")
            .unwrap_err()
            .to_string(),
        "Error parsing topic's namespace"
    );
    assert_eq!(
        TopicName::from_str("wrong_namespace/to_many/slashes/x")
            .unwrap_err()
            .to_string(),
        "Error parsing topic's namespace"
    );
    assert_eq!(
        TopicName::from_str("wrong_namespace/to_many/slashes/x")
            .unwrap_err()
            .to_string(),
        "Error parsing topic's namespace"
    );
    assert_eq!(
        TopicName::from_str("spBv1.0/my_group/WRONG/nodeId")
            .unwrap_err()
            .to_string(),
        "Unknown NodeMessageType"
    );
    assert_eq!(
        TopicName::from_str("spBv1.0/my_group/WRONG/nodeId/deviceId")
            .unwrap_err()
            .to_string(),
        "Unknown DeviceMessageType"
    );
}

#[test]
fn test_parse_node_cmd() {
    if let TopicName::NodeMessage {
        namespace,
        group_id,
        node_message_type,
        edge_node_id,
    } = TopicName::from_str("spBv1.0/my_group/NBIRTH/nodeId").unwrap()
    {
        assert_eq!(namespace, TopicNamespace::SPBV1_0);
        assert_eq!(group_id, "my_group");
        assert_eq!(node_message_type, NodeMessageType::NBIRTH);
        assert_eq!(edge_node_id, "nodeId");
    } else {
        panic!();
    }
}

#[test]
fn test_parse_device_cmd() {
    if let TopicName::DeviceMessage {
        namespace,
        group_id,
        device_message_type,
        edge_node_id,
        device_id,
    } = TopicName::from_str("spBv1.0/my_group/DBIRTH/nodeId/deviceId").unwrap()
    {
        assert_eq!(namespace, TopicNamespace::SPBV1_0);
        assert_eq!(group_id, "my_group");
        assert_eq!(device_message_type, DeviceMessageType::DBIRTH);
        assert_eq!(edge_node_id, "nodeId");
        assert_eq!(device_id, "deviceId");
    } else {
        panic!();
    }
}
