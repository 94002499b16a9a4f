use sparkplug_rs::DeviceMessageType;
use sparkplug_rs::NodeMessageType;
use sparkplug_rs::TopicNamespace;

#[test]
fn namespace_tokens() {
    assert_eq!(TopicNamespace::SPAV1_0.to_string(), "spAv1.0");
    assert_eq!(TopicNamespace::SPBV1_0.to_string(), "spBv1.0");
}

#[test]
fn namespace_from_token() {
    assert_eq!(
        TopicNamespace::from_str("spAv1.0").unwrap(),
        TopicNamespace::SPAV1_0
    );
    assert_eq!(
        TopicNamespace::from_str("spBv1.0").unwrap(),
        TopicNamespace::SPBV1_0
    );
    assert!(TopicNamespace::from_str("xyz").is_err());
    assert!(TopicNamespace::from_str("").is_err());
}

#[test]
fn namespace_tokens_are_case_sensitive() {
    assert!(TopicNamespace::from_str("spbv1.0").is_err());
    assert!(TopicNamespace::from_str("SPBV1.0").is_err());
    assert!(TopicNamespace::from_str("spAV1.0").is_err());
}

#[test]
fn namespace_error_text() {
    assert_eq!(
        TopicNamespace::from_str("nope").unwrap_err().to_string(),
        "Error parsing topic's namespace"
    );
}

#[test]
fn node_type_tokens() {
    assert_eq!(NodeMessageType::NBIRTH.to_string(), "NBIRTH");
    assert_eq!(NodeMessageType::NDEATH.to_string(), "NDEATH");
    assert_eq!(NodeMessageType::NDATA.to_string(), "NDATA");
    assert_eq!(NodeMessageType::NCMD.to_string(), "NCMD");
}

#[test]
fn node_type_from_token() {
    assert_eq!(
        NodeMessageType::from_str("NBIRTH").unwrap(),
        NodeMessageType::NBIRTH
    );
    assert_eq!(
        NodeMessageType::from_str("NDEATH").unwrap(),
        NodeMessageType::NDEATH
    );
    assert_eq!(
        NodeMessageType::from_str("NDATA").unwrap(),
        NodeMessageType::NDATA
    );
    assert_eq!(
        NodeMessageType::from_str("NCMD").unwrap(),
        NodeMessageType::NCMD
    );
    assert!(NodeMessageType::from_str("xyz").is_err());
    assert!(NodeMessageType::from_str("nbirth").is_err());
    assert!(NodeMessageType::from_str("DBIRTH").is_err());
}

#[test]
fn node_type_error_text() {
    assert_eq!(
        NodeMessageType::from_str("nope").unwrap_err().to_string(),
        "Unknown NodeMessageType"
    );
}

#[test]
fn device_type_tokens() {
    assert_eq!(DeviceMessageType::DBIRTH.to_string(), "DBIRTH");
    assert_eq!(DeviceMessageType::DDEATH.to_string(), "DDEATH");
    assert_eq!(DeviceMessageType::DDATA.to_string(), "DDATA");
    assert_eq!(DeviceMessageType::DCMD.to_string(), "DCMD");
}

#[test]
fn device_type_from_token() {
    assert_eq!(
        DeviceMessageType::from_str("DBIRTH").unwrap(),
        DeviceMessageType::DBIRTH
    );
    assert_eq!(
        DeviceMessageType::from_str("DDEATH").unwrap(),
        DeviceMessageType::DDEATH
    );
    assert_eq!(
        DeviceMessageType::from_str("DDATA").unwrap(),
        DeviceMessageType::DDATA
    );
    assert_eq!(
        DeviceMessageType::from_str("DCMD").unwrap(),
        DeviceMessageType::DCMD
    );
    assert!(DeviceMessageType::from_str("xyz").is_err());
    assert!(DeviceMessageType::from_str("dbirth").is_err());
    assert!(DeviceMessageType::from_str("NBIRTH").is_err());
}

#[test]
fn device_type_error_text() {
    assert_eq!(
        DeviceMessageType::from_str("nope").unwrap_err().to_string(),
        "Unknown DeviceMessageType"
    );
}
