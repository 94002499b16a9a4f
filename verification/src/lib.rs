//! Topic-name grammar of the Sparkplug MQTT namespace.
//!
//! A Sparkplug topic is a slash-delimited string whose shape is decided by
//! its segment count: a four-segment edge-node message, a five-segment
//! device message, or a two-segment SCADA state message.  This crate models
//! that grammar: the closed classifier sets ([`TopicNamespace`],
//! [`NodeMessageType`], [`DeviceMessageType`]), the tagged topic identity
//! ([`TopicName`]), and the bidirectional mapping between identities and
//! their canonical topic strings, with the round-trip between the two
//! proved.

pub mod device_message_types;
pub mod node_message_types;
pub mod segments;
pub mod topic_name;
pub mod topic_namespace;

pub use topic_name::TopicName;
pub use topic_name::TopicNameError;
pub use topic_name::TopicNameParseError;
pub use topic_name::TopicNameView;
pub use device_message_types::DeviceMessageType;
pub use device_message_types::DeviceMessageTypeParseError;
pub use node_message_types::NodeMessageType;
pub use node_message_types::NodeMessageTypeParseError;
pub use topic_namespace::TopicNamespace;
pub use topic_namespace::TopicNamespaceParseError;
