//! The topic identity: the tagged union of the three topic shapes, with
//! parsing from and formatting to the canonical slash-delimited string.
//!
//! A raw topic string is split on the separator, the segment count picks
//! the shape (two segments: state message, four: node message, five:
//! device message), and the classifier tokens are matched exactly.  No
//! escaping is performed: an identifier that itself contains the separator
//! formats to a well-formed string, but that string no longer splits back
//! into the same fields, so only separator-free identities round-trip.

use vstd::prelude::*;
use vstd::string::StringExecFns;
use crate::segments::{
    lemma_split_no_sep,
    lemma_split_prepend_segment,
    no_sep,
    sep_char,
    split_segments,
    split_topic,
    str_eq,
    views_of,
};
use crate::topic_namespace::{
    is_namespace_token,
    lemma_namespace_token_inverse,
    lemma_namespace_token_no_sep,
    namespace_of_token,
    namespace_token,
    TopicNamespace,
    TopicNamespaceParseError,
};
use crate::node_message_types::{
    is_node_type_token,
    lemma_node_type_token_inverse,
    lemma_node_type_token_no_sep,
    node_type_of_token,
    node_type_token,
    NodeMessageType,
    NodeMessageTypeParseError,
};
use crate::device_message_types::{
    device_type_of_token,
    device_type_token,
    is_device_type_token,
    lemma_device_type_token_inverse,
    lemma_device_type_token_no_sep,
    DeviceMessageType,
    DeviceMessageTypeParseError,
};

verus! {

/// A Sparkplug topic identity: exactly one of the three topic shapes.
#[derive(Debug, Clone, PartialEq)]
pub enum TopicName {
    /// A message to or from an edge node.
    NodeMessage {
        /// The protocol version tag opening the topic.
        namespace: TopicNamespace,
        /// The logical group the edge node belongs to.
        group_id: String,
        /// The kind of node message the payload carries.
        node_message_type: NodeMessageType,
        /// The identifier of the edge node within the group.
        edge_node_id: String,
    },
    /// A message to or from a device attached to an edge node.
    DeviceMessage {
        /// The protocol version tag opening the topic.
        namespace: TopicNamespace,
        /// The logical group the edge node belongs to.
        group_id: String,
        /// The kind of device message the payload carries.
        device_message_type: DeviceMessageType,
        /// The identifier of the edge node within the group.
        edge_node_id: String,
        /// The identifier of the device under the edge node.
        device_id: String,
    },
    /// A state message of a SCADA host.
    StateMessage {
        /// The identifier of the SCADA host application.
        scada_host_id: String,
    },
}

/// The mathematical shadow of [`TopicName`]: the same three shapes with
/// each identifier as a sequence of characters.
#[verifier::ext_equal]
pub enum TopicNameView {
    /// A message to or from an edge node.
    NodeMessage {
        /// The protocol version tag opening the topic.
        namespace: TopicNamespace,
        /// The logical group the edge node belongs to.
        group_id: Seq<char>,
        /// The kind of node message the payload carries.
        node_message_type: NodeMessageType,
        /// The identifier of the edge node within the group.
        edge_node_id: Seq<char>,
    },
    /// A message to or from a device attached to an edge node.
    DeviceMessage {
        /// The protocol version tag opening the topic.
        namespace: TopicNamespace,
        /// The logical group the edge node belongs to.
        group_id: Seq<char>,
        /// The kind of device message the payload carries.
        device_message_type: DeviceMessageType,
        /// The identifier of the edge node within the group.
        edge_node_id: Seq<char>,
        /// The identifier of the device under the edge node.
        device_id: Seq<char>,
    },
    /// A state message of a SCADA host.
    StateMessage {
        /// The identifier of the SCADA host application.
        scada_host_id: Seq<char>,
    },
}

impl View for TopicName {
    type V = TopicNameView;

    open spec fn view(&self) -> TopicNameView {
        match self {
            TopicName::NodeMessage { namespace, group_id, node_message_type, edge_node_id } => {
                TopicNameView::NodeMessage {
                    namespace: *namespace,
                    group_id: group_id@,
                    node_message_type: *node_message_type,
                    edge_node_id: edge_node_id@,
                }
            },
            TopicName::DeviceMessage {
                namespace,
                group_id,
                device_message_type,
                edge_node_id,
                device_id,
            } => {
                TopicNameView::DeviceMessage {
                    namespace: *namespace,
                    group_id: group_id@,
                    device_message_type: *device_message_type,
                    edge_node_id: edge_node_id@,
                    device_id: device_id@,
                }
            },
            TopicName::StateMessage { scada_host_id } => {
                TopicNameView::StateMessage { scada_host_id: scada_host_id@ }
            },
        }
    }
}

/// The error of parsing a string whose segment count matches no topic
/// shape, or a two-segment string that does not open with the state marker.
#[derive(Debug, Clone, PartialEq)]
pub struct TopicNameParseError;

impl TopicNameParseError {
    /// The diagnostic text of this error.
    pub fn to_string(&self) -> (r: String)
        ensures
            r@ == "TopicNameParseError"@,
    {
        "TopicNameParseError".to_owned()
    }
}

/// Everything that can go wrong when parsing a topic string: the shape
/// itself, or one of the classifier tokens inside a recognized shape.
#[derive(Debug, Clone, PartialEq)]
pub enum TopicNameError {
    /// The segment count matches no shape, or the state marker is missing.
    Malformed(TopicNameParseError),
    /// The namespace segment matches no namespace token.
    Namespace(TopicNamespaceParseError),
    /// The message-type segment matches no node message-type token.
    NodeType(NodeMessageTypeParseError),
    /// The message-type segment matches no device message-type token.
    DeviceType(DeviceMessageTypeParseError),
}

impl TopicNameError {
    /// The diagnostic text of the underlying error.
    pub open spec fn spec_text(self) -> Seq<char> {
        match self {
            TopicNameError::Malformed(_) => "TopicNameParseError"@,
            TopicNameError::Namespace(_) => "Error parsing topic's namespace"@,
            TopicNameError::NodeType(_) => "Unknown NodeMessageType"@,
            TopicNameError::DeviceType(_) => "Unknown DeviceMessageType"@,
        }
    }

    /// The diagnostic text of the underlying error.
    pub fn to_string(&self) -> (r: String)
        ensures
            r@ == self.spec_text(),
    {
        match self {
            TopicNameError::Malformed(e) => e.to_string(),
            TopicNameError::Namespace(e) => e.to_string(),
            TopicNameError::NodeType(e) => e.to_string(),
            TopicNameError::DeviceType(e) => e.to_string(),
        }
    }
}

/// The state marker that opens a two-segment topic.
pub open spec fn state_marker() -> Seq<char> {
    "STATE"@
}

/// The canonical string of a topic identity: the classifier tokens and
/// identifier fields of its shape, joined by the separator.
pub open spec fn spec_format(v: TopicNameView) -> Seq<char> {
    match v {
        TopicNameView::NodeMessage { namespace, group_id, node_message_type, edge_node_id } => {
            namespace_token(namespace) + seq![sep_char()] + group_id + seq![sep_char()]
                + node_type_token(node_message_type) + seq![sep_char()] + edge_node_id
        },
        TopicNameView::DeviceMessage {
            namespace,
            group_id,
            device_message_type,
            edge_node_id,
            device_id,
        } => {
            namespace_token(namespace) + seq![sep_char()] + group_id + seq![sep_char()]
                + device_type_token(device_message_type) + seq![sep_char()] + edge_node_id + seq![
                sep_char(),
            ] + device_id
        },
        TopicNameView::StateMessage { scada_host_id } => {
            state_marker() + seq![sep_char()] + scada_host_id
        },
    }
}

/// What parsing a topic string yields: the segment count picks the shape,
/// then each classifier segment must match its closed token set exactly,
/// the first offending segment deciding the error.
pub open spec fn spec_parse(s: Seq<char>) -> Result<TopicNameView, TopicNameError> {
    let parts = split_segments(s);
    if parts.len() == 2 {
        if parts[0] == state_marker() {
            Ok(TopicNameView::StateMessage { scada_host_id: parts[1] })
        } else {
            Err(TopicNameError::Malformed(TopicNameParseError))
        }
    } else if parts.len() == 4 {
        if !is_namespace_token(parts[0]) {
            Err(TopicNameError::Namespace(TopicNamespaceParseError))
        } else if !is_node_type_token(parts[2]) {
            Err(TopicNameError::NodeType(NodeMessageTypeParseError))
        } else {
            Ok(TopicNameView::NodeMessage {
                namespace: namespace_of_token(parts[0]),
                group_id: parts[1],
                node_message_type: node_type_of_token(parts[2]),
                edge_node_id: parts[3],
            })
        }
    } else if parts.len() == 5 {
        if !is_namespace_token(parts[0]) {
            Err(TopicNameError::Namespace(TopicNamespaceParseError))
        } else if !is_device_type_token(parts[2]) {
            Err(TopicNameError::DeviceType(DeviceMessageTypeParseError))
        } else {
            Ok(TopicNameView::DeviceMessage {
                namespace: namespace_of_token(parts[0]),
                group_id: parts[1],
                device_message_type: device_type_of_token(parts[2]),
                edge_node_id: parts[3],
                device_id: parts[4],
            })
        }
    } else {
        Err(TopicNameError::Malformed(TopicNameParseError))
    }
}

/// Whether every identifier field of `v` is free of the separator
/// character, so that its formatted string splits back into the same
/// fields.
pub open spec fn sep_free(v: TopicNameView) -> bool {
    match v {
        TopicNameView::NodeMessage { group_id, edge_node_id, .. } => {
            no_sep(group_id) && no_sep(edge_node_id)
        },
        TopicNameView::DeviceMessage { group_id, edge_node_id, device_id, .. } => {
            no_sep(group_id) && no_sep(edge_node_id) && no_sep(device_id)
        },
        TopicNameView::StateMessage { scada_host_id } => no_sep(scada_host_id),
    }
}

/// The round-trip law: parsing the canonical string of any identity whose
/// identifier fields are free of the separator yields that identity back,
/// and reformatting it reproduces the identical string.
#[verifier::rlimit(50)]
pub proof fn lemma_round_trip(v: TopicNameView)
    requires
        sep_free(v),
    ensures
        spec_parse(spec_format(v)) == Ok::<TopicNameView, TopicNameError>(v),
        (match spec_parse(spec_format(v)) {
            Ok(w) => spec_format(w) == spec_format(v),
            Err(_) => false,
        }),
{
    match v {
        TopicNameView::NodeMessage { namespace, group_id, node_message_type, edge_node_id } => {
            let tok = namespace_token(namespace);
            let ty = node_type_token(node_message_type);
            lemma_namespace_token_no_sep(namespace);
            lemma_node_type_token_no_sep(node_message_type);
            let tail2 = ty + seq![sep_char()] + edge_node_id;
            let tail1 = group_id + seq![sep_char()] + tail2;
            assert(spec_format(v) =~= tok + seq![sep_char()] + tail1);
            lemma_split_prepend_segment(tok, tail1);
            lemma_split_prepend_segment(group_id, tail2);
            lemma_split_prepend_segment(ty, edge_node_id);
            lemma_split_no_sep(edge_node_id);
            assert(split_segments(spec_format(v)) =~~= seq![tok, group_id, ty, edge_node_id]);
            lemma_namespace_token_inverse(namespace);
            lemma_node_type_token_inverse(node_message_type);
            assert(spec_parse(spec_format(v)) == Ok::<TopicNameView, TopicNameError>(v));
        },
        TopicNameView::DeviceMessage {
            namespace,
            group_id,
            device_message_type,
            edge_node_id,
            device_id,
        } => {
            let tok = namespace_token(namespace);
            let ty = device_type_token(device_message_type);
            lemma_namespace_token_no_sep(namespace);
            lemma_device_type_token_no_sep(device_message_type);
            let tail3 = edge_node_id + seq![sep_char()] + device_id;
            let tail2 = ty + seq![sep_char()] + tail3;
            let tail1 = group_id + seq![sep_char()] + tail2;
            assert(spec_format(v) =~= tok + seq![sep_char()] + tail1);
            lemma_split_prepend_segment(tok, tail1);
            lemma_split_prepend_segment(group_id, tail2);
            lemma_split_prepend_segment(ty, tail3);
            lemma_split_prepend_segment(edge_node_id, device_id);
            lemma_split_no_sep(device_id);
            assert(split_segments(spec_format(v)) =~~= seq![
                tok,
                group_id,
                ty,
                edge_node_id,
                device_id,
            ]);
            lemma_namespace_token_inverse(namespace);
            lemma_device_type_token_inverse(device_message_type);
            assert(spec_parse(spec_format(v)) == Ok::<TopicNameView, TopicNameError>(v));
        },
        TopicNameView::StateMessage { scada_host_id } => {
            reveal_strlit("STATE");
            assert(no_sep(state_marker()));
            lemma_split_prepend_segment(state_marker(), scada_host_id);
            lemma_split_no_sep(scada_host_id);
            assert(split_segments(spec_format(v)) =~~= seq![state_marker(), scada_host_id]);
            assert(spec_parse(spec_format(v)) == Ok::<TopicNameView, TopicNameError>(v));
        },
    }
}

/// The arity-dispatch law: the segment count of a string alone decides
/// which shape is attempted, and a count other than two, four or five
/// yields the malformed-topic error and nothing else.
pub proof fn lemma_arity_dispatch(s: Seq<char>)
    ensures
        (split_segments(s).len() != 2 && split_segments(s).len() != 4 && split_segments(s).len()
            != 5) ==> spec_parse(s) == Err::<TopicNameView, TopicNameError>(
            TopicNameError::Malformed(TopicNameParseError),
        ),
        split_segments(s).len() == 2 ==> (match spec_parse(s) {
            Ok(v) => v is StateMessage,
            Err(e) => e is Malformed,
        }),
        split_segments(s).len() == 4 ==> (match spec_parse(s) {
            Ok(v) => v is NodeMessage,
            Err(e) => e is Namespace || e is NodeType,
        }),
        split_segments(s).len() == 5 ==> (match spec_parse(s) {
            Ok(v) => v is DeviceMessage,
            Err(e) => e is Namespace || e is DeviceType,
        }),
{
}

impl TopicName {
    /// Constructs a node-message identity from its fields.
    pub fn new_node_message(
        namespace: TopicNamespace,
        group_id: String,
        node_message_type: NodeMessageType,
        edge_node_id: String,
    ) -> (r: Self)
        ensures
            r == (TopicName::NodeMessage { namespace, group_id, node_message_type, edge_node_id }),
    {
        TopicName::NodeMessage { namespace, group_id, node_message_type, edge_node_id }
    }

    /// Constructs a device-message identity from its fields.
    pub fn new_device_message(
        namespace: TopicNamespace,
        group_id: String,
        device_message_type: DeviceMessageType,
        edge_node_id: String,
        device_id: String,
    ) -> (r: Self)
        ensures
            r == (TopicName::DeviceMessage {
                namespace,
                group_id,
                device_message_type,
                edge_node_id,
                device_id,
            }),
    {
        TopicName::DeviceMessage {
            namespace,
            group_id,
            device_message_type,
            edge_node_id,
            device_id,
        }
    }

    /// Constructs a state-message identity from the SCADA host identifier.
    pub fn new_state_message(scada_host_id: String) -> (r: Self)
        ensures
            r == (TopicName::StateMessage { scada_host_id }),
    {
        TopicName::StateMessage { scada_host_id }
    }

    /// Formats this identity as its canonical topic string.  Formatting is
    /// total and never fails.
    pub fn to_string(&self) -> (r: String)
        ensures
            r@ == spec_format(self@),
    {
        proof {
            reveal_strlit("/");
        }
        match self {
            TopicName::NodeMessage { namespace, group_id, node_message_type, edge_node_id } => {
                let mut out = namespace.to_string();
                out.append("/");
                out.append(group_id.as_str());
                out.append("/");
                let token = node_message_type.to_string();
                out.append(token.as_str());
                out.append("/");
                out.append(edge_node_id.as_str());
                proof {
                    assert(out@ =~= spec_format(self@));
                }
                out
            },
            TopicName::DeviceMessage {
                namespace,
                group_id,
                device_message_type,
                edge_node_id,
                device_id,
            } => {
                let mut out = namespace.to_string();
                out.append("/");
                out.append(group_id.as_str());
                out.append("/");
                let token = device_message_type.to_string();
                out.append(token.as_str());
                out.append("/");
                out.append(edge_node_id.as_str());
                out.append("/");
                out.append(device_id.as_str());
                proof {
                    assert(out@ =~= spec_format(self@));
                }
                out
            },
            TopicName::StateMessage { scada_host_id } => {
                let mut out = "STATE".to_owned();
                out.append("/");
                out.append(scada_host_id.as_str());
                proof {
                    assert(out@ =~= spec_format(self@));
                }
                out
            },
        }
    }

    /// Parses a topic string into its identity, exactly as [`spec_parse`]
    /// describes: the result is `Ok` exactly on the strings some identity
    /// formats to, and each failing string gets the error of its first
    /// offending segment.
    pub fn from_str(s: &str) -> (r: Result<TopicName, TopicNameError>)
        ensures
            (match r {
                Ok(t) => spec_parse(s@) == Ok::<TopicNameView, TopicNameError>(t@),
                Err(e) => spec_parse(s@) == Err::<TopicNameView, TopicNameError>(e),
            }),
    {
        let parts = split_topic(s);
        proof {
            assert forall|i: int| 0 <= i < parts@.len() implies #[trigger] parts@[i]@
                == split_segments(s@)[i] by {
                assert(views_of(parts@)[i] == parts@[i]@);
            }
        }
        if parts.len() == 2 {
            if str_eq(parts[0], "STATE") {
                let t = TopicName::StateMessage { scada_host_id: parts[1].to_owned() };
                proof {
                    assert(spec_parse(s@) == Ok::<TopicNameView, TopicNameError>(t@));
                }
                Ok(t)
            } else {
                Err(TopicNameError::Malformed(TopicNameParseError))
            }
        } else if parts.len() == 4 {
            let namespace = match TopicNamespace::from_str(parts[0]) {
                Ok(ns) => ns,
                Err(e) => {
                    return Err(TopicNameError::Namespace(e));
                },
            };
            let node_message_type = match NodeMessageType::from_str(parts[2]) {
                Ok(t) => t,
                Err(e) => {
                    return Err(TopicNameError::NodeType(e));
                },
            };
            let t = TopicName::NodeMessage {
                namespace,
                group_id: parts[1].to_owned(),
                node_message_type,
                edge_node_id: parts[3].to_owned(),
            };
            proof {
                assert(spec_parse(s@) == Ok::<TopicNameView, TopicNameError>(t@));
            }
            Ok(t)
        } else if parts.len() == 5 {
            let namespace = match TopicNamespace::from_str(parts[0]) {
                Ok(ns) => ns,
                Err(e) => {
                    return Err(TopicNameError::Namespace(e));
                },
            };
            let device_message_type = match DeviceMessageType::from_str(parts[2]) {
                Ok(t) => t,
                Err(e) => {
                    return Err(TopicNameError::DeviceType(e));
                },
            };
            let t = TopicName::DeviceMessage {
                namespace,
                group_id: parts[1].to_owned(),
                device_message_type,
                edge_node_id: parts[3].to_owned(),
                device_id: parts[4].to_owned(),
            };
            proof {
                assert(spec_parse(s@) == Ok::<TopicNameView, TopicNameError>(t@));
            }
            Ok(t)
        } else {
            Err(TopicNameError::Malformed(TopicNameParseError))
        }
    }
}

} // verus!
