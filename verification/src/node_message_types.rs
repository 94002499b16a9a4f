//! The node message-type classifier: the closed set of lifecycle and
//! command kinds that an edge-node topic may carry in its third segment.

use vstd::prelude::*;
use crate::segments::{no_sep, str_eq};

verus! {

/// The message kind of an edge-node topic.
#[derive(Debug, Clone, PartialEq)]
pub enum NodeMessageType {
    /// Node birth certificate, token `NBIRTH`.
    NBIRTH,
    /// Node death certificate, token `NDEATH`.
    NDEATH,
    /// Node data message, token `NDATA`.
    NDATA,
    /// Node command message, token `NCMD`.
    NCMD,
}

/// The canonical token of a node message type.
pub open spec fn node_type_token(t: NodeMessageType) -> Seq<char> {
    match t {
        NodeMessageType::NBIRTH => "NBIRTH"@,
        NodeMessageType::NDEATH => "NDEATH"@,
        NodeMessageType::NDATA => "NDATA"@,
        NodeMessageType::NCMD => "NCMD"@,
    }
}

/// Whether `s` is the canonical token of some node message type.
pub open spec fn is_node_type_token(s: Seq<char>) -> bool {
    ||| s == node_type_token(NodeMessageType::NBIRTH)
    ||| s == node_type_token(NodeMessageType::NDEATH)
    ||| s == node_type_token(NodeMessageType::NDATA)
    ||| s == node_type_token(NodeMessageType::NCMD)
}

/// The node message type whose canonical token is `s`.
pub open spec fn node_type_of_token(s: Seq<char>) -> NodeMessageType
    recommends
        is_node_type_token(s),
{
    if s == node_type_token(NodeMessageType::NBIRTH) {
        NodeMessageType::NBIRTH
    } else if s == node_type_token(NodeMessageType::NDEATH) {
        NodeMessageType::NDEATH
    } else if s == node_type_token(NodeMessageType::NDATA) {
        NodeMessageType::NDATA
    } else {
        NodeMessageType::NCMD
    }
}

/// Distinct node message types have distinct tokens: a token matches at
/// most one of them.
pub proof fn lemma_node_type_token_injective(a: NodeMessageType, b: NodeMessageType)
    requires
        node_type_token(a) == node_type_token(b),
    ensures
        a == b,
{
    reveal_strlit("NBIRTH");
    reveal_strlit("NDEATH");
    reveal_strlit("NDATA");
    reveal_strlit("NCMD");
    assert("NBIRTH"@.len() == 6 && "NBIRTH"@[1] == 'B');
    assert("NDEATH"@.len() == 6 && "NDEATH"@[1] == 'D');
    assert("NDATA"@.len() == 5);
    assert("NCMD"@.len() == 4);
}

/// Reading a node message type's own token back yields that type:
/// formatting then parsing a node message type is the identity.
pub proof fn lemma_node_type_token_inverse(t: NodeMessageType)
    ensures
        node_type_of_token(node_type_token(t)) == t,
{
    reveal_strlit("NBIRTH");
    reveal_strlit("NDEATH");
    reveal_strlit("NDATA");
    reveal_strlit("NCMD");
    assert("NBIRTH"@.len() == 6 && "NBIRTH"@[1] == 'B');
    assert("NDEATH"@.len() == 6 && "NDEATH"@[1] == 'D');
    assert("NDATA"@.len() == 5);
    assert("NCMD"@.len() == 4);
}

/// No node message-type token contains the segment separator.
pub proof fn lemma_node_type_token_no_sep(t: NodeMessageType)
    ensures
        no_sep(node_type_token(t)),
{
    reveal_strlit("NBIRTH");
    reveal_strlit("NDEATH");
    reveal_strlit("NDATA");
    reveal_strlit("NCMD");
}

/// The error of parsing a string that matches no node message-type token.
#[derive(Debug, Clone, PartialEq)]
pub struct NodeMessageTypeParseError;

impl NodeMessageTypeParseError {
    /// The diagnostic text of this error.
    pub fn to_string(&self) -> (r: String)
        ensures
            r@ == "Unknown NodeMessageType"@,
    {
        "Unknown NodeMessageType".to_owned()
    }
}

impl NodeMessageType {
    /// The canonical MQTT token of this message type.
    pub fn to_string(&self) -> (r: String)
        ensures
            r@ == node_type_token(*self),
    {
        match self {
            NodeMessageType::NBIRTH => "NBIRTH".to_owned(),
            NodeMessageType::NDEATH => "NDEATH".to_owned(),
            NodeMessageType::NDATA => "NDATA".to_owned(),
            NodeMessageType::NCMD => "NCMD".to_owned(),
        }
    }

    /// Parses a node message type from its canonical token: an exact,
    /// case-sensitive match against the closed token set, and an error on
    /// everything else.
    pub fn from_str(s: &str) -> (r: Result<NodeMessageType, NodeMessageTypeParseError>)
        ensures
            (match r {
                Ok(t) => is_node_type_token(s@) && t == node_type_of_token(s@),
                Err(_) => !is_node_type_token(s@),
            }),
    {
        if str_eq(s, "NBIRTH") {
            Ok(NodeMessageType::NBIRTH)
        } else if str_eq(s, "NDEATH") {
            Ok(NodeMessageType::NDEATH)
        } else if str_eq(s, "NDATA") {
            Ok(NodeMessageType::NDATA)
        } else if str_eq(s, "NCMD") {
            Ok(NodeMessageType::NCMD)
        } else {
            Err(NodeMessageTypeParseError)
        }
    }
}

} // verus!
