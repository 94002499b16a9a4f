//! The namespace classifier: the closed set of protocol version tags that
//! may stand in the first segment of a node or device topic.

use vstd::prelude::*;
use crate::segments::{no_sep, str_eq};

verus! {

/// A Sparkplug topic namespace: the protocol version tag that opens a node
/// or device topic.
#[derive(Debug, Clone, PartialEq)]
pub enum TopicNamespace {
    /// Sparkplug payload version 1.0a, token `spAv1.0`.
    SPAV1_0,
    /// Sparkplug payload version 1.0b, token `spBv1.0`.
    SPBV1_0,
}

/// The canonical token of a namespace.
pub open spec fn namespace_token(ns: TopicNamespace) -> Seq<char> {
    match ns {
        TopicNamespace::SPAV1_0 => "spAv1.0"@,
        TopicNamespace::SPBV1_0 => "spBv1.0"@,
    }
}

/// Whether `s` is the canonical token of some namespace.
pub open spec fn is_namespace_token(s: Seq<char>) -> bool {
    ||| s == namespace_token(TopicNamespace::SPAV1_0)
    ||| s == namespace_token(TopicNamespace::SPBV1_0)
}

/// The namespace whose canonical token is `s`.
pub open spec fn namespace_of_token(s: Seq<char>) -> TopicNamespace
    recommends
        is_namespace_token(s),
{
    if s == namespace_token(TopicNamespace::SPAV1_0) {
        TopicNamespace::SPAV1_0
    } else {
        TopicNamespace::SPBV1_0
    }
}

/// Distinct namespaces have distinct tokens: a token matches at most one
/// namespace.
pub proof fn lemma_namespace_token_injective(a: TopicNamespace, b: TopicNamespace)
    requires
        namespace_token(a) == namespace_token(b),
    ensures
        a == b,
{
    reveal_strlit("spAv1.0");
    reveal_strlit("spBv1.0");
    assert(namespace_token(TopicNamespace::SPAV1_0)[2] == 'A');
    assert(namespace_token(TopicNamespace::SPBV1_0)[2] == 'B');
}

/// Reading a namespace's own token back yields that namespace: formatting
/// then parsing a namespace is the identity.
pub proof fn lemma_namespace_token_inverse(ns: TopicNamespace)
    ensures
        namespace_of_token(namespace_token(ns)) == ns,
{
    reveal_strlit("spAv1.0");
    reveal_strlit("spBv1.0");
    assert(namespace_token(TopicNamespace::SPAV1_0)[2] == 'A');
    assert(namespace_token(TopicNamespace::SPBV1_0)[2] == 'B');
}

/// No namespace token contains the segment separator.
pub proof fn lemma_namespace_token_no_sep(ns: TopicNamespace)
    ensures
        no_sep(namespace_token(ns)),
{
    reveal_strlit("spAv1.0");
    reveal_strlit("spBv1.0");
}

/// The error of parsing a string that matches no namespace token.
#[derive(Debug, Clone, PartialEq)]
pub struct TopicNamespaceParseError;

impl TopicNamespaceParseError {
    /// The diagnostic text of this error.
    pub fn to_string(&self) -> (r: String)
        ensures
            r@ == "Error parsing topic's namespace"@,
    {
        "Error parsing topic's namespace".to_owned()
    }
}

impl TopicNamespace {
    /// The canonical MQTT token of this namespace.
    pub fn to_string(&self) -> (r: String)
        ensures
            r@ == namespace_token(*self),
    {
        match self {
            TopicNamespace::SPAV1_0 => "spAv1.0".to_owned(),
            TopicNamespace::SPBV1_0 => "spBv1.0".to_owned(),
        }
    }

    /// Parses a namespace from its canonical token: an exact, case-sensitive
    /// match against the closed token set, and an error on everything else.
    pub fn from_str(s: &str) -> (r: Result<TopicNamespace, TopicNamespaceParseError>)
        ensures
            (match r {
                Ok(ns) => is_namespace_token(s@) && ns == namespace_of_token(s@),
                Err(_) => !is_namespace_token(s@),
            }),
    {
        if str_eq(s, "spAv1.0") {
            Ok(TopicNamespace::SPAV1_0)
        } else if str_eq(s, "spBv1.0") {
            Ok(TopicNamespace::SPBV1_0)
        } else {
            Err(TopicNamespaceParseError)
        }
    }
}

} // verus!
