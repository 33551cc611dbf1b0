//! Who a node is on its network.
use vstd::prelude::*;

verus! {

/// `serde_json::Value`, a JSON document.
#[verifier::external_type_specification]
#[verifier::external_body]
pub struct ExJsonDocument(serde_json::Value);

/// `serde_json::Error`, why a document could not be written or read.
#[verifier::external_type_specification]
#[verifier::external_body]
pub struct ExJsonError(serde_json::Error);

/// `<serde_json::Value as Clone>::clone`: the copy is the same document.
pub assume_specification[ <serde_json::Value as Clone>::clone ](
    document: &serde_json::Value,
) -> (copy: serde_json::Value)
    ensures
        copy == *document,
;

/// The compact text of a document.
pub uninterp spec fn json_text(document: serde_json::Value) -> Seq<char>;

/// `serde_json::to_string` on a document.
///
/// The contract claims that a document can always be written: it holds finite numbers only, and
/// its keys are strings. It names the text and says nothing else of it.
#[verifier::external_body]
fn json_string(document: &serde_json::Value) -> (text: Result<String, serde_json::Error>)
    ensures
        text matches Ok(text) && text@ == json_text(*document),
{
    serde_json::to_string(document)
}

/// What a node says of itself: the document that its network record serialises to.
pub struct NetworkPeerInfo {
    pub document: serde_json::Value,
}

/// A node's network service, as far as the identity goes.
pub struct NetworkService {
    pub identity: NetworkPeerInfo,
}

impl NetworkService {
    /// What the node says of itself.
    pub fn identity(&self) -> (info: NetworkPeerInfo)
        ensures
            info == self.identity,
    {
        NetworkPeerInfo { document: self.identity.document.clone() }
    }
}

/// The extended network identity for a node.
pub fn extended_network_identity(network: &NetworkService) -> (info: NetworkPeerInfo)
    ensures
        info == network.identity,
{
    network.identity()
}

/// The network identity for a node.
pub fn network_identity(network: &NetworkService) -> (info: NetworkPeerInfo)
    ensures
        info == network.identity,
{
    let identity = network.identity();
    identity
}

/// The node identity as a JSON string.
pub fn node_identity_json(network: &NetworkService) -> (text: String)
    ensures
        text@ == json_text(network.identity.document),
{
    json_string(&network.identity().document).expect("Failed to serialize node identity to JSON")
}

} // verus!
