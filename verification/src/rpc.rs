//! Plain-value model of the JSON-RPC interface: the methods this layer
//! calls, the request it hands to the transport, and the shape of a reply.
//! The transport itself (one blocking round trip per request) is the
//! caller's collaborator.

use vstd::prelude::*;

verus! {

/// The remote procedures this layer calls.
#[derive(Clone, Copy, Debug, PartialEq, Eq, Structural)]
pub enum ClientMethod {
    /// The account's transaction count (its next nonce).
    EthGetTxCount,
    /// Broadcast of an externally signed raw transaction.
    EthSendRawTransaction,
}

impl ClientMethod {
    /// The method name as it appears on the wire.
    pub fn wire_name(&self) -> (r: &str)
        ensures
            *self == ClientMethod::EthGetTxCount ==> r@ == "eth_getTransactionCount"@,
            *self == ClientMethod::EthSendRawTransaction ==> r@ == "eth_sendRawTransaction"@,
    {
        match self {
            ClientMethod::EthGetTxCount => "eth_getTransactionCount",
            ClientMethod::EthSendRawTransaction => "eth_sendRawTransaction",
        }
    }
}

/// The parameters of one call: either a positional list of strings or a
/// named map of string fields.
#[derive(Clone, Debug, PartialEq, Eq)]
pub enum RequestParams {
    Positional(Vec<String>),
    Named(Vec<(String, String)>),
}

/// One outgoing RPC call, stateless beyond its own lifetime: the caller
/// serializes it, performs the round trip, and hands the reply back.
#[derive(Clone, Debug, PartialEq, Eq)]
pub struct PendingRequest {
    pub method: ClientMethod,
    pub params: RequestParams,
}

/// What came back from the node, reduced to what this layer reads: either a
/// JSON string or anything else.
#[derive(Clone, Debug, PartialEq, Eq)]
pub enum RpcReply {
    Text(String),
    NonText,
}

/// Where the node listens.  The executor holds one when an endpoint is
/// configured; remote commands fail without it.
#[derive(Clone, Debug, PartialEq, Eq)]
pub struct NodeEndpoint {
    pub host: String,
    pub port: u16,
}

} // verus!
