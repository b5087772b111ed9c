//! The command executor: it resolves CLI arguments against the environment
//! snapshot, parses them into domain values, builds the RPC requests of the
//! remote commands and interprets their replies, and imports decoded key
//! files into storage.  The caller performs the file read and the network
//! round trip and hands the plain results back in.

use vstd::prelude::*;

use crate::codec::{
    dec_value, hex_decoded, hex_value, is_dec_seq, is_hex_seq, parse_u64_dec, parse_u64_hex,
    spec_0x_hex, spec_trim_hex, to_0x_hex, trim_hex,
};
use crate::env::{arg_or_default, spec_resolve, EnvVars};
use crate::errors::Error;
use crate::keyfile::{json_parses, KeyFile, KeyfileStorage};
use crate::rpc::{ClientMethod, NodeEndpoint, PendingRequest, RequestParams, RpcReply};
use crate::types::{
    address_result, hex_to_32bytes, pk_result, spec_address_str, value32_result, Address,
    PrivateKey, Value32,
};

verus! {

/// The raw CLI strings a command was invoked with; an empty string stands
/// for an argument that was not supplied.
#[derive(Clone, Debug)]
pub struct Args {
    pub arg_address: String,
    pub arg_from: String,
    pub arg_to: String,
    pub arg_path: String,
    pub arg_value: String,
    pub flag_gas: String,
    pub flag_gas_price: String,
}

impl Default for Args {
    /// No argument supplied at all.
    fn default() -> (r: Args)
        ensures
            r.arg_address@.len() == 0,
            r.arg_from@.len() == 0,
            r.arg_to@.len() == 0,
            r.arg_path@.len() == 0,
            r.arg_value@.len() == 0,
            r.flag_gas@.len() == 0,
            r.flag_gas_price@.len() == 0,
    {
        Args {
            arg_address: String::new(),
            arg_from: String::new(),
            arg_to: String::new(),
            arg_path: String::new(),
            arg_value: String::new(),
            flag_gas: String::new(),
            flag_gas_price: String::new(),
        }
    }
}

/// The nonce request: the account's transaction count at block tag
/// `latest`, with parameters `[address, "latest"]`.
pub open spec fn spec_nonce_request(addr: Seq<u8>, req: PendingRequest) -> bool {
    &&& req.method == ClientMethod::EthGetTxCount
    &&& req.params matches RequestParams::Positional(ps) && ps@.len() == 2 && ps@[0]@
        == spec_address_str(addr) && ps@[1]@ == "latest"@
}

/// The broadcast request: one named field `data` holding the raw
/// transaction bytes as `0x`-prefixed hexadecimal.
pub open spec fn spec_send_tx_request(raw: Seq<u8>, req: PendingRequest) -> bool {
    &&& req.method == ClientMethod::EthSendRawTransaction
    &&& req.params matches RequestParams::Named(fields) && fields@.len() == 1 && fields@[0].0@
        == "data"@ && fields@[0].1@ == spec_0x_hex(raw)
}

/// Executes higher-level commands over a key-file store, the parsed CLI
/// arguments, the environment snapshot, and an optional RPC endpoint.
pub struct CmdExecutor {
    pub storage: KeyfileStorage,
    pub args: Args,
    pub vars: EnvVars,
    pub connector: Option<NodeEndpoint>,
}

impl CmdExecutor {
    /// An executor over an empty store.
    pub fn new(args: Args, vars: EnvVars, connector: Option<NodeEndpoint>) -> (r: CmdExecutor)
        ensures
            r.args == args,
            r.vars == vars,
            r.connector == connector,
            r.storage@ =~= Seq::<KeyFile>::empty(),
    {
        CmdExecutor { storage: KeyfileStorage::new(), args, vars, connector }
    }

    /// Decode the document of one key file and hand it to storage; exactly
    /// one key file is put, and only when the document is well-formed JSON.
    /// The caller reads the file and passes its full UTF-8 contents.
    pub fn import_keyfile(&mut self, json: String) -> (r: Result<(), Error>)
        ensures
            final(self).args == old(self).args,
            final(self).vars == old(self).vars,
            final(self).connector == old(self).connector,
            match r {
                Ok(u) => json_parses(json@) && exists|kf: KeyFile|
                    final(self).storage@ == old(self).storage@.push(kf),
                Err(e) => e == Error::MalformedKeyfile && !json_parses(json@)
                    && final(self).storage@ == old(self).storage@,
            },
    {
        match KeyFile::decode(json) {
            Ok(kf) => {
                let ghost gkf = kf;
                let _ = self.storage.put(kf);
                proof {
                    assert(final(self).storage@ == old(self).storage@.push(gkf));
                }
                Ok(())
            },
            Err(e) => Err(e),
        }
    }

    /// Parse the primary `address` argument.
    pub fn parse_address(&self) -> (r: Result<Address, Error>)
        ensures
            address_result(self.args.arg_address@, r),
            r matches Ok(a) ==> a.wf(),
    {
        Address::from_str(self.args.arg_address.as_str())
    }

    /// Parse the `from` address for transaction signing.
    pub fn parse_from(&self) -> (r: Result<Address, Error>)
        ensures
            address_result(self.args.arg_from@, r),
            r matches Ok(a) ==> a.wf(),
    {
        Address::from_str(self.args.arg_from.as_str())
    }

    /// Parse the `to` address for transaction signing: an empty argument
    /// means no destination (contract creation), anything else must decode.
    pub fn parse_to(&self) -> (r: Result<Option<Address>, Error>)
        ensures
            match r {
                Ok(a) => (match a {
                    None => self.args.arg_to@.len() == 0,
                    Some(a) => self.args.arg_to@.len() > 0 && address_result(
                        self.args.arg_to@,
                        Ok(a),
                    ) && a.wf(),
                }),
                Err(e) => self.args.arg_to@.len() > 0 && address_result(
                    self.args.arg_to@,
                    Err(e),
                ),
            },
    {
        if self.args.arg_to.as_str().is_empty() {
            Ok(None)
        } else {
            match Address::from_str(self.args.arg_to.as_str()) {
                Ok(a) => Ok(Some(a)),
                Err(e) => Err(e),
            }
        }
    }

    /// Parse the private key handed in through the path-like argument.
    pub fn parse_pk(&self) -> (r: Result<PrivateKey, Error>)
        ensures
            pk_result(self.args.arg_path@, r),
            r matches Ok(k) ==> k.wf(),
    {
        PrivateKey::from_str(self.args.arg_path.as_str())
    }

    /// Resolve the path for key-file import or export against the base-path
    /// fallback.  The platform-path conversion belongs to the caller at the
    /// I/O boundary.
    pub fn parse_path(&self) -> (r: Result<String, Error>)
        ensures
            match r {
                Ok(p) => spec_resolve(self.args.arg_path@, self.vars.emerald_base_path) == Some(
                    p@,
                ),
                Err(e) => e == Error::MissingArgument && spec_resolve(
                    self.args.arg_path@,
                    self.vars.emerald_base_path,
                ) is None,
            },
    {
        arg_or_default(self.args.arg_path.as_str(), &self.vars.emerald_base_path)
    }

    /// Parse the gas limit: resolve against the gas fallback, trim one
    /// optional `0x` prefix, and read the digits as a decimal unsigned
    /// 64-bit integer.
    pub fn parse_gas(&self) -> (r: Result<u64, Error>)
        ensures
            ({
                let res = spec_resolve(self.args.flag_gas@, self.vars.emerald_gas);
                match r {
                    Ok(n) => res matches Some(g) && ({
                        let t = spec_trim_hex(g);
                        t.len() > 0 && is_dec_seq(t) && n == dec_value(t)
                    }),
                    Err(e) => (match res {
                        None => e == Error::MissingArgument,
                        Some(g) => ({
                            let t = spec_trim_hex(g);
                            e == Error::InvalidNumber && (t.len() == 0 || !is_dec_seq(t)
                                || dec_value(t) > u64::MAX)
                        }),
                    }),
                }
            }),
    {
        let g = match arg_or_default(self.args.flag_gas.as_str(), &self.vars.emerald_gas) {
            Ok(v) => v,
            Err(e) => {
                return Err(e);
            },
        };
        parse_u64_dec(trim_hex(g.as_str()))
    }

    /// Parse the gas price: resolve against the gas-price fallback and
    /// decode to exactly 32 bytes, zero-padded on the left.
    pub fn parse_gas_price(&self) -> (r: Result<Value32, Error>)
        ensures
            ({
                let res = spec_resolve(self.args.flag_gas_price@, self.vars.emerald_gas_price);
                match r {
                    Ok(v) => res matches Some(g) && value32_result(g, Ok(v)) && v.wf(),
                    Err(e) => (match res {
                        None => e == Error::MissingArgument,
                        Some(g) => value32_result(g, Err(e)),
                    }),
                }
            }),
    {
        let g = match arg_or_default(
            self.args.flag_gas_price.as_str(),
            &self.vars.emerald_gas_price,
        ) {
            Ok(v) => v,
            Err(e) => {
                return Err(e);
            },
        };
        hex_to_32bytes(g.as_str())
    }

    /// Parse the transaction value to exactly 32 bytes, zero-padded on the
    /// left; the value has no environment fallback.
    pub fn parse_value(&self) -> (r: Result<Value32, Error>)
        ensures
            value32_result(self.args.arg_value@, r),
            r matches Ok(v) ==> v.wf(),
    {
        hex_to_32bytes(self.args.arg_value.as_str())
    }

    /// Parse the transaction call data: trim one optional `0x` prefix and
    /// hex-decode the rest, any length.
    pub fn parse_data(&self) -> (r: Result<Vec<u8>, Error>)
        ensures
            ({
                let t = spec_trim_hex(self.args.arg_value@);
                match r {
                    Ok(d) => is_hex_seq(t) && t.len() % 2 == 0 && d@ == hex_decoded(t),
                    Err(e) => e == Error::InvalidHex && !(is_hex_seq(t) && t.len() % 2 == 0),
                }
            }),
    {
        match crate::codec::hex_decode(trim_hex(self.args.arg_value.as_str())) {
            Some(d) => Ok(d),
            None => Err(Error::InvalidHex),
        }
    }

    /// Build the request that asks the node for the account's nonce; without
    /// a configured connector the command fails instead.
    pub fn get_nonce_request(&self, addr: &Address) -> (r: Result<PendingRequest, Error>)
        ensures
            match r {
                Ok(req) => self.connector is Some && spec_nonce_request(addr@, req),
                Err(e) => self.connector is None && e == Error::NotConnected,
            },
    {
        match &self.connector {
            None => Err(Error::NotConnected),
            Some(_) => {
                let mut ps: Vec<String> = Vec::new();
                ps.push(addr.to_hex_string());
                ps.push(String::from_str("latest"));
                Ok(
                    PendingRequest {
                        method: ClientMethod::EthGetTxCount,
                        params: RequestParams::Positional(ps),
                    },
                )
            },
        }
    }

    /// Read the nonce out of the node's reply: a hex string (optional `0x`
    /// prefix) becomes an unsigned 64-bit integer; any other reply fails.
    pub fn decode_nonce_reply(reply: &RpcReply) -> (r: Result<u64, Error>)
        ensures
            match reply {
                RpcReply::Text(s) => ({
                    let t = spec_trim_hex(s@);
                    match r {
                        Ok(n) => t.len() > 0 && is_hex_seq(t) && n == hex_value(t),
                        Err(e) => e == Error::InvalidNumber && (t.len() == 0 || !is_hex_seq(t)
                            || hex_value(t) > u64::MAX),
                    }
                }),
                RpcReply::NonText => r == Err::<u64, Error>(Error::UnexpectedReply),
            },
    {
        match reply {
            RpcReply::Text(s) => parse_u64_hex(trim_hex(s.as_str())),
            RpcReply::NonText => Err(Error::UnexpectedReply),
        }
    }

    /// Build the request that broadcasts an externally signed raw
    /// transaction, its bytes rendered as the `data` field; without a
    /// configured connector the command fails instead.
    pub fn send_transaction_request(&self, raw: Vec<u8>) -> (r: Result<PendingRequest, Error>)
        ensures
            match r {
                Ok(req) => self.connector is Some && spec_send_tx_request(raw@, req),
                Err(e) => self.connector is None && e == Error::NotConnected,
            },
    {
        match &self.connector {
            None => Err(Error::NotConnected),
            Some(_) => {
                let data = to_0x_hex(raw.as_slice());
                let mut fields: Vec<(String, String)> = Vec::new();
                fields.push((String::from_str("data"), data));
                Ok(
                    PendingRequest {
                        method: ClientMethod::EthSendRawTransaction,
                        params: RequestParams::Named(fields),
                    },
                )
            },
        }
    }

    /// Read the transaction hash out of the node's reply: a string is
    /// returned verbatim; any other reply fails.
    pub fn decode_transaction_reply(reply: &RpcReply) -> (r: Result<String, Error>)
        ensures
            match reply {
                RpcReply::Text(s) => r matches Ok(h) && h@ == s@,
                RpcReply::NonText => r == Err::<String, Error>(Error::UnexpectedReply),
            },
    {
        match reply {
            RpcReply::Text(s) => Ok(s.clone()),
            RpcReply::NonText => Err(Error::UnexpectedReply),
        }
    }
}

} // verus!
