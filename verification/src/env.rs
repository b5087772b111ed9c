//! Environment-variable capture and CLI-versus-environment precedence.

use vstd::prelude::*;

use crate::errors::Error;

verus! {

/// Environment variables used to overwrite default values.  A snapshot is
/// built once per invocation from the process environment and is read-only
/// afterwards.
#[derive(Debug)]
pub struct EnvVars {
    pub emerald_base_path: Option<String>,
    pub emerald_host: Option<String>,
    pub emerald_port: Option<String>,
    pub emerald_chain: Option<String>,
    pub emerald_chain_id: Option<String>,
    pub emerald_gas: Option<String>,
    pub emerald_gas_price: Option<String>,
    pub emerald_security_level: Option<String>,
    pub emerald_node: Option<String>,
}

/// The value of the last pair of `pairs` whose key reads `key`, if any.
pub open spec fn last_value_for(pairs: Seq<(String, String)>, key: Seq<char>) -> Option<String>
    decreases pairs.len(),
{
    if pairs.len() == 0 {
        None
    } else if pairs.last().0@ == key {
        Some(pairs.last().1)
    } else {
        last_value_for(pairs.drop_last(), key)
    }
}

impl Default for EnvVars {
    /// The empty snapshot: every slot is unset.
    fn default() -> (r: EnvVars)
        ensures
            r.emerald_base_path is None,
            r.emerald_host is None,
            r.emerald_port is None,
            r.emerald_chain is None,
            r.emerald_chain_id is None,
            r.emerald_gas is None,
            r.emerald_gas_price is None,
            r.emerald_security_level is None,
            r.emerald_node is None,
    {
        EnvVars {
            emerald_base_path: None,
            emerald_host: None,
            emerald_port: None,
            emerald_chain: None,
            emerald_chain_id: None,
            emerald_gas: None,
            emerald_gas_price: None,
            emerald_security_level: None,
            emerald_node: None,
        }
    }
}

/// Does `key` read exactly `name`?
fn key_is(key: &String, name: &str) -> (r: bool)
    ensures
        r == (key@ == name@),
{
    let n = String::from_str(name);
    key.eq(&n)
}

impl EnvVars {
    /// Collect the recognized environment variables out of one listing of the
    /// process environment, handed in as key/value pairs; unrecognized names
    /// are ignored, absent recognized names leave their slot unset, and a
    /// repeated name keeps its last value.
    pub fn parse(pairs: &Vec<(String, String)>) -> (r: EnvVars)
        ensures
            r.emerald_base_path == last_value_for(pairs@, "EMERALD_BASE_PATH"@),
            r.emerald_host == last_value_for(pairs@, "EMERALD_HOST"@),
            r.emerald_port == last_value_for(pairs@, "EMERALD_PORT"@),
            r.emerald_chain == last_value_for(pairs@, "EMERALD_CHAIN"@),
            r.emerald_chain_id == last_value_for(pairs@, "EMERALD_CHAIN_ID"@),
            r.emerald_gas == last_value_for(pairs@, "EMERALD_GAS"@),
            r.emerald_gas_price == last_value_for(pairs@, "EMERALD_GAS_PRICE"@),
            r.emerald_security_level == last_value_for(pairs@, "EMERALD_SECURITY_LEVEL"@),
            r.emerald_node == last_value_for(pairs@, "EMERALD_NODE"@),
    {
        let mut vars = EnvVars::default();
        let mut i: usize = 0;
        while i < pairs.len()
            invariant
                i <= pairs@.len(),
                vars.emerald_base_path == last_value_for(
                    pairs@.take(i as int),
                    "EMERALD_BASE_PATH"@,
                ),
                vars.emerald_host == last_value_for(pairs@.take(i as int), "EMERALD_HOST"@),
                vars.emerald_port == last_value_for(pairs@.take(i as int), "EMERALD_PORT"@),
                vars.emerald_chain == last_value_for(pairs@.take(i as int), "EMERALD_CHAIN"@),
                vars.emerald_chain_id == last_value_for(
                    pairs@.take(i as int),
                    "EMERALD_CHAIN_ID"@,
                ),
                vars.emerald_gas == last_value_for(pairs@.take(i as int), "EMERALD_GAS"@),
                vars.emerald_gas_price == last_value_for(
                    pairs@.take(i as int),
                    "EMERALD_GAS_PRICE"@,
                ),
                vars.emerald_security_level == last_value_for(
                    pairs@.take(i as int),
                    "EMERALD_SECURITY_LEVEL"@,
                ),
                vars.emerald_node == last_value_for(pairs@.take(i as int), "EMERALD_NODE"@),
            decreases pairs@.len() - i,
        {
            let key: &String = &pairs[i].0;
            let value: &String = &pairs[i].1;
            proof {
                assert(pairs@.take(i as int + 1).drop_last() =~= pairs@.take(i as int));
            }
            if key_is(key, "EMERALD_BASE_PATH") {
                vars.emerald_base_path = Some(value.clone());
            }
            if key_is(key, "EMERALD_HOST") {
                vars.emerald_host = Some(value.clone());
            }
            if key_is(key, "EMERALD_PORT") {
                vars.emerald_port = Some(value.clone());
            }
            if key_is(key, "EMERALD_CHAIN") {
                vars.emerald_chain = Some(value.clone());
            }
            if key_is(key, "EMERALD_CHAIN_ID") {
                vars.emerald_chain_id = Some(value.clone());
            }
            if key_is(key, "EMERALD_GAS") {
                vars.emerald_gas = Some(value.clone());
            }
            if key_is(key, "EMERALD_GAS_PRICE") {
                vars.emerald_gas_price = Some(value.clone());
            }
            if key_is(key, "EMERALD_SECURITY_LEVEL") {
                vars.emerald_security_level = Some(value.clone());
            }
            if key_is(key, "EMERALD_NODE") {
                vars.emerald_node = Some(value.clone());
            }
            i = i + 1;
        }
        proof {
            assert(pairs@.take(pairs@.len() as int) =~= pairs@);
        }
        vars
    }
}

/// What CLI-versus-environment precedence resolves to: the argument verbatim
/// when non-empty, else the fallback's value, else nothing.
pub open spec fn spec_resolve(arg: Seq<char>, env: Option<String>) -> Option<Seq<char>> {
    if arg.len() > 0 {
        Some(arg)
    } else if env is Some {
        Some(env->0@)
    } else {
        None
    }
}

/// Law: a non-empty CLI argument resolves to itself verbatim, whatever the
/// fallback holds.
pub proof fn lemma_nonempty_arg_wins(arg: Seq<char>, env: Option<String>)
    requires
        arg.len() > 0,
    ensures
        spec_resolve(arg, env) == Some(arg),
{
}

/// Law: an empty CLI argument resolves to the fallback's value when one is
/// present, and to nothing — a terminal failure — when none is.
pub proof fn lemma_empty_arg_takes_fallback(arg: Seq<char>, env: Option<String>)
    requires
        arg.len() == 0,
    ensures
        env is Some ==> spec_resolve(arg, env) == Some(env->0@),
        env is None ==> spec_resolve(arg, env) is None,
{
}

/// Resolve a CLI argument against an optional environment fallback: a
/// non-empty argument wins verbatim and the fallback is never consulted; an
/// empty argument takes the fallback's value; an empty argument with no
/// fallback is a terminal failure.
pub fn arg_or_default(arg: &str, env: &Option<String>) -> (r: Result<String, Error>)
    ensures
        match r {
            Ok(v) => spec_resolve(arg@, *env) == Some(v@),
            Err(e) => e == Error::MissingArgument && spec_resolve(arg@, *env) is None,
        },
{
    if !arg.is_empty() {
        Ok(arg.to_owned())
    } else {
        match env {
            Some(v) => Ok(v.clone()),
            None => Err(Error::MissingArgument),
        }
    }
}

} // verus!
