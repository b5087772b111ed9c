use emerald_cli::env::{arg_or_default, EnvVars};
use emerald_cli::errors::Error;

fn pair(k: &str, v: &str) -> (String, String) {
    (k.to_string(), v.to_string())
}

#[test]
fn non_empty_argument_wins_over_fallback() {
    let fallback = Some("fallback".to_string());
    assert_eq!(arg_or_default("value", &fallback), Ok("value".to_string()));
}

#[test]
fn non_empty_argument_wins_without_fallback() {
    assert_eq!(arg_or_default("value", &None), Ok("value".to_string()));
}

#[test]
fn empty_argument_takes_fallback() {
    let fallback = Some("fallback".to_string());
    assert_eq!(arg_or_default("", &fallback), Ok("fallback".to_string()));
}

#[test]
fn empty_argument_without_fallback_fails() {
    assert_eq!(arg_or_default("", &None), Err(Error::MissingArgument));
}

#[test]
fn envvars_parse_fills_recognized_slots() {
    let pairs = vec![
        pair("EMERALD_HOST", "127.0.0.1"),
        pair("EMERALD_PORT", "8545"),
        pair("PATH", "/usr/bin"),
        pair("EMERALD_GAS", "21000"),
    ];
    let vars = EnvVars::parse(&pairs);
    assert_eq!(vars.emerald_host, Some("127.0.0.1".to_string()));
    assert_eq!(vars.emerald_port, Some("8545".to_string()));
    assert_eq!(vars.emerald_gas, Some("21000".to_string()));
    assert_eq!(vars.emerald_base_path, None);
    assert_eq!(vars.emerald_chain, None);
    assert_eq!(vars.emerald_chain_id, None);
    assert_eq!(vars.emerald_gas_price, None);
    assert_eq!(vars.emerald_security_level, None);
    assert_eq!(vars.emerald_node, None);
}

#[test]
fn envvars_parse_ignores_unrecognized_names() {
    let pairs = vec![pair("EMERALD_SOMETHING_ELSE", "x"), pair("HOME", "/root")];
    let vars = EnvVars::parse(&pairs);
    assert_eq!(vars.emerald_base_path, None);
    assert_eq!(vars.emerald_host, None);
    assert_eq!(vars.emerald_node, None);
}

#[test]
fn envvars_parse_keeps_the_last_value() {
    let pairs = vec![pair("EMERALD_CHAIN", "mainnet"), pair("EMERALD_CHAIN", "testnet")];
    let vars = EnvVars::parse(&pairs);
    assert_eq!(vars.emerald_chain, Some("testnet".to_string()));
}

#[test]
fn envvars_parse_covers_all_nine_names() {
    let pairs = vec![
        pair("EMERALD_BASE_PATH", "a"),
        pair("EMERALD_HOST", "b"),
        pair("EMERALD_PORT", "c"),
        pair("EMERALD_CHAIN", "d"),
        pair("EMERALD_CHAIN_ID", "e"),
        pair("EMERALD_GAS", "f"),
        pair("EMERALD_GAS_PRICE", "g"),
        pair("EMERALD_SECURITY_LEVEL", "h"),
        pair("EMERALD_NODE", "i"),
    ];
    let vars = EnvVars::parse(&pairs);
    assert_eq!(vars.emerald_base_path, Some("a".to_string()));
    assert_eq!(vars.emerald_host, Some("b".to_string()));
    assert_eq!(vars.emerald_port, Some("c".to_string()));
    assert_eq!(vars.emerald_chain, Some("d".to_string()));
    assert_eq!(vars.emerald_chain_id, Some("e".to_string()));
    assert_eq!(vars.emerald_gas, Some("f".to_string()));
    assert_eq!(vars.emerald_gas_price, Some("g".to_string()));
    assert_eq!(vars.emerald_security_level, Some("h".to_string()));
    assert_eq!(vars.emerald_node, Some("i".to_string()));
}
