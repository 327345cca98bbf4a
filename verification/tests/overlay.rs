use std::str::FromStr;

use clap::{Arg, Command};
use ethers_core::types::{Address, Chain, H256, U256};
use evm_overlay::evm::{ArgsError, EnvArgs, EvmArgs};
use evm_overlay::hex::{digit, fixed_hex, nibble, quantity_hex};
use figment::providers::Serialized;
use figment::value::Value;
use figment::Figment;

fn text(chars: Vec<char>) -> String {
    chars.into_iter().collect()
}

fn mainnet_args() -> EvmArgs {
    let mut args = EvmArgs::new();
    args.env.chain_id = Some(u64::from(Chain::Mainnet));
    args
}

fn base() -> Figment {
    Figment::new()
        .merge(Serialized::default("chain_id", 31337u64))
        .merge(Serialized::default("memory_limit", 33554432u64))
        .merge(Serialized::default("ffi", false))
}

fn chain_arg(line: [&str; 3]) -> u64 {
    let command = Command::new("foundry-common")
        .arg(Arg::new("chain_id").long("chain-id").alias("chain").takes_value(true));
    let matches = command.get_matches_from(line);
    let given = matches.value_of("chain_id").unwrap().to_string();
    u64::from(Chain::from_str(&given).unwrap())
}

#[test]
fn can_parse_chain_id() {
    let args = mainnet_args();
    let merged = base().merge(Serialized::defaults(args.data()));
    assert_eq!(merged.extract_inner::<u64>("chain_id").unwrap(), u64::from(Chain::Mainnet));

    let mut env = EnvArgs::new();
    env.chain_id = Some(chain_arg(["foundry-common", "--chain-id", "goerli"]));
    assert_eq!(env.chain_id, Some(u64::from(Chain::Goerli)));
}

#[test]
fn test_memory_limit() {
    let args = mainnet_args();
    let merged = base().merge(Serialized::defaults(args.data()));
    assert_eq!(
        merged.extract_inner::<u64>("memory_limit").unwrap(),
        base().extract_inner::<u64>("memory_limit").unwrap()
    );

    let mut env = EnvArgs::new();
    env.memory_limit = Some(100);
    assert_eq!(env.memory_limit, Some(100));
    let mut dict = args.data();
    env.fill(&mut dict);
    assert_eq!(dict.get("memory_limit"), Some(&Value::from(100u64)));
}

#[test]
fn chain_alias_gives_the_same_chain_id() {
    let long = chain_arg(["foundry-common", "--chain-id", "goerli"]);
    let alias = chain_arg(["foundry-common", "--chain", "goerli"]);
    assert_eq!(long, alias);
    assert_eq!(long, 5);
}

#[test]
fn nothing_set_gives_an_empty_overlay() {
    assert!(EvmArgs::new().data().is_empty());
    let mut dict = EvmArgs::new().data();
    EnvArgs::new().fill(&mut dict);
    assert!(dict.is_empty());
}

#[test]
fn chain_id_override_wins_over_base() {
    let mut args = EvmArgs::new();
    args.env.chain_id = Some(5);
    let dict = args.data();
    assert_eq!(dict.len(), 1);
    assert_eq!(dict.get("chain_id"), Some(&Value::from(5u64)));
    let merged = base().merge(Serialized::defaults(dict));
    assert_eq!(merged.extract_inner::<u64>("chain_id").unwrap(), 5);
}

#[test]
fn unset_memory_limit_is_absent() {
    let dict = mainnet_args().data();
    assert!(!dict.contains_key("memory_limit"));
}

#[test]
fn verbosity_three_has_an_entry() {
    let mut args = EvmArgs::new();
    args.verbosity = 3;
    let dict = args.data();
    assert_eq!(dict.get("verbosity"), Some(&Value::from(3u8)));
    assert_eq!(dict.len(), 1);
}

#[test]
fn verbosity_counts_repetitions() {
    let command = Command::new("foundry-common")
        .arg(Arg::new("verbosity").short('v').long("verbosity").multiple_occurrences(true));
    let matches = command.get_matches_from(["foundry-common", "-vvv"]);
    let mut args = EvmArgs::new();
    args.verbosity = matches.occurrences_of("verbosity") as u8;
    assert_eq!(args.verbosity, 3);
    assert_eq!(args.data().get("verbosity"), Some(&Value::from(3u8)));
}

#[test]
fn verbosity_zero_has_no_entry() {
    let args = mainnet_args();
    assert_eq!(args.verbosity, 0);
    assert!(!args.data().contains_key("verbosity"));
}

#[test]
fn ffi_entry_only_when_set() {
    let mut args = EvmArgs::new();
    assert!(!args.data().contains_key("ffi"));
    args.ffi = true;
    let dict = args.data();
    assert_eq!(dict.get("ffi"), Some(&Value::from(true)));
    let merged = base().merge(Serialized::defaults(dict));
    assert!(merged.extract_inner::<bool>("ffi").unwrap());
}

#[test]
fn fork_switches_only_when_set() {
    let mut args = EvmArgs::new();
    args.no_storage_caching = true;
    let dict = args.data();
    assert_eq!(dict.get("no_storage_caching"), Some(&Value::from(true)));
    assert!(!dict.contains_key("no_rpc_rate_limit"));
    args.no_storage_caching = false;
    args.no_rpc_rate_limit = true;
    let dict = args.data();
    assert_eq!(dict.get("no_rpc_rate_limit"), Some(&Value::from(true)));
    assert!(!dict.contains_key("no_storage_caching"));
}

#[test]
fn fork_url_goes_under_the_endpoint_key() {
    let mut args = EvmArgs::new();
    args.fork_url = Some("http://localhost:8545".to_string());
    args.fork_block_number = Some(17);
    args.fork_retry_backoff = Some(250);
    args.compute_units_per_second = Some(330);
    let dict = args.data();
    assert_eq!(dict.get("eth_rpc_url"), Some(&Value::from("http://localhost:8545")));
    assert!(!dict.contains_key("fork_url"));
    assert_eq!(dict.get("fork_block_number"), Some(&Value::from(17u64)));
    assert_eq!(dict.get("fork_retry_backoff"), Some(&Value::from(250u64)));
    assert_eq!(dict.get("compute_units_per_second"), Some(&Value::from(330u64)));
    assert_eq!(dict.len(), 4);
}

#[test]
fn ensure_fork_url_fails_when_missing() {
    let args = EvmArgs::new();
    assert_eq!(args.ensure_fork_url(), Err(ArgsError::MissingForkUrl));
    assert_eq!(ArgsError::MissingForkUrl.message(), "Missing `--fork-url` field.");
}

#[test]
fn ensure_fork_url_returns_the_url() {
    let mut args = EvmArgs::new();
    args.fork_url = Some("https://example.org/rpc".to_string());
    assert_eq!(args.ensure_fork_url(), Ok(&"https://example.org/rpc".to_string()));
}

#[test]
fn metadata_names_the_provider() {
    assert_eq!(EvmArgs::new().metadata(), "Evm Opts Provider");
}

#[test]
fn every_environment_field_has_its_key() {
    let mut env = EnvArgs::new();
    env.gas_limit = Some(1);
    env.code_size_limit = Some(0x6000);
    env.chain_id = Some(3);
    env.gas_price = Some(4);
    env.block_base_fee_per_gas = Some(5);
    env.tx_origin = Some([0x11; 20]);
    env.block_coinbase = Some([0x22; 20]);
    env.block_timestamp = Some(8);
    env.block_number = Some(9);
    env.block_difficulty = Some(10);
    env.block_prevrandao = Some([0x33; 32]);
    env.block_gas_limit = Some(12);
    env.memory_limit = Some(13);
    let mut args = EvmArgs::new();
    args.env = env;
    let dict = args.data();
    assert_eq!(dict.len(), 13);
    assert_eq!(dict.get("gas_limit"), Some(&Value::from(1u64)));
    assert_eq!(dict.get("code_size_limit"), Some(&Value::from(0x6000u64)));
    assert_eq!(dict.get("chain_id"), Some(&Value::from(3u64)));
    assert_eq!(dict.get("gas_price"), Some(&Value::from(4u64)));
    assert_eq!(dict.get("block_base_fee_per_gas"), Some(&Value::from(5u64)));
    assert_eq!(dict.get("block_timestamp"), Some(&Value::from(8u64)));
    assert_eq!(dict.get("block_number"), Some(&Value::from(9u64)));
    assert_eq!(dict.get("block_difficulty"), Some(&Value::from(10u64)));
    assert_eq!(dict.get("block_gas_limit"), Some(&Value::from(12u64)));
    assert_eq!(dict.get("memory_limit"), Some(&Value::from(13u64)));
    assert_eq!(
        dict.get("tx_origin"),
        Some(&Value::from("0x1111111111111111111111111111111111111111"))
    );
    assert_eq!(
        dict.get("block_coinbase"),
        Some(&Value::from("0x2222222222222222222222222222222222222222"))
    );
    assert_eq!(
        dict.get("block_prevrandao"),
        Some(&Value::from("0x3333333333333333333333333333333333333333333333333333333333333333"))
    );
}

#[test]
fn sender_and_balance_are_shown_in_hex() {
    let mut args = EvmArgs::new();
    let mut sender = [0u8; 20];
    sender[0] = 0xab;
    sender[19] = 0x0f;
    args.sender = Some(sender);
    let mut balance = [0u8; 32];
    balance[30] = 0x01;
    balance[31] = 0x2c;
    args.initial_balance = Some(balance);
    let dict = args.data();
    assert_eq!(
        dict.get("sender"),
        Some(&Value::from("0xab0000000000000000000000000000000000000f"))
    );
    assert_eq!(dict.get("initial_balance"), Some(&Value::from("0x12c")));
    assert_eq!(dict.len(), 2);
}

#[test]
fn hex_digits() {
    assert_eq!(digit(0), '0');
    assert_eq!(digit(9), '9');
    assert_eq!(digit(10), 'a');
    assert_eq!(digit(15), 'f');
    assert_eq!(nibble(&[0xa5, 0x3c], 0), 0xa);
    assert_eq!(nibble(&[0xa5, 0x3c], 1), 0x5);
    assert_eq!(nibble(&[0xa5, 0x3c], 3), 0xc);
}

#[test]
fn fixed_hex_keeps_every_digit() {
    assert_eq!(text(fixed_hex(&[])), "0x");
    assert_eq!(text(fixed_hex(&[0x00, 0x0a, 0xff])), "0x000aff");
}

#[test]
fn quantity_hex_drops_leading_zeros() {
    assert_eq!(text(quantity_hex(&[0, 0, 0])), "0x0");
    assert_eq!(text(quantity_hex(&[])), "0x0");
    assert_eq!(text(quantity_hex(&[0x00, 0x0a, 0xff])), "0xaff");
    assert_eq!(text(quantity_hex(&[0x10, 0x00])), "0x1000");
}

#[test]
fn fixed_hex_agrees_with_addresses_and_hashes() {
    let mut bytes = [0u8; 20];
    bytes[3] = 0x7e;
    bytes[18] = 0x01;
    let address = Address::from(bytes);
    assert_eq!(Value::serialize(address).unwrap(), Value::from(text(fixed_hex(&bytes))));
    let mut word = [0u8; 32];
    word[0] = 0x09;
    word[31] = 0xd0;
    let hash = H256::from(word);
    assert_eq!(Value::serialize(hash).unwrap(), Value::from(text(fixed_hex(&word))));
}

#[test]
fn quantity_hex_agrees_with_numbers() {
    for number in [U256::zero(), U256::from(1u64), U256::from(300u64), U256::MAX] {
        let mut bytes = [0u8; 32];
        number.to_big_endian(&mut bytes);
        assert_eq!(Value::serialize(number).unwrap(), Value::from(text(quantity_hex(&bytes))));
    }
}
