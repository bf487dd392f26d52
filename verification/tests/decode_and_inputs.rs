use near_greeting::account::validate_account_id;
use near_greeting::credentials::{
    account_from_file_name, collected_response, is_supported_network, make_credential,
    missing_home_response, unreadable_store_response,
};
use near_greeting::error::NearError;
use near_greeting::json::{empty_args, set_greeting_args};
use near_greeting::network::select_network;
use near_greeting::types::NetworkEndpoint;
use near_greeting::view::decode_view_response;
use std::str::FromStr;

#[test]
fn view_decoding_takes_raw_text_with_quotes_stripped() {
    let out = decode_view_response(&b"\"hello\"".to_vec()).unwrap();
    assert_eq!(out, "hello");
    let out = decode_view_response(&b"\"\"hi\"\"".to_vec()).unwrap();
    assert_eq!(out, "hi");
    let out = decode_view_response(&b"hi".to_vec()).unwrap();
    assert_eq!(out, "hi");
    let out = decode_view_response(&b"".to_vec()).unwrap();
    assert_eq!(out, "");
}

#[test]
fn view_decoding_takes_the_structured_payload_first() {
    let out = decode_view_response(&b"{\"greeting\":\"hola\"}".to_vec()).unwrap();
    assert_eq!(out, "hola");
    let out = decode_view_response(&b"{\"greeting\":\"hola\",\"extra\":1}".to_vec()).unwrap();
    assert_eq!(out, "hola");
}

#[test]
fn view_decoding_rejects_bytes_that_are_neither() {
    match decode_view_response(&vec![0xff, 0xfe, 0x22]) {
        Err(NearError::ParseError(_)) => {}
        _ => panic!("bytes that are neither structured nor text must fail to decode"),
    }
}

#[test]
fn greeting_args_match_the_json_serializer() {
    let cases = ["hi", "", "h\"i", "back\\slash", "line\nbreak\tand\u{8}\u{c}\r", "ctl\u{1b}x", "caf\u{e9} \u{1F600}"];
    for g in cases {
        let mine = set_greeting_args(g);
        let mut object = serde_json::Map::new();
        object.insert(
            "greeting".to_string(),
            serde_json::Value::String(g.to_string()),
        );
        let expected = serde_json::Value::Object(object).to_string().into_bytes();
        assert_eq!(mine, expected);
    }
}

#[test]
fn empty_args_are_an_empty_object() {
    assert_eq!(empty_args(), b"{}".to_vec());
}

#[test]
fn account_validation_matches_the_chain_rule() {
    let valid = ["alice.testnet", "ab", "a-b_c.d2", "0x123", "sub.sub.alice.near"];
    for id in valid {
        assert!(validate_account_id(id));
        assert!(near_primitives::types::AccountId::from_str(id).is_ok());
    }
    let sixty_five = "a".repeat(65);
    let invalid = [
        "a",
        "",
        "-ab",
        "ab-",
        "a..b",
        "a-_b",
        "A.b",
        "a b",
        "caf\u{e9}",
        sixty_five.as_str(),
    ];
    for id in invalid {
        assert!(!validate_account_id(id));
        assert!(near_primitives::types::AccountId::from_str(id).is_err());
    }
    let sixty_four = "a".repeat(64);
    assert!(validate_account_id(sixty_four.as_str()));
}

#[test]
fn credential_file_names_yield_account_ids() {
    assert_eq!(
        account_from_file_name("alice.testnet.json"),
        Some("alice.testnet".to_string())
    );
    assert_eq!(account_from_file_name("a.json"), Some("a".to_string()));
    assert_eq!(account_from_file_name(".json"), None);
    assert_eq!(account_from_file_name("alice.txt"), None);
    assert_eq!(account_from_file_name("json"), None);
    assert_eq!(account_from_file_name(""), None);
}

#[test]
fn only_the_two_networks_are_scanned() {
    assert!(is_supported_network("mainnet"));
    assert!(is_supported_network("testnet"));
    assert!(!is_supported_network("betanet"));
    assert!(!is_supported_network("Mainnet"));
    assert!(!is_supported_network(""));
}

#[test]
fn credential_responses_carry_the_original_messages() {
    let r = missing_home_response();
    assert!(r.credentials.is_empty());
    assert_eq!(r.error, Some("Could not find home directory".to_string()));
    let r = unreadable_store_response();
    assert!(r.credentials.is_empty());
    assert_eq!(r.error, Some("Failed to read credentials directory".to_string()));
    let c = make_credential(
        "alice.testnet".to_string(),
        "testnet".to_string(),
        "ed25519:pk".to_string(),
        "ed25519:sk".to_string(),
    );
    assert_eq!(c.account_id, "alice.testnet");
    assert_eq!(c.network, "testnet");
    assert_eq!(c.public_key, "ed25519:pk");
    assert_eq!(c.private_key, Some("ed25519:sk".to_string()));
    let r = collected_response(vec![c]);
    assert!(r.error.is_none());
    assert_eq!(r.credentials.len(), 1);
}

#[test]
fn network_selection_resolves_or_rejects() {
    let mainnet = NetworkEndpoint {
        rpc_url: "https://rpc.mainnet.example".to_string(),
        contract_id: "greeting.near".to_string(),
    };
    let testnet = NetworkEndpoint {
        rpc_url: "https://rpc.testnet.example".to_string(),
        contract_id: "greeting.testnet".to_string(),
    };
    let picked = select_network("testnet", mainnet.clone(), testnet.clone()).unwrap();
    assert_eq!(picked, testnet);
    let picked = select_network("mainnet", mainnet.clone(), testnet.clone()).unwrap();
    assert_eq!(picked, mainnet);
    match select_network("betanet", mainnet, testnet) {
        Err(NearError::ConfigError(m)) => assert_eq!(m, "Invalid network specified"),
        _ => panic!("an unknown network must be a configuration error"),
    }
}

#[test]
fn errors_describe_themselves_by_kind() {
    assert_eq!(
        NearError::ConfigError("missing entry".to_string()).describe(),
        "Configuration error: missing entry"
    );
    assert_eq!(
        NearError::NetworkError("timed out".to_string()).describe(),
        "Network error: timed out"
    );
    assert_eq!(
        NearError::ContractError("panicked".to_string()).describe(),
        "Contract error: panicked"
    );
    assert_eq!(
        NearError::ParseError("bad bytes".to_string()).describe(),
        "Parse error: bad bytes"
    );
    assert_eq!(
        NearError::AccessKeyNotFound("no key".to_string()).describe(),
        "Access key not found: no key"
    );
    assert_eq!(NearError::InvalidInput("bad id".to_string()).message(), "bad id");
}
