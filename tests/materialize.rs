use contract_source::address::Address;
use contract_source::chain::Chain;
use contract_source::fetch::{extract_source_code, source_request_url, FetchError};
use contract_source::payload::{
    base_name, bundle_entries, plan_bundle_entries, plan_flattened, plan_write, source_is_single_file,
    BundleEntry, BundleError, Destination, OutputFile,
};

fn sample_address() -> Address {
    let mut bytes = [0u8; 20];
    bytes[0] = 0xde;
    bytes[1] = 0xad;
    bytes[2] = 0xbe;
    bytes[3] = 0xef;
    bytes[19] = 0x0a;
    Address { bytes }
}

const SAMPLE_HEX: &str = "0xdeadbeef0000000000000000000000000000000a";

fn here(name: Option<&str>) -> Destination {
    Destination { parent_dir: ".".to_string(), name: name.map(|n| n.to_string()) }
}

fn file(path: &str, contents: &str) -> OutputFile {
    OutputFile { path: path.to_string(), contents: contents.to_string() }
}

#[test]
fn it_works() {}

#[test]
fn bundle_detection_by_braces() {
    assert!(!source_is_single_file("{{}}"));
    assert!(!source_is_single_file("{{\"sources\":{}}}"));
    assert!(source_is_single_file("pragma solidity ^0.8.0; contract C {}"));
    assert!(source_is_single_file("{\"sources\":{}}"));
    assert!(source_is_single_file("{{ open only"));
    assert!(source_is_single_file("only close }}"));
    assert!(source_is_single_file("{{}"));
    assert!(source_is_single_file(" {{}}"));
}

#[test]
fn short_payloads_are_never_bundles() {
    assert!(source_is_single_file(""));
    assert!(source_is_single_file("{"));
    assert!(source_is_single_file("}"));
    assert!(source_is_single_file("{{"));
    assert!(source_is_single_file("}}"));
}

#[test]
fn address_text_is_lowercase_hex() {
    assert_eq!(sample_address().to_hex_string(), SAMPLE_HEX);
    assert_eq!(Address { bytes: [0xAB; 20] }.to_hex_string(), format!("0x{}", "ab".repeat(20)));
}

#[test]
fn chain_names() {
    assert_eq!(Chain::Ethereum.name(), "Ethereum");
    assert_eq!(Chain::Bnb.name(), "Bnb");
    assert_eq!(Chain::Polygon.name(), "Polygon");
}

#[test]
fn ethereum_request_url() {
    let url = source_request_url(Chain::Ethereum, &sample_address()).unwrap();
    assert_eq!(
        url,
        format!(
            "https://api.etherscan.io/api?module=contract&action=getsourcecode&address={}",
            SAMPLE_HEX
        )
    );
}

#[test]
fn unsupported_chains_are_refused() {
    assert_eq!(
        source_request_url(Chain::Bnb, &sample_address()),
        Err(FetchError::UnsupportedChain(Chain::Bnb))
    );
    assert_eq!(
        source_request_url(Chain::Polygon, &sample_address()),
        Err(FetchError::UnsupportedChain(Chain::Polygon))
    );
}

#[test]
fn source_code_is_read_from_answer() {
    let body = "{\"status\":\"1\",\"result\":[{\"SourceCode\":\"contract C {}\",\"ABI\":\"[]\"}]}";
    assert_eq!(extract_source_code(body), Ok("contract C {}".to_string()));
}

#[test]
fn malformed_answers_are_shape_errors() {
    assert_eq!(extract_source_code("{\"status\":\"0\"}"), Err(FetchError::ApiShape));
    assert_eq!(extract_source_code("{\"result\":\"Invalid API Key\"}"), Err(FetchError::ApiShape));
    assert_eq!(extract_source_code("{\"result\":[]}"), Err(FetchError::ApiShape));
    assert_eq!(extract_source_code("{\"result\":[{}]}"), Err(FetchError::ApiShape));
    assert_eq!(extract_source_code("{\"result\":[{\"SourceCode\":5}]}"), Err(FetchError::ApiShape));
    assert_eq!(extract_source_code("[1,2]"), Err(FetchError::ApiShape));
}

#[test]
fn answer_that_is_no_json() {
    assert_eq!(extract_source_code("<html>rate limited</html>"), Err(FetchError::MalformedJson));
    assert_eq!(extract_source_code(""), Err(FetchError::MalformedJson));
}

#[test]
fn chosen_base_names() {
    let name = Some("Token".to_string());
    assert_eq!(base_name(&name, Chain::Ethereum, &sample_address(), true), "Token.sol");
    assert_eq!(base_name(&name, Chain::Ethereum, &sample_address(), false), "Token");
}

#[test]
fn synthesized_base_names() {
    assert_eq!(
        base_name(&None, Chain::Ethereum, &sample_address(), true),
        format!("Ethereum_{}.sol", SAMPLE_HEX)
    );
    assert_eq!(
        base_name(&None, Chain::Polygon, &sample_address(), false),
        format!("Polygon_{}", SAMPLE_HEX)
    );
}

#[test]
fn synthesized_name_is_stable() {
    let a = base_name(&None, Chain::Ethereum, &sample_address(), true);
    let b = base_name(&None, Chain::Ethereum, &sample_address(), true);
    assert_eq!(a, b);
    let c = base_name(&None, Chain::Bnb, &sample_address(), true);
    assert_ne!(a, c);
}

#[test]
fn flattened_write_is_one_file() {
    let p = "pragma solidity ^0.8.0;\ncontract A {}\n";
    let dest = Destination { parent_dir: "out/dir".to_string(), name: Some("A".to_string()) };
    let files = plan_write(p, &dest, Chain::Ethereum, &sample_address()).unwrap();
    assert_eq!(files, vec![file("out/dir/A.sol", p)]);
    assert_eq!(plan_flattened("d", "n.sol", "x"), vec![file("d/n.sol", "x")]);
}

#[test]
fn flattened_scenario() {
    let p = "pragma solidity ^0.8.0; contract C {}";
    let files = plan_write(p, &here(None), Chain::Ethereum, &sample_address()).unwrap();
    assert_eq!(files, vec![file(&format!("./Ethereum_{}.sol", SAMPLE_HEX), p)]);
}

#[test]
fn bundle_scenario() {
    let p = "{{\"language\":\"Solidity\",\"sources\":{\"/Contract.sol\":{\"content\":\"contract C {}\"}}}}";
    let files = plan_write(p, &here(None), Chain::Ethereum, &sample_address()).unwrap();
    assert_eq!(files, vec![file(&format!("./Ethereum_{}/Contract.sol", SAMPLE_HEX), "contract C {}")]);
}

#[test]
fn bundle_fans_out_and_skips_non_strings() {
    let p = "{{\"sources\":{\"/A.sol\":{\"content\":\"a\"},\"/B.sol\":{\"content\":\"b\"},\"/C.sol\":{\"content\":7},\"/D.sol\":{}}}}";
    let dest = Destination { parent_dir: "d".to_string(), name: Some("n".to_string()) };
    let files = plan_write(p, &dest, Chain::Ethereum, &sample_address()).unwrap();
    assert_eq!(files, vec![file("d/n/A.sol", "a"), file("d/n/B.sol", "b")]);
}

#[test]
fn bundle_entries_keep_every_member() {
    let p = "{{\"sources\":{\"/A.sol\":{\"content\":\"a\"},\"/C.sol\":{\"content\":null}}}}";
    let entries = bundle_entries(p).unwrap();
    assert_eq!(
        entries,
        vec![
            BundleEntry { path: "/A.sol".to_string(), content: Some("a".to_string()) },
            BundleEntry { path: "/C.sol".to_string(), content: None },
        ]
    );
    assert_eq!(plan_bundle_entries("x", "y", &entries), vec![file("x/y/A.sol", "a")]);
}

#[test]
fn empty_bundle_writes_nothing() {
    let p = "{{\"language\":\"Solidity\",\"sources\":{}}}";
    assert_eq!(plan_write(p, &here(Some("n")), Chain::Ethereum, &sample_address()), Ok(vec![]));
}

#[test]
fn bundle_errors() {
    assert_eq!(
        plan_write("{{not json}}", &here(None), Chain::Ethereum, &sample_address()),
        Err(BundleError::InvalidJson)
    );
    assert_eq!(
        plan_write("{{\"language\":\"Solidity\"}}", &here(None), Chain::Ethereum, &sample_address()),
        Err(BundleError::MissingSources)
    );
    assert_eq!(
        plan_write("{{\"sources\":[1]}}", &here(None), Chain::Ethereum, &sample_address()),
        Err(BundleError::MissingSources)
    );
}

#[test]
fn bundle_members_come_in_map_order() {
    let p = "{{\"sources\":{\"/lib/B.sol\":{\"content\":\"b\"},\"/A.sol\":{\"content\":\"a\"}}}}";
    let dest = Destination { parent_dir: "d".to_string(), name: Some("n".to_string()) };
    let files = plan_write(p, &dest, Chain::Ethereum, &sample_address()).unwrap();
    assert_eq!(files, vec![file("d/n/A.sol", "a"), file("d/n/lib/B.sol", "b")]);
}
