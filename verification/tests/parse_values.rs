use blockchain_config::deployment::parse_dapp_deployment;
use blockchain_config::deployment::parse_rollups_deployment;
use blockchain_config::values::Address;

const ADDR_HISTORY: &str = "0xb6Eb78277C8a96Fb3f55BABef25eD0Bc5E5c95Fb";
const ADDR_AUTHORITY: &str = "0xf3D8ce181a502B54512908a32780eaa9183Ef31a";
const ADDR_INPUT_BOX: &str = "0x10dc33852b996A4C8A391d6Ed224FD89A3aD1ceE";
const HASH_BLOCK: &str = "0x4a8769230b5b2d7cbe34e38e7bcd4f6a4b937a6a3b1a346d5ae47dd19dd4f67b";

#[test]
fn test_parse() {
    let history_address = Some(Address::parse(ADDR_HISTORY).unwrap());
    let authority_address = Some(Address::parse(ADDR_AUTHORITY).unwrap());
    let input_box_address = Some(Address::parse(ADDR_INPUT_BOX).unwrap());

    let data = r#"{
        "contracts": {
            "History": {
                "address": "0xb6Eb78277C8a96Fb3f55BABef25eD0Bc5E5c95Fb"
            },

            "Authority": {
                "address": "0xf3D8ce181a502B54512908a32780eaa9183Ef31a"
            },

            "InputBox": {
                "address": "0x10dc33852b996A4C8A391d6Ed224FD89A3aD1ceE"
            }
        }
    }"#;

    let deployment = parse_rollups_deployment(data).unwrap();

    assert_eq!(deployment.contracts.history.unwrap().address, history_address);
    assert_eq!(deployment.contracts.authority.unwrap().address, authority_address);
    assert_eq!(deployment.contracts.input_box.unwrap().address, input_box_address);
}

#[test]
fn address_decodes_exact_bytes() {
    let a = Address::parse("0x000102030405060708090a0b0c0d0e0f10111213").unwrap();
    let expected: [u8; 20] = [0, 1, 2, 3, 4, 5, 6, 7, 8, 9, 10, 11, 12, 13, 14, 15, 16, 17, 18, 19];
    assert_eq!(a.as_bytes().as_slice(), expected.as_slice());
}

#[test]
fn address_accepts_mixed_case() {
    let lower = Address::parse("0xb6eb78277c8a96fb3f55babef25ed0bc5e5c95fb").unwrap();
    let mixed = Address::parse(ADDR_HISTORY).unwrap();
    assert_eq!(lower, mixed);
}

#[test]
fn address_rejects_malformed_strings() {
    // no 0x prefix
    assert!(Address::parse("b6Eb78277C8a96Fb3f55BABef25eD0Bc5E5c95Fb").is_none());
    // too short / too long
    assert!(Address::parse("0xb6Eb").is_none());
    assert!(Address::parse("0xb6Eb78277C8a96Fb3f55BABef25eD0Bc5E5c95Fb00").is_none());
    // a digit that is not hexadecimal
    assert!(Address::parse("0xg6Eb78277C8a96Fb3f55BABef25eD0Bc5E5c95Fb").is_none());
    // empty
    assert!(Address::parse("").is_none());
    // a hash-length string is not an address
    assert!(Address::parse(HASH_BLOCK).is_none());
}

#[test]
fn hash_decodes_and_rejects() {
    let h = blockchain_config::values::Hash::parse(HASH_BLOCK).unwrap();
    assert_eq!(h.as_bytes().len(), 32);
    assert_eq!(h.as_bytes()[0], 0x4a);
    assert_eq!(h.as_bytes()[31], 0x7b);
    // an address-length string is not a hash
    assert!(blockchain_config::values::Hash::parse(ADDR_HISTORY).is_none());
    assert!(blockchain_config::values::Hash::parse("").is_none());
}

#[test]
fn dapp_descriptor_parses_both_fields() {
    let data = r#"{"address": "0xb6Eb78277C8a96Fb3f55BABef25eD0Bc5E5c95Fb",
                   "blockHash": "0x4a8769230b5b2d7cbe34e38e7bcd4f6a4b937a6a3b1a346d5ae47dd19dd4f67b"}"#;
    let contract = parse_dapp_deployment(data).unwrap();
    assert_eq!(contract.address, Some(Address::parse(ADDR_HISTORY).unwrap()));
    assert_eq!(
        contract.block_hash.unwrap().as_bytes(),
        blockchain_config::values::Hash::parse(HASH_BLOCK).unwrap().as_bytes()
    );
}

#[test]
fn dapp_descriptor_fields_are_optional() {
    let contract = parse_dapp_deployment("{}").unwrap();
    assert!(contract.address.is_none());
    assert!(contract.block_hash.is_none());

    let contract = parse_dapp_deployment(r#"{"address": null, "blockHash": null}"#).unwrap();
    assert!(contract.address.is_none());
    assert!(contract.block_hash.is_none());
}

#[test]
fn dapp_descriptor_rejects_bad_documents() {
    // not JSON at all
    assert!(parse_dapp_deployment("not json").is_none());
    // not an object
    assert!(parse_dapp_deployment("5").is_none());
    // a field of the wrong JSON type
    assert!(parse_dapp_deployment(r#"{"address": 5}"#).is_none());
    // a field that is a string but not a well-formed value
    assert!(parse_dapp_deployment(r#"{"address": "0x12"}"#).is_none());
    assert!(parse_dapp_deployment(r#"{"blockHash": "nope"}"#).is_none());
}

#[test]
fn rollups_descriptor_entries_are_optional() {
    let deployment = parse_rollups_deployment(r#"{"contracts": {}}"#).unwrap();
    assert!(deployment.contracts.history.is_none());
    assert!(deployment.contracts.authority.is_none());
    assert!(deployment.contracts.input_box.is_none());

    let deployment =
        parse_rollups_deployment(r#"{"contracts": {"History": null, "Authority": {}}}"#).unwrap();
    assert!(deployment.contracts.history.is_none());
    let authority = deployment.contracts.authority.unwrap();
    assert!(authority.address.is_none());
    assert!(authority.block_hash.is_none());
    assert!(deployment.contracts.input_box.is_none());
}

#[test]
fn rollups_descriptor_rejects_bad_documents() {
    // the contracts object is required
    assert!(parse_rollups_deployment("{}").is_none());
    assert!(parse_rollups_deployment(r#"{"contracts": null}"#).is_none());
    assert!(parse_rollups_deployment(r#"{"contracts": "x"}"#).is_none());
    // an entry of the wrong JSON type
    assert!(parse_rollups_deployment(r#"{"contracts": {"History": 5}}"#).is_none());
    // an entry whose address is not a well-formed value
    assert!(
        parse_rollups_deployment(r#"{"contracts": {"History": {"address": "0xzz"}}}"#).is_none()
    );
    // an entry whose unused block hash is not a well-formed value
    assert!(
        parse_rollups_deployment(r#"{"contracts": {"History": {"blockHash": "0x12"}}}"#).is_none()
    );
}
