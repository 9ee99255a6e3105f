use rpc_gateway::comet34::{
    Comet34Backend, Comet34NodeInfo, Comet34Other, Comet34ProtocolVersion, Comet34PubKey,
    Comet34Status, Comet34SyncInfo, Comet34ValidatorInfo,
};
use rpc_gateway::tendermint34::{
    Tendermint34Backend, Tendermint34NodeInfo, Tendermint34Other, Tendermint34ProtocolVersion,
    Tendermint34PubKey, Tendermint34Status, Tendermint34SyncInfo, Tendermint34ValidatorInfo,
};

fn comet_status() -> Comet34Status {
    Comet34Status {
        node_info: Comet34NodeInfo {
            protocol_version: Comet34ProtocolVersion {
                p2p: "8".to_string(),
                block: "11".to_string(),
                app: "0".to_string(),
            },
            id: "5576458aef205977e18fd50b274e9b5d9014525a".to_string(),
            listen_addr: "1.2.3.4:26656".to_string(),
            network: "cosmoshub-4".to_string(),
            version: "0.34.9".to_string(),
            channels: "40202122233038606100".to_string(),
            moniker: "my-node".to_string(),
            other: Comet34Other {
                tx_index: "on".to_string(),
                rpc_address: "1.2.3.4:26657".to_string(),
            },
        },
        sync_info: Comet34SyncInfo {
            latest_block_hash: "790BA84C".to_string(),
            latest_app_hash: "C7FB1412".to_string(),
            latest_block_height: "5622165".to_string(),
            latest_block_time: "2021-03-25T14:00:43.356134226Z".to_string(),
            earliest_block_hash: "1455A0C1".to_string(),
            earliest_app_hash: "E3B0C442".to_string(),
            earliest_block_height: "5200791".to_string(),
            earliest_block_time: "2019-12-11T16:11:34Z".to_string(),
            catching_up: true,
        },
        validator_info: Comet34ValidatorInfo {
            address: "38FB765D0092470989360ECA1C89CD06C2C1583C".to_string(),
            pub_key: Comet34PubKey {
                type_: "tendermint/PubKeyEd25519".to_string(),
                value: "Z+8kntVegi1sQiWLYwFSVLNWqdAUGEy7lskL78gxLZI=".to_string(),
            },
            voting_power: "12".to_string(),
        },
    }
}

fn tendermint_status() -> Tendermint34Status {
    Tendermint34Status {
        node_info: Tendermint34NodeInfo {
            protocol_version: Tendermint34ProtocolVersion {
                p2p: "8".to_string(),
                block: "11".to_string(),
                app: "0".to_string(),
            },
            id: "5576458aef205977e18fd50b274e9b5d9014525a".to_string(),
            listen_addr: "1.2.3.4:26656".to_string(),
            network: "cosmoshub-4".to_string(),
            version: "0.34.9".to_string(),
            channels: "40202122233038606100".to_string(),
            moniker: "my-node".to_string(),
            other: Tendermint34Other {
                tx_index: "on".to_string(),
                rpc_address: "1.2.3.4:26657".to_string(),
            },
        },
        sync_info: Tendermint34SyncInfo {
            latest_block_hash: "790BA84C".to_string(),
            latest_app_hash: "C7FB1412".to_string(),
            latest_block_height: "5622165".to_string(),
            latest_block_time: "2021-03-25T14:00:43.356134226Z".to_string(),
            earliest_block_hash: "1455A0C1".to_string(),
            earliest_app_hash: "E3B0C442".to_string(),
            earliest_block_height: "5200791".to_string(),
            earliest_block_time: "2019-12-11T16:11:34Z".to_string(),
            catching_up: false,
        },
        validator_info: Tendermint34ValidatorInfo {
            address: "38FB765D0092470989360ECA1C89CD06C2C1583C".to_string(),
            pub_key: Tendermint34PubKey {
                type_: "tendermint/PubKeyEd25519".to_string(),
                value: "Z+8kntVegi1sQiWLYwFSVLNWqdAUGEy7lskL78gxLZI=".to_string(),
            },
            voting_power: "12".to_string(),
        },
    }
}

fn synthetic() -> Comet34ValidatorInfo {
    Comet34ValidatorInfo::from_random("ABCDEF0123456789ABCDEF0123456789ABCDEF01".to_string(), &[1u8; 32])
}

#[test]
fn redacted_status_holds_none_of_the_four_values() {
    let shown = comet_status().strip_sensitive_info(None);
    let printed = format!("{:?}", shown);
    for secret in ["my-node", "1.2.3.4:26656", "1.2.3.4:26657", "0.34.9"] {
        assert!(!printed.contains(secret), "{} is shown", secret);
    }
    assert_eq!(shown.node_info.moniker, "REDACTED");
    assert_eq!(shown.node_info.listen_addr, "REDACTED");
    assert_eq!(shown.node_info.other.rpc_address, "REDACTED");
    assert_eq!(shown.node_info.version, "REDACTED");
}

#[test]
fn redaction_leaves_the_rest_as_it_is() {
    let before = comet_status();
    let shown = before.strip_sensitive_info(None);
    assert_eq!(shown.sync_info, before.sync_info);
    assert_eq!(shown.validator_info, before.validator_info);
    assert_eq!(shown.node_info.protocol_version, before.node_info.protocol_version);
    assert_eq!(shown.node_info.id, before.node_info.id);
    assert_eq!(shown.node_info.network, before.node_info.network);
    assert_eq!(shown.node_info.channels, before.node_info.channels);
    assert_eq!(shown.node_info.other.tx_index, before.node_info.other.tx_index);
    assert_eq!(before, comet_status());
}

#[test]
fn redaction_puts_the_given_identity_in_place_of_the_validator() {
    let identity = synthetic();
    let shown = comet_status().strip_sensitive_info(Some(&identity));
    assert_eq!(shown.validator_info, identity);
    assert_eq!(shown.sync_info, comet_status().sync_info);
    assert_eq!(shown.node_info.moniker, "REDACTED");
}

#[test]
fn gateway_shows_its_own_identity() {
    let gateway = Comet34Backend::new("http://n", "127.0.0.1:1", &Vec::new(), 1, 1, 1, 1, 1, synthetic());
    let shown = gateway.status(&comet_status());
    assert_eq!(shown, comet_status().strip_sensitive_info(Some(&synthetic())));
    assert_eq!(shown.validator_info, synthetic());
    assert!(shown.sync_info.catching_up);
}

#[test]
fn redaction_is_the_same_when_done_twice() {
    let once = comet_status().strip_sensitive_info(Some(&synthetic()));
    assert_eq!(once.strip_sensitive_info(Some(&synthetic())), once);
}

#[test]
fn clone_of_a_status_is_equal_to_it() {
    assert_eq!(comet_status().clone(), comet_status());
    assert_eq!(tendermint_status().clone(), tendermint_status());
}

#[test]
fn identity_is_made_of_an_address_and_the_encoded_key() {
    let info = Comet34ValidatorInfo::from_random("A".repeat(40), b"Hello!");
    assert_eq!(info.address, "A".repeat(40));
    assert_eq!(info.pub_key.type_, "tendermint/PubKeyEd25519");
    assert_eq!(info.pub_key.value, "SGVsbG8h");
    assert_eq!(info.voting_power, "0");
    let info = Comet34ValidatorInfo::from_random(String::new(), &[0u8; 32]);
    assert_eq!(info.pub_key.value, "AAAAAAAAAAAAAAAAAAAAAAAAAAAAAAAAAAAAAAAAAAA=");
}

#[test]
fn address_alphabet_is_upper_case_hex() {
    assert_eq!(
        Comet34ValidatorInfo::addr_chars(),
        vec!['A', 'B', 'C', 'D', 'E', 'F', '0', '1', '2', '3', '4', '5', '6', '7', '8', '9']
    );
}

#[test]
fn fresh_identity_is_synthetic() {
    let alphabet = Comet34ValidatorInfo::addr_chars();
    for _ in 0..20 {
        let info = Comet34ValidatorInfo::new().expect("an identity is made");
        assert_eq!(info.address.chars().count(), 40);
        assert!(info.address.chars().all(|c| alphabet.contains(&c)), "{}", info.address);
        assert_eq!(info.pub_key.type_, "tendermint/PubKeyEd25519");
        assert_eq!(info.pub_key.value.len(), 44);
        assert!(info.pub_key.value.ends_with('='));
        assert!(info.pub_key.value[..43]
            .chars()
            .all(|c| c.is_ascii_alphanumeric() || c == '+' || c == '/'));
        assert_eq!(info.voting_power, "0");
    }
}

#[test]
fn fresh_identities_differ() {
    let one = Comet34ValidatorInfo::new().expect("an identity is made");
    let other = Comet34ValidatorInfo::new().expect("an identity is made");
    assert_ne!(one.pub_key.value, other.pub_key.value);
    assert_ne!(one.address, other.address);
}

#[test]
fn tendermint_redaction_empties_the_four_fields() {
    let before = tendermint_status();
    let shown = before.strip_sensitive_info();
    let printed = format!("{:?}", shown);
    for secret in ["my-node", "1.2.3.4:26656", "1.2.3.4:26657", "0.34.9"] {
        assert!(!printed.contains(secret), "{} is shown", secret);
    }
    assert_eq!(shown.node_info.moniker, "");
    assert_eq!(shown.node_info.listen_addr, "");
    assert_eq!(shown.node_info.other.rpc_address, "");
    assert_eq!(shown.node_info.version, "");
    assert_eq!(shown.sync_info, before.sync_info);
    assert_eq!(shown.validator_info, before.validator_info);
    assert_eq!(shown.node_info.id, before.node_info.id);
    assert_eq!(shown.node_info.network, before.node_info.network);
    assert_eq!(shown.node_info.channels, before.node_info.channels);
    assert_eq!(shown.node_info.protocol_version, before.node_info.protocol_version);
    assert_eq!(shown.node_info.other.tx_index, before.node_info.other.tx_index);
}

#[test]
fn tendermint_gateway_shows_the_redacted_status() {
    let gateway = Tendermint34Backend::new("http://n", "127.0.0.1:1", &Vec::new());
    assert_eq!(gateway.status(&tendermint_status()), tendermint_status().strip_sensitive_info());
}
