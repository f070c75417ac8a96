use waglayla_coinbase::coinbase::CoinbaseManager;
use waglayla_coinbase::tx::{CoinbaseData, CoinbaseError, MinerData, ScriptPublicKey};

/// A manager with the main network's payload caps.
fn create_manager() -> CoinbaseManager {
    CoinbaseManager::new(150, 204, 7889400, 50000000000, 1000, 0)
}

fn hex_decode(hex: &str) -> Vec<u8> {
    let digits: Vec<u8> = hex
        .bytes()
        .map(|b| match b {
            b'0'..=b'9' => b - b'0',
            b'a'..=b'f' => b - b'a' + 10,
            b'A'..=b'F' => b - b'A' + 10,
            _ => panic!("not a hex digit"),
        })
        .collect();
    digits.chunks(2).map(|pair| pair[0] * 16 + pair[1]).collect()
}

fn miner_data(script: &[u8], extra: &[u8]) -> MinerData {
    MinerData {
        script_public_key: ScriptPublicKey::new(0, script.to_vec()),
        extra_data: extra.to_vec(),
    }
}

fn assert_data_eq(a: &CoinbaseData, b: &CoinbaseData) {
    assert_eq!(a.blue_score, b.blue_score);
    assert_eq!(a.subsidy, b.subsidy);
    assert_eq!(a.miner_data.script_public_key.version, b.miner_data.script_public_key.version);
    assert_eq!(a.miner_data.script_public_key.script, b.miner_data.script_public_key.script);
    assert_eq!(a.miner_data.extra_data, b.miner_data.extra_data);
}

#[test]
fn payload_serialization_test() {
    let cbm = create_manager();

    let data = CoinbaseData {
        blue_score: 56,
        subsidy: 45625737738,
        miner_data: miner_data(&[33u8, 255], &[2u8, 3]),
    };

    let payload = cbm.serialize_coinbase_payload(&data).unwrap();
    let deserialized_data = cbm.deserialize_coinbase_payload(&payload).unwrap();

    assert_data_eq(&data, &deserialized_data);

    // An actual mainnet payload.
    let payload_hex =
        "b612c90100000000041a763e07000000000022202b32443ff740012157716d81216d09aebc39e5493c93a7181d92cb756c02c560ac302e31322e382f";
    let payload = hex_decode(payload_hex);
    let deserialized_data = cbm.deserialize_coinbase_payload(&payload).unwrap();

    let expected_data = CoinbaseData {
        blue_score: 29954742,
        subsidy: 31112698372,
        miner_data: miner_data(
            &[
                32, 43, 50, 68, 63, 247, 64, 1, 33, 87, 113, 109, 129, 33, 109, 9, 174, 188, 57,
                229, 73, 60, 147, 167, 24, 29, 146, 203, 117, 108, 2, 197, 96, 172,
            ],
            &[48u8, 46, 49, 50, 46, 56, 47],
        ),
    };
    assert_data_eq(&expected_data, &deserialized_data);

    // Re-serializing what was decoded gives the original bytes back.
    let reserialized = cbm.serialize_coinbase_payload(&deserialized_data).unwrap();
    assert_eq!(reserialized, payload);
}

#[test]
fn modify_payload_test() {
    let cbm = create_manager();

    let data = CoinbaseData {
        blue_score: 56345,
        subsidy: 45625737738,
        miner_data: miner_data(&[33u8, 255], &[2u8, 3, 23, 98]),
    };

    let data2 = CoinbaseData {
        blue_score: data.blue_score,
        subsidy: data.subsidy,
        // Modify only miner data
        miner_data: miner_data(&[33u8, 255, 33], &[2u8, 3, 23, 98, 34, 34]),
    };

    let mut payload = cbm.serialize_coinbase_payload(&data).unwrap();
    payload = cbm.modify_coinbase_payload(payload, &data2.miner_data).unwrap();
    let deserialized_data = cbm.deserialize_coinbase_payload(&payload).unwrap();

    assert_data_eq(&data2, &deserialized_data);
}

#[test]
fn modify_payload_keeps_prefix() {
    let cbm = create_manager();
    let data = CoinbaseData {
        blue_score: 56345,
        subsidy: 45625737738,
        miner_data: miner_data(&[33u8, 255], &[2u8, 3, 23, 98]),
    };
    let p1 = cbm.serialize_coinbase_payload(&data).unwrap();
    let p2 = cbm
        .modify_coinbase_payload(p1.clone(), &miner_data(&[33u8, 255, 33], &[2u8, 3, 23]))
        .unwrap();
    // Same total length here: one script byte more, one extra-data byte less.
    assert_eq!(p1.len(), p2.len());
    // Blue score and subsidy bytes are untouched.
    assert_eq!(p1[..16], p2[..16]);
    assert_eq!(p2[18], 3);
}

#[test]
fn payload_wire_layout() {
    let cbm = create_manager();
    let data = CoinbaseData {
        blue_score: 0x0807060504030201,
        subsidy: 0x100000000,
        miner_data: MinerData {
            script_public_key: ScriptPublicKey::new(0x0201, vec![0xAA, 0xBB]),
            extra_data: vec![0xCC],
        },
    };
    let payload = cbm.serialize_coinbase_payload(&data).unwrap();
    assert_eq!(
        payload,
        vec![
            1, 2, 3, 4, 5, 6, 7, 8, // blue score, little-endian
            0, 0, 0, 0, 1, 0, 0, 0, // subsidy, little-endian
            1, 2, // script version, little-endian
            2,    // script length
            0xAA, 0xBB, // script
            0xCC, // extra data
        ]
    );
}

#[test]
fn payload_codec_errors() {
    let cbm = create_manager();

    // Too short for the fixed header.
    assert_eq!(
        cbm.deserialize_coinbase_payload(&vec![0u8; 5]).unwrap_err(),
        CoinbaseError::PayloadLenBelowMin(5, 19)
    );

    // Longer than the network cap.
    assert_eq!(
        cbm.deserialize_coinbase_payload(&vec![0u8; 205]).unwrap_err(),
        CoinbaseError::PayloadLenAboveMax(205, 204)
    );

    // Declared script length over the per-network cap.
    let mut payload = vec![0u8; 19];
    payload[18] = 151;
    assert_eq!(
        cbm.deserialize_coinbase_payload(&payload).unwrap_err(),
        CoinbaseError::PayloadScriptPublicKeyLenAboveMax(151, 150)
    );

    // Declared script length beyond the payload's end.
    let mut payload = vec![0u8; 20];
    payload[18] = 2;
    assert_eq!(
        cbm.deserialize_coinbase_payload(&payload).unwrap_err(),
        CoinbaseError::PayloadCantContainScriptPublicKey(20, 21)
    );

    // A script longer than the cap is rejected on the way out too.
    let long_script = miner_data(&[0u8; 151], &[]);
    let data = CoinbaseData { blue_score: 0, subsidy: 0, miner_data: long_script };
    assert_eq!(
        cbm.serialize_coinbase_payload(&data).unwrap_err(),
        CoinbaseError::PayloadScriptPublicKeyLenAboveMax(151, 150)
    );
    assert_eq!(
        cbm.modify_coinbase_payload(vec![0u8; 19], &data.miner_data).unwrap_err(),
        CoinbaseError::PayloadScriptPublicKeyLenAboveMax(151, 150)
    );

    // The boundary lengths themselves are accepted.
    assert!(cbm.deserialize_coinbase_payload(&vec![0u8; 19]).is_ok());
    assert!(cbm.deserialize_coinbase_payload(&vec![0u8; 204]).is_ok());
}
