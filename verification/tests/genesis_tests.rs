use waglayla_coinbase::compact_bits::{
    compact_target_bits, from_compact_target_bits, scale_compact_target_bits,
};
use waglayla_coinbase::genesis::GenesisBlock;

#[test]
fn gen_testnet11_genesis() {
    let bps: u64 = 10;
    let genesis = GenesisBlock::testnet();
    let scaled_bits = scale_compact_target_bits(genesis.bits, bps, 100);
    assert_eq!(scaled_bits, GenesisBlock::testnet11().bits, "Testnet 11: new bits");
}

#[test]
fn genesis_payload_constants() {
    let prefix: Vec<u8> = vec![
        0x00, 0x00, 0x00, 0x00, 0x00, 0x00, 0x00, 0x00, // blue score
        0x00, 0xE1, 0xF5, 0x05, 0x00, 0x00, 0x00, 0x00, // subsidy
        0x00, 0x00, // script version
        0x01, // script length
        0x00, // OP-FALSE
    ];
    let mainnet = GenesisBlock::mainnet();
    let testnet = GenesisBlock::testnet();
    let testnet11 = GenesisBlock::testnet11();
    let simnet = GenesisBlock::simnet();
    let devnet = GenesisBlock::devnet();

    for g in [&mainnet, &testnet, &testnet11, &simnet, &devnet] {
        assert_eq!(g.coinbase_payload[..20], prefix[..]);
        assert_eq!(g.daa_score, 0);
        assert_eq!(g.version, 0);
        assert_eq!(g.utxo_commitment.bytes, [0u8; 32]);
    }

    assert_eq!(&mainnet.coinbase_payload[20..], b"waglayla-mainnet");
    assert_eq!(&testnet.coinbase_payload[20..], b"waglayla-testnet");
    assert_eq!(&testnet11.coinbase_payload[20..36], b"waglayla-testnet");
    assert_eq!(&testnet11.coinbase_payload[36..], &[11u8, 4]);
    assert_eq!(&simnet.coinbase_payload[20..], b"waglayla-simnet");
    assert_eq!(&devnet.coinbase_payload[20..], b"waglayla-devnet");

    assert_eq!(mainnet.timestamp, 0x1922F4E39A6);
    assert_eq!(mainnet.bits, 0x1e7fffff);
    assert_eq!(mainnet.nonce, 0x4e616f72);
    assert_eq!(testnet.timestamp, 0x1922F4D97FE);
    assert_eq!(testnet.bits, 0x1e7fffff);
    assert_eq!(testnet.nonce, 0x14582);
    assert_eq!(testnet11.timestamp, testnet.timestamp);
    assert_eq!(testnet11.bits, 504155340);
    assert_eq!(testnet11.nonce, testnet.nonce);
    assert_eq!(simnet.timestamp, 0x17c5f62fbb6);
    assert_eq!(simnet.bits, 0x207fffff);
    assert_eq!(simnet.nonce, 0x2);
    assert_eq!(devnet.timestamp, 0x11e9db49828);
    assert_eq!(devnet.bits, 0x1e21bc1c);
    assert_eq!(devnet.nonce, 0x48e5e);

    assert_eq!(
        mainnet.hash.bytes[..4],
        [0x91, 0x79, 0xa1, 0xc8],
    );
    assert_eq!(
        mainnet.hash_merkle_root.bytes[..4],
        [0xd8, 0x44, 0x1d, 0x07],
    );
    assert_eq!(testnet.hash.bytes[..4], [0x57, 0xd9, 0x4c, 0x8a]);
    assert_eq!(testnet.hash_merkle_root.bytes[..4], [0x00, 0x36, 0x41, 0x22]);
    assert_eq!(testnet11.hash.bytes[..4], [0xd6, 0xc1, 0x82, 0x5a]);
    assert_eq!(testnet11.hash_merkle_root.bytes[..4], [0x06, 0xe7, 0x41, 0x2d]);
    assert_eq!(simnet.hash.bytes[..4], [0x98, 0x88, 0xfe, 0x7e]);
    assert_eq!(simnet.hash_merkle_root.bytes[..4], [0x19, 0x46, 0xd6, 0x29]);
    assert_eq!(devnet.hash.bytes[..4], [0x4c, 0xb4, 0x8d, 0x0b]);
    assert_eq!(devnet.hash_merkle_root.bytes[..4], [0x58, 0xab, 0xf2, 0x03]);
}

#[test]
fn genesis_block_derivation() {
    for g in [
        GenesisBlock::mainnet(),
        GenesisBlock::testnet(),
        GenesisBlock::testnet11(),
        GenesisBlock::simnet(),
        GenesisBlock::devnet(),
    ] {
        let txs = g.build_genesis_transactions();
        assert_eq!(txs.len(), 1);
        assert_eq!(txs[0].version, 0);
        assert!(txs[0].inputs.is_empty());
        assert!(txs[0].outputs.is_empty());
        assert_eq!(txs[0].lock_time, 0);
        assert_eq!(txs[0].mass, 0);
        assert_eq!(txs[0].payload, g.coinbase_payload);

        let header = g.to_header();
        assert_eq!(header.hash.bytes, g.hash.bytes);
        assert_eq!(header.version, g.version);
        assert!(header.parents_by_level.is_empty());
        assert_eq!(header.hash_merkle_root.bytes, g.hash_merkle_root.bytes);
        assert_eq!(header.accepted_id_merkle_root.bytes, [0u8; 32]);
        assert_eq!(header.utxo_commitment.bytes, g.utxo_commitment.bytes);
        assert_eq!(header.timestamp, g.timestamp);
        assert_eq!(header.bits, g.bits);
        assert_eq!(header.nonce, g.nonce);
        assert_eq!(header.daa_score, g.daa_score);
        assert_eq!(header.blue_work, 0);
        assert_eq!(header.blue_score, 0);
        assert_eq!(header.pruning_point.bytes, [0u8; 32]);

        let block = g.to_block();
        assert_eq!(block.header.hash.bytes, g.hash.bytes);
        assert_eq!(block.transactions.len(), 1);
        assert_eq!(block.transactions[0].payload, g.coinbase_payload);

        let rebuilt = GenesisBlock::from_header(&header, block.transactions[0].payload.clone());
        assert_eq!(rebuilt.hash.bytes, g.hash.bytes);
        assert_eq!(rebuilt.bits, g.bits);
        assert_eq!(rebuilt.coinbase_payload, g.coinbase_payload);
    }
}

#[test]
fn compact_bits_decompression() {
    // The simnet genesis bits: mantissa 0x7fffff at size 0x20 puts the
    // mantissa in the target's top three bytes.
    let t = from_compact_target_bits(0x207fffff);
    assert_eq!(t.len(), 32);
    assert_eq!(t[29..32], [0xff, 0xff, 0x7f]);
    assert!(t[..29].iter().all(|b| *b == 0));
    assert_eq!(compact_target_bits(&t), 0x207fffff);

    // The testnet genesis bits.
    let t = from_compact_target_bits(0x1e7fffff);
    assert_eq!(t[27..30], [0xff, 0xff, 0x7f]);
    assert!(t[30..].iter().all(|b| *b == 0));
    assert_eq!(compact_target_bits(&t), 0x1e7fffff);

    // A mantissa whose sign bit is set encodes no target.
    let t = from_compact_target_bits(0x20800000);
    assert!(t.iter().all(|b| *b == 0));

    // A small size shifts the mantissa down.
    let t = from_compact_target_bits(0x01030000);
    assert_eq!(t[0], 3);
    assert!(t[1..].iter().all(|b| *b == 0));

    // The zero target compresses to zero bits.
    assert_eq!(compact_target_bits(&vec![0u8; 32]), 0);
}

#[test]
fn compact_bits_scaling() {
    // Scaling by one keeps the bits of a normalized target.
    assert_eq!(scale_compact_target_bits(0x1e7fffff, 1, 1), 0x1e7fffff);
    // Halving the target drops its top bit.
    assert_eq!(scale_compact_target_bits(0x1e7fffff, 1, 2), 0x1e3fffff);
}

#[test]
fn genesis_payload_decodes() {
    let cbm = waglayla_coinbase::coinbase::CoinbaseManager::new(150, 204, 7889400, 50000000000, 1000, 0);
    let tags: [&[u8]; 5] = [
        b"waglayla-mainnet",
        b"waglayla-testnet",
        b"waglayla-testnet",
        b"waglayla-simnet",
        b"waglayla-devnet",
    ];
    let blocks = [
        GenesisBlock::mainnet(),
        GenesisBlock::testnet(),
        GenesisBlock::testnet11(),
        GenesisBlock::simnet(),
        GenesisBlock::devnet(),
    ];
    for (g, tag) in blocks.iter().zip(tags) {
        let d = cbm.deserialize_coinbase_payload(&g.coinbase_payload).unwrap();
        assert_eq!(d.blue_score, 0);
        assert_eq!(d.subsidy, 100_000_000);
        assert_eq!(d.miner_data.script_public_key.version, 0);
        assert_eq!(d.miner_data.script_public_key.script, vec![0u8]);
        assert_eq!(&d.miner_data.extra_data[..tag.len()], tag);
    }
}
