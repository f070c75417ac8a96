use waglayla_coinbase::coinbase::CoinbaseManager;
use waglayla_coinbase::ghostdag::{BlockHashSet, BlockRewardMap, GhostdagData};
use waglayla_coinbase::hash::BlockHash;
use waglayla_coinbase::tx::{BlockRewardData, MinerData, ScriptPublicKey, TX_VERSION};

fn create_manager() -> CoinbaseManager {
    CoinbaseManager::new(150, 204, 7889400, 50000000000, 1000, 0)
}

fn h(tag: u8) -> BlockHash {
    BlockHash::from_bytes([tag; 32])
}

fn key(tag: u8) -> ScriptPublicKey {
    ScriptPublicKey::new(0, vec![tag, tag])
}

fn miner(tag: u8) -> MinerData {
    MinerData { script_public_key: key(tag), extra_data: Vec::new() }
}

#[test]
fn reward_distribution() {
    let cbm = create_manager();
    let b1 = h(1);
    let b2 = h(2);
    let b3 = h(3);
    let r1 = h(4);

    let gd = GhostdagData::new(42, vec![b1, b2, b3], vec![r1]);

    let mut rewards = BlockRewardMap::new();
    rewards.insert(h(1), BlockRewardData::new(100, 5, key(11)));
    rewards.insert(h(2), BlockRewardData::new(30, 2, key(12)));
    rewards.insert(h(3), BlockRewardData::new(0, 0, key(13)));
    rewards.insert(h(4), BlockRewardData::new(10, 1, key(14)));

    let mut non_daa = BlockHashSet::new();
    non_daa.insert(h(2));

    let template =
        cbm.expected_coinbase_transaction(1000, miner(21), &gd, &rewards, &non_daa).unwrap();

    // Blues in mergeset order, the non-DAA and zero-amount ones dropped,
    // then the aggregated red reward paid to the miner.
    assert_eq!(template.tx.outputs.len(), 2);
    assert_eq!(template.tx.outputs[0].value, 105);
    assert_eq!(template.tx.outputs[0].script_public_key.script, vec![11, 11]);
    assert_eq!(template.tx.outputs[1].value, 11);
    assert_eq!(template.tx.outputs[1].script_public_key.script, vec![21, 21]);
    assert!(template.has_red_reward);

    // The frame of the transaction.
    assert_eq!(template.tx.version, TX_VERSION);
    assert!(template.tx.inputs.is_empty());
    assert_eq!(template.tx.lock_time, 0);
    assert_eq!(template.tx.mass, 0);
    let mut coinbase_subnet = [0u8; 20];
    coinbase_subnet[0] = 1;
    assert_eq!(template.tx.subnetwork_id.bytes, coinbase_subnet);

    // The payload encodes the block's own blue score, subsidy and miner.
    let decoded = cbm.deserialize_coinbase_payload(&template.tx.payload).unwrap();
    assert_eq!(decoded.blue_score, 42);
    assert_eq!(decoded.subsidy, 50000000000);
    assert_eq!(decoded.miner_data.script_public_key.script, vec![21, 21]);
    assert!(decoded.miner_data.extra_data.is_empty());
}

#[test]
fn reward_distribution_without_reds() {
    let cbm = create_manager();
    let gd = GhostdagData::new(7, vec![h(1)], Vec::new());
    let mut rewards = BlockRewardMap::new();
    rewards.insert(h(1), BlockRewardData::new(50, 0, key(11)));
    let non_daa = BlockHashSet::new();

    let template =
        cbm.expected_coinbase_transaction(0, miner(21), &gd, &rewards, &non_daa).unwrap();
    assert_eq!(template.tx.outputs.len(), 1);
    assert_eq!(template.tx.outputs[0].value, 50);
    assert!(!template.has_red_reward);
}

#[test]
fn reward_distribution_red_only_zero() {
    // Red rewards of zero produce no aggregate output.
    let cbm = create_manager();
    let gd = GhostdagData::new(7, Vec::new(), vec![h(4)]);
    let mut rewards = BlockRewardMap::new();
    rewards.insert(h(4), BlockRewardData::new(0, 0, key(14)));
    let non_daa = BlockHashSet::new();

    let template =
        cbm.expected_coinbase_transaction(0, miner(21), &gd, &rewards, &non_daa).unwrap();
    assert!(template.tx.outputs.is_empty());
    assert!(!template.has_red_reward);
}

#[test]
fn builder_rejects_long_miner_script() {
    let cbm = create_manager();
    let gd = GhostdagData::new(0, Vec::new(), Vec::new());
    let rewards = BlockRewardMap::new();
    let non_daa = BlockHashSet::new();
    let long_miner = MinerData {
        script_public_key: ScriptPublicKey::new(0, vec![0u8; 151]),
        extra_data: Vec::new(),
    };
    assert!(cbm.expected_coinbase_transaction(0, long_miner, &gd, &rewards, &non_daa).is_err());
}

#[test]
fn reward_map_last_binding_wins() {
    let mut rewards = BlockRewardMap::new();
    rewards.insert(h(1), BlockRewardData::new(1, 0, key(11)));
    rewards.insert(h(1), BlockRewardData::new(2, 0, key(12)));
    let got = rewards.get(&h(1)).unwrap();
    assert_eq!(got.subsidy, 2);
    assert!(rewards.get(&h(9)).is_none());

    let mut set = BlockHashSet::new();
    assert!(!set.contains(&h(1)));
    set.insert(h(1));
    assert!(set.contains(&h(1)));
    assert!(!set.contains(&h(2)));
}
