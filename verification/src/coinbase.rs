//! The coinbase manager: the subsidy schedule, the payload codec and the
//! expected-coinbase builder for one network.

use vstd::arithmetic::div_mod::{lemma_fundamental_div_mod, lemma_fundamental_div_mod_converse};
use vstd::arithmetic::mul::lemma_mul_is_distributive_add;
use vstd::bytes::{
    lemma_auto_spec_u16_to_from_le_bytes, lemma_auto_spec_u64_to_from_le_bytes,
    spec_u16_from_le_bytes, spec_u16_to_le_bytes, spec_u64_from_le_bytes, spec_u64_to_le_bytes,
    u16_from_le_bytes, u16_to_le_bytes, u64_from_le_bytes, u64_to_le_bytes,
};
use vstd::prelude::*;
use vstd::slice::slice_subrange;

use crate::subsidy::{
    build_subsidy_by_month_table, master_month_subsidy, subsidy_by_month_table, SUBSIDY_BY_MONTH_TABLE_SIZE,
    SUBSIDY_MONTHS,
};
use crate::ghostdag::{hashes_contain, reward_lookup, BlockHashSet, BlockRewardMap, GhostdagData};
use crate::hash::BlockHash;
use crate::tx::{
    push_bytes, subnetwork_id_coinbase_spec, BlockRewardData, CoinbaseData, CoinbaseDataView,
    CoinbaseError, CoinbaseResult, CoinbaseTransactionTemplate, MinerData, MinerDataView,
    ScriptPublicKey, ScriptPublicKeyView, SubnetworkId, Transaction, TransactionOutput,
    TransactionOutputView, TX_VERSION,
};

verus! {

/// Seconds of a month of 365.25 / 12 days, exact.
pub const SECONDS_PER_MONTH: u64 = 2629800;

/// Bytes of the payload's fixed header: blue score (8), subsidy (8), script
/// version (2) and script length (1).
pub const MIN_PAYLOAD_LENGTH: usize = 19;

/// The miner part of the payload: script version (u16 LE), script length
/// (one byte), the script bytes, then the extra data.
pub open spec fn miner_data_encoding(md: MinerDataView) -> Seq<u8> {
    spec_u16_to_le_bytes(md.script_public_key.version)
        + seq![md.script_public_key.script.len() as u8]
        + md.script_public_key.script
        + md.extra_data
}

/// The full payload layout: blue score and subsidy (u64 LE each), then the
/// miner part. Packed, little-endian, no padding.
pub open spec fn serialize_payload_spec(d: CoinbaseDataView) -> Seq<u8> {
    spec_u64_to_le_bytes(d.blue_score) + spec_u64_to_le_bytes(d.subsidy) + miner_data_encoding(
        d.miner_data,
    )
}

/// A modified payload keeps the first 16 bytes (blue score and subsidy) and
/// replaces everything after them with the new miner part.
pub open spec fn modified_payload_spec(p: Seq<u8>, md: MinerDataView) -> Seq<u8> {
    let kept = if p.len() <= 16 {
        p
    } else {
        p.take(16)
    };
    kept + miner_data_encoding(md)
}

/// What deserializing a payload yields, in validation order: too short, too
/// long, script length over the cap, script length past the payload's end;
/// otherwise the decoded fields, with the script and the remainder split at
/// byte `19 + script length`.
pub open spec fn deserialize_payload_spec(
    script_public_key_max_len: u8,
    max_coinbase_payload_len: usize,
    p: Seq<u8>,
) -> Result<CoinbaseDataView, CoinbaseError> {
    if p.len() < MIN_PAYLOAD_LENGTH {
        Err(CoinbaseError::PayloadLenBelowMin(p.len() as usize, MIN_PAYLOAD_LENGTH))
    } else if p.len() > max_coinbase_payload_len {
        Err(CoinbaseError::PayloadLenAboveMax(p.len() as usize, max_coinbase_payload_len))
    } else {
        let script_len = p[18];
        if script_len > script_public_key_max_len {
            Err(
                CoinbaseError::PayloadScriptPublicKeyLenAboveMax(
                    script_len as usize,
                    script_public_key_max_len,
                ),
            )
        } else if p.len() - MIN_PAYLOAD_LENGTH < script_len as int {
            Err(
                CoinbaseError::PayloadCantContainScriptPublicKey(
                    p.len() as usize,
                    (MIN_PAYLOAD_LENGTH + script_len as usize) as usize,
                ),
            )
        } else {
            Ok(
                CoinbaseDataView {
                    blue_score: spec_u64_from_le_bytes(p.subrange(0, 8)),
                    subsidy: spec_u64_from_le_bytes(p.subrange(8, 16)),
                    miner_data: MinerDataView {
                        script_public_key: ScriptPublicKeyView {
                            version: spec_u16_from_le_bytes(p.subrange(16, 18)),
                            script: p.subrange(19, 19 + script_len as int),
                        },
                        extra_data: p.subrange(19 + script_len as int, p.len() as int),
                    },
                },
            )
        }
    }
}

/// The reward outputs owed to the blue mergeset, in mergeset order:
/// ancestors outside the DAA window are skipped, zero amounts are omitted,
/// every other ancestor gets one output paying its own recorded script.
pub open spec fn blue_reward_outputs(
    blues: Seq<BlockHash>,
    rewards: Seq<(BlockHash, BlockRewardData)>,
    non_daa: Seq<BlockHash>,
) -> Seq<TransactionOutputView>
    decreases blues.len(),
{
    if blues.len() == 0 {
        Seq::empty()
    } else {
        let rest = blue_reward_outputs(blues.drop_last(), rewards, non_daa);
        let h = blues.last();
        if hashes_contain(non_daa, h@) {
            rest
        } else {
            let d = reward_lookup(rewards, h@)->Some_0;
            if d.subsidy + d.total_fees > 0 {
                rest.push(
                    TransactionOutputView {
                        value: (d.subsidy + d.total_fees) as u64,
                        script_public_key: d.script_public_key@,
                    },
                )
            } else {
                rest
            }
        }
    }
}

/// The summed reward of the red mergeset inside the DAA window, paid in one
/// output to the merging block's own miner.
pub open spec fn red_mergeset_reward(
    reds: Seq<BlockHash>,
    rewards: Seq<(BlockHash, BlockRewardData)>,
    non_daa: Seq<BlockHash>,
) -> int
    decreases reds.len(),
{
    if reds.len() == 0 {
        0
    } else {
        let rest = red_mergeset_reward(reds.drop_last(), rewards, non_daa);
        let h = reds.last();
        if hashes_contain(non_daa, h@) {
            rest
        } else {
            let d = reward_lookup(rewards, h@)->Some_0;
            rest + d.subsidy + d.total_fees
        }
    }
}

/// The full expected output list: the blue outputs in mergeset order, then,
/// if any red reward accrued, one output paying it all to the miner.
pub open spec fn expected_coinbase_outputs(
    gd: GhostdagData,
    rewards: BlockRewardMap,
    non_daa: BlockHashSet,
    miner_data: MinerDataView,
) -> Seq<TransactionOutputView> {
    let blues = blue_reward_outputs(gd.mergeset_blues@, rewards.entries@, non_daa.items@);
    let red = red_mergeset_reward(gd.mergeset_reds@, rewards.entries@, non_daa.items@);
    if red > 0 {
        blues.push(
            TransactionOutputView { value: red as u64, script_public_key: miner_data.script_public_key },
        )
    } else {
        blues
    }
}

/// A mergeset member inside the DAA window has a reward record whose amount
/// fits a u64.
pub open spec fn reward_record_ok(
    rewards: Seq<(BlockHash, BlockRewardData)>,
    h: BlockHash,
    non_daa: Seq<BlockHash>,
) -> bool {
    !hashes_contain(non_daa, h@) ==> {
        &&& reward_lookup(rewards, h@) is Some
        &&& reward_lookup(rewards, h@)->Some_0.subsidy + reward_lookup(
            rewards,
            h@,
        )->Some_0.total_fees <= u64::MAX
    }
}

/// What the builder demands of its caller: a reward record for every
/// mergeset member inside the DAA window (a missing record is a programming
/// error, not a protocol error), no single blue amount past u64, and a red
/// total that fits a u64.
pub open spec fn mergeset_rewards_cover(
    gd: GhostdagData,
    rewards: BlockRewardMap,
    non_daa: BlockHashSet,
) -> bool {
    &&& forall|i: int|
        0 <= i < gd.mergeset_blues@.len() ==> reward_record_ok(
            rewards.entries@,
            #[trigger] gd.mergeset_blues@[i],
            non_daa.items@,
        )
    &&& forall|i: int|
        0 <= i < gd.mergeset_reds@.len() ==> reward_record_ok(
            rewards.entries@,
            #[trigger] gd.mergeset_reds@[i],
            non_daa.items@,
        )
    &&& red_mergeset_reward(gd.mergeset_reds@, rewards.entries@, non_daa.items@) <= u64::MAX
}

/// The red reward of a prefix never exceeds the red reward of the whole
/// list: every contribution is non-negative.
proof fn lemma_red_reward_prefix(
    reds: Seq<BlockHash>,
    rewards: Seq<(BlockHash, BlockRewardData)>,
    non_daa: Seq<BlockHash>,
    i: int,
)
    requires
        0 <= i <= reds.len(),
    ensures
        0 <= red_mergeset_reward(reds.take(i), rewards, non_daa) <= red_mergeset_reward(
            reds,
            rewards,
            non_daa,
        ),
    decreases reds.len() - i,
{
    lemma_red_reward_nonneg(reds.take(i), rewards, non_daa);
    if i == reds.len() {
        assert(reds.take(i) =~= reds);
    } else {
        lemma_red_reward_prefix(reds, rewards, non_daa, i + 1);
        assert(reds.take(i + 1).drop_last() =~= reds.take(i));
        assert(reds.take(i + 1).last() == reds[i]);
    }
}

/// The red reward is a sum of non-negative terms.
proof fn lemma_red_reward_nonneg(
    reds: Seq<BlockHash>,
    rewards: Seq<(BlockHash, BlockRewardData)>,
    non_daa: Seq<BlockHash>,
)
    ensures
        red_mergeset_reward(reds, rewards, non_daa) >= 0,
    decreases reds.len(),
{
    if reds.len() > 0 {
        lemma_red_reward_nonneg(reds.drop_last(), rewards, non_daa);
    }
}

/// Ceiling division, the rounding the subsidy rescaling is defined with.
pub open spec fn ceil_div(a: int, b: int) -> int {
    (a + b - 1) / b
}

/// Blocks per second derived from the target time per block (milliseconds).
pub open spec fn spec_bps(target_time_per_block: u64) -> int {
    1000int / target_time_per_block as int
}

/// Entry `month` of the table scaled to `bps` blocks per second. Rounding up
/// keeps the number of rewarding months equal to the 1-BPS schedule's.
pub open spec fn scaled_month_subsidy(month: int, bps: int) -> u64 {
    ceil_div(master_month_subsidy(month) as int, bps) as u64
}

/// Mathematical model of a `CoinbaseManager`: its per-network parameters and
/// the values precomputed from them.
#[verifier::ext_equal]
pub ghost struct CoinbaseManagerView {
    pub coinbase_payload_script_public_key_max_len: u8,
    pub max_coinbase_payload_len: usize,
    pub deflationary_phase_daa_score: u64,
    pub pre_deflationary_phase_base_subsidy: u64,
    pub target_time_per_block: u64,
    pub blocks_per_month: u64,
    pub subsidy_by_month_table: Seq<u64>,
    pub hf_relaunch_daa_score: u64,
}

/// Immutable per-network configuration of the coinbase subsystem, with the
/// subsidy table for its block rate precomputed at construction.
#[derive(Clone, Debug)]
pub struct CoinbaseManager {
    coinbase_payload_script_public_key_max_len: u8,
    max_coinbase_payload_len: usize,
    deflationary_phase_daa_score: u64,
    pre_deflationary_phase_base_subsidy: u64,
    target_time_per_block: u64,
    blocks_per_month: u64,
    subsidy_by_month_table: Vec<u64>,
    hf_relaunch_daa_score: u64,
}

impl View for CoinbaseManager {
    type V = CoinbaseManagerView;

    closed spec fn view(&self) -> CoinbaseManagerView {
        CoinbaseManagerView {
            coinbase_payload_script_public_key_max_len:
                self.coinbase_payload_script_public_key_max_len,
            max_coinbase_payload_len: self.max_coinbase_payload_len,
            deflationary_phase_daa_score: self.deflationary_phase_daa_score,
            pre_deflationary_phase_base_subsidy: self.pre_deflationary_phase_base_subsidy,
            target_time_per_block: self.target_time_per_block,
            blocks_per_month: self.blocks_per_month,
            subsidy_by_month_table: self.subsidy_by_month_table@,
            hf_relaunch_daa_score: self.hf_relaunch_daa_score,
        }
    }
}

impl CoinbaseManager {
    /// Well-formedness: the target time divides a second evenly and the
    /// precomputed values agree with the parameters.
    pub open spec fn wf(&self) -> bool {
        let v = self@;
        &&& 0 < v.target_time_per_block
        &&& 1000int % (v.target_time_per_block as int) == 0
        &&& v.blocks_per_month == SECONDS_PER_MONTH * spec_bps(v.target_time_per_block)
        &&& v.subsidy_by_month_table.len() == SUBSIDY_BY_MONTH_TABLE_SIZE
        &&& forall|i: int|
            0 <= i < v.subsidy_by_month_table.len() ==> v.subsidy_by_month_table[i]
                == scaled_month_subsidy(i, spec_bps(v.target_time_per_block))
    }

    /// What `calc_block_subsidy` returns: the base subsidy before the
    /// deflationary phase; afterwards the scaled table entry of the month the
    /// score falls in, with the last entry holding forever once the table is
    /// exhausted.
    pub open spec fn block_subsidy(&self, daa_score: u64) -> u64 {
        let v = self@;
        if daa_score < v.deflationary_phase_daa_score {
            v.pre_deflationary_phase_base_subsidy
        } else {
            let months = (daa_score - v.deflationary_phase_daa_score) as int
                / v.blocks_per_month as int;
            if months >= v.subsidy_by_month_table.len() {
                v.subsidy_by_month_table.last()
            } else {
                v.subsidy_by_month_table[months]
            }
        }
    }

    /// What `legacy_calc_block_subsidy` returns: the 1-BPS reference
    /// schedule, reading the master table with months counted in seconds.
    pub open spec fn legacy_block_subsidy(&self, daa_score: u64) -> u64 {
        let v = self@;
        if daa_score < v.deflationary_phase_daa_score {
            v.pre_deflationary_phase_base_subsidy
        } else {
            let months = (daa_score - v.deflationary_phase_daa_score) as int
                / SECONDS_PER_MONTH as int;
            if months >= SUBSIDY_MONTHS {
                subsidy_by_month_table().last()
            } else {
                subsidy_by_month_table()[months]
            }
        }
    }

    pub fn new(
        coinbase_payload_script_public_key_max_len: u8,
        max_coinbase_payload_len: usize,
        deflationary_phase_daa_score: u64,
        pre_deflationary_phase_base_subsidy: u64,
        target_time_per_block: u64,
        hf_relaunch_daa_score: u64,
    ) -> (cbm: CoinbaseManager)
        requires
            0 < target_time_per_block,
            1000u64 % target_time_per_block == 0,
        ensures
            cbm.wf(),
            cbm@ == (CoinbaseManagerView {
                coinbase_payload_script_public_key_max_len,
                max_coinbase_payload_len,
                deflationary_phase_daa_score,
                pre_deflationary_phase_base_subsidy,
                target_time_per_block,
                blocks_per_month: (SECONDS_PER_MONTH * spec_bps(target_time_per_block)) as u64,
                subsidy_by_month_table: cbm@.subsidy_by_month_table,
                hf_relaunch_daa_score,
            }),
    {
        proof {
            lemma_bps_bounds(target_time_per_block);
        }
        let bps = 1000 / target_time_per_block;
        assert(1 <= bps <= 1000);
        let blocks_per_month = SECONDS_PER_MONTH * bps;
        let master = build_subsidy_by_month_table();
        let mut table: Vec<u64> = Vec::new();
        let mut i: usize = 0;
        while i < SUBSIDY_BY_MONTH_TABLE_SIZE
            invariant
                1 <= bps <= 1000,
                bps == spec_bps(target_time_per_block),
                master@ == subsidy_by_month_table(),
                i <= SUBSIDY_BY_MONTH_TABLE_SIZE,
                table@.len() == i,
                forall|j: int| 0 <= j < i ==> table@[j] == scaled_month_subsidy(j, bps as int),
            decreases SUBSIDY_BY_MONTH_TABLE_SIZE - i,
        {
            let m: u64 = if i < SUBSIDY_MONTHS {
                master[i]
            } else {
                0
            };
            assert(m == master_month_subsidy(i as int));
            let q = m / bps;
            let val: u64 = if m % bps != 0 {
                assert(q + 1 <= u64::MAX) by {
                    assert(bps >= 2);
                    assert(m as int / bps as int <= m as int / 2) by (nonlinear_arith)
                        requires bps >= 2, m >= 0;
                }
                q + 1
            } else {
                q
            };
            proof {
                lemma_ceil_div_split(m as int, bps as int);
                assert(val == scaled_month_subsidy(i as int, bps as int));
            }
            table.push(val);
            i += 1;
        }
        CoinbaseManager {
            coinbase_payload_script_public_key_max_len,
            max_coinbase_payload_len,
            deflationary_phase_daa_score,
            pre_deflationary_phase_base_subsidy,
            target_time_per_block,
            blocks_per_month,
            subsidy_by_month_table: table,
            hf_relaunch_daa_score,
        }
    }

    /// Blocks per second this manager was configured for.
    pub fn bps(&self) -> (bps: u64)
        requires
            self@.target_time_per_block > 0,
        ensures
            bps == spec_bps(self@.target_time_per_block),
    {
        1000 / self.target_time_per_block
    }

    /// The block subsidy owed at `daa_score`. Total: it cannot fail.
    pub fn calc_block_subsidy(&self, daa_score: u64) -> (subsidy: u64)
        requires
            self.wf(),
        ensures
            subsidy == self.block_subsidy(daa_score),
    {
        if daa_score < self.deflationary_phase_daa_score {
            return self.pre_deflationary_phase_base_subsidy;
        }
        assert(self.blocks_per_month >= SECONDS_PER_MONTH) by {
            lemma_bps_bounds(self@.target_time_per_block);
        }
        let months_since_deflationary_phase_started =
            (daa_score - self.deflationary_phase_daa_score) / self.blocks_per_month;
        if months_since_deflationary_phase_started >= SUBSIDY_BY_MONTH_TABLE_SIZE as u64 {
            self.subsidy_by_month_table[self.subsidy_by_month_table.len() - 1]
        } else {
            self.subsidy_by_month_table[months_since_deflationary_phase_started as usize]
        }
    }

    /// The 1-BPS reference schedule, for comparison in tests: months are
    /// counted in seconds and the master table is read unscaled.
    pub fn legacy_calc_block_subsidy(&self, daa_score: u64) -> (subsidy: u64)
        ensures
            subsidy == self.legacy_block_subsidy(daa_score),
    {
        if daa_score < self.deflationary_phase_daa_score {
            return self.pre_deflationary_phase_base_subsidy;
        }
        let months_since_deflationary_phase_started =
            (daa_score - self.deflationary_phase_daa_score) / SECONDS_PER_MONTH;
        let master = build_subsidy_by_month_table();
        if months_since_deflationary_phase_started >= SUBSIDY_MONTHS as u64 {
            master[master.len() - 1]
        } else {
            master[months_since_deflationary_phase_started as usize]
        }
    }

    /// The expected coinbase transaction of the block at `daa_score` whose
    /// mergeset is described by `ghostdag_data`: one output per rewarded blue
    /// ancestor in mergeset order, at most one aggregate output paying the
    /// red rewards to the miner, and the payload encoding the block's own
    /// blue score, subsidy and miner. Fails exactly when the miner's script
    /// is longer than this network's cap.
    pub fn expected_coinbase_transaction(
        &self,
        daa_score: u64,
        miner_data: MinerData,
        ghostdag_data: &GhostdagData,
        mergeset_rewards: &BlockRewardMap,
        mergeset_non_daa: &BlockHashSet,
    ) -> (r: CoinbaseResult<CoinbaseTransactionTemplate>)
        requires
            self.wf(),
            mergeset_rewards_cover(*ghostdag_data, *mergeset_rewards, *mergeset_non_daa),
        ensures
            match r {
                Ok(t) => {
                    &&& miner_data@.script_public_key.script.len()
                        <= self@.coinbase_payload_script_public_key_max_len
                    &&& t.tx.version == TX_VERSION
                    &&& t.tx.inputs@.len() == 0
                    &&& t.tx.outputs@.map_values(|o: TransactionOutput| o@)
                        == expected_coinbase_outputs(
                        *ghostdag_data,
                        *mergeset_rewards,
                        *mergeset_non_daa,
                        miner_data@,
                    )
                    &&& t.tx.lock_time == 0
                    &&& t.tx.subnetwork_id@ == subnetwork_id_coinbase_spec()
                    &&& t.tx.mass == 0
                    &&& t.tx.payload@ == serialize_payload_spec(
                        CoinbaseDataView {
                            blue_score: ghostdag_data.blue_score,
                            subsidy: self.block_subsidy(daa_score),
                            miner_data: miner_data@,
                        },
                    )
                    &&& t.has_red_reward == (red_mergeset_reward(
                        ghostdag_data.mergeset_reds@,
                        mergeset_rewards.entries@,
                        mergeset_non_daa.items@,
                    ) > 0)
                },
                Err(e) => {
                    &&& miner_data@.script_public_key.script.len()
                        > self@.coinbase_payload_script_public_key_max_len
                    &&& e == CoinbaseError::PayloadScriptPublicKeyLenAboveMax(
                        miner_data@.script_public_key.script.len() as usize,
                        self@.coinbase_payload_script_public_key_max_len,
                    )
                },
            },
    {
        let blues = &ghostdag_data.mergeset_blues;
        let mut outputs: Vec<TransactionOutput> = Vec::new();
        let mut i: usize = 0;
        while i < blues.len()
            invariant
                i <= blues@.len(),
                blues@ == ghostdag_data.mergeset_blues@,
                mergeset_rewards_cover(*ghostdag_data, *mergeset_rewards, *mergeset_non_daa),
                outputs@.map_values(|o: TransactionOutput| o@) == blue_reward_outputs(
                    blues@.take(i as int),
                    mergeset_rewards.entries@,
                    mergeset_non_daa.items@,
                ),
            decreases blues@.len() - i,
        {
            let blue = &blues[i];
            proof {
                assert(blues@.take(i + 1).drop_last() =~= blues@.take(i as int));
                assert(blues@.take(i + 1).last() == blues@[i as int]);
                assert(reward_record_ok(
                    mergeset_rewards.entries@,
                    blues@[i as int],
                    mergeset_non_daa.items@,
                ));
            }
            if !mergeset_non_daa.contains(blue) {
                let reward_data = mergeset_rewards.get(blue).unwrap();
                if reward_data.subsidy + reward_data.total_fees > 0 {
                    outputs.push(
                        TransactionOutput::new(
                            reward_data.subsidy + reward_data.total_fees,
                            reward_data.script_public_key.clone(),
                        ),
                    );
                }
            }
            i += 1;
            proof {
                assert(outputs@.map_values(|o: TransactionOutput| o@) =~= blue_reward_outputs(
                    blues@.take(i as int),
                    mergeset_rewards.entries@,
                    mergeset_non_daa.items@,
                ));
            }
        }
        proof {
            assert(blues@.take(blues@.len() as int) =~= blues@);
        }
        let reds = &ghostdag_data.mergeset_reds;
        let mut red_reward: u64 = 0;
        let mut j: usize = 0;
        while j < reds.len()
            invariant
                j <= reds@.len(),
                reds@ == ghostdag_data.mergeset_reds@,
                mergeset_rewards_cover(*ghostdag_data, *mergeset_rewards, *mergeset_non_daa),
                red_reward == red_mergeset_reward(
                    reds@.take(j as int),
                    mergeset_rewards.entries@,
                    mergeset_non_daa.items@,
                ),
            decreases reds@.len() - j,
        {
            let red = &reds[j];
            proof {
                assert(reds@.take(j + 1).drop_last() =~= reds@.take(j as int));
                assert(reds@.take(j + 1).last() == reds@[j as int]);
                assert(reward_record_ok(
                    mergeset_rewards.entries@,
                    reds@[j as int],
                    mergeset_non_daa.items@,
                ));
                lemma_red_reward_prefix(
                    reds@,
                    mergeset_rewards.entries@,
                    mergeset_non_daa.items@,
                    j + 1,
                );
            }
            if !mergeset_non_daa.contains(red) {
                let reward_data = mergeset_rewards.get(red).unwrap();
                red_reward = red_reward + reward_data.subsidy + reward_data.total_fees;
            }
            j += 1;
        }
        proof {
            assert(reds@.take(reds@.len() as int) =~= reds@);
        }
        if red_reward > 0 {
            outputs.push(TransactionOutput::new(red_reward, miner_data.script_public_key.clone()));
            proof {
                assert(outputs@.map_values(|o: TransactionOutput| o@) =~= expected_coinbase_outputs(
                    *ghostdag_data,
                    *mergeset_rewards,
                    *mergeset_non_daa,
                    miner_data@,
                ));
            }
        }
        let subsidy = self.calc_block_subsidy(daa_score);
        let data = CoinbaseData { blue_score: ghostdag_data.blue_score, subsidy, miner_data };
        let payload = match self.serialize_coinbase_payload(&data) {
            Ok(p) => p,
            Err(e) => {
                return Err(e);
            },
        };
        Ok(
            CoinbaseTransactionTemplate {
                tx: Transaction::new(
                    TX_VERSION,
                    Vec::new(),
                    outputs,
                    0,
                    SubnetworkId::coinbase(),
                    0,
                    payload,
                ),
                has_red_reward: red_reward > 0,
            },
        )
    }

    /// Encodes `data` in the payload wire layout. Fails exactly when the
    /// script is longer than this network's cap.
    pub fn serialize_coinbase_payload(&self, data: &CoinbaseData) -> (r: CoinbaseResult<Vec<u8>>)
        ensures
            match r {
                Ok(p) => {
                    &&& data@.miner_data.script_public_key.script.len()
                        <= self@.coinbase_payload_script_public_key_max_len
                    &&& p@ == serialize_payload_spec(data@)
                },
                Err(e) => {
                    &&& data@.miner_data.script_public_key.script.len()
                        > self@.coinbase_payload_script_public_key_max_len
                    &&& e == CoinbaseError::PayloadScriptPublicKeyLenAboveMax(
                        data@.miner_data.script_public_key.script.len() as usize,
                        self@.coinbase_payload_script_public_key_max_len,
                    )
                },
            },
    {
        let script_pub_key_len = data.miner_data.script_public_key.script.len();
        if script_pub_key_len > self.coinbase_payload_script_public_key_max_len as usize {
            return Err(
                CoinbaseError::PayloadScriptPublicKeyLenAboveMax(
                    script_pub_key_len,
                    self.coinbase_payload_script_public_key_max_len,
                ),
            );
        }
        let mut payload = u64_to_le_bytes(data.blue_score);
        let mut subsidy_bytes = u64_to_le_bytes(data.subsidy);
        payload.append(&mut subsidy_bytes);
        push_miner_data(&mut payload, &data.miner_data);
        proof {
            assert(payload@ =~= serialize_payload_spec(data@));
        }
        Ok(payload)
    }

    /// Rewrites a payload for a new miner, keeping its blue score and
    /// subsidy. Truncating in place, the usual case of equal lengths does not
    /// reallocate. Fails exactly when the new script is longer than the cap.
    pub fn modify_coinbase_payload(&self, payload: Vec<u8>, miner_data: &MinerData) -> (r:
        CoinbaseResult<Vec<u8>>)
        ensures
            match r {
                Ok(p) => {
                    &&& miner_data@.script_public_key.script.len()
                        <= self@.coinbase_payload_script_public_key_max_len
                    &&& p@ == modified_payload_spec(payload@, miner_data@)
                },
                Err(e) => {
                    &&& miner_data@.script_public_key.script.len()
                        > self@.coinbase_payload_script_public_key_max_len
                    &&& e == CoinbaseError::PayloadScriptPublicKeyLenAboveMax(
                        miner_data@.script_public_key.script.len() as usize,
                        self@.coinbase_payload_script_public_key_max_len,
                    )
                },
            },
    {
        let script_pub_key_len = miner_data.script_public_key.script.len();
        if script_pub_key_len > self.coinbase_payload_script_public_key_max_len as usize {
            return Err(
                CoinbaseError::PayloadScriptPublicKeyLenAboveMax(
                    script_pub_key_len,
                    self.coinbase_payload_script_public_key_max_len,
                ),
            );
        }
        let mut payload = payload;
        payload.truncate(16);
        push_miner_data(&mut payload, miner_data);
        Ok(payload)
    }

    /// Decodes a payload. The error cases, in the order they are checked,
    /// are exactly those of `deserialize_payload_spec`.
    pub fn deserialize_coinbase_payload(&self, payload: &Vec<u8>) -> (r: CoinbaseResult<
        CoinbaseData,
    >)
        ensures
            match r {
                Ok(d) => deserialize_payload_spec(
                    self@.coinbase_payload_script_public_key_max_len,
                    self@.max_coinbase_payload_len,
                    payload@,
                ) == Ok::<CoinbaseDataView, CoinbaseError>(d@),
                Err(e) => deserialize_payload_spec(
                    self@.coinbase_payload_script_public_key_max_len,
                    self@.max_coinbase_payload_len,
                    payload@,
                ) == Err::<CoinbaseDataView, CoinbaseError>(e),
            },
    {
        if payload.len() < MIN_PAYLOAD_LENGTH {
            return Err(CoinbaseError::PayloadLenBelowMin(payload.len(), MIN_PAYLOAD_LENGTH));
        }
        if payload.len() > self.max_coinbase_payload_len {
            return Err(
                CoinbaseError::PayloadLenAboveMax(payload.len(), self.max_coinbase_payload_len),
            );
        }
        let blue_score = u64_from_le_bytes(slice_subrange(payload.as_slice(), 0, 8));
        let subsidy = u64_from_le_bytes(slice_subrange(payload.as_slice(), 8, 16));
        let script_pub_key_version = u16_from_le_bytes(slice_subrange(payload.as_slice(), 16, 18));
        let script_pub_key_len = payload[18];
        if script_pub_key_len > self.coinbase_payload_script_public_key_max_len {
            return Err(
                CoinbaseError::PayloadScriptPublicKeyLenAboveMax(
                    script_pub_key_len as usize,
                    self.coinbase_payload_script_public_key_max_len,
                ),
            );
        }
        if payload.len() - MIN_PAYLOAD_LENGTH < script_pub_key_len as usize {
            return Err(
                CoinbaseError::PayloadCantContainScriptPublicKey(
                    payload.len(),
                    MIN_PAYLOAD_LENGTH + script_pub_key_len as usize,
                ),
            );
        }
        let script_end: usize = MIN_PAYLOAD_LENGTH + script_pub_key_len as usize;
        let mut script: Vec<u8> = Vec::new();
        let mut i: usize = MIN_PAYLOAD_LENGTH;
        while i < script_end
            invariant
                MIN_PAYLOAD_LENGTH <= i <= script_end,
                script_end <= payload@.len(),
                script@ == payload@.subrange(MIN_PAYLOAD_LENGTH as int, i as int),
            decreases script_end - i,
        {
            script.push(payload[i]);
            i += 1;
            proof {
                assert(script@ =~= payload@.subrange(MIN_PAYLOAD_LENGTH as int, i as int));
            }
        }
        let mut extra_data: Vec<u8> = Vec::new();
        let mut j: usize = script_end;
        while j < payload.len()
            invariant
                script_end <= j <= payload@.len(),
                extra_data@ == payload@.subrange(script_end as int, j as int),
            decreases payload@.len() - j,
        {
            extra_data.push(payload[j]);
            j += 1;
            proof {
                assert(extra_data@ =~= payload@.subrange(script_end as int, j as int));
            }
        }
        Ok(
            CoinbaseData {
                blue_score,
                subsidy,
                miner_data: MinerData {
                    script_public_key: ScriptPublicKey {
                        version: script_pub_key_version,
                        script,
                    },
                    extra_data,
                },
            },
        )
    }

    /// The scaled subsidy table precomputed at construction.
    pub fn subsidy_table(&self) -> (t: &Vec<u64>)
        ensures
            t@ == self@.subsidy_by_month_table,
    {
        &self.subsidy_by_month_table
    }

    /// Blocks per month precomputed at construction.
    pub fn blocks_per_month(&self) -> (b: u64)
        ensures
            b == self@.blocks_per_month,
    {
        self.blocks_per_month
    }

    /// The subsidy of every block before the deflationary phase.
    pub fn pre_deflationary_phase_base_subsidy(&self) -> (s: u64)
        ensures
            s == self@.pre_deflationary_phase_base_subsidy,
    {
        self.pre_deflationary_phase_base_subsidy
    }

    /// First DAA score of the deflationary phase.
    pub fn deflationary_phase_daa_score(&self) -> (s: u64)
        ensures
            s == self@.deflationary_phase_daa_score,
    {
        self.deflationary_phase_daa_score
    }
}

/// Appends the wire encoding of `miner_data` to `out`.
fn push_miner_data(out: &mut Vec<u8>, miner_data: &MinerData)
    requires
        miner_data@.script_public_key.script.len() <= 255,
    ensures
        final(out)@ == old(out)@ + miner_data_encoding(miner_data@),
{
    let ghost pre = out@;
    let mut version_bytes = u16_to_le_bytes(miner_data.script_public_key.version);
    out.append(&mut version_bytes);
    out.push(miner_data.script_public_key.script.len() as u8);
    push_bytes(out, &miner_data.script_public_key.script);
    push_bytes(out, &miner_data.extra_data);
    proof {
        assert(out@ =~= pre + miner_data_encoding(miner_data@));
    }
}

/// Round trip one way: any coinbase data whose script obeys the cap and
/// whose encoding fits the payload cap deserializes from its own encoding
/// unchanged.
pub proof fn lemma_serialize_deserialize_roundtrip(
    script_public_key_max_len: u8,
    max_coinbase_payload_len: usize,
    d: CoinbaseDataView,
)
    requires
        d.miner_data.script_public_key.script.len() <= script_public_key_max_len,
        MIN_PAYLOAD_LENGTH + d.miner_data.script_public_key.script.len()
            + d.miner_data.extra_data.len() <= max_coinbase_payload_len,
    ensures
        deserialize_payload_spec(
            script_public_key_max_len,
            max_coinbase_payload_len,
            serialize_payload_spec(d),
        ) == Ok::<CoinbaseDataView, CoinbaseError>(d),
{
    lemma_auto_spec_u64_to_from_le_bytes();
    lemma_auto_spec_u16_to_from_le_bytes();
    let p = serialize_payload_spec(d);
    let script = d.miner_data.script_public_key.script;
    let len = script.len() as int;
    assert(p.len() == MIN_PAYLOAD_LENGTH + script.len() + d.miner_data.extra_data.len());
    assert(p[18] == script.len() as u8);
    assert(p.subrange(0, 8) =~= spec_u64_to_le_bytes(d.blue_score));
    assert(p.subrange(8, 16) =~= spec_u64_to_le_bytes(d.subsidy));
    assert(p.subrange(16, 18) =~= spec_u16_to_le_bytes(d.miner_data.script_public_key.version));
    assert(p.subrange(19, 19 + len) =~= script);
    assert(p.subrange(19 + len, p.len() as int) =~= d.miner_data.extra_data);
    let r = deserialize_payload_spec(script_public_key_max_len, max_coinbase_payload_len, p);
    assert(r is Ok);
    assert(r->Ok_0 =~~= d);
}

/// Round trip the other way: any byte sequence within the length bounds and
/// with a self-consistent script length re-serializes to itself.
pub proof fn lemma_deserialize_serialize_roundtrip(
    script_public_key_max_len: u8,
    max_coinbase_payload_len: usize,
    p: Seq<u8>,
)
    requires
        MIN_PAYLOAD_LENGTH <= p.len() <= max_coinbase_payload_len,
        p[18] <= script_public_key_max_len,
        p[18] as int <= p.len() - MIN_PAYLOAD_LENGTH,
    ensures
        deserialize_payload_spec(script_public_key_max_len, max_coinbase_payload_len, p) is Ok,
        serialize_payload_spec(
            deserialize_payload_spec(
                script_public_key_max_len,
                max_coinbase_payload_len,
                p,
            )->Ok_0,
        ) == p,
{
    lemma_auto_spec_u64_to_from_le_bytes();
    lemma_auto_spec_u16_to_from_le_bytes();
    let r = deserialize_payload_spec(script_public_key_max_len, max_coinbase_payload_len, p);
    let d = r->Ok_0;
    assert(spec_u64_to_le_bytes(d.blue_score) =~= p.subrange(0, 8));
    assert(spec_u64_to_le_bytes(d.subsidy) =~= p.subrange(8, 16));
    assert(spec_u16_to_le_bytes(d.miner_data.script_public_key.version) =~= p.subrange(16, 18));
    assert(d.miner_data.script_public_key.script.len() == p[18]);
    assert(serialize_payload_spec(d) =~= p);
}

/// A target time per block that divides a second evenly yields between 1 and
/// 1000 blocks per second.
pub proof fn lemma_bps_bounds(target_time_per_block: u64)
    requires
        0 < target_time_per_block,
        1000int % (target_time_per_block as int) == 0,
    ensures
        1 <= spec_bps(target_time_per_block) <= 1000,
{
    if target_time_per_block > 1000 {
        vstd::arithmetic::div_mod::lemma_small_mod(1000nat, target_time_per_block as nat);
    }
    assert(1000int / target_time_per_block as int >= 1) by (nonlinear_arith)
        requires 0 < target_time_per_block <= 1000;
    assert(1000int / target_time_per_block as int <= 1000) by (nonlinear_arith)
        requires target_time_per_block >= 1;
}

/// Ceiling division equals floor division plus one exactly on the
/// non-multiples.
proof fn lemma_ceil_div_split(a: int, b: int)
    requires
        a >= 0,
        b > 0,
    ensures
        ceil_div(a, b) == a / b + (if a % b != 0 { 1int } else { 0int }),
{
    let q = a / b;
    let r = a % b;
    lemma_fundamental_div_mod(a, b);
    if r == 0 {
        lemma_fundamental_div_mod_converse(a + b - 1, b, q, b - 1);
    } else {
        assert(a + b - 1 == (q + 1) * b + (r - 1)) by {
            lemma_mul_is_distributive_add(b, q, 1);
        }
        lemma_fundamental_div_mod_converse(a + b - 1, b, q + 1, r - 1);
    }
}

/// Every subsidy the schedule ever pays: at one block per second the scaled
/// table is the master table itself.
pub proof fn lemma_scaled_table_at_one_bps(cbm: &CoinbaseManager)
    requires
        cbm.wf(),
        spec_bps(cbm@.target_time_per_block) == 1,
    ensures
        forall|i: int|
            0 <= i < cbm@.subsidy_by_month_table.len() ==> cbm@.subsidy_by_month_table[i]
                == master_month_subsidy(i),
{
    assert forall|i: int| 0 <= i < cbm@.subsidy_by_month_table.len()
        implies cbm@.subsidy_by_month_table[i] == master_month_subsidy(i) by {
        lemma_ceil_div_split(master_month_subsidy(i) as int, 1);
    }
}

/// Every entry of the precomputed table is the ceiling of the master entry
/// divided by the blocks per second.
pub proof fn lemma_scaled_table_is_ceil_div(cbm: &CoinbaseManager)
    requires
        cbm.wf(),
    ensures
        forall|i: int|
            0 <= i < cbm@.subsidy_by_month_table.len() ==> cbm@.subsidy_by_month_table[i] as int
                == ceil_div(
                master_month_subsidy(i) as int,
                spec_bps(cbm@.target_time_per_block),
            ),
{
    assert forall|i: int| 0 <= i < cbm@.subsidy_by_month_table.len()
        implies cbm@.subsidy_by_month_table[i] as int == ceil_div(
        master_month_subsidy(i) as int,
        spec_bps(cbm@.target_time_per_block),
    ) by {
        let bps = spec_bps(cbm@.target_time_per_block);
        lemma_bps_bounds(cbm@.target_time_per_block);
        lemma_ceil_div_split(master_month_subsidy(i) as int, bps);
        assert(master_month_subsidy(i) as int / bps <= master_month_subsidy(i)) by (nonlinear_arith)
            requires bps >= 1, master_month_subsidy(i) >= 0;
    }
}

} // verus!
