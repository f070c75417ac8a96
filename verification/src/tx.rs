//! Transaction primitives consumed and produced by the coinbase subsystem.

use vstd::prelude::*;

use crate::hash::BlockHash;

verus! {

/// Version of every transaction this subsystem emits.
pub const TX_VERSION: u16 = 0;

/// A script public key: a script version together with the script bytes.
#[derive(Debug)]
pub struct ScriptPublicKey {
    pub version: u16,
    pub script: Vec<u8>,
}

impl Clone for ScriptPublicKey {
    /// A clone carries the same version and script.
    fn clone(&self) -> (r: Self)
        ensures
            r@ == self@,
    {
        let mut script: Vec<u8> = Vec::new();
        push_bytes(&mut script, &self.script);
        ScriptPublicKey { version: self.version, script }
    }
}

/// Mathematical model of a `ScriptPublicKey`.
#[verifier::ext_equal]
pub ghost struct ScriptPublicKeyView {
    pub version: u16,
    pub script: Seq<u8>,
}

impl View for ScriptPublicKey {
    type V = ScriptPublicKeyView;

    open spec fn view(&self) -> ScriptPublicKeyView {
        ScriptPublicKeyView { version: self.version, script: self.script@ }
    }
}

impl ScriptPublicKey {
    pub fn new(version: u16, script: Vec<u8>) -> (spk: ScriptPublicKey)
        ensures
            spk@.version == version,
            spk@.script == script@,
    {
        ScriptPublicKey { version, script }
    }
}

/// The identity a miner asks rewards to be paid to, plus free-form extra data.
#[derive(Clone, Debug)]
pub struct MinerData {
    pub script_public_key: ScriptPublicKey,
    pub extra_data: Vec<u8>,
}

/// Mathematical model of a `MinerData`.
#[verifier::ext_equal]
pub ghost struct MinerDataView {
    pub script_public_key: ScriptPublicKeyView,
    pub extra_data: Seq<u8>,
}

impl View for MinerData {
    type V = MinerDataView;

    open spec fn view(&self) -> MinerDataView {
        MinerDataView { script_public_key: self.script_public_key@, extra_data: self.extra_data@ }
    }
}

/// What a block's coinbase payload encodes.
#[derive(Clone, Debug)]
pub struct CoinbaseData {
    pub blue_score: u64,
    pub subsidy: u64,
    pub miner_data: MinerData,
}

/// Mathematical model of a `CoinbaseData`.
#[verifier::ext_equal]
pub ghost struct CoinbaseDataView {
    pub blue_score: u64,
    pub subsidy: u64,
    pub miner_data: MinerDataView,
}

impl View for CoinbaseData {
    type V = CoinbaseDataView;

    open spec fn view(&self) -> CoinbaseDataView {
        CoinbaseDataView {
            blue_score: self.blue_score,
            subsidy: self.subsidy,
            miner_data: self.miner_data@,
        }
    }
}

/// Per-ancestor reward record: its own subsidy, the fees it collected, and
/// the script it asks to be paid to.
#[derive(Clone, Debug)]
pub struct BlockRewardData {
    pub subsidy: u64,
    pub total_fees: u64,
    pub script_public_key: ScriptPublicKey,
}

/// Mathematical model of a `BlockRewardData`.
#[verifier::ext_equal]
pub ghost struct BlockRewardDataView {
    pub subsidy: u64,
    pub total_fees: u64,
    pub script_public_key: ScriptPublicKeyView,
}

impl View for BlockRewardData {
    type V = BlockRewardDataView;

    open spec fn view(&self) -> BlockRewardDataView {
        BlockRewardDataView {
            subsidy: self.subsidy,
            total_fees: self.total_fees,
            script_public_key: self.script_public_key@,
        }
    }
}

impl BlockRewardData {
    pub fn new(subsidy: u64, total_fees: u64, script_public_key: ScriptPublicKey) -> (r:
        BlockRewardData)
        ensures
            r@.subsidy == subsidy,
            r@.total_fees == total_fees,
            r@.script_public_key == script_public_key@,
    {
        BlockRewardData { subsidy, total_fees, script_public_key }
    }
}

/// Reference to the output of an earlier transaction.
#[derive(Clone, Debug)]
pub struct TransactionOutpoint {
    pub transaction_id: BlockHash,
    pub index: u32,
}

/// A transaction input. Coinbase transactions carry none; the type exists so
/// that a transaction's (empty) input list can be stated.
#[derive(Clone, Debug)]
pub struct TransactionInput {
    pub previous_outpoint: TransactionOutpoint,
    pub signature_script: Vec<u8>,
    pub sequence: u64,
    pub sig_op_count: u8,
}

/// A transaction output: an amount in smallest units and the key it pays to.
#[derive(Clone, Debug)]
pub struct TransactionOutput {
    pub value: u64,
    pub script_public_key: ScriptPublicKey,
}

/// Mathematical model of a `TransactionOutput`.
#[verifier::ext_equal]
pub ghost struct TransactionOutputView {
    pub value: u64,
    pub script_public_key: ScriptPublicKeyView,
}

impl View for TransactionOutput {
    type V = TransactionOutputView;

    open spec fn view(&self) -> TransactionOutputView {
        TransactionOutputView { value: self.value, script_public_key: self.script_public_key@ }
    }
}

impl TransactionOutput {
    pub fn new(value: u64, script_public_key: ScriptPublicKey) -> (o: TransactionOutput)
        ensures
            o@.value == value,
            o@.script_public_key == script_public_key@,
    {
        TransactionOutput { value, script_public_key }
    }
}

/// A 20-byte subnetwork identifier.
#[derive(Clone, Debug)]
pub struct SubnetworkId {
    pub bytes: [u8; 20],
}

/// The view of the coinbase subnetwork identifier: byte 0 is 1, the rest 0.
pub open spec fn subnetwork_id_coinbase_spec() -> Seq<u8> {
    Seq::new(20, |i: int| if i == 0 { 1u8 } else { 0u8 })
}

impl View for SubnetworkId {
    type V = Seq<u8>;

    open spec fn view(&self) -> Seq<u8> {
        self.bytes@
    }
}

impl SubnetworkId {
    /// The identifier of the subnetwork all coinbase transactions belong to.
    pub fn coinbase() -> (id: SubnetworkId)
        ensures
            id@ == subnetwork_id_coinbase_spec(),
    {
        let bytes: [u8; 20] = [
            1u8, 0, 0, 0, 0, 0, 0, 0, 0, 0, 0, 0, 0, 0, 0, 0, 0, 0, 0, 0,
        ];
        proof {
            assert(bytes@ =~= subnetwork_id_coinbase_spec());
        }
        SubnetworkId { bytes }
    }
}

/// A transaction, restricted to the fields this subsystem writes.
#[derive(Clone, Debug)]
pub struct Transaction {
    pub version: u16,
    pub inputs: Vec<TransactionInput>,
    pub outputs: Vec<TransactionOutput>,
    pub lock_time: u64,
    pub subnetwork_id: SubnetworkId,
    pub mass: u64,
    pub payload: Vec<u8>,
}

impl Transaction {
    pub fn new(
        version: u16,
        inputs: Vec<TransactionInput>,
        outputs: Vec<TransactionOutput>,
        lock_time: u64,
        subnetwork_id: SubnetworkId,
        mass: u64,
        payload: Vec<u8>,
    ) -> (t: Transaction)
        ensures
            t.version == version,
            t.inputs@ == inputs@,
            t.outputs@ == outputs@,
            t.lock_time == lock_time,
            t.subnetwork_id@ == subnetwork_id@,
            t.mass == mass,
            t.payload@ == payload@,
    {
        Transaction { version, inputs, outputs, lock_time, subnetwork_id, mass, payload }
    }
}

/// The expected coinbase transaction for a block, and whether any red
/// mergeset reward was aggregated into it.
#[derive(Clone, Debug)]
pub struct CoinbaseTransactionTemplate {
    pub tx: Transaction,
    pub has_red_reward: bool,
}

/// Everything that can go wrong while encoding or decoding a coinbase
/// payload.
#[derive(Clone, Copy, Debug, PartialEq, Eq, Structural)]
pub enum CoinbaseError {
    /// The payload is shorter than the fixed header: (actual, minimum).
    PayloadLenBelowMin(usize, usize),
    /// The payload exceeds the network cap: (actual, maximum).
    PayloadLenAboveMax(usize, usize),
    /// The declared or supplied script exceeds the per-network cap:
    /// (declared, maximum).
    PayloadScriptPublicKeyLenAboveMax(usize, u8),
    /// The declared script length exceeds the bytes that follow the header:
    /// (actual payload length, length required to hold the script).
    PayloadCantContainScriptPublicKey(usize, usize),
}

/// Appends all of `src` to `out`.
pub(crate) fn push_bytes(out: &mut Vec<u8>, src: &Vec<u8>)
    ensures
        final(out)@ == old(out)@ + src@,
{
    let ghost pre = out@;
    let mut i: usize = 0;
    while i < src.len()
        invariant
            i <= src@.len(),
            out@ == pre + src@.take(i as int),
        decreases src@.len() - i,
    {
        out.push(src[i]);
        i += 1;
        proof {
            assert(pre + src@.take(i as int) =~= (pre + src@.take(i - 1)).push(src@[i - 1]));
        }
    }
    proof {
        assert(pre + src@.take(src@.len() as int) =~= pre + src@);
    }
}

/// Result type of the payload codec.
pub type CoinbaseResult<T> = Result<T, CoinbaseError>;

} // verus!
