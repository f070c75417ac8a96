//! The genesis registry: the immutable initial block of every network and
//! its derivations into a header and a block.

use vstd::prelude::*;

use crate::hash::{zero_hash_spec, BlockHash};
use crate::tx::{
    push_bytes, subnetwork_id_coinbase_spec, SubnetworkId, Transaction, TransactionInput,
    TransactionOutput,
};

verus! {

/// The distinguished 32-byte commitment denoting an empty UTXO set.
pub open spec fn empty_muhash_spec() -> Seq<u8> {
    zero_hash_spec()
}

/// The commitment every genesis block starts from: no UTXO exists yet.
pub fn empty_muhash() -> (h: BlockHash)
    ensures
        h@ == empty_muhash_spec(),
{
    BlockHash::zero()
}

/// The constants uniquely representing a genesis block.
#[derive(Clone, Debug)]
pub struct GenesisBlock {
    pub hash: BlockHash,
    pub version: u16,
    pub hash_merkle_root: BlockHash,
    pub utxo_commitment: BlockHash,
    pub timestamp: u64,
    pub bits: u32,
    pub nonce: u64,
    pub daa_score: u64,
    pub coinbase_payload: Vec<u8>,
}

/// A block header, restricted to the fields this subsystem writes. The
/// `hash` field carries the recorded block hash: computing a hash anew
/// belongs to the hashing collaborator, not to this registry.
#[derive(Clone, Debug)]
pub struct Header {
    pub hash: BlockHash,
    pub version: u16,
    pub parents_by_level: Vec<Vec<BlockHash>>,
    pub hash_merkle_root: BlockHash,
    pub accepted_id_merkle_root: BlockHash,
    pub utxo_commitment: BlockHash,
    pub timestamp: u64,
    pub bits: u32,
    pub nonce: u64,
    pub daa_score: u64,
    /// The accumulated work. The wider system keeps 192 bits of it; every
    /// genesis block fixes it to zero, the only value written here.
    pub blue_work: u128,
    pub blue_score: u64,
    pub pruning_point: BlockHash,
}

/// A block: a header and its transactions.
#[derive(Clone, Debug)]
pub struct Block {
    pub header: Header,
    pub transactions: Vec<Transaction>,
}

/// The 20 bytes every genesis coinbase payload starts with: blue score 0,
/// subsidy 100_000_000 (little-endian), script version 0, script length 1,
/// and the one-byte OP-FALSE script. The network tag follows.
pub open spec fn genesis_payload_prefix() -> Seq<u8> {
    seq![
        0x00u8, 0x00, 0x00, 0x00, 0x00, 0x00, 0x00, 0x00,
        0x00, 0xE1, 0xF5, 0x05, 0x00, 0x00, 0x00, 0x00,
        0x00, 0x00,
        0x01,
        0x00,
    ]
}

/// The hash of the main network's genesis block.
pub open spec fn mainnet_genesis_hash() -> Seq<u8> {
    seq![
        0x91, 0x79, 0xa1, 0xc8, 0xdf, 0xd2, 0x90, 0xd6,
        0x91, 0x4c, 0x0f, 0x1d, 0xae, 0x0e, 0xc4, 0x1a,
        0xa2, 0x49, 0x5d, 0xe2, 0x0d, 0x78, 0x85, 0x88,
        0x49, 0x21, 0x97, 0x97, 0xe4, 0x45, 0x4f, 0xbe,
    ]
}

/// The Merkle root over the main network's single genesis transaction.
pub open spec fn mainnet_genesis_merkle_root() -> Seq<u8> {
    seq![
        0xd8, 0x44, 0x1d, 0x07, 0x66, 0x63, 0x12, 0xeb,
        0x8c, 0xf0, 0x51, 0x6a, 0x0c, 0x53, 0xcc, 0x46,
        0x60, 0xa7, 0xaf, 0x4a, 0xb3, 0x4c, 0x83, 0x5a,
        0xf0, 0xfd, 0xd2, 0x05, 0x90, 0xb5, 0x7d, 0xb3,
    ]
}

/// The coinbase payload of the main network's genesis block.
pub open spec fn mainnet_genesis_payload() -> Seq<u8> {
    genesis_payload_prefix() + seq![
        0x77, 0x61, 0x67, 0x6C, 0x61, 0x79, 0x6C, 0x61,
        0x2d, 0x6D, 0x61, 0x69, 0x6E, 0x6E, 0x65, 0x74,
    ]
}

/// The hash of the test network's genesis block.
pub open spec fn testnet_genesis_hash() -> Seq<u8> {
    seq![
        0x57, 0xd9, 0x4c, 0x8a, 0xb3, 0x04, 0xf6, 0xe2,
        0x62, 0xe0, 0xc6, 0x2e, 0x0a, 0xbf, 0xad, 0x6b,
        0x95, 0x4f, 0x8f, 0x7e, 0x68, 0x21, 0x3c, 0x42,
        0x6e, 0x06, 0xf5, 0x78, 0xe8, 0xf4, 0x5b, 0xbc,
    ]
}

/// The Merkle root over the test network's single genesis transaction.
pub open spec fn testnet_genesis_merkle_root() -> Seq<u8> {
    seq![
        0x00, 0x36, 0x41, 0x22, 0x4f, 0x19, 0xb8, 0x20,
        0xda, 0xfb, 0x37, 0xa0, 0x2b, 0x3b, 0xd7, 0x16,
        0x02, 0xd8, 0xb2, 0x19, 0x69, 0xfe, 0x9a, 0x73,
        0x96, 0x8c, 0xca, 0x52, 0x7e, 0xe6, 0xb7, 0x36,
    ]
}

/// The coinbase payload of the test network's genesis block.
pub open spec fn testnet_genesis_payload() -> Seq<u8> {
    genesis_payload_prefix() + seq![
        0x77, 0x61, 0x67, 0x6C, 0x61, 0x79, 0x6C, 0x61,
        0x2d, 0x74, 0x65, 0x73, 0x74, 0x6e, 0x65, 0x74,
    ]
}

/// The hash of the scaled test network (testnet-11)'s genesis block.
pub open spec fn testnet11_genesis_hash() -> Seq<u8> {
    seq![
        0xd6, 0xc1, 0x82, 0x5a, 0x48, 0x2b, 0x0a, 0x7e,
        0x95, 0x03, 0x74, 0x2f, 0xa0, 0x18, 0xa7, 0x5b,
        0xc1, 0xbd, 0x09, 0x0d, 0xfd, 0x4f, 0x66, 0xf0,
        0x20, 0x87, 0x2e, 0x25, 0xfe, 0xb5, 0x5c, 0xfc,
    ]
}

/// The Merkle root over the scaled test network (testnet-11)'s single genesis transaction.
pub open spec fn testnet11_genesis_merkle_root() -> Seq<u8> {
    seq![
        0x06, 0xe7, 0x41, 0x2d, 0x29, 0xb4, 0x7e, 0x7b,
        0x98, 0xfa, 0x98, 0x2f, 0x74, 0x07, 0x53, 0xf2,
        0xe7, 0xfd, 0x62, 0xee, 0x73, 0x41, 0x46, 0x29,
        0xcc, 0x29, 0x8c, 0x43, 0xf7, 0x29, 0x14, 0x93,
    ]
}

/// The coinbase payload of the scaled test network (testnet-11)'s genesis block.
pub open spec fn testnet11_genesis_payload() -> Seq<u8> {
    genesis_payload_prefix() + seq![
        0x77, 0x61, 0x67, 0x6C, 0x61, 0x79, 0x6C, 0x61,
        0x2d, 0x74, 0x65, 0x73, 0x74, 0x6e, 0x65, 0x74,
        11, 4,
    ]
}

/// The hash of the simulation network's genesis block.
pub open spec fn simnet_genesis_hash() -> Seq<u8> {
    seq![
        0x98, 0x88, 0xfe, 0x7e, 0xca, 0xcb, 0x4d, 0xda,
        0xd1, 0x49, 0x4f, 0x4f, 0xfa, 0xf5, 0xc4, 0xf3,
        0xb0, 0x3a, 0x71, 0xed, 0x7d, 0xc9, 0xee, 0x1c,
        0xca, 0xcb, 0x10, 0xd1, 0xe8, 0xa8, 0xeb, 0x5b,
    ]
}

/// The Merkle root over the simulation network's single genesis transaction.
pub open spec fn simnet_genesis_merkle_root() -> Seq<u8> {
    seq![
        0x19, 0x46, 0xd6, 0x29, 0xf7, 0xe9, 0x22, 0xa7,
        0xbc, 0xed, 0x59, 0x19, 0x05, 0x21, 0xc3, 0x77,
        0x1f, 0x73, 0xd3, 0x52, 0xdd, 0xbb, 0xb6, 0x86,
        0x56, 0x4a, 0xd7, 0xfd, 0x56, 0x85, 0x7c, 0x1b,
    ]
}

/// The coinbase payload of the simulation network's genesis block.
pub open spec fn simnet_genesis_payload() -> Seq<u8> {
    genesis_payload_prefix() + seq![
        0x77, 0x61, 0x67, 0x6C, 0x61, 0x79, 0x6C, 0x61,
        0x2d, 0x73, 0x69, 0x6d, 0x6e, 0x65, 0x74,
    ]
}

/// The hash of the development network's genesis block.
pub open spec fn devnet_genesis_hash() -> Seq<u8> {
    seq![
        0x4c, 0xb4, 0x8d, 0x0b, 0x20, 0x73, 0xb8, 0x02,
        0x36, 0x01, 0x45, 0xa1, 0x5a, 0xd1, 0xab, 0xdc,
        0x01, 0xd8, 0x9b, 0x5c, 0x2f, 0xe4, 0x72, 0x26,
        0x30, 0xab, 0x9b, 0x5f, 0xe9, 0xdf, 0xc4, 0xf2,
    ]
}

/// The Merkle root over the development network's single genesis transaction.
pub open spec fn devnet_genesis_merkle_root() -> Seq<u8> {
    seq![
        0x58, 0xab, 0xf2, 0x03, 0x21, 0xd7, 0x07, 0x16,
        0x16, 0x2b, 0x6b, 0xf8, 0xd9, 0xf5, 0x89, 0xca,
        0x33, 0xae, 0x6e, 0x32, 0xb3, 0xb1, 0x9a, 0xbb,
        0x7f, 0xa6, 0x5d, 0x11, 0x41, 0xa3, 0xf9, 0x4d,
    ]
}

/// The coinbase payload of the development network's genesis block.
pub open spec fn devnet_genesis_payload() -> Seq<u8> {
    genesis_payload_prefix() + seq![
        0x77, 0x61, 0x67, 0x6C, 0x61, 0x79, 0x6C, 0x61,
        0x2d, 0x64, 0x65, 0x76, 0x6e, 0x65, 0x74,
    ]
}

impl GenesisBlock {
    /// The single transaction of a genesis block: an input-less, output-less
    /// coinbase carrying the recorded payload.
    pub fn build_genesis_transactions(&self) -> (txs: Vec<Transaction>)
        ensures
            txs@.len() == 1,
            txs@[0].version == 0,
            txs@[0].inputs@.len() == 0,
            txs@[0].outputs@.len() == 0,
            txs@[0].lock_time == 0,
            txs@[0].subnetwork_id@ == subnetwork_id_coinbase_spec(),
            txs@[0].mass == 0,
            txs@[0].payload@ == self.coinbase_payload@,
    {
        let mut payload: Vec<u8> = Vec::new();
        push_bytes(&mut payload, &self.coinbase_payload);
        let inputs: Vec<TransactionInput> = Vec::new();
        let outputs: Vec<TransactionOutput> = Vec::new();
        let tx = Transaction::new(0, inputs, outputs, 0, SubnetworkId::coinbase(), 0, payload);
        let mut txs: Vec<Transaction> = Vec::new();
        txs.push(tx);
        txs
    }

    /// The finalized header a genesis block fixes: no parents, the recorded
    /// Merkle root and UTXO commitment, the all-zero accepted-ID Merkle root
    /// and pruning point, and zero work and blue score.
    pub fn to_header(&self) -> (h: Header)
        ensures
            h.hash@ == self.hash@,
            h.version == self.version,
            h.parents_by_level@.len() == 0,
            h.hash_merkle_root@ == self.hash_merkle_root@,
            h.accepted_id_merkle_root@ == zero_hash_spec(),
            h.utxo_commitment@ == self.utxo_commitment@,
            h.timestamp == self.timestamp,
            h.bits == self.bits,
            h.nonce == self.nonce,
            h.daa_score == self.daa_score,
            h.blue_work == 0,
            h.blue_score == 0,
            h.pruning_point@ == zero_hash_spec(),
    {
        Header {
            hash: self.hash,
            version: self.version,
            parents_by_level: Vec::new(),
            hash_merkle_root: self.hash_merkle_root,
            accepted_id_merkle_root: BlockHash::zero(),
            utxo_commitment: self.utxo_commitment,
            timestamp: self.timestamp,
            bits: self.bits,
            nonce: self.nonce,
            daa_score: self.daa_score,
            blue_work: 0,
            blue_score: 0,
            pruning_point: BlockHash::zero(),
        }
    }

    /// The whole genesis block: the finalized header and its single coinbase
    /// transaction.
    pub fn to_block(&self) -> (b: Block)
        ensures
            b.header.hash@ == self.hash@,
            b.header.version == self.version,
            b.header.parents_by_level@.len() == 0,
            b.header.hash_merkle_root@ == self.hash_merkle_root@,
            b.header.accepted_id_merkle_root@ == zero_hash_spec(),
            b.header.utxo_commitment@ == self.utxo_commitment@,
            b.header.timestamp == self.timestamp,
            b.header.bits == self.bits,
            b.header.nonce == self.nonce,
            b.header.daa_score == self.daa_score,
            b.header.blue_work == 0,
            b.header.blue_score == 0,
            b.header.pruning_point@ == zero_hash_spec(),
            b.transactions@.len() == 1,
            b.transactions@[0].version == 0,
            b.transactions@[0].inputs@.len() == 0,
            b.transactions@[0].outputs@.len() == 0,
            b.transactions@[0].lock_time == 0,
            b.transactions@[0].subnetwork_id@ == subnetwork_id_coinbase_spec(),
            b.transactions@[0].mass == 0,
            b.transactions@[0].payload@ == self.coinbase_payload@,
    {
        Block { header: self.to_header(), transactions: self.build_genesis_transactions() }
    }

    /// Rebuilds genesis constants from a finalized header and the recorded
    /// coinbase payload.
    pub fn from_header(header: &Header, coinbase_payload: Vec<u8>) -> (g: GenesisBlock)
        ensures
            g.hash@ == header.hash@,
            g.version == header.version,
            g.hash_merkle_root@ == header.hash_merkle_root@,
            g.utxo_commitment@ == header.utxo_commitment@,
            g.timestamp == header.timestamp,
            g.bits == header.bits,
            g.nonce == header.nonce,
            g.daa_score == header.daa_score,
            g.coinbase_payload@ == coinbase_payload@,
    {
        GenesisBlock {
            hash: header.hash,
            version: header.version,
            hash_merkle_root: header.hash_merkle_root,
            utxo_commitment: header.utxo_commitment,
            timestamp: header.timestamp,
            bits: header.bits,
            nonce: header.nonce,
            daa_score: header.daa_score,
            coinbase_payload,
        }
    }

    /// The genesis block of the main network.
    pub fn mainnet() -> (g: GenesisBlock)
        ensures
            g.hash@ == mainnet_genesis_hash(),
            g.version == 0,
            g.hash_merkle_root@ == mainnet_genesis_merkle_root(),
            g.utxo_commitment@ == empty_muhash_spec(),
            g.timestamp == 0x1922F4E39A6,
            g.bits == 0x1e7fffff,
            g.nonce == 0x4e616f72,
            g.daa_score == 0,
            g.coinbase_payload@ == mainnet_genesis_payload(),
    {
        let hash = BlockHash::from_bytes([
            0x91, 0x79, 0xa1, 0xc8, 0xdf, 0xd2, 0x90, 0xd6,
            0x91, 0x4c, 0x0f, 0x1d, 0xae, 0x0e, 0xc4, 0x1a,
            0xa2, 0x49, 0x5d, 0xe2, 0x0d, 0x78, 0x85, 0x88,
            0x49, 0x21, 0x97, 0x97, 0xe4, 0x45, 0x4f, 0xbe,
        ]);
        let hash_merkle_root = BlockHash::from_bytes([
            0xd8, 0x44, 0x1d, 0x07, 0x66, 0x63, 0x12, 0xeb,
            0x8c, 0xf0, 0x51, 0x6a, 0x0c, 0x53, 0xcc, 0x46,
            0x60, 0xa7, 0xaf, 0x4a, 0xb3, 0x4c, 0x83, 0x5a,
            0xf0, 0xfd, 0xd2, 0x05, 0x90, 0xb5, 0x7d, 0xb3,
        ]);
        let coinbase_payload: Vec<u8> = vec![
            0x00, 0x00, 0x00, 0x00, 0x00, 0x00, 0x00, 0x00,
            0x00, 0xE1, 0xF5, 0x05, 0x00, 0x00, 0x00, 0x00,
            0x00, 0x00, 0x01, 0x00, 0x77, 0x61, 0x67, 0x6C,
            0x61, 0x79, 0x6C, 0x61, 0x2d, 0x6D, 0x61, 0x69,
            0x6E, 0x6E, 0x65, 0x74,
        ];
        proof {
            assert(hash@ =~= mainnet_genesis_hash());
            assert(hash_merkle_root@ =~= mainnet_genesis_merkle_root());
            assert(coinbase_payload@ =~= mainnet_genesis_payload());
        }
        GenesisBlock {
            hash,
            version: 0,
            hash_merkle_root,
            utxo_commitment: empty_muhash(),
            timestamp: 0x1922F4E39A6,
            bits: 0x1e7fffff,
            nonce: 0x4e616f72,
            daa_score: 0,
            coinbase_payload,
        }
    }

    /// The genesis block of the test network.
    pub fn testnet() -> (g: GenesisBlock)
        ensures
            g.hash@ == testnet_genesis_hash(),
            g.version == 0,
            g.hash_merkle_root@ == testnet_genesis_merkle_root(),
            g.utxo_commitment@ == empty_muhash_spec(),
            g.timestamp == 0x1922F4D97FE,
            g.bits == 0x1e7fffff,
            g.nonce == 0x14582,
            g.daa_score == 0,
            g.coinbase_payload@ == testnet_genesis_payload(),
    {
        let hash = BlockHash::from_bytes([
            0x57, 0xd9, 0x4c, 0x8a, 0xb3, 0x04, 0xf6, 0xe2,
            0x62, 0xe0, 0xc6, 0x2e, 0x0a, 0xbf, 0xad, 0x6b,
            0x95, 0x4f, 0x8f, 0x7e, 0x68, 0x21, 0x3c, 0x42,
            0x6e, 0x06, 0xf5, 0x78, 0xe8, 0xf4, 0x5b, 0xbc,
        ]);
        let hash_merkle_root = BlockHash::from_bytes([
            0x00, 0x36, 0x41, 0x22, 0x4f, 0x19, 0xb8, 0x20,
            0xda, 0xfb, 0x37, 0xa0, 0x2b, 0x3b, 0xd7, 0x16,
            0x02, 0xd8, 0xb2, 0x19, 0x69, 0xfe, 0x9a, 0x73,
            0x96, 0x8c, 0xca, 0x52, 0x7e, 0xe6, 0xb7, 0x36,
        ]);
        let coinbase_payload: Vec<u8> = vec![
            0x00, 0x00, 0x00, 0x00, 0x00, 0x00, 0x00, 0x00,
            0x00, 0xE1, 0xF5, 0x05, 0x00, 0x00, 0x00, 0x00,
            0x00, 0x00, 0x01, 0x00, 0x77, 0x61, 0x67, 0x6C,
            0x61, 0x79, 0x6C, 0x61, 0x2d, 0x74, 0x65, 0x73,
            0x74, 0x6e, 0x65, 0x74,
        ];
        proof {
            assert(hash@ =~= testnet_genesis_hash());
            assert(hash_merkle_root@ =~= testnet_genesis_merkle_root());
            assert(coinbase_payload@ =~= testnet_genesis_payload());
        }
        GenesisBlock {
            hash,
            version: 0,
            hash_merkle_root,
            utxo_commitment: empty_muhash(),
            timestamp: 0x1922F4D97FE,
            bits: 0x1e7fffff,
            nonce: 0x14582,
            daa_score: 0,
            coinbase_payload,
        }
    }

    /// The genesis block of the scaled test network (testnet-11).
    pub fn testnet11() -> (g: GenesisBlock)
        ensures
            g.hash@ == testnet11_genesis_hash(),
            g.version == 0,
            g.hash_merkle_root@ == testnet11_genesis_merkle_root(),
            g.utxo_commitment@ == empty_muhash_spec(),
            g.timestamp == 0x1922F4D97FE,
            g.bits == 504155340,
            g.nonce == 0x14582,
            g.daa_score == 0,
            g.coinbase_payload@ == testnet11_genesis_payload(),
    {
        let hash = BlockHash::from_bytes([
            0xd6, 0xc1, 0x82, 0x5a, 0x48, 0x2b, 0x0a, 0x7e,
            0x95, 0x03, 0x74, 0x2f, 0xa0, 0x18, 0xa7, 0x5b,
            0xc1, 0xbd, 0x09, 0x0d, 0xfd, 0x4f, 0x66, 0xf0,
            0x20, 0x87, 0x2e, 0x25, 0xfe, 0xb5, 0x5c, 0xfc,
        ]);
        let hash_merkle_root = BlockHash::from_bytes([
            0x06, 0xe7, 0x41, 0x2d, 0x29, 0xb4, 0x7e, 0x7b,
            0x98, 0xfa, 0x98, 0x2f, 0x74, 0x07, 0x53, 0xf2,
            0xe7, 0xfd, 0x62, 0xee, 0x73, 0x41, 0x46, 0x29,
            0xcc, 0x29, 0x8c, 0x43, 0xf7, 0x29, 0x14, 0x93,
        ]);
        let coinbase_payload: Vec<u8> = vec![
            0x00, 0x00, 0x00, 0x00, 0x00, 0x00, 0x00, 0x00,
            0x00, 0xE1, 0xF5, 0x05, 0x00, 0x00, 0x00, 0x00,
            0x00, 0x00, 0x01, 0x00, 0x77, 0x61, 0x67, 0x6C,
            0x61, 0x79, 0x6C, 0x61, 0x2d, 0x74, 0x65, 0x73,
            0x74, 0x6e, 0x65, 0x74, 11, 4,
        ];
        proof {
            assert(hash@ =~= testnet11_genesis_hash());
            assert(hash_merkle_root@ =~= testnet11_genesis_merkle_root());
            assert(coinbase_payload@ =~= testnet11_genesis_payload());
        }
        GenesisBlock {
            hash,
            version: 0,
            hash_merkle_root,
            utxo_commitment: empty_muhash(),
            timestamp: 0x1922F4D97FE,
            bits: 504155340,
            nonce: 0x14582,
            daa_score: 0,
            coinbase_payload,
        }
    }

    /// The genesis block of the simulation network.
    pub fn simnet() -> (g: GenesisBlock)
        ensures
            g.hash@ == simnet_genesis_hash(),
            g.version == 0,
            g.hash_merkle_root@ == simnet_genesis_merkle_root(),
            g.utxo_commitment@ == empty_muhash_spec(),
            g.timestamp == 0x17c5f62fbb6,
            g.bits == 0x207fffff,
            g.nonce == 0x2,
            g.daa_score == 0,
            g.coinbase_payload@ == simnet_genesis_payload(),
    {
        let hash = BlockHash::from_bytes([
            0x98, 0x88, 0xfe, 0x7e, 0xca, 0xcb, 0x4d, 0xda,
            0xd1, 0x49, 0x4f, 0x4f, 0xfa, 0xf5, 0xc4, 0xf3,
            0xb0, 0x3a, 0x71, 0xed, 0x7d, 0xc9, 0xee, 0x1c,
            0xca, 0xcb, 0x10, 0xd1, 0xe8, 0xa8, 0xeb, 0x5b,
        ]);
        let hash_merkle_root = BlockHash::from_bytes([
            0x19, 0x46, 0xd6, 0x29, 0xf7, 0xe9, 0x22, 0xa7,
            0xbc, 0xed, 0x59, 0x19, 0x05, 0x21, 0xc3, 0x77,
            0x1f, 0x73, 0xd3, 0x52, 0xdd, 0xbb, 0xb6, 0x86,
            0x56, 0x4a, 0xd7, 0xfd, 0x56, 0x85, 0x7c, 0x1b,
        ]);
        let coinbase_payload: Vec<u8> = vec![
            0x00, 0x00, 0x00, 0x00, 0x00, 0x00, 0x00, 0x00,
            0x00, 0xE1, 0xF5, 0x05, 0x00, 0x00, 0x00, 0x00,
            0x00, 0x00, 0x01, 0x00, 0x77, 0x61, 0x67, 0x6C,
            0x61, 0x79, 0x6C, 0x61, 0x2d, 0x73, 0x69, 0x6d,
            0x6e, 0x65, 0x74,
        ];
        proof {
            assert(hash@ =~= simnet_genesis_hash());
            assert(hash_merkle_root@ =~= simnet_genesis_merkle_root());
            assert(coinbase_payload@ =~= simnet_genesis_payload());
        }
        GenesisBlock {
            hash,
            version: 0,
            hash_merkle_root,
            utxo_commitment: empty_muhash(),
            timestamp: 0x17c5f62fbb6,
            bits: 0x207fffff,
            nonce: 0x2,
            daa_score: 0,
            coinbase_payload,
        }
    }

    /// The genesis block of the development network.
    pub fn devnet() -> (g: GenesisBlock)
        ensures
            g.hash@ == devnet_genesis_hash(),
            g.version == 0,
            g.hash_merkle_root@ == devnet_genesis_merkle_root(),
            g.utxo_commitment@ == empty_muhash_spec(),
            g.timestamp == 0x11e9db49828,
            g.bits == 0x1e21bc1c,
            g.nonce == 0x48e5e,
            g.daa_score == 0,
            g.coinbase_payload@ == devnet_genesis_payload(),
    {
        let hash = BlockHash::from_bytes([
            0x4c, 0xb4, 0x8d, 0x0b, 0x20, 0x73, 0xb8, 0x02,
            0x36, 0x01, 0x45, 0xa1, 0x5a, 0xd1, 0xab, 0xdc,
            0x01, 0xd8, 0x9b, 0x5c, 0x2f, 0xe4, 0x72, 0x26,
            0x30, 0xab, 0x9b, 0x5f, 0xe9, 0xdf, 0xc4, 0xf2,
        ]);
        let hash_merkle_root = BlockHash::from_bytes([
            0x58, 0xab, 0xf2, 0x03, 0x21, 0xd7, 0x07, 0x16,
            0x16, 0x2b, 0x6b, 0xf8, 0xd9, 0xf5, 0x89, 0xca,
            0x33, 0xae, 0x6e, 0x32, 0xb3, 0xb1, 0x9a, 0xbb,
            0x7f, 0xa6, 0x5d, 0x11, 0x41, 0xa3, 0xf9, 0x4d,
        ]);
        let coinbase_payload: Vec<u8> = vec![
            0x00, 0x00, 0x00, 0x00, 0x00, 0x00, 0x00, 0x00,
            0x00, 0xE1, 0xF5, 0x05, 0x00, 0x00, 0x00, 0x00,
            0x00, 0x00, 0x01, 0x00, 0x77, 0x61, 0x67, 0x6C,
            0x61, 0x79, 0x6C, 0x61, 0x2d, 0x64, 0x65, 0x76,
            0x6e, 0x65, 0x74,
        ];
        proof {
            assert(hash@ =~= devnet_genesis_hash());
            assert(hash_merkle_root@ =~= devnet_genesis_merkle_root());
            assert(coinbase_payload@ =~= devnet_genesis_payload());
        }
        GenesisBlock {
            hash,
            version: 0,
            hash_merkle_root,
            utxo_commitment: empty_muhash(),
            timestamp: 0x11e9db49828,
            bits: 0x1e21bc1c,
            nonce: 0x48e5e,
            daa_score: 0,
            coinbase_payload,
        }
    }
}

} // verus!
