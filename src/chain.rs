//! The chain-agnostic transaction and block abstraction, and the records
//! built from it.

use vstd::prelude::*;
use crate::types::{
    AddressHashMode, BlockHeaderHash, BurnchainHeaderHash, MessageSignature, StacksAddress,
    StacksBlockId, StacksPublicKey, Txid,
};

verus! {

/// A public key that can check signatures over a hash.
pub trait PublicKey: Clone + core::fmt::Debug {
    fn to_bytes(&self) -> Vec<u8>;

    fn verify(&self, data_hash: &[u8], sig: &MessageSignature) -> Result<bool, &'static str>;
}

/// A private key that can sign a hash.
pub trait PrivateKey: Clone + core::fmt::Debug {
    fn to_bytes(&self) -> Vec<u8>;

    fn sign(&self, data_hash: &[u8]) -> Result<MessageSignature, &'static str>;
}

/// An address of the base chain.
pub trait Address: Clone + core::fmt::Debug {
    fn to_bytes(&self) -> Vec<u8>;

    fn from_string(from: &str) -> Option<Self> where Self: Sized;

    fn is_burn(&self) -> bool;
}

/// An m-of-n authorization: a hash mode, the number of signatures required
/// and the ordered public keys.
#[derive(Clone, Debug, PartialEq, Eq)]
pub struct BurnchainSigner {
    pub hash_mode: AddressHashMode,
    pub num_sigs: usize,
    pub public_keys: Vec<StacksPublicKey>,
}

/// One payout or burn destination of proof-of-transfer.
#[derive(Clone, Copy, Debug, PartialEq, Eq)]
pub struct BurnchainRecipient {
    pub address: StacksAddress,
    pub amount: u64,
}

/// The operation-specific payload of an event of the layer-1 chain.
#[derive(Clone, Copy, Debug, PartialEq)]
pub enum StacksHyperOpType {
    BlockCommit { subnet_block_hash: BlockHeaderHash },
}

/// An operation decoded from an event of the layer-1 chain.
#[derive(Clone, Copy, Debug, PartialEq)]
pub struct StacksHyperOp {
    pub txid: Txid,
    pub in_block: StacksBlockId,
    pub opcode: u8,
    pub event_index: u32,
    pub event: StacksHyperOpType,
}

/// A transaction of any supported base-chain encoding.
#[derive(Clone, Copy, Debug, PartialEq)]
pub enum BurnchainTransaction {
    StacksBase(StacksHyperOp),
}

impl BurnchainTransaction {
    /// The identifier of the transaction.
    pub open spec fn spec_txid(&self) -> Txid {
        match *self {
            BurnchainTransaction::StacksBase(op) => op.txid,
        }
    }

    /// The position of the transaction within its block.
    pub open spec fn spec_vtxindex(&self) -> u32 {
        match *self {
            BurnchainTransaction::StacksBase(op) => op.event_index,
        }
    }

    /// The byte that selects the parser of the operation.
    pub open spec fn spec_opcode(&self) -> u8 {
        match *self {
            BurnchainTransaction::StacksBase(op) => op.opcode,
        }
    }

    pub fn txid(&self) -> (r: Txid)
        ensures
            r == self.spec_txid(),
    {
        match *self {
            BurnchainTransaction::StacksBase(ref tx) => tx.txid,
        }
    }

    pub fn vtxindex(&self) -> (r: u32)
        ensures
            r == self.spec_vtxindex(),
    {
        match *self {
            BurnchainTransaction::StacksBase(ref tx) => tx.event_index,
        }
    }

    pub fn opcode(&self) -> (r: u8)
        ensures
            r == self.spec_opcode(),
    {
        match *self {
            BurnchainTransaction::StacksBase(ref tx) => tx.opcode,
        }
    }

    /// The value this transaction destroys on the base chain; events of the
    /// layer-1 chain carry none.
    pub fn get_burn_amount(&self) -> (r: u64)
        ensures
            r == 0,
    {
        0
    }
}

/// A block of the layer-1 chain, with the operations relevant to the overlay
/// chain in ascending order of their index within the block.
#[derive(Clone, Debug, PartialEq)]
pub struct StacksHyperBlock {
    pub current_block: StacksBlockId,
    pub parent_block: StacksBlockId,
    pub block_height: u64,
    pub ops: Vec<StacksHyperOp>,
}

/// A block of any supported base-chain encoding.
#[derive(Clone, Debug, PartialEq)]
pub enum BurnchainBlock {
    StacksHyperBlock(StacksHyperBlock),
}

/// The normalized header of a base-chain block.
#[derive(Clone, Copy, Debug, PartialEq)]
pub struct BurnchainBlockHeader {
    pub block_height: u64,
    pub block_hash: BurnchainHeaderHash,
    pub parent_block_hash: BurnchainHeaderHash,
    pub num_txs: u64,
    pub timestamp: u64,
}

/// The operations of one block that were accepted, in the block's order.
#[derive(Clone, Debug)]
pub struct BurnchainStateTransition {
    pub accepted_ops: Vec<BurnchainTransaction>,
}

} // verus!
