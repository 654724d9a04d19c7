//! Plain-value models of the objects that cross the Engine API: hashes,
//! difficulties, payloads, attributes, fork-choice state and replies.

use vstd::prelude::*;

verus! {

/// A 256-bit block hash, held as four 64-bit words, least significant first.
#[derive(Clone, Copy, PartialEq, Eq, Structural, Debug)]
pub struct BlockHash {
    pub w0: u64,
    pub w1: u64,
    pub w2: u64,
    pub w3: u64,
}

impl BlockHash {
    /// The all-zero hash, which the consensus layer sends when it has no
    /// terminal block to assert.
    pub open spec fn spec_zero() -> BlockHash {
        BlockHash { w0: 0, w1: 0, w2: 0, w3: 0 }
    }

    pub fn zero() -> (r: BlockHash)
        ensures
            r == BlockHash::spec_zero(),
    {
        BlockHash { w0: 0, w1: 0, w2: 0, w3: 0 }
    }

    pub fn is_zero(&self) -> (r: bool)
        ensures
            r == (*self == BlockHash::spec_zero()),
    {
        self.w0 == 0 && self.w1 == 0 && self.w2 == 0 && self.w3 == 0
    }

    /// A hash whose low word is `n` and whose other words are zero.
    pub fn from_low(n: u64) -> (r: BlockHash)
        ensures
            r == (BlockHash { w0: n, w1: 0, w2: 0, w3: 0 }),
    {
        BlockHash { w0: n, w1: 0, w2: 0, w3: 0 }
    }
}

/// A 256-bit unsigned integer, held as four 64-bit limbs, least
/// significant first. The Engine API only ever compares difficulties for
/// equality.
#[derive(Clone, Copy, PartialEq, Eq, Structural, Debug)]
pub struct U256 {
    pub l0: u64,
    pub l1: u64,
    pub l2: u64,
    pub l3: u64,
}

impl U256 {
    pub fn from_low(n: u64) -> (r: U256)
        ensures
            r == (U256 { l0: n, l1: 0, l2: 0, l3: 0 }),
    {
        U256 { l0: n, l1: 0, l2: 0, l3: 0 }
    }
}

/// A 160-bit account address.
#[derive(Clone, Copy, PartialEq, Eq, Debug)]
pub struct Address {
    pub bytes: [u8; 20],
}

/// The opaque 8-byte identifier of an in-flight payload build job.
#[derive(Clone, Copy, PartialEq, Eq, Structural, Debug)]
pub struct PayloadId {
    pub id: u64,
}

/// A validator withdrawal carried by post-Shanghai payloads.
#[derive(Clone, Copy, PartialEq, Eq, Structural, Debug)]
pub struct Withdrawal {
    pub index: u64,
    pub validator_index: u64,
    pub amount_gwei: u64,
}

/// A candidate block handed over the Engine API: header fields plus the
/// raw transaction list, with withdrawals present only per the Shanghai
/// schema rule.
#[derive(Clone, PartialEq, Eq, Debug)]
pub struct ExecutionPayload {
    pub parent_hash: BlockHash,
    pub block_hash: BlockHash,
    pub block_number: u64,
    pub prev_randao: BlockHash,
    pub timestamp: u64,
    pub transactions: Vec<Vec<u8>>,
    pub withdrawals: Option<Vec<Withdrawal>>,
}

/// The mathematical value of an [`ExecutionPayload`].
pub struct PayloadView {
    pub parent_hash: BlockHash,
    pub block_hash: BlockHash,
    pub block_number: u64,
    pub prev_randao: BlockHash,
    pub timestamp: u64,
    pub transactions: Seq<Seq<u8>>,
    pub withdrawals: Option<Seq<Withdrawal>>,
}

impl View for ExecutionPayload {
    type V = PayloadView;

    open spec fn view(&self) -> PayloadView {
        PayloadView {
            parent_hash: self.parent_hash,
            block_hash: self.block_hash,
            block_number: self.block_number,
            prev_randao: self.prev_randao,
            timestamp: self.timestamp,
            transactions: self.transactions.deep_view(),
            withdrawals: match self.withdrawals {
                Some(w) => Some(w@),
                None => None,
            },
        }
    }
}

/// Build parameters the consensus layer supplies when it asks for a new
/// payload, under the same withdrawals rule as payloads themselves.
#[derive(Clone, PartialEq, Eq, Debug)]
pub struct PayloadAttributes {
    pub timestamp: u64,
    pub prev_randao: BlockHash,
    pub suggested_fee_recipient: Address,
    pub withdrawals: Option<Vec<Withdrawal>>,
}

/// The consensus layer's declaration of head, safe and finalized blocks.
/// Opaque to this crate; forwarded verbatim.
#[derive(Clone, Copy, PartialEq, Eq, Structural, Debug)]
pub struct ForkchoiceState {
    pub head_block_hash: BlockHash,
    pub safe_block_hash: BlockHash,
    pub finalized_block_hash: BlockHash,
}

/// Outcome tag of a `newPayload` or `forkchoiceUpdated` request, supplied
/// by the consensus engine and never synthesized here.
#[derive(Clone, Copy, PartialEq, Eq, Structural, Debug)]
pub enum PayloadStatusTag {
    Valid,
    Invalid,
    Syncing,
    Accepted,
    InvalidBlockHash,
}

/// Status of a payload as reported by the consensus engine.
#[derive(Clone, PartialEq, Eq, Debug)]
pub struct PayloadStatus {
    pub status: PayloadStatusTag,
    pub latest_valid_hash: Option<BlockHash>,
    pub validation_error: Option<String>,
}

/// Reply to a `forkchoiceUpdated` request.
#[derive(Clone, PartialEq, Eq, Debug)]
pub struct ForkchoiceUpdatedReply {
    pub payload_status: PayloadStatus,
    pub payload_id: Option<PayloadId>,
}

/// The terminal proof-of-work triple exchanged during the transition
/// handshake.
#[derive(Clone, Copy, PartialEq, Eq, Structural, Debug)]
pub struct TransitionConfiguration {
    pub terminal_total_difficulty: U256,
    pub terminal_block_hash: BlockHash,
    pub terminal_block_number: u64,
}

/// One entry of a payload-bodies reply: the transactions, ommers and,
/// when the block is post-Shanghai, withdrawals of a stored block.
#[derive(Clone, PartialEq, Eq, Debug)]
pub struct ExecutionPayloadBody {
    pub transactions: Vec<Vec<u8>>,
    pub ommers: Vec<BlockHash>,
    pub withdrawals: Option<Vec<Withdrawal>>,
}

/// The mathematical value of an [`ExecutionPayloadBody`].
pub struct BodyView {
    pub transactions: Seq<Seq<u8>>,
    pub ommers: Seq<BlockHash>,
    pub withdrawals: Option<Seq<Withdrawal>>,
}

impl View for ExecutionPayloadBody {
    type V = BodyView;

    open spec fn view(&self) -> BodyView {
        BodyView {
            transactions: self.transactions.deep_view(),
            ommers: self.ommers@,
            withdrawals: match self.withdrawals {
                Some(w) => Some(w@),
                None => None,
            },
        }
    }
}

/// The full `getPayload` V2 reply: the payload together with the fees it
/// collects for the proposer.
#[derive(Clone, PartialEq, Eq, Debug)]
pub struct ExecutionPayloadEnvelope {
    pub payload: ExecutionPayload,
    pub block_value: U256,
}

} // verus!
