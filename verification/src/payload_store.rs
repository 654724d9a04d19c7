//! The payload-store facade: in-progress build jobs addressable by
//! payload id, and the projection of a build artifact to the V1 payload
//! or the V2 envelope shape.

use vstd::prelude::*;

use crate::copying::{copy_byte_lists, copy_withdrawals};
use crate::types::{
    ExecutionPayload, ExecutionPayloadEnvelope, PayloadId, PayloadView, U256,
};

verus! {

/// The artifact of an in-progress build job: the payload built so far and
/// the fees it collects for the proposer.
#[derive(Clone, PartialEq, Eq, Debug)]
pub struct BuiltPayload {
    pub id: PayloadId,
    pub payload: ExecutionPayload,
    pub fees: U256,
}

/// The artifact an id lookup yields on `payloads`: the most recently
/// stored artifact carrying `id`, if any.
pub open spec fn latest_by_id(payloads: Seq<BuiltPayload>, id: PayloadId) -> Option<BuiltPayload>
    decreases payloads.len(),
{
    if payloads.len() == 0 {
        None
    } else if payloads.last().id == id {
        Some(payloads.last())
    } else {
        latest_by_id(payloads.drop_last(), id)
    }
}

/// The store of in-progress build jobs, viewed as the sequence of
/// artifacts put into it, oldest first.
#[derive(Debug)]
pub struct PayloadStore {
    pub payloads: Vec<BuiltPayload>,
}

impl View for PayloadStore {
    type V = Seq<BuiltPayload>;

    open spec fn view(&self) -> Seq<BuiltPayload> {
        self.payloads@
    }
}

impl PayloadStore {
    /// An empty store.
    pub fn new() -> (r: PayloadStore)
        ensures
            r@ == Seq::<BuiltPayload>::empty(),
    {
        PayloadStore { payloads: Vec::new() }
    }

    /// Record a build artifact. A later artifact with the same id shadows
    /// an earlier one.
    pub fn put(&mut self, payload: BuiltPayload)
        ensures
            final(self)@ == old(self)@.push(payload),
    {
        self.payloads.push(payload);
    }

    /// Look a build artifact up by payload id.
    pub fn get_payload(&self, id: PayloadId) -> (r: Option<&BuiltPayload>)
        ensures
            match r {
                Some(b) => latest_by_id(self@, id) == Some(*b),
                None => latest_by_id(self@, id) is None,
            },
    {
        let mut i: usize = self.payloads.len();
        proof {
            assert(self@.subrange(0, self@.len() as int) =~= self@);
        }
        while i > 0
            invariant
                i <= self.payloads.len(),
                latest_by_id(self@, id) == latest_by_id(self@.subrange(0, i as int), id),
            decreases i,
        {
            i = i - 1;
            proof {
                let scanned = self@.subrange(0, (i + 1) as int);
                assert(scanned.last() == self@[i as int]);
                assert(scanned.drop_last() =~= self@.subrange(0, i as int));
            }
            if self.payloads[i].id.id == id.id {
                return Some(&self.payloads[i]);
            }
        }
        proof {
            assert(self@.subrange(0, 0) =~= Seq::<BuiltPayload>::empty());
        }
        None
    }
}

impl BuiltPayload {
    /// Project the artifact to its pre-Shanghai shape: the payload with
    /// the withdrawals and the envelope metadata stripped.
    pub fn into_v1_payload(&self) -> (r: ExecutionPayload)
        ensures
            r@ == (PayloadView { withdrawals: None, ..self.payload@ }),
    {
        let r = ExecutionPayload {
            parent_hash: self.payload.parent_hash,
            block_hash: self.payload.block_hash,
            block_number: self.payload.block_number,
            prev_randao: self.payload.prev_randao,
            timestamp: self.payload.timestamp,
            transactions: copy_byte_lists(&self.payload.transactions),
            withdrawals: None,
        };
        r
    }

    /// Return the full V2 envelope: the payload as built, and its value.
    pub fn into_v2_payload(&self) -> (r: ExecutionPayloadEnvelope)
        ensures
            r.payload@ == self.payload@,
            r.block_value == self.fees,
    {
        ExecutionPayloadEnvelope {
            payload: ExecutionPayload {
                parent_hash: self.payload.parent_hash,
                block_hash: self.payload.block_hash,
                block_number: self.payload.block_number,
                prev_randao: self.payload.prev_randao,
                timestamp: self.payload.timestamp,
                transactions: copy_byte_lists(&self.payload.transactions),
                withdrawals: copy_withdrawals(&self.payload.withdrawals),
            },
            block_value: self.fees,
        }
    }
}

} // verus!
