//! The Engine API itself: one entry point per method, each validating
//! its request and delegating to the gateway, the stores or the
//! reconciler.

use vstd::prelude::*;

use tokio::sync::mpsc::UnboundedSender;
use tokio::sync::oneshot;

use crate::chain_spec::ChainSpec;
use crate::error::{EngineApiError, EngineApiResult};
use crate::message::{send_to_engine, BeaconEngineMessage};
use crate::payload_store::{latest_by_id, PayloadStore};
use crate::store::{body_of_block, hash_at, latest_by_hash, latest_by_number, Block, BlockStore};
use crate::types::{
    BlockHash, ExecutionPayload, ExecutionPayloadBody, ExecutionPayloadEnvelope, ForkchoiceState,
    ForkchoiceUpdatedReply, PayloadAttributes, PayloadId, PayloadStatus, PayloadView,
    TransitionConfiguration,
};
use crate::version::{withdrawals_presence_verdict, EngineApiMessageVersion};

verus! {

/// The upper limit for payload bodies requests.
pub const MAX_PAYLOAD_BODIES_LIMIT: u64 = 1024;

/// The schema verdict on a payload under the given chain spec and method
/// version.
pub open spec fn payload_verdict(
    chain_spec: ChainSpec,
    version: EngineApiMessageVersion,
    payload: ExecutionPayload,
) -> Result<(), EngineApiError> {
    withdrawals_presence_verdict(
        version,
        chain_spec.spec_is_shanghai_at(payload.timestamp),
        payload.withdrawals is Some,
    )
}

/// The schema verdict on optional payload attributes: absent attributes
/// are always valid.
pub open spec fn attributes_verdict(
    chain_spec: ChainSpec,
    version: EngineApiMessageVersion,
    attrs: Option<PayloadAttributes>,
) -> Result<(), EngineApiError> {
    match attrs {
        None => Ok(()),
        Some(a) => withdrawals_presence_verdict(
            version,
            chain_spec.spec_is_shanghai_at(a.timestamp),
            a.withdrawals is Some,
        ),
    }
}

/// Whether a slot of a payload-bodies reply reports the lookup outcome
/// `block` faithfully: absent exactly when the store holds no such
/// block, and otherwise the block's body projection.
pub open spec fn body_slot_matches(
    slot: Option<ExecutionPayloadBody>,
    block: Option<Block>,
) -> bool {
    match block {
        Some(b) => (slot matches Some(body) && body_of_block(body, b)),
        None => slot is None,
    }
}

/// The method names this execution layer serves.
pub open spec fn spec_capabilities() -> Seq<Seq<char>> {
    seq![
        "engine_newPayloadV1"@,
        "engine_newPayloadV2"@,
        "engine_forkchoiceUpdatedV1"@,
        "engine_forkchoiceUpdatedV2"@,
        "engine_getPayloadV1"@,
        "engine_getPayloadV2"@,
        "engine_getPayloadBodiesByHashV1"@,
        "engine_getPayloadBodiesByRangeV1"@,
        "engine_exchangeTransitionConfigurationV1"@,
        "engine_exchangeCapabilitiesV1"@,
    ]
}

/// The Engine API service: grants the consensus layer access to the
/// execution-layer data and operations that the consensus process needs.
#[derive(Debug)]
pub struct EngineApi {
    /// The execution-layer block store.
    pub client: BlockStore,
    /// Fork configuration of the local chain.
    pub chain_spec: ChainSpec,
    /// The channel on which requests reach the beacon consensus engine.
    pub to_beacon_consensus: UnboundedSender<BeaconEngineMessage>,
    /// The in-progress payload build jobs.
    pub payload_store: PayloadStore,
}

impl EngineApi {
    /// Create a new instance of the service. The Engine API is only
    /// served on chains that have a Paris fork with a terminal total
    /// difficulty.
    pub fn new(
        client: BlockStore,
        chain_spec: ChainSpec,
        to_beacon_consensus: UnboundedSender<BeaconEngineMessage>,
        payload_store: PayloadStore,
    ) -> (r: EngineApi)
        requires
            chain_spec.paris_ttd is Some,
        ensures
            r.client@ == client@,
            r.chain_spec == chain_spec,
            r.to_beacon_consensus == to_beacon_consensus,
            r.payload_store@ == payload_store@,
    {
        EngineApi { client, chain_spec, to_beacon_consensus, payload_store }
    }

    /// Validate the presence of the withdrawals field against the method
    /// version and the payload timestamp. After Shanghai the field must
    /// be present; before Shanghai it must be absent; V1 never accepts
    /// it.
    pub fn validate_withdrawals_presence(
        &self,
        version: EngineApiMessageVersion,
        timestamp: u64,
        has_withdrawals: bool,
    ) -> (r: EngineApiResult<()>)
        ensures
            r == withdrawals_presence_verdict(
                version,
                self.chain_spec.spec_is_shanghai_at(timestamp),
                has_withdrawals,
            ),
    {
        let is_shanghai = self.chain_spec.is_shanghai_active_at_timestamp(timestamp);

        match version {
            EngineApiMessageVersion::V1 => {
                if has_withdrawals {
                    return Err(EngineApiError::WithdrawalsNotSupportedInV1);
                }
                if is_shanghai {
                    return Err(EngineApiError::NoWithdrawalsPostShanghai);
                }
            },
            EngineApiMessageVersion::V2 => {
                if is_shanghai && !has_withdrawals {
                    return Err(EngineApiError::NoWithdrawalsPostShanghai);
                }
                if !is_shanghai && has_withdrawals {
                    return Err(EngineApiError::HasWithdrawalsPreShanghai);
                }
            },
        }

        Ok(())
    }

    /// Validate a payload and build the request that forwards it to the
    /// consensus engine: the message embeds the payload verbatim together
    /// with a fresh one-shot reply slot, whose receiving half is
    /// returned alongside.
    pub fn prepare_new_payload(
        &self,
        version: EngineApiMessageVersion,
        payload: ExecutionPayload,
    ) -> (r: EngineApiResult<
        (BeaconEngineMessage, oneshot::Receiver<EngineApiResult<PayloadStatus>>),
    >)
        ensures
            match payload_verdict(self.chain_spec, version, payload) {
                Err(e) => r == Err::<
                    (BeaconEngineMessage, oneshot::Receiver<EngineApiResult<PayloadStatus>>),
                    EngineApiError,
                >(e),
                Ok(_) => (r matches Ok(p) && p.0 matches BeaconEngineMessage::NewPayload {
                    payload: q,
                    tx: _,
                } && q == payload),
            },
    {
        self.validate_withdrawals_presence(
            version,
            payload.timestamp,
            payload.withdrawals.is_some(),
        )?;
        let (tx, rx) = oneshot::channel();
        Ok((BeaconEngineMessage::NewPayload { payload, tx }, rx))
    }

    /// Validate optional attributes and build the fork-choice request:
    /// the message embeds the state and the attributes verbatim together
    /// with a fresh one-shot reply slot, whose receiving half is
    /// returned alongside.
    pub fn prepare_forkchoice_updated(
        &self,
        version: EngineApiMessageVersion,
        state: ForkchoiceState,
        payload_attrs: Option<PayloadAttributes>,
    ) -> (r: EngineApiResult<
        (BeaconEngineMessage, oneshot::Receiver<EngineApiResult<ForkchoiceUpdatedReply>>),
    >)
        ensures
            match attributes_verdict(self.chain_spec, version, payload_attrs) {
                Err(e) => r == Err::<
                    (
                        BeaconEngineMessage,
                        oneshot::Receiver<EngineApiResult<ForkchoiceUpdatedReply>>,
                    ),
                    EngineApiError,
                >(e),
                Ok(_) => (r matches Ok(p) && p.0 matches BeaconEngineMessage::ForkchoiceUpdated {
                    state: s,
                    payload_attrs: a,
                    tx: _,
                } && s == state && a == payload_attrs),
            },
    {
        match payload_attrs {
            Some(ref attrs) => {
                self.validate_withdrawals_presence(
                    version,
                    attrs.timestamp,
                    attrs.withdrawals.is_some(),
                )?;
            },
            None => {},
        }
        let (tx, rx) = oneshot::channel();
        Ok((BeaconEngineMessage::ForkchoiceUpdated { state, payload_attrs, tx }, rx))
    }

    /// Serve `engine_newPayloadV1`: validate the payload against the V1
    /// schema, forward it to the consensus engine, and hand back the
    /// reply slot on which the engine's payload status arrives.
    pub fn new_payload_v1(&self, payload: ExecutionPayload) -> (r: EngineApiResult<
        oneshot::Receiver<EngineApiResult<PayloadStatus>>,
    >)
        ensures
            match payload_verdict(self.chain_spec, EngineApiMessageVersion::V1, payload) {
                Err(e) => r == Err::<
                    oneshot::Receiver<EngineApiResult<PayloadStatus>>,
                    EngineApiError,
                >(e),
                Ok(_) => (r matches Ok(_) || r == Err::<
                    oneshot::Receiver<EngineApiResult<PayloadStatus>>,
                    EngineApiError,
                >(EngineApiError::EngineUnavailable)),
            },
    {
        let (msg, rx) = self.prepare_new_payload(EngineApiMessageVersion::V1, payload)?;
        match send_to_engine(&self.to_beacon_consensus, msg) {
            Ok(_) => Ok(rx),
            Err(_) => Err(EngineApiError::EngineUnavailable),
        }
    }

    /// Serve `engine_newPayloadV2`: as V1, under the V2 schema.
    pub fn new_payload_v2(&self, payload: ExecutionPayload) -> (r: EngineApiResult<
        oneshot::Receiver<EngineApiResult<PayloadStatus>>,
    >)
        ensures
            match payload_verdict(self.chain_spec, EngineApiMessageVersion::V2, payload) {
                Err(e) => r == Err::<
                    oneshot::Receiver<EngineApiResult<PayloadStatus>>,
                    EngineApiError,
                >(e),
                Ok(_) => (r matches Ok(_) || r == Err::<
                    oneshot::Receiver<EngineApiResult<PayloadStatus>>,
                    EngineApiError,
                >(EngineApiError::EngineUnavailable)),
            },
    {
        let (msg, rx) = self.prepare_new_payload(EngineApiMessageVersion::V2, payload)?;
        match send_to_engine(&self.to_beacon_consensus, msg) {
            Ok(_) => Ok(rx),
            Err(_) => Err(EngineApiError::EngineUnavailable),
        }
    }

    /// Serve `engine_forkchoiceUpdatedV1`: validate any attributes
    /// against the V1 schema, forward state and attributes to the
    /// consensus engine, and hand back the reply slot.
    pub fn fork_choice_updated_v1(
        &self,
        state: ForkchoiceState,
        payload_attrs: Option<PayloadAttributes>,
    ) -> (r: EngineApiResult<oneshot::Receiver<EngineApiResult<ForkchoiceUpdatedReply>>>)
        ensures
            match attributes_verdict(self.chain_spec, EngineApiMessageVersion::V1, payload_attrs) {
                Err(e) => r == Err::<
                    oneshot::Receiver<EngineApiResult<ForkchoiceUpdatedReply>>,
                    EngineApiError,
                >(e),
                Ok(_) => (r matches Ok(_) || r == Err::<
                    oneshot::Receiver<EngineApiResult<ForkchoiceUpdatedReply>>,
                    EngineApiError,
                >(EngineApiError::EngineUnavailable)),
            },
    {
        let (msg, rx) = self.prepare_forkchoice_updated(
            EngineApiMessageVersion::V1,
            state,
            payload_attrs,
        )?;
        match send_to_engine(&self.to_beacon_consensus, msg) {
            Ok(_) => Ok(rx),
            Err(_) => Err(EngineApiError::EngineUnavailable),
        }
    }

    /// Serve `engine_forkchoiceUpdatedV2`: as V1, under the V2 schema.
    pub fn fork_choice_updated_v2(
        &self,
        state: ForkchoiceState,
        payload_attrs: Option<PayloadAttributes>,
    ) -> (r: EngineApiResult<oneshot::Receiver<EngineApiResult<ForkchoiceUpdatedReply>>>)
        ensures
            match attributes_verdict(self.chain_spec, EngineApiMessageVersion::V2, payload_attrs) {
                Err(e) => r == Err::<
                    oneshot::Receiver<EngineApiResult<ForkchoiceUpdatedReply>>,
                    EngineApiError,
                >(e),
                Ok(_) => (r matches Ok(_) || r == Err::<
                    oneshot::Receiver<EngineApiResult<ForkchoiceUpdatedReply>>,
                    EngineApiError,
                >(EngineApiError::EngineUnavailable)),
            },
    {
        let (msg, rx) = self.prepare_forkchoice_updated(
            EngineApiMessageVersion::V2,
            state,
            payload_attrs,
        )?;
        match send_to_engine(&self.to_beacon_consensus, msg) {
            Ok(_) => Ok(rx),
            Err(_) => Err(EngineApiError::EngineUnavailable),
        }
    }

    /// Serve `engine_getPayloadV1`: the build job's most recent payload,
    /// projected to its pre-Shanghai shape.
    pub fn get_payload_v1(&self, payload_id: PayloadId) -> (r: EngineApiResult<ExecutionPayload>)
        ensures
            match latest_by_id(self.payload_store@, payload_id) {
                None => r == Err::<ExecutionPayload, EngineApiError>(
                    EngineApiError::UnknownPayload,
                ),
                Some(built) => (r matches Ok(p) && p@ == (PayloadView {
                    withdrawals: None,
                    ..built.payload@
                })),
            },
    {
        match self.payload_store.get_payload(payload_id) {
            Some(built) => Ok(built.into_v1_payload()),
            None => Err(EngineApiError::UnknownPayload),
        }
    }

    /// Serve `engine_getPayloadV2`: the build job's most recent payload
    /// in its full envelope.
    pub fn get_payload_v2(&self, payload_id: PayloadId) -> (r: EngineApiResult<
        ExecutionPayloadEnvelope,
    >)
        ensures
            match latest_by_id(self.payload_store@, payload_id) {
                None => r == Err::<ExecutionPayloadEnvelope, EngineApiError>(
                    EngineApiError::UnknownPayload,
                ),
                Some(built) => (r matches Ok(env) && env.payload@ == built.payload@
                    && env.block_value == built.fees),
            },
    {
        match self.payload_store.get_payload(payload_id) {
            Some(built) => Ok(built.into_v2_payload()),
            None => Err(EngineApiError::UnknownPayload),
        }
    }

    /// Serve `engine_getPayloadBodiesByRangeV1`: the bodies of the
    /// blocks numbered `start..start + count`, in order, each slot
    /// absent exactly when the store holds no such block.
    pub fn get_payload_bodies_by_range(&self, start: u64, count: u64) -> (r: EngineApiResult<
        Vec<Option<ExecutionPayloadBody>>,
    >)
        requires
            count <= MAX_PAYLOAD_BODIES_LIMIT && start != 0 && count != 0 ==> start + count - 1
                <= u64::MAX,
        ensures
            count > MAX_PAYLOAD_BODIES_LIMIT ==> r == Err::<
                Vec<Option<ExecutionPayloadBody>>,
                EngineApiError,
            >(EngineApiError::PayloadRequestTooLarge { len: count }),
            count <= MAX_PAYLOAD_BODIES_LIMIT && (start == 0 || count == 0) ==> r == Err::<
                Vec<Option<ExecutionPayloadBody>>,
                EngineApiError,
            >(EngineApiError::InvalidBodiesRange { start, count }),
            count <= MAX_PAYLOAD_BODIES_LIMIT && start != 0 && count != 0 ==> (r matches Ok(bodies)
                && bodies@.len() == count && forall|i: int|
                0 <= i < count ==> #[trigger] body_slot_matches(
                    bodies@[i],
                    latest_by_number(self.client@, (start + i) as u64),
                )),
    {
        if count > MAX_PAYLOAD_BODIES_LIMIT {
            return Err(EngineApiError::PayloadRequestTooLarge { len: count });
        }

        if start == 0 || count == 0 {
            return Err(EngineApiError::InvalidBodiesRange { start, count });
        }

        let mut result: Vec<Option<ExecutionPayloadBody>> = Vec::new();
        let mut i: u64 = 0;
        while i < count
            invariant
                i <= count,
                start + count - 1 <= u64::MAX,
                start != 0,
                result@.len() == i,
                forall|j: int|
                    0 <= j < i ==> #[trigger] body_slot_matches(
                        result@[j],
                        latest_by_number(self.client@, (start + j) as u64),
                    ),
            decreases count - i,
        {
            let num = start + i;
            match self.client.block_by_number(num) {
                Some(block) => {
                    let body = block.body();
                    result.push(Some(body));
                },
                None => {
                    result.push(None);
                },
            }
            i = i + 1;
        }

        Ok(result)
    }

    /// Serve `engine_getPayloadBodiesByHashV1`: one slot per requested
    /// hash, in request order, absent exactly when the store holds no
    /// block with that hash.
    pub fn get_payload_bodies_by_hash(&self, hashes: Vec<BlockHash>) -> (r: EngineApiResult<
        Vec<Option<ExecutionPayloadBody>>,
    >)
        ensures
            hashes@.len() > MAX_PAYLOAD_BODIES_LIMIT ==> r == Err::<
                Vec<Option<ExecutionPayloadBody>>,
                EngineApiError,
            >(EngineApiError::PayloadRequestTooLarge { len: hashes@.len() as u64 }),
            hashes@.len() <= MAX_PAYLOAD_BODIES_LIMIT ==> (r matches Ok(bodies) && bodies@.len()
                == hashes@.len() && forall|i: int|
                0 <= i < hashes@.len() ==> #[trigger] body_slot_matches(
                    bodies@[i],
                    latest_by_hash(self.client@, hashes@[i]),
                )),
    {
        let len = hashes.len() as u64;
        if len > MAX_PAYLOAD_BODIES_LIMIT {
            return Err(EngineApiError::PayloadRequestTooLarge { len });
        }

        let mut result: Vec<Option<ExecutionPayloadBody>> = Vec::new();
        let mut i: usize = 0;
        while i < hashes.len()
            invariant
                i <= hashes@.len(),
                result@.len() == i,
                forall|j: int|
                    0 <= j < i ==> #[trigger] body_slot_matches(
                        result@[j],
                        latest_by_hash(self.client@, hashes@[j]),
                    ),
            decreases hashes@.len() - i,
        {
            match self.client.block_by_hash(hashes[i]) {
                Some(block) => {
                    let body = block.body();
                    result.push(Some(body));
                },
                None => {
                    result.push(None);
                },
            }
            i = i + 1;
        }

        Ok(result)
    }

    /// Serve `engine_exchangeCapabilitiesV1`: the consensus layer's own
    /// list is informational and ignored; the reply is the fixed list of
    /// methods this execution layer serves.
    pub fn exchange_capabilities(&self, _capabilities: Vec<String>) -> (r: Vec<String>)
        ensures
            r.deep_view() == spec_capabilities(),
    {
        let mut caps: Vec<String> = Vec::new();
        caps.push("engine_newPayloadV1".to_owned());
        caps.push("engine_newPayloadV2".to_owned());
        caps.push("engine_forkchoiceUpdatedV1".to_owned());
        caps.push("engine_forkchoiceUpdatedV2".to_owned());
        caps.push("engine_getPayloadV1".to_owned());
        caps.push("engine_getPayloadV2".to_owned());
        caps.push("engine_getPayloadBodiesByHashV1".to_owned());
        caps.push("engine_getPayloadBodiesByRangeV1".to_owned());
        caps.push("engine_exchangeTransitionConfigurationV1".to_owned());
        caps.push("engine_exchangeCapabilitiesV1".to_owned());
        proof {
            assert(caps.deep_view() =~= spec_capabilities());
        }
        caps
    }

    /// Serve `engine_exchangeTransitionConfigurationV1`: compare the
    /// consensus layer's terminal proof-of-work parameters against the
    /// local chain spec and block store. A zero terminal block hash is a
    /// polling shortcut: the local terminal total difficulty is echoed
    /// with a zero block. Otherwise the configurations agree exactly
    /// when the store holds the asserted block hash at the asserted
    /// number.
    pub fn exchange_transition_configuration(&self, config: TransitionConfiguration) -> (r:
        EngineApiResult<TransitionConfiguration>)
        requires
            self.chain_spec.paris_ttd is Some,
        ensures
            ({
                let local = self.chain_spec.paris_ttd.unwrap();
                if config.terminal_total_difficulty != local {
                    r == Err::<TransitionConfiguration, EngineApiError>(
                        EngineApiError::TerminalTD {
                            execution: local,
                            consensus: config.terminal_total_difficulty,
                        },
                    )
                } else if config.terminal_block_hash == BlockHash::spec_zero() {
                    r == Ok::<TransitionConfiguration, EngineApiError>(TransitionConfiguration {
                        terminal_total_difficulty: local,
                        terminal_block_hash: BlockHash::spec_zero(),
                        terminal_block_number: 0,
                    })
                } else {
                    match hash_at(self.client@, config.terminal_block_number) {
                        Some(h) => if h == config.terminal_block_hash {
                            r == Ok::<TransitionConfiguration, EngineApiError>(config)
                        } else {
                            r == Err::<TransitionConfiguration, EngineApiError>(
                                EngineApiError::TerminalBlockHash {
                                    execution: Some(h),
                                    consensus: config.terminal_block_hash,
                                },
                            )
                        },
                        None => r == Err::<TransitionConfiguration, EngineApiError>(
                            EngineApiError::TerminalBlockHash {
                                execution: None,
                                consensus: config.terminal_block_hash,
                            },
                        ),
                    }
                }
            }),
    {
        let merge_terminal_td = self.chain_spec.paris_ttd.unwrap();

        if merge_terminal_td != config.terminal_total_difficulty {
            return Err(EngineApiError::TerminalTD {
                execution: merge_terminal_td,
                consensus: config.terminal_total_difficulty,
            });
        }

        if config.terminal_block_hash.is_zero() {
            return Ok(TransitionConfiguration {
                terminal_total_difficulty: merge_terminal_td,
                terminal_block_hash: BlockHash::zero(),
                terminal_block_number: 0,
            });
        }

        let local_hash = self.client.block_hash(config.terminal_block_number);

        match local_hash {
            Some(hash) => {
                if hash == config.terminal_block_hash {
                    Ok(config)
                } else {
                    Err(EngineApiError::TerminalBlockHash {
                        execution: Some(hash),
                        consensus: config.terminal_block_hash,
                    })
                }
            },
            None => Err(EngineApiError::TerminalBlockHash {
                execution: None,
                consensus: config.terminal_block_hash,
            }),
        }
    }
}

} // verus!
