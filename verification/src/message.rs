//! The outbound face of the beacon message gateway: the request messages
//! sent to the consensus engine, the per-request one-shot reply slots
//! bundled into them, and the treatment of a reply once it arrives.

use vstd::prelude::*;

use tokio::sync::mpsc::UnboundedSender;
use tokio::sync::oneshot;

use crate::error::{EngineApiError, EngineApiResult};
use crate::types::{
    ExecutionPayload, ForkchoiceState, ForkchoiceUpdatedReply, PayloadAttributes, PayloadStatus,
};

verus! {

/// Declares tokio::sync::mpsc::UnboundedSender, the send half of the
/// channel to the consensus engine; opaque here.
#[verifier::external_type_specification]
#[verifier::external_body]
#[verifier::reject_recursive_types(T)]
pub struct ExUnboundedSender<T>(UnboundedSender<T>);

/// Declares tokio::sync::oneshot::Sender, the slot on which the
/// consensus engine answers one request; opaque here.
#[verifier::external_type_specification]
#[verifier::external_body]
#[verifier::reject_recursive_types(T)]
pub struct ExOneshotSender<T>(oneshot::Sender<T>);

/// Declares tokio::sync::oneshot::Receiver, the half of the reply slot
/// handed back to the caller; opaque here.
#[verifier::external_type_specification]
#[verifier::external_body]
#[verifier::reject_recursive_types(T)]
pub struct ExOneshotReceiver<T>(oneshot::Receiver<T>);

/// Declares tokio::sync::oneshot::error::RecvError, the error a reply
/// slot yields when its sender was dropped; opaque here.
#[verifier::external_type_specification]
#[verifier::external_body]
pub struct ExOneshotRecvError(oneshot::error::RecvError);

/// The reply slot bundled into a request to the consensus engine. Each
/// inbound call allocates a fresh one; none is ever reused.
pub type EngineApiSender<T> = oneshot::Sender<EngineApiResult<T>>;

/// A request to the consensus engine, carrying the caller's data
/// verbatim and the one-shot slot on which the engine answers.
pub enum BeaconEngineMessage {
    /// Import the given payload and report its status.
    NewPayload { payload: ExecutionPayload, tx: EngineApiSender<PayloadStatus> },
    /// Make the given state canonical and, when attributes are present,
    /// start building a payload on top of it.
    ForkchoiceUpdated {
        state: ForkchoiceState,
        payload_attrs: Option<PayloadAttributes>,
        tx: EngineApiSender<ForkchoiceUpdatedReply>,
    },
}

/// Relies on tokio::sync::oneshot::channel: allocates a fresh, connected
/// sender/receiver pair.
pub assume_specification<T>[ tokio::sync::oneshot::channel::<T> ]() -> (r: (
    oneshot::Sender<T>,
    oneshot::Receiver<T>,
));

/// Relies on tokio::sync::mpsc::UnboundedSender::send: the message is
/// queued for the receiver unless the receive half is closed, in which
/// case the error hands the message back.
#[verifier::external_body]
pub fn send_to_engine(
    tx: &UnboundedSender<BeaconEngineMessage>,
    msg: BeaconEngineMessage,
) -> (r: Result<(), BeaconEngineMessage>)
    ensures
        r matches Err(m) ==> m == msg,
{
    tx.send(msg).map_err(|e| e.0)
}

/// Interpret the outcome of awaiting a reply slot: `None` stands for a
/// slot dropped without a value, which means the consensus engine has
/// shut down; a value is the engine's own verdict, returned verbatim.
pub fn on_engine_reply<T>(reply: Option<EngineApiResult<T>>) -> (r: EngineApiResult<T>)
    ensures
        match reply {
            None => r == Err::<T, EngineApiError>(EngineApiError::EngineUnavailable),
            Some(verdict) => r == verdict,
        },
{
    match reply {
        None => Err(EngineApiError::EngineUnavailable),
        Some(verdict) => verdict,
    }
}

} // verus!
