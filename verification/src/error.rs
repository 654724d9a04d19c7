//! The error taxonomy the Engine API core exposes to the transport.

use vstd::prelude::*;

use crate::types::{BlockHash, U256};

verus! {

/// Every way a request can fail at this layer.
///
/// Schema errors and input-validation errors are decided locally and
/// deterministically; `UnknownPayload` and the two reconciliation errors
/// are first-class replies the consensus layer interprets;
/// `EngineUnavailable` surfaces a consensus engine that is no longer
/// listening (the request channel refused the send, or the reply slot was
/// dropped without a value).
#[derive(Clone, Copy, PartialEq, Eq, Debug)]
pub enum EngineApiError {
    /// A V1 method was invoked with a payload or attributes carrying
    /// withdrawals.
    WithdrawalsNotSupportedInV1,
    /// A payload or attributes timestamped at or after Shanghai carried
    /// no withdrawals.
    NoWithdrawalsPostShanghai,
    /// A V2 payload or attributes timestamped before Shanghai carried
    /// withdrawals.
    HasWithdrawalsPreShanghai,
    /// No in-flight build job matches the requested payload id.
    UnknownPayload,
    /// A payload-bodies request asked for more than the size cap allows.
    PayloadRequestTooLarge { len: u64 },
    /// A payload-bodies range request with a zero start or a zero count.
    InvalidBodiesRange { start: u64, count: u64 },
    /// The two layers disagree on the terminal total difficulty.
    TerminalTD { execution: U256, consensus: U256 },
    /// The two layers disagree on the terminal proof-of-work block.
    TerminalBlockHash { execution: Option<BlockHash>, consensus: BlockHash },
    /// The consensus engine has shut down.
    EngineUnavailable,
}

/// The result type of every Engine API operation.
pub type EngineApiResult<T> = Result<T, EngineApiError>;

} // verus!
