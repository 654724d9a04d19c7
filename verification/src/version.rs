//! Version-gated schema validation: whether a payload or attributes
//! object may, or must, carry withdrawals, given the method version and
//! the Shanghai activation rule.

use vstd::prelude::*;

use crate::error::EngineApiError;

verus! {

/// The version of the Engine API method that was invoked.
#[derive(Clone, Copy, PartialEq, Eq, Structural, Debug)]
pub enum EngineApiMessageVersion {
    V1,
    V2,
}

/// The schema verdict on a payload or attributes object: `version` is the
/// method version invoked, `is_shanghai` whether Shanghai is active at the
/// object's own timestamp, and `has_withdrawals` whether the object
/// carries a withdrawals list.
///
/// V1 objects must never carry withdrawals and are rejected outright
/// after Shanghai; V2 objects must carry withdrawals exactly when their
/// timestamp is at or after Shanghai activation. Every other combination
/// is valid.
pub open spec fn withdrawals_presence_verdict(
    version: EngineApiMessageVersion,
    is_shanghai: bool,
    has_withdrawals: bool,
) -> Result<(), EngineApiError> {
    match version {
        EngineApiMessageVersion::V1 => {
            if has_withdrawals {
                Err(EngineApiError::WithdrawalsNotSupportedInV1)
            } else if is_shanghai {
                Err(EngineApiError::NoWithdrawalsPostShanghai)
            } else {
                Ok(())
            }
        },
        EngineApiMessageVersion::V2 => {
            if is_shanghai && !has_withdrawals {
                Err(EngineApiError::NoWithdrawalsPostShanghai)
            } else if !is_shanghai && has_withdrawals {
                Err(EngineApiError::HasWithdrawalsPreShanghai)
            } else {
                Ok(())
            }
        },
    }
}

/// Schema completeness: over every combination of version, withdrawals
/// presence and Shanghai activation, the verdict is exactly the one the
/// Engine API schema prescribes — the four rejected rows produce their
/// named errors, and every remaining combination is valid.
pub proof fn lemma_schema_completeness(
    version: EngineApiMessageVersion,
    is_shanghai: bool,
    has_withdrawals: bool,
)
    ensures
        version == EngineApiMessageVersion::V1 && has_withdrawals
            ==> withdrawals_presence_verdict(version, is_shanghai, has_withdrawals)
                == Err::<(), EngineApiError>(EngineApiError::WithdrawalsNotSupportedInV1),
        version == EngineApiMessageVersion::V1 && !has_withdrawals && is_shanghai
            ==> withdrawals_presence_verdict(version, is_shanghai, has_withdrawals)
                == Err::<(), EngineApiError>(EngineApiError::NoWithdrawalsPostShanghai),
        version == EngineApiMessageVersion::V2 && !has_withdrawals && is_shanghai
            ==> withdrawals_presence_verdict(version, is_shanghai, has_withdrawals)
                == Err::<(), EngineApiError>(EngineApiError::NoWithdrawalsPostShanghai),
        version == EngineApiMessageVersion::V2 && has_withdrawals && !is_shanghai
            ==> withdrawals_presence_verdict(version, is_shanghai, has_withdrawals)
                == Err::<(), EngineApiError>(EngineApiError::HasWithdrawalsPreShanghai),
        version == EngineApiMessageVersion::V1 && !has_withdrawals && !is_shanghai
            ==> withdrawals_presence_verdict(version, is_shanghai, has_withdrawals)
                == Ok::<(), EngineApiError>(()),
        version == EngineApiMessageVersion::V2 && has_withdrawals == is_shanghai
            ==> withdrawals_presence_verdict(version, is_shanghai, has_withdrawals)
                == Ok::<(), EngineApiError>(()),
{
}

} // verus!
