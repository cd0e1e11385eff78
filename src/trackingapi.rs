//! What the service makes of the tracking provider's answers. The requests
//! themselves are sent by the caller; each function here takes the decoded
//! answer and says whether the request succeeded, and if not, why.
#![allow(non_camel_case_types)]
use vstd::prelude::*;
use crate::tracking_data_formats::delete_tracking_number_response::DeleteTrackingResponseNumber;
use crate::tracking_data_formats::register_tracking_number_response::RegisterResponse;
use crate::tracking_data_formats::retrack_stopped_number_response::RetrackStoppedNumberResponse;
use crate::tracking_data_formats::stop_tracking_response::StopTrackingResponse;
use crate::tracking_data_formats::tracking_data_get_info::TrackingResponse;
use crate::tracking_data_formats::tracking_number_meta_data::NumberStatusCheck;

verus! {

/// Rejection code: the number is registered already.
pub const ALREADY_REGISTERED: i32 = -18019901;
/// Rejection code: the registration request was malformed.
pub const INVALID_REGISTER_FORMAT: i32 = -18010013;
/// Rejection code: the number is tracked, so it cannot be tracked again.
pub const RETRACK_ONLY_STOPPED: i32 = -18019904;
/// Rejection code: the number was tracked again once before.
pub const RETRACKED_BEFORE: i32 = -18019905;
/// Rejection code: the number is not registered.
pub const NOT_REGISTERED: i32 = -18019902;
/// Rejection code: there is no tracking data for the number at this time.
pub const NO_TRACKING_DATA_YET: i32 = -18019909;

/// Why a request to the tracking provider did not succeed.
#[derive(Debug, Clone, Copy, PartialEq, Eq, Structural)]
pub enum tracking_error {
    UnexpectedError,
    TrackingNumberNotFoundByAPI,
    InvalidRegisterDataFormat,
    AlreadyDelivered,
    InfoNotReady,
    GetTrackInfoError,
    TrackingRejected,
    ReTrackRejectedAlreadyTracked,
    ReTrackRejectedAlreadyRetrackedBefore,
    RetrackError,
    TrackingStopError,
    NumberNotFound,
    TrackingAlreadyRegistered,
    /// The request could not be sent, or the answer was not a success.
    ReqwestError,
    /// The answer could not be decoded, or reported an error.
    SerdeError,
    /// The store failed.
    DatabaseError,
}

/// A number, with its carrier where the user knows it.
#[derive(Debug, Clone, PartialEq)]
pub struct tracking_number_carrier {
    pub number: String,
    pub carrier: Option<i32>,
}

/// A number alone.
#[derive(Debug, Clone, PartialEq)]
pub struct just_the_tracking_number {
    pub number: String,
}

/// The error of a registration answer with `code`, `accepted` and
/// `rejected` entries, the first rejection having `first_code`; `None` for
/// success.
pub open spec fn register_error(code: i32, accepted: nat, rejected: nat, first_code: i32) -> Option<tracking_error> {
    if code == 0 {
        if accepted == 1 {
            None
        } else if rejected == 1 {
            if first_code == ALREADY_REGISTERED {
                Some(tracking_error::TrackingAlreadyRegistered)
            } else if first_code == INVALID_REGISTER_FORMAT {
                Some(tracking_error::InvalidRegisterDataFormat)
            } else {
                Some(tracking_error::TrackingRejected)
            }
        } else {
            Some(tracking_error::UnexpectedError)
        }
    } else if code == 1 {
        Some(tracking_error::SerdeError)
    } else {
        Some(tracking_error::UnexpectedError)
    }
}

/// The answer to a registration of one number, or why it failed.
pub fn register_tracking(response: RegisterResponse) -> (r: Result<RegisterResponse, tracking_error>)
    ensures
        match register_error(
            response.code,
            response.data.accepted@.len(),
            response.data.rejected@.len(),
            if response.data.rejected@.len() > 0 { response.data.rejected@[0].error.code } else { 0 },
        ) {
            None => r == Ok::<RegisterResponse, tracking_error>(response),
            Some(e) => r == Err::<RegisterResponse, tracking_error>(e),
        },
{
    if response.code == 0 {
        if response.data.accepted.len() == 1 {
            Ok(response)
        } else if response.data.rejected.len() == 1 {
            let c = response.data.rejected[0].error.code;
            if c == ALREADY_REGISTERED {
                Err(tracking_error::TrackingAlreadyRegistered)
            } else if c == INVALID_REGISTER_FORMAT {
                Err(tracking_error::InvalidRegisterDataFormat)
            } else {
                Err(tracking_error::TrackingRejected)
            }
        } else {
            Err(tracking_error::UnexpectedError)
        }
    } else if response.code == 1 {
        Err(tracking_error::SerdeError)
    } else {
        Err(tracking_error::UnexpectedError)
    }
}

/// The error of an answer with `code`, `accepted` and `rejected` entries,
/// the first rejection having `first_code`, where `rejection` gives the
/// error for a single rejection; `None` for success.
pub open spec fn single_number_error(
    code: i32,
    accepted: nat,
    rejected: nat,
    rejection: tracking_error,
) -> Option<tracking_error> {
    if code == 0 {
        if accepted == 1 {
            None
        } else if rejected == 1 {
            Some(rejection)
        } else {
            Some(tracking_error::UnexpectedError)
        }
    } else if code == 1 {
        Some(tracking_error::SerdeError)
    } else {
        Some(tracking_error::UnexpectedError)
    }
}

/// The answer to a request to stop tracking one number, or why it failed.
pub fn stop_tracking(response: StopTrackingResponse) -> (r: Result<StopTrackingResponse, tracking_error>)
    ensures
        match single_number_error(
            response.code,
            response.data.accepted@.len(),
            response.data.rejected@.len(),
            tracking_error::TrackingStopError,
        ) {
            None => r == Ok::<StopTrackingResponse, tracking_error>(response),
            Some(e) => r == Err::<StopTrackingResponse, tracking_error>(e),
        },
{
    if response.code == 0 {
        if response.data.accepted.len() == 1 {
            Ok(response)
        } else if response.data.rejected.len() == 1 {
            Err(tracking_error::TrackingStopError)
        } else {
            Err(tracking_error::UnexpectedError)
        }
    } else if response.code == 1 {
        Err(tracking_error::SerdeError)
    } else {
        Err(tracking_error::UnexpectedError)
    }
}

/// The error for a single rejection of a retrack request with `code`.
pub open spec fn retrack_rejection(code: i32) -> tracking_error {
    if code == RETRACK_ONLY_STOPPED {
        tracking_error::ReTrackRejectedAlreadyTracked
    } else if code == RETRACKED_BEFORE {
        tracking_error::ReTrackRejectedAlreadyRetrackedBefore
    } else {
        tracking_error::RetrackError
    }
}

/// The answer to a request to track a stopped number again, or why it
/// failed.
pub fn retrack_stopped_number(response: RetrackStoppedNumberResponse) -> (r: Result<RetrackStoppedNumberResponse, tracking_error>)
    ensures
        match single_number_error(
            response.code,
            response.data.accepted@.len(),
            response.data.rejected@.len(),
            retrack_rejection(if response.data.rejected@.len() > 0 { response.data.rejected@[0].error.code } else { 0 }),
        ) {
            None => r == Ok::<RetrackStoppedNumberResponse, tracking_error>(response),
            Some(e) => r == Err::<RetrackStoppedNumberResponse, tracking_error>(e),
        },
{
    if response.code == 0 {
        if response.data.accepted.len() == 1 {
            Ok(response)
        } else if response.data.rejected.len() == 1 {
            let c = response.data.rejected[0].error.code;
            if c == RETRACK_ONLY_STOPPED {
                Err(tracking_error::ReTrackRejectedAlreadyTracked)
            } else if c == RETRACKED_BEFORE {
                Err(tracking_error::ReTrackRejectedAlreadyRetrackedBefore)
            } else {
                Err(tracking_error::RetrackError)
            }
        } else {
            Err(tracking_error::UnexpectedError)
        }
    } else if response.code == 1 {
        Err(tracking_error::SerdeError)
    } else {
        Err(tracking_error::UnexpectedError)
    }
}

/// The error for a single rejection of a delete request with `code`.
pub open spec fn delete_rejection(code: i32) -> tracking_error {
    if code == NOT_REGISTERED {
        tracking_error::NumberNotFound
    } else {
        tracking_error::UnexpectedError
    }
}

/// The answer to a request to delete one number, or why it failed.
pub fn delete_number(response: DeleteTrackingResponseNumber) -> (r: Result<DeleteTrackingResponseNumber, tracking_error>)
    ensures
        match single_number_error(
            response.code,
            response.data.accepted@.len(),
            response.data.rejected@.len(),
            delete_rejection(if response.data.rejected@.len() > 0 { response.data.rejected@[0].error.code } else { 0 }),
        ) {
            None => r == Ok::<DeleteTrackingResponseNumber, tracking_error>(response),
            Some(e) => r == Err::<DeleteTrackingResponseNumber, tracking_error>(e),
        },
{
    if response.code == 0 {
        if response.data.accepted.len() == 1 {
            Ok(response)
        } else if response.data.rejected.len() == 1 {
            if response.data.rejected[0].error.code == NOT_REGISTERED {
                Err(tracking_error::NumberNotFound)
            } else {
                Err(tracking_error::UnexpectedError)
            }
        } else {
            Err(tracking_error::UnexpectedError)
        }
    } else if response.code == 1 {
        Err(tracking_error::SerdeError)
    } else {
        Err(tracking_error::UnexpectedError)
    }
}

/// The error of a metadata answer with `code` and `accepted` entries;
/// `None` for success.
pub open spec fn metadata_error(code: i32, accepted: nat) -> Option<tracking_error> {
    if code == 0 && accepted == 1 {
        None
    } else if code == 1 {
        Some(tracking_error::SerdeError)
    } else {
        Some(tracking_error::UnexpectedError)
    }
}

/// The metadata of one number, or why the request failed.
pub fn get_number_metadata(response: NumberStatusCheck) -> (r: Result<NumberStatusCheck, tracking_error>)
    ensures
        match metadata_error(response.code, response.data.accepted@.len()) {
            None => r == Ok::<NumberStatusCheck, tracking_error>(response),
            Some(e) => r == Err::<NumberStatusCheck, tracking_error>(e),
        },
{
    if response.code == 0 && response.data.accepted.len() == 1 {
        Ok(response)
    } else if response.code == 1 {
        Err(tracking_error::SerdeError)
    } else {
        Err(tracking_error::UnexpectedError)
    }
}

/// What to do with an answer to a request for tracking data.
#[derive(Debug, Clone, PartialEq)]
pub enum TrackInfoStep {
    /// The data is there.
    Ready(TrackingResponse),
    /// There is no data yet: track the number again, then ask once more.
    Retrack,
    /// The request failed.
    Failed(tracking_error),
}

/// What an answer to a request for tracking data leads to: an answer with
/// code 1 is an error; one accepted package is the data; a first rejection
/// saying that there is no data yet asks for the number to be tracked
/// again; anything else is an error.
pub fn gettrackinfo_pull(response: TrackingResponse) -> (r: TrackInfoStep)
    ensures
        if response.code == 1 {
            r == TrackInfoStep::Failed(tracking_error::UnexpectedError)
        } else if response.data.accepted@.len() == 1 {
            r == TrackInfoStep::Ready(response)
        } else if response.data.rejected@.len() > 0 && response.data.rejected@[0].error.code == NO_TRACKING_DATA_YET {
            r == TrackInfoStep::Retrack
        } else {
            r == TrackInfoStep::Failed(tracking_error::GetTrackInfoError)
        },
{
    if response.code == 1 {
        TrackInfoStep::Failed(tracking_error::UnexpectedError)
    } else if response.data.accepted.len() == 1 {
        TrackInfoStep::Ready(response)
    } else if response.data.rejected.len() > 0 && response.data.rejected[0].error.code == NO_TRACKING_DATA_YET {
        TrackInfoStep::Retrack
    } else {
        TrackInfoStep::Failed(tracking_error::GetTrackInfoError)
    }
}

/// After a retrack asked for by [`gettrackinfo_pull`]: `None` where the
/// data is to be asked for once more, else the error to give. A number
/// that is tracked already has no data ready yet.
pub fn after_retrack(retrack: Option<tracking_error>) -> (r: Option<tracking_error>)
    ensures
        r == match retrack {
            None => None,
            Some(tracking_error::ReTrackRejectedAlreadyTracked) => Some(tracking_error::InfoNotReady),
            Some(e) => Some(e),
        },
{
    match retrack {
        None => None,
        Some(tracking_error::ReTrackRejectedAlreadyTracked) => Some(tracking_error::InfoNotReady),
        Some(e) => Some(e),
    }
}

} // verus!
