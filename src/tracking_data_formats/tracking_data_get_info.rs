//! Answer of the provider to a request for the tracking data of a number.
use vstd::prelude::*;
use super::tracking_data_base::TrackInfo;
use super::tracking_data_database_form::{PackageData, TrackingData_DBF};

verus! {

#[derive(Debug, Clone, PartialEq)]
pub struct TrackingResponse {
    pub code: i32,
    pub data: ResponseData,
}

#[derive(Debug, Clone, PartialEq)]
pub struct ResponseData {
    pub accepted: Vec<AcceptedPackage>,
    pub rejected: Vec<RejectedPackage>,
}

#[derive(Debug, Clone, PartialEq)]
pub struct AcceptedPackage {
    pub number: String,
    pub carrier: i32,
    pub param: Option<()>,
    pub tag: Option<String>,
    pub track_info: TrackInfo,
}

#[derive(Debug, Clone, PartialEq)]
pub struct RejectedPackage {
    pub number: String,
    pub error: RejectedError,
}

#[derive(Debug, Clone, PartialEq)]
pub struct RejectedError {
    pub code: i32,
    pub message: String,
}

/// The snapshot that an accepted package stores.
pub open spec fn accepted_snapshot(a: AcceptedPackage) -> TrackingData_DBF {
    TrackingData_DBF {
        data: PackageData {
            number: a.number,
            carrier: a.carrier,
            param: a.param,
            tag: a.tag,
            track_info: a.track_info,
        },
    }
}

impl TrackingResponse {
    /// The snapshot of the first accepted package.
    pub fn convert_to_tracking_data_dbf(self) -> (r: TrackingData_DBF)
        requires
            self.data.accepted@.len() > 0,
        ensures
            r == accepted_snapshot(self.data.accepted@[0]),
    {
        let mut accepted = self.data.accepted;
        let a = accepted.remove(0);
        TrackingData_DBF {
            data: PackageData {
                number: a.number,
                carrier: a.carrier,
                param: a.param,
                tag: a.tag,
                track_info: a.track_info,
            },
        }
    }
}

} // verus!
