//! What the tracking provider posts to the webhook.
use vstd::prelude::*;
use super::tracking_data_base::TrackInfo;
use super::tracking_data_database_form::{PackageData, TrackingData_DBF};
use super::tracking_data_html_form::{html_form, is_html_form_of, tracking_data_HTML};

verus! {

/// One webhook call: the name of the event and what it carries.
#[derive(Debug, Clone, PartialEq)]
pub struct TrackingResponse {
    pub event: String,
    pub data: TrackingData,
}

/// The two kinds of event: an update with the full tracking data of a
/// number, or the notice that a number is no longer tracked.
#[derive(Debug, Clone, PartialEq)]
pub enum TrackingData {
    PackageData(PackageDataWebhook),
    TrackingStopped(TrackingStopped),
}

#[derive(Debug, Clone, PartialEq)]
pub struct TrackingStopped {
    pub number: String,
    pub carrier: i32,
    pub param: Option<()>,
    pub tag: Option<String>,
}

#[derive(Debug, Clone, PartialEq)]
pub struct PackageDataWebhook {
    pub number: String,
    pub carrier: i32,
    pub param: Option<()>,
    pub tag: Option<String>,
    pub track_info: TrackInfo,
}

/// The snapshot that an update stores: its number, carrier, parameter, tag
/// and tracking data, unchanged.
pub open spec fn snapshot_of(p: PackageDataWebhook) -> TrackingData_DBF {
    TrackingData_DBF {
        data: PackageData {
            number: p.number,
            carrier: p.carrier,
            param: p.param,
            tag: p.tag,
            track_info: p.track_info,
        },
    }
}

impl TrackingResponse {
    /// The snapshot that the event stores, if it is an update.
    pub fn convert_to_tracking_data_dbf(self) -> (r: Option<TrackingData_DBF>)
        ensures
            match self.data {
                TrackingData::PackageData(p) => r == Some(snapshot_of(p)),
                TrackingData::TrackingStopped(_) => r is None,
            },
    {
        match self.data {
            TrackingData::PackageData(p) => p.convert_to_tracking_data_dbf(),
            TrackingData::TrackingStopped(_) => None,
        }
    }
}

impl PackageDataWebhook {
    /// The snapshot that the update stores; there always is one.
    pub fn convert_to_tracking_data_dbf(self) -> (r: Option<TrackingData_DBF>)
        ensures
            r == Some(snapshot_of(self)),
    {
        Some(TrackingData_DBF {
            data: PackageData {
                number: self.number,
                carrier: self.carrier,
                param: self.param,
                tag: self.tag,
                track_info: self.track_info,
            },
        })
    }

    pub fn convert_to_tracking_data_html_form(&self) -> (r: tracking_data_HTML)
        ensures
            is_html_form_of(r, self.number, self.tag, self.track_info),
    {
        html_form(&self.number, &self.tag, &self.track_info)
    }
}

} // verus!
