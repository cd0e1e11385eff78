//! The form in which the latest tracking data of a number is stored.
#![allow(non_camel_case_types, non_snake_case)]
use vstd::prelude::*;
use super::tracking_data_base::TrackInfo;
use super::tracking_data_html_form::{html_form, is_html_form_of, tracking_data_HTML};

verus! {

/// The snapshot of one tracking number.
#[derive(Debug, Clone, PartialEq)]
pub struct TrackingData_DBF {
    pub data: PackageData,
}

#[derive(Debug, Clone, PartialEq)]
pub struct PackageData {
    pub number: String,
    pub carrier: i32,
    pub param: Option<()>,
    pub tag: Option<String>,
    pub track_info: TrackInfo,
}

impl TrackingData_DBF {
    pub fn convert_to_HTML_form(&self) -> (r: tracking_data_HTML)
        ensures
            is_html_form_of(r, self.data.number, self.data.tag, self.data.track_info),
    {
        html_form(&self.data.number, &self.data.tag, &self.data.track_info)
    }
}

} // verus!
