//! What the provider knows of a registered number: whether it is tracked and
//! what became of the package.
use vstd::prelude::*;

verus! {

#[derive(Debug, Clone, PartialEq)]
pub struct NumberStatusCheck {
    pub page: Page,
    pub code: i32,
    pub data: PageData,
}

#[derive(Debug, Clone, PartialEq)]
pub struct Page {
    pub data_total: i32,
    pub page_total: i32,
    pub page_no: i32,
    pub page_size: i32,
}

#[derive(Debug, Clone, PartialEq)]
pub struct PageData {
    pub accepted: Vec<AcceptedPage>,
}

#[derive(Debug, Clone, PartialEq)]
pub struct AcceptedPage {
    pub number: Option<String>,
    pub param: Option<()>,
    pub param_type: Option<String>,
    pub data_origin: Option<String>,
    pub carrier: Option<i32>,
    pub shipping_country: Option<String>,
    pub final_carrier: Option<i32>,
    pub recipient_country: Option<String>,
    pub register_time: Option<String>,
    pub tracking_status: String,
    pub package_status: String,
    pub track_time: Option<String>,
    pub push_time: Option<String>,
    pub push_status: Option<String>,
    pub push_status_code: Option<i32>,
    pub stop_track_time: Option<String>,
    pub stop_track_reason: Option<String>,
    pub is_retracked: Option<bool>,
    pub carrier_change_count: Option<i32>,
    pub tag: Option<String>,
    pub email: Option<String>,
    pub order_no: Option<String>,
    pub order_time: Option<String>,
    pub lang: Option<String>,
    pub remark: Option<String>,
    pub latest_event_time: Option<String>,
    pub latest_event_info: Option<String>,
    pub days_after_order: Option<String>,
    pub days_after_last_update: Option<String>,
    pub days_of_transit: Option<String>,
    pub days_of_transit_done: Option<String>,
    pub delievery_time: Option<String>,
    pub pickup_time: Option<String>,
}

} // verus!
