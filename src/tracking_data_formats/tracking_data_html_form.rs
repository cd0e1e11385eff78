//! The form in which tracking data is handed to clients.
#![allow(non_camel_case_types)]
use vstd::prelude::*;
use super::tracking_data_base;

verus! {

#[derive(Debug, Clone, PartialEq)]
pub struct tracking_data_HTML {
    pub tracking_number: String,
    pub tag: Option<String>,
    pub latest_event: event,
    pub providers_data: Vec<tracking_provider_provided_events>,
    pub time_metrics: Option<tracking_data_base::time_metrics>,
}

#[derive(Debug, Clone, PartialEq)]
pub struct tracking_provider_provided_events {
    pub provider_name: Option<String>,
    pub provider_key: Option<i32>,
    pub provider_events: Vec<event>,
}

#[derive(Debug, Clone, PartialEq)]
pub struct event {
    pub description: Option<String>,
    pub location: Option<String>,
    pub stage: Option<String>,
    pub sub_status: Option<String>,
    pub address: Option<tracking_data_base::Address>,
    pub time: Option<tracking_data_base::time_raw>,
}

/// `r` is the client form of the tracking data of `number`, with `tag` and
/// `info`: the latest event in short form, each provider in short form in
/// the same order, and the time metrics.
pub open spec fn is_html_form_of(
    r: tracking_data_HTML,
    number: String,
    tag: Option<String>,
    info: tracking_data_base::TrackInfo,
) -> bool {
    &&& r.tracking_number == number
    &&& r.tag == tag
    &&& r.latest_event == tracking_data_base::html_event_of(info.latest_event)
    &&& r.providers_data@.len() == info.tracking.providers@.len()
    &&& forall|i: int| 0 <= i < info.tracking.providers@.len()
        ==> tracking_data_base::is_html_provider_of(info.tracking.providers@[i], #[trigger] r.providers_data@[i])
    &&& r.time_metrics == Some(info.time_metrics)
}

/// The client form of the tracking data of `number`.
pub fn html_form(
    number: &String,
    tag: &Option<String>,
    info: &tracking_data_base::TrackInfo,
) -> (r: tracking_data_HTML)
    ensures
        is_html_form_of(r, *number, *tag, *info),
{
    let mut providers_data: Vec<tracking_provider_provided_events> = Vec::new();
    let n = info.tracking.providers.len();
    for i in 0..n
        invariant
            n == info.tracking.providers@.len(),
            providers_data@.len() == i,
            forall|j: int| 0 <= j < i ==> tracking_data_base::is_html_provider_of(
                info.tracking.providers@[j],
                #[trigger] providers_data@[j],
            ),
    {
        providers_data.push(info.tracking.providers[i].convert_to_HTML_provider());
    }
    tracking_data_HTML {
        tracking_number: number.clone(),
        tag: tracking_data_base::copy_text(tag),
        latest_event: info.latest_event.convert_to_HTML_event(),
        providers_data,
        time_metrics: Some(info.time_metrics.copied()),
    }
}

} // verus!
