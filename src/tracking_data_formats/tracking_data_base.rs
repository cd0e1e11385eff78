//! Building blocks that the provider's tracking documents share.
#![allow(non_camel_case_types, non_snake_case)]
use vstd::prelude::*;
use super::tracking_data_html_form;

verus! {

#[derive(Debug, Clone, PartialEq)]
pub struct TrackInfo {
    pub lastGatherTime: Option<String>,
    pub shipping_info: ShippingInfo,
    pub latest_status: Status,
    pub latest_event: event,
    pub time_metrics: time_metrics,
    pub milestone: Vec<milestone>,
    pub misc_info: misc_info,
    pub tracking: tracking_details,
}

#[derive(Debug, Clone, PartialEq)]
pub struct ShippingInfo {
    pub shipper_address: Address,
    pub recipient_address: Address,
}

#[derive(Debug, Clone, PartialEq)]
pub struct Address {
    pub country: Option<String>,
    pub state: Option<String>,
    pub city: Option<String>,
    pub street: Option<String>,
    pub postal_code: Option<String>,
    pub coordinates: Coordinates,
}

/// A position, each axis kept as the IEEE-754 bit pattern of the provider's
/// number so that it passes through the service unchanged.
#[derive(Debug, Clone, Copy, PartialEq)]
pub struct Coordinates {
    pub longitude: Option<u64>,
    pub latitude: Option<u64>,
}

#[derive(Debug, Clone, PartialEq)]
pub struct Status {
    pub status: Option<String>,
    pub sub_status: Option<String>,
    pub sub_status_descr: Option<String>,
}

#[derive(Debug, Clone, PartialEq)]
pub struct event {
    pub time_iso: Option<String>,
    pub time_utc: Option<String>,
    pub time_raw: time_raw,
    pub description: Option<String>,
    pub location: Option<String>,
    pub stage: Option<String>,
    pub sub_status: Option<String>,
    pub address: Address,
}

#[derive(Debug, Clone, PartialEq)]
pub struct time_raw {
    pub date: Option<String>,
    pub time: Option<String>,
    pub timezone: Option<String>,
}

#[derive(Debug, Clone, PartialEq)]
pub struct time_metrics {
    pub days_after_order: Option<i32>,
    pub days_of_transit: Option<i32>,
    pub days_of_transit_done: Option<i32>,
    pub days_after_last_update: Option<i32>,
    pub estimated_delivery_date: delivery_estimate,
}

#[derive(Debug, Clone, PartialEq)]
pub struct delivery_estimate {
    pub source: Option<String>,
    pub from: Option<String>,
    pub to: Option<String>,
}

#[derive(Debug, Clone, PartialEq)]
pub struct milestone {
    pub key_stage: Option<String>,
    pub time_iso: Option<String>,
    pub time_utc: Option<String>,
    pub time_raw: time_raw,
}

#[derive(Debug, Clone, PartialEq)]
pub struct misc_info {
    pub risk_factor: i32,
    pub service_type: Option<String>,
    pub weight_raw: Option<String>,
    pub weight_kg: Option<String>,
    pub pieces: Option<String>,
    pub dimensions: Option<String>,
    pub customer_number: Option<String>,
    pub reference_number: Option<String>,
    pub local_number: Option<String>,
    pub local_provider: Option<String>,
    pub local_key: Option<i32>,
}

#[derive(Debug, Clone, PartialEq)]
pub struct tracking_details {
    pub providers_hash: Option<i32>,
    pub providers: Vec<provider>,
}

#[derive(Debug, Clone, PartialEq)]
pub struct provider {
    pub provider: carrier_info,
    pub provider_lang: Option<String>,
    pub service_type: Option<String>,
    pub latest_sync_status: Option<String>,
    pub latest_sync_time: Option<String>,
    pub events_hash: Option<i32>,
    pub events: Vec<event>,
}

#[derive(Debug, Clone, PartialEq)]
pub struct carrier_info {
    pub key: Option<i32>,
    pub name: Option<String>,
    pub alias: Option<String>,
    pub tel: Option<String>,
    pub homepage: Option<String>,
}

/// The short form of an event that clients are shown.
pub open spec fn html_event_of(e: event) -> tracking_data_html_form::event {
    tracking_data_html_form::event {
        description: e.description,
        location: e.location,
        stage: e.stage,
        sub_status: e.sub_status,
        address: Some(e.address),
        time: Some(e.time_raw),
    }
}

/// `r` is the short form of the provider `p`: its name, its key, and each of
/// its events in short form, in the same order.
pub open spec fn is_html_provider_of(p: provider, r: tracking_data_html_form::tracking_provider_provided_events) -> bool {
    &&& r.provider_name == p.provider.name
    &&& r.provider_key == p.provider.key
    &&& r.provider_events@.len() == p.events@.len()
    &&& forall|i: int| 0 <= i < p.events@.len() ==> #[trigger] r.provider_events@[i] == html_event_of(p.events@[i])
}

/// A copy of an optional text.
pub fn copy_text(t: &Option<String>) -> (r: Option<String>)
    ensures
        r == *t,
{
    match t {
        Some(s) => Some(s.clone()),
        None => None,
    }
}

impl Address {
    /// A copy of the address.
    pub fn copied(&self) -> (r: Address)
        ensures
            r == *self,
    {
        Address {
            country: copy_text(&self.country),
            state: copy_text(&self.state),
            city: copy_text(&self.city),
            street: copy_text(&self.street),
            postal_code: copy_text(&self.postal_code),
            coordinates: self.coordinates,
        }
    }
}

impl time_raw {
    /// A copy of the raw time.
    pub fn copied(&self) -> (r: time_raw)
        ensures
            r == *self,
    {
        time_raw {
            date: copy_text(&self.date),
            time: copy_text(&self.time),
            timezone: copy_text(&self.timezone),
        }
    }
}

impl time_metrics {
    /// A copy of the time metrics.
    pub fn copied(&self) -> (r: time_metrics)
        ensures
            r == *self,
    {
        time_metrics {
            days_after_order: self.days_after_order,
            days_of_transit: self.days_of_transit,
            days_of_transit_done: self.days_of_transit_done,
            days_after_last_update: self.days_after_last_update,
            estimated_delivery_date: delivery_estimate {
                source: copy_text(&self.estimated_delivery_date.source),
                from: copy_text(&self.estimated_delivery_date.from),
                to: copy_text(&self.estimated_delivery_date.to),
            },
        }
    }
}

impl event {
    pub fn convert_to_HTML_event(&self) -> (r: tracking_data_html_form::event)
        ensures
            r == html_event_of(*self),
    {
        tracking_data_html_form::event {
            description: copy_text(&self.description),
            location: copy_text(&self.location),
            stage: copy_text(&self.stage),
            sub_status: copy_text(&self.sub_status),
            address: Some(self.address.copied()),
            time: Some(self.time_raw.copied()),
        }
    }
}

impl provider {
    pub fn convert_to_HTML_provider(&self) -> (r: tracking_data_html_form::tracking_provider_provided_events)
        ensures
            is_html_provider_of(*self, r),
    {
        let mut provider_events: Vec<tracking_data_html_form::event> = Vec::new();
        let n = self.events.len();
        for i in 0..n
            invariant
                n == self.events@.len(),
                provider_events@.len() == i,
                forall|j: int| 0 <= j < i ==> #[trigger] provider_events@[j] == html_event_of(self.events@[j]),
        {
            provider_events.push(self.events[i].convert_to_HTML_event());
        }
        tracking_data_html_form::tracking_provider_provided_events {
            provider_name: copy_text(&self.provider.name),
            provider_key: self.provider.key,
            provider_events,
        }
    }
}

} // verus!
