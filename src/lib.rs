//! Shipment tracking: webhook authentication, snapshot reconciliation and
//! notification fan-out, together with the provider's message shapes.
pub mod tracking_data_formats;
pub mod signature;
pub mod webhook;
pub mod trackingapi;
pub mod registry;
pub mod notifications;
