//! Message shapes of the tracking provider and the forms the service keeps.
pub mod register_tracking_number_response;
pub mod stop_tracking_response;
pub mod retrack_stopped_number_response;
pub mod delete_tracking_number_response;
pub mod tracking_data_get_info;
pub mod tracking_number_meta_data;
pub mod tracking_data_webhook_update;
pub mod tracking_data_base;
pub mod tracking_data_html_form;
pub mod tracking_data_database_form;
