//! Answer of the provider to a request to delete a number.
use vstd::prelude::*;

verus! {

#[derive(Debug, Clone, PartialEq)]
pub struct DeleteTrackingResponseNumber {
    pub code: i32,
    pub data: Data,
}

#[derive(Debug, Clone, PartialEq)]
pub struct Data {
    pub accepted: Vec<Accepted>,
    pub rejected: Vec<Rejected>,
}

#[derive(Debug, Clone, PartialEq)]
pub struct Accepted {
    pub number: String,
    pub carrier: i32,
}

#[derive(Debug, Clone, PartialEq)]
pub struct Rejected {
    pub number: String,
    pub error: RejectedError,
}

#[derive(Debug, Clone, PartialEq)]
pub struct RejectedError {
    pub code: i32,
    pub message: String,
}

} // verus!
