//! Answer of the provider to a registration request.
use vstd::prelude::*;

verus! {

#[derive(Debug, Clone, PartialEq)]
pub struct RegisterResponse {
    pub code: i32,
    pub data: Data,
}

#[derive(Debug, Clone, PartialEq)]
pub struct Data {
    pub accepted: Vec<Accepted>,
    pub rejected: Vec<Rejected>,
}

#[derive(Debug, Clone, PartialEq)]
pub struct Accepted {
    pub origin: i32,
    pub number: String,
    pub carrier: i32,
    pub email: Option<String>,
    pub tag: Option<String>,
    pub lang: Option<String>,
}

#[derive(Debug, Clone, PartialEq)]
pub struct Rejected {
    pub number: String,
    pub tag: Option<String>,
    pub error: RejectedError,
}

#[derive(Debug, Clone, PartialEq)]
pub struct RejectedError {
    pub code: i32,
    pub message: String,
}

} // verus!
