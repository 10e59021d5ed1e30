//! The payload envelope: typed requests and responses as tagged variants,
//! and the kind of response that each request is answered with.

use vstd::prelude::*;
use crate::ads::AdvertisingRequest;
use crate::ads::AdvertisingResponse;
use crate::contract::RippleContract;
use crate::device_events::DeviceEventRequest;
use crate::keyboard::KeyboardSessionRequest;
use crate::keyboard::KeyboardSessionResponse;
use crate::storage::StorageRequest;

verus! {

/// A request to an extension. Each operation has exactly one variant.
#[derive(Debug, PartialEq, Eq)]
pub enum ExtnRequest {
    Keyboard(KeyboardSessionRequest),
    DeviceEvent(DeviceEventRequest),
    Advertising(AdvertisingRequest),
    Storage(StorageRequest),
}

/// A response of an extension. `Error` is a failure that the extension
/// itself reports; every other variant is a result.
#[derive(Debug, PartialEq, Eq)]
pub enum ExtnResponse {
    Empty,
    Text(String),
    Keyboard(KeyboardSessionResponse),
    Advertising(AdvertisingResponse),
    Error(String),
}

/// What travels between the runtime and an extension.
#[derive(Debug, PartialEq, Eq)]
pub enum ExtnPayload {
    Request(ExtnRequest),
    Response(ExtnResponse),
}

/// The shape of a result, without its content.
#[derive(Clone, Copy, Debug, PartialEq, Eq, Structural)]
pub enum ResponseKind {
    Empty,
    Text,
    Keyboard,
    AdIdObject,
    AdInitObject,
}

impl ExtnRequest {
    /// The shape of result that answers this operation.
    pub open spec fn expected(self) -> ResponseKind {
        match self {
            ExtnRequest::Keyboard(_) => ResponseKind::Keyboard,
            ExtnRequest::DeviceEvent(_) => ResponseKind::Empty,
            ExtnRequest::Advertising(AdvertisingRequest::ResetAdIdentifier(_)) => {
                ResponseKind::Empty
            },
            ExtnRequest::Advertising(AdvertisingRequest::GetAdIdObject(_)) => {
                ResponseKind::AdIdObject
            },
            ExtnRequest::Advertising(AdvertisingRequest::GetAdInitObject(_)) => {
                ResponseKind::AdInitObject
            },
            ExtnRequest::Storage(StorageRequest::Read(_)) => ResponseKind::Text,
            ExtnRequest::Storage(StorageRequest::Write(_, _)) => ResponseKind::Empty,
        }
    }

    /// The extension that owns this operation.
    pub open spec fn owner(self) -> RippleContract {
        match self {
            ExtnRequest::Keyboard(_) => RippleContract::Keyboard,
            ExtnRequest::DeviceEvent(d) => RippleContract::DeviceEvents(d.event.adjective()),
            ExtnRequest::Advertising(_) => RippleContract::Advertising,
            ExtnRequest::Storage(_) => RippleContract::Storage,
        }
    }

    /// The shape of result that answers this operation.
    pub fn expected_kind(&self) -> (r: ResponseKind)
        ensures
            r == self.expected(),
    {
        match self {
            ExtnRequest::Keyboard(_) => ResponseKind::Keyboard,
            ExtnRequest::DeviceEvent(_) => ResponseKind::Empty,
            ExtnRequest::Advertising(a) => match a {
                AdvertisingRequest::ResetAdIdentifier(_) => ResponseKind::Empty,
                AdvertisingRequest::GetAdIdObject(_) => ResponseKind::AdIdObject,
                AdvertisingRequest::GetAdInitObject(_) => ResponseKind::AdInitObject,
            },
            ExtnRequest::Storage(s) => match s {
                StorageRequest::Read(_) => ResponseKind::Text,
                StorageRequest::Write(_, _) => ResponseKind::Empty,
            },
        }
    }

    /// The extension that owns this operation.
    pub fn get_contract(&self) -> (r: RippleContract)
        ensures
            r == self.owner(),
    {
        match self {
            ExtnRequest::Keyboard(_) => RippleContract::Keyboard,
            ExtnRequest::DeviceEvent(d) => d.get_contract(),
            ExtnRequest::Advertising(_) => RippleContract::Advertising,
            ExtnRequest::Storage(_) => RippleContract::Storage,
        }
    }
}

impl ExtnResponse {
    /// The shape of this result; `None` for a failure that the extension reports.
    pub open spec fn kind(self) -> Option<ResponseKind> {
        match self {
            ExtnResponse::Empty => Some(ResponseKind::Empty),
            ExtnResponse::Text(_) => Some(ResponseKind::Text),
            ExtnResponse::Keyboard(_) => Some(ResponseKind::Keyboard),
            ExtnResponse::Advertising(AdvertisingResponse::AdIdObject(_)) => Some(
                ResponseKind::AdIdObject,
            ),
            ExtnResponse::Advertising(AdvertisingResponse::AdInitObject(_)) => Some(
                ResponseKind::AdInitObject,
            ),
            ExtnResponse::Error(_) => None,
        }
    }

    /// The shape of this result.
    pub fn get_kind(&self) -> (r: Option<ResponseKind>)
        ensures
            r == self.kind(),
    {
        match self {
            ExtnResponse::Empty => Some(ResponseKind::Empty),
            ExtnResponse::Text(_) => Some(ResponseKind::Text),
            ExtnResponse::Keyboard(_) => Some(ResponseKind::Keyboard),
            ExtnResponse::Advertising(a) => match a {
                AdvertisingResponse::AdIdObject(_) => Some(ResponseKind::AdIdObject),
                AdvertisingResponse::AdInitObject(_) => Some(ResponseKind::AdInitObject),
            },
            ExtnResponse::Error(_) => None,
        }
    }
}

} // verus!
