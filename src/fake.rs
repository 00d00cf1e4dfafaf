//! Stand-in types for examples and tests: unit request and response types
//! for five endpoints, and placeholder transport pieces.
use vstd::prelude::*;

use crate::key::WireHeader;

verus! {

/// Request of the alpha endpoint.
#[derive(Clone, Copy, Debug, PartialEq, Eq)]
pub struct AReq;

/// Response of the alpha endpoint.
#[derive(Clone, Copy, Debug, PartialEq, Eq)]
pub struct AResp;

/// Request of the beta endpoint.
#[derive(Clone, Copy, Debug, PartialEq, Eq)]
pub struct BReq;

/// Response of the beta endpoint.
#[derive(Clone, Copy, Debug, PartialEq, Eq)]
pub struct BResp;

/// Request of the gamma endpoint.
#[derive(Clone, Copy, Debug, PartialEq, Eq)]
pub struct GReq;

/// Response of the gamma endpoint.
#[derive(Clone, Copy, Debug, PartialEq, Eq)]
pub struct GResp;

/// Request of the delta endpoint.
#[derive(Clone, Copy, Debug, PartialEq, Eq)]
pub struct DReq;

/// Response of the delta endpoint.
#[derive(Clone, Copy, Debug, PartialEq, Eq)]
pub struct DResp;

/// Request of the epsilon endpoint.
#[derive(Clone, Copy, Debug, PartialEq, Eq)]
pub struct EReq;

/// Response of the epsilon endpoint.
#[derive(Clone, Copy, Debug, PartialEq, Eq)]
pub struct EResp;

/// Placeholder for the lock that guards the sender.
#[derive(Clone, Copy, Debug, PartialEq, Eq)]
pub struct FakeMutex;

/// Placeholder for the transport driver.
#[derive(Clone, Copy, Debug, PartialEq, Eq)]
pub struct FakeDriver;

/// Placeholder for the driver's outbound endpoint.
#[derive(Clone, Copy, Debug, PartialEq, Eq)]
pub struct FakeEpOut;

/// Placeholder for the driver's inbound endpoint.
#[derive(Clone, Copy, Debug, PartialEq, Eq)]
pub struct FakeEpIn;

/// Placeholder for the driver's control pipe.
#[derive(Clone, Copy, Debug, PartialEq, Eq)]
pub struct FakeCtlPipe;

/// Placeholder for the driver's bus.
#[derive(Clone, Copy, Debug, PartialEq, Eq)]
pub struct FakeBus;

/// The blocking handler of the delta endpoint: it answers every request
/// with the unit response.
pub fn test_delta_handler(_header: WireHeader, _body: DReq) -> (r: DResp)
    ensures
        r == DResp,
{
    DResp
}

} // verus!
