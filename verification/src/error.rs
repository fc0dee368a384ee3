//! What can go wrong, and for whom.

use vstd::prelude::*;
use crate::joint::{Axis, Joint};

verus! {

/// A remote call that did not go through.
#[derive(Debug, Clone, Copy, PartialEq, Eq, Structural, Hash)]
pub enum RpcError {
    /// The service could not be reached when the connection was made.
    /// Fatal: the process must not go on to serve control requests.
    Connect,
    /// A call on an established connection failed.
    Transient,
}

/// Why a joint-level operation was refused or failed.
#[derive(Debug, Clone, Copy, PartialEq, Eq, Hash)]
pub enum ControlError {
    /// The robot has no such degree of freedom. A mistake of the caller:
    /// never retried.
    UnknownJoint { joint: Joint, axis: Option<Axis> },
    /// The remote service failed.
    Rpc(RpcError),
}

/// Why a policy step gave no usable targets.
#[derive(Debug, Clone, Copy, PartialEq, Eq, Structural, Hash)]
pub enum InferenceError {
    /// The policy service could not be reached or did not answer.
    Unreachable,
    /// The answer lacks a target for a joint that was asked about.
    Malformed,
}

} // verus!
