//! Error types shared by the allocation engine and the configuration
//! validation paths.

use vstd::prelude::*;

verus! {

/// Reasons a tenant network configuration is rejected.
#[derive(Debug, Clone, Copy, PartialEq, Eq, Structural)]
pub enum ConfigValidationError {
    /// At least one requested segment is missing from the store.
    UnknownSegments,
    /// The segment was marked as deleted by the user.
    NetworkSegmentToBeDeleted(u128),
    /// The segment has not reached the `Ready` controller state.
    NetworkSegmentNotReady(u128),
    /// The segment has no VPC attached.
    VpcNotAttachedToSegment(u128),
    /// The requested segments span more than one VPC.
    MultipleVpcFound,
    /// No interface of the managed host lies in the segment's prefix.
    NetworkSegmentUnavailableOnHost,
}

/// Reasons a wire-format value is refused while converting it into a model
/// value.
#[derive(Debug, Clone, PartialEq, Eq)]
pub enum RpcConversionError {
    /// A value was malformed or not allowed; the message says which.
    InvalidArgument(String),
    /// The wire value does not denote a segment type.
    InvalidNetworkSegmentType(i32),
    /// The text does not parse as an IP network or address.
    InvalidIpAddress(String),
}

/// Errors surfaced by the allocation engine.
#[derive(Debug, Clone, Copy, PartialEq, Eq, Structural)]
pub enum AllocationError {
    /// An interface has no network segment allocated.
    NetworkSegmentNotAllocated,
    /// A lookup that must yield exactly one row yielded none.
    FindOneReturnedNoResults(u128),
    /// A lookup that must yield exactly one row yielded several.
    FindOneReturnedManyResults(u128),
    /// No free address or sub-prefix is left in the window.
    ResourceExhausted,
    /// The configuration failed validation.
    InvalidConfiguration(ConfigValidationError),
}

} // verus!
