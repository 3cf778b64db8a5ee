//! Flow markers: zero-data tags that make the envelope of one payment
//! operation a distinct type from the envelope of another, so that a
//! connector adapter written for one flow can never be handed the request
//! of another.

use vstd::prelude::*;

verus! {

/// Marks the authorization flow of a payment attempt.
#[derive(Clone, Copy, Debug)]
pub struct Authorize;

/// Marks the payment synchronization flow.
#[derive(Clone, Copy, Debug)]
pub struct PSync;

/// Marks the capture flow of an authorized payment.
#[derive(Clone, Copy, Debug)]
pub struct PCapture;

/// Marks the cancellation flow of an authorized payment.
#[derive(Clone, Copy, Debug)]
pub struct Void;

/// Marks the refund execution flow.
#[derive(Clone, Copy, Debug)]
pub struct Execute;

/// Marks the refund synchronization flow.
#[derive(Clone, Copy, Debug)]
pub struct RSync;

} // verus!
