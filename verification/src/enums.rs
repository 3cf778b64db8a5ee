//! Enumerations shared by the payment attempt lifecycle: statuses, currency
//! codes, payment-method kinds, and the authentication level of an attempt.

use vstd::prelude::*;

verus! {

/// Where a payment attempt stands in its lifecycle.
#[derive(Clone, Copy, Debug, PartialEq, Eq, Structural)]
pub enum AttemptStatus {
    Started,
    Pending,
    Authorized,
    Charged,
    Voided,
    Failure,
}

/// ISO currency code of the attempt's amount.
#[derive(Clone, Copy, Debug, PartialEq, Eq, Structural)]
pub enum Currency {
    USD,
    EUR,
    GBP,
    INR,
}

/// The kind of payment method backing the attempt.
#[derive(Clone, Copy, Debug, PartialEq, Eq, Structural)]
pub enum PaymentMethodType {
    Card,
    BankTransfer,
    Wallet,
    PayLater,
}

/// Whether the attempt goes through 3-D Secure authentication.
#[derive(Clone, Copy, Debug, PartialEq, Eq, Structural)]
pub enum AuthenticationType {
    ThreeDs,
    NoThreeDs,
}

/// When a captured amount is taken: right away or by a later explicit call.
#[derive(Clone, Copy, Debug, PartialEq, Eq, Structural)]
pub enum CaptureMethod {
    Automatic,
    Manual,
}

/// Whether a stored mandate may be used while the customer is off session.
#[derive(Clone, Copy, Debug, PartialEq, Eq, Structural)]
pub enum FutureUsage {
    OnSession,
    OffSession,
}

/// Where a refund stands on the connector's side.
#[derive(Clone, Copy, Debug, PartialEq, Eq, Structural)]
pub enum RefundStatus {
    Pending,
    Success,
    Failure,
}

} // verus!
