//! The flow-typed router envelope: the generic unit of work that binds a
//! flow marker to its flow-specific request and response payloads plus the
//! shared payment context. The legal flow/request/response combinations are
//! fixed by the type aliases below, so a mismatched pairing is rejected at
//! compile time.

use core::marker::PhantomData;
use vstd::prelude::*;
use crate::auth::ConnectorAuthType;
use crate::enums::{
    AttemptStatus, AuthenticationType, CaptureMethod, Currency, FutureUsage, PaymentMethodType,
    RefundStatus,
};
use crate::errors::ErrorResponse;
use crate::flows::{Authorize, PCapture, PSync, Void};
use crate::payments::{MandateData, PaymentAddress, PaymentMethod, RedirectForm};

verus! {

/// The unit of work: one payment operation of flow `Flow` against one
/// connector, with its identity, context, flow-specific `request`, and —
/// once executed — exactly one of `response` and `error_response`.
pub struct RouterData<Flow, Request, Response> {
    pub flow: PhantomData<Flow>,
    pub merchant_id: String,
    pub connector: String,
    pub payment_id: String,
    pub status: AttemptStatus,
    pub amount: i32,
    pub currency: Currency,
    pub payment_method: PaymentMethodType,
    pub connector_auth_type: ConnectorAuthType,
    pub description: Option<String>,
    pub return_url: Option<String>,
    pub address: PaymentAddress,
    pub auth_type: AuthenticationType,
    /// Flow-specific data required to construct a request for the connector.
    pub request: Request,
    /// Flow-specific data that the connector responded with.
    pub response: Option<Response>,
    /// The normalized error the connector's failure was reduced to.
    pub error_response: Option<ErrorResponse>,
    pub payment_method_id: Option<String>,
}

impl<Flow, Request, Response> RouterData<Flow, Request, Response> {
    /// An executed envelope holds exactly one of `response` and
    /// `error_response`: never both, never neither.
    pub open spec fn has_terminal_outcome(&self) -> bool {
        (self.response is Some) <==> (self.error_response is None)
    }

    /// Fold the outcome of the connector call into the envelope: a success
    /// fills the response slot, a failure fills the error slot, and every
    /// other field keeps its value. Either way the envelope ends with
    /// exactly one of the two slots filled.
    pub fn record_outcome(&mut self, outcome: Result<Response, ErrorResponse>)
        ensures
            final(self).has_terminal_outcome(),
            match outcome {
                Ok(res) => *final(self) == (RouterData {
                    response: Some(res),
                    error_response: None,
                    ..*old(self)
                }),
                Err(e) => *final(self) == (RouterData {
                    response: None,
                    error_response: Some(e),
                    ..*old(self)
                }),
            },
    {
        match outcome {
            Ok(res) => {
                self.response = Some(res);
                self.error_response = None;
            },
            Err(e) => {
                self.response = None;
                self.error_response = Some(e);
            },
        }
    }
}

/// An envelope with a terminal outcome never holds both a response and an
/// error, and never neither.
pub proof fn lemma_terminal_outcome_exclusive<Flow, Request, Response>(
    d: &RouterData<Flow, Request, Response>,
)
    requires
        d.has_terminal_outcome(),
    ensures
        !(d.response is Some && d.error_response is Some),
        (d.response is Some) || (d.error_response is Some),
{
}

/// Flow-specific payload of the authorization flow.
#[derive(Clone)]
pub struct PaymentsRequestData {
    pub payment_method_data: PaymentMethod,
    pub confirm: bool,
    pub statement_descriptor_suffix: Option<String>,
    pub capture_method: Option<CaptureMethod>,
    pub setup_future_usage: Option<FutureUsage>,
    pub mandate_id: Option<String>,
    pub off_session: Option<bool>,
    pub setup_mandate_details: Option<MandateData>,
}

/// Flow-specific payload of the capture flow.
#[derive(Clone)]
pub struct PaymentsRequestCaptureData {
    pub amount_to_capture: Option<i32>,
    pub connector_transaction_id: String,
}

/// Flow-specific payload of the payment synchronization flow.
#[derive(Clone)]
pub struct PaymentsRequestSyncData {
    pub connector_transaction_id: String,
    pub encoded_data: Option<String>,
}

/// Flow-specific payload of the cancellation flow.
#[derive(Clone)]
pub struct PaymentRequestCancelData {
    pub connector_transaction_id: String,
    pub cancellation_reason: Option<String>,
}

/// What a connector answers to a payment flow.
#[derive(Clone)]
pub struct PaymentsResponseData {
    pub connector_transaction_id: String,
    pub redirection_data: Option<RedirectForm>,
    pub redirect: bool,
}

/// Flow-specific payload of the refund flows.
#[derive(Clone)]
pub struct RefundsRequestData {
    pub refund_id: String,
    pub payment_method_data: PaymentMethod,
    pub connector_transaction_id: String,
    pub refund_amount: i32,
}

/// What a connector answers to a refund flow.
#[derive(Clone)]
pub struct RefundsResponseData {
    pub connector_refund_id: String,
    pub refund_status: RefundStatus,
}

/// Whether a payment needs a customer redirection to proceed.
#[derive(Clone, Copy, Debug, PartialEq, Eq, Structural)]
pub enum Redirection {
    Redirect,
    NoRedirect,
}

/// The last known connector-side truth of an attempt, as callers see it.
#[derive(Clone)]
pub struct ConnectorResponse {
    pub merchant_id: String,
    pub connector: String,
    pub payment_id: String,
    pub amount: i32,
    pub connector_transaction_id: String,
    pub return_url: Option<String>,
    pub three_ds_form: Option<RedirectForm>,
}

impl Default for ConnectorResponse {
    /// An empty record: every identifier empty, the amount zero, nothing
    /// optional filled.
    fn default() -> (r: Self)
        ensures
            r.merchant_id@ == Seq::<char>::empty(),
            r.connector@ == Seq::<char>::empty(),
            r.payment_id@ == Seq::<char>::empty(),
            r.amount == 0,
            r.connector_transaction_id@ == Seq::<char>::empty(),
            r.return_url is None,
            r.three_ds_form is None,
    {
        Self {
            merchant_id: String::new(),
            connector: String::new(),
            payment_id: String::new(),
            amount: 0,
            connector_transaction_id: String::new(),
            return_url: None,
            three_ds_form: None,
        }
    }
}

/// Wraps a connector's own raw wire response together with the envelope it
/// was answering and the transport status code, for the second stage that
/// folds the raw response into the envelope's response or error slot.
pub struct ResponseRouterData<Flow, R, Request, Response> {
    pub response: R,
    pub data: RouterData<Flow, Request, Response>,
    pub http_code: u16,
}

/// The list of connectors enabled for a merchant.
#[derive(Clone)]
pub struct ConnectorsList {
    pub connectors: Vec<String>,
}

pub type PaymentsRouterData = RouterData<Authorize, PaymentsRequestData, PaymentsResponseData>;

pub type PaymentsRouterSyncData = RouterData<PSync, PaymentsRequestSyncData, PaymentsResponseData>;

pub type PaymentsRouterCaptureData = RouterData<
    PCapture,
    PaymentsRequestCaptureData,
    PaymentsResponseData,
>;

pub type PaymentRouterCancelData = RouterData<
    Void,
    PaymentRequestCancelData,
    PaymentsResponseData,
>;

pub type RefundsRouterData<F> = RouterData<F, RefundsRequestData, RefundsResponseData>;

pub type PaymentsResponseRouterData<R> = ResponseRouterData<
    Authorize,
    R,
    PaymentsRequestData,
    PaymentsResponseData,
>;

pub type PaymentsCancelResponseRouterData<R> = ResponseRouterData<
    Void,
    R,
    PaymentRequestCancelData,
    PaymentsResponseData,
>;

pub type RefundsResponseRouterData<F, R> = ResponseRouterData<
    F,
    R,
    RefundsRequestData,
    RefundsResponseData,
>;

} // verus!
