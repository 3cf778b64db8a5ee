use std::marker::PhantomData;

use router_core::auth::ConnectorAuthType;
use router_core::enums::{AttemptStatus, AuthenticationType, Currency, PaymentMethodType};
use router_core::errors::ErrorResponse;
use router_core::flows::Execute;
use router_core::payments::{PaymentAddress, PaymentMethod};
use router_core::types::{
    PaymentRequestCancelData, PaymentRouterCancelData, PaymentsRequestCaptureData,
    PaymentsRequestData, PaymentsRequestSyncData, PaymentsResponseData, PaymentsResponseRouterData,
    PaymentsRouterCaptureData, PaymentsRouterData, PaymentsRouterSyncData, RefundsRequestData,
    RefundsRouterData, RouterData,
};

fn authorize_envelope() -> PaymentsRouterData {
    RouterData {
        flow: PhantomData,
        merchant_id: String::from("m1"),
        connector: String::from("x"),
        payment_id: String::from("p1"),
        status: AttemptStatus::Started,
        amount: 1000,
        currency: Currency::USD,
        payment_method: PaymentMethodType::Wallet,
        connector_auth_type: ConnectorAuthType::HeaderKey { api_key: String::from("k") },
        description: None,
        return_url: None,
        address: PaymentAddress { billing: None, shipping: None },
        auth_type: AuthenticationType::NoThreeDs,
        request: PaymentsRequestData {
            payment_method_data: PaymentMethod::Wallet,
            confirm: true,
            statement_descriptor_suffix: None,
            capture_method: None,
            setup_future_usage: None,
            mandate_id: None,
            off_session: None,
            setup_mandate_details: None,
        },
        response: None,
        error_response: None,
        payment_method_id: None,
    }
}

#[test]
fn success_fills_exactly_the_response_slot() {
    let mut envelope = authorize_envelope();
    envelope.record_outcome(Ok(PaymentsResponseData {
        connector_transaction_id: String::from("t1"),
        redirection_data: None,
        redirect: false,
    }));
    assert!(envelope.response.is_some());
    assert!(envelope.error_response.is_none());
    assert_eq!(envelope.merchant_id, "m1");
    assert_eq!(envelope.amount, 1000);
}

#[test]
fn failure_fills_exactly_the_error_slot() {
    let mut envelope = authorize_envelope();
    envelope.record_outcome(Err(ErrorResponse::get_not_implemented()));
    assert!(envelope.response.is_none());
    let err = envelope.error_response.expect("the error slot must be filled");
    assert_eq!(err.code, "NotImplemented");
}

#[test]
fn each_flow_pairs_with_its_own_request_type() {
    // Legal flow/request pairings are fixed by the aliases; a mismatched
    // pairing is a type error and cannot be written here at all.
    let base = authorize_envelope();

    let _capture: PaymentsRouterCaptureData = RouterData {
        flow: PhantomData,
        merchant_id: base.merchant_id.clone(),
        connector: base.connector.clone(),
        payment_id: base.payment_id.clone(),
        status: AttemptStatus::Authorized,
        amount: 1000,
        currency: Currency::USD,
        payment_method: PaymentMethodType::Wallet,
        connector_auth_type: ConnectorAuthType::HeaderKey { api_key: String::from("k") },
        description: None,
        return_url: None,
        address: PaymentAddress { billing: None, shipping: None },
        auth_type: AuthenticationType::NoThreeDs,
        request: PaymentsRequestCaptureData {
            amount_to_capture: Some(1000),
            connector_transaction_id: String::from("t1"),
        },
        response: None,
        error_response: None,
        payment_method_id: None,
    };

    let _sync: PaymentsRouterSyncData = RouterData {
        flow: PhantomData,
        merchant_id: base.merchant_id.clone(),
        connector: base.connector.clone(),
        payment_id: base.payment_id.clone(),
        status: AttemptStatus::Pending,
        amount: 1000,
        currency: Currency::USD,
        payment_method: PaymentMethodType::Wallet,
        connector_auth_type: ConnectorAuthType::HeaderKey { api_key: String::from("k") },
        description: None,
        return_url: None,
        address: PaymentAddress { billing: None, shipping: None },
        auth_type: AuthenticationType::NoThreeDs,
        request: PaymentsRequestSyncData {
            connector_transaction_id: String::from("t1"),
            encoded_data: None,
        },
        response: None,
        error_response: None,
        payment_method_id: None,
    };

    let _cancel: PaymentRouterCancelData = RouterData {
        flow: PhantomData,
        merchant_id: base.merchant_id.clone(),
        connector: base.connector.clone(),
        payment_id: base.payment_id.clone(),
        status: AttemptStatus::Authorized,
        amount: 1000,
        currency: Currency::USD,
        payment_method: PaymentMethodType::Wallet,
        connector_auth_type: ConnectorAuthType::HeaderKey { api_key: String::from("k") },
        description: None,
        return_url: None,
        address: PaymentAddress { billing: None, shipping: None },
        auth_type: AuthenticationType::NoThreeDs,
        request: PaymentRequestCancelData {
            connector_transaction_id: String::from("t1"),
            cancellation_reason: Some(String::from("requested_by_customer")),
        },
        response: None,
        error_response: None,
        payment_method_id: None,
    };

    let _refund: RefundsRouterData<Execute> = RouterData {
        flow: PhantomData,
        merchant_id: base.merchant_id,
        connector: base.connector,
        payment_id: base.payment_id,
        status: AttemptStatus::Charged,
        amount: 1000,
        currency: Currency::USD,
        payment_method: PaymentMethodType::Wallet,
        connector_auth_type: ConnectorAuthType::HeaderKey { api_key: String::from("k") },
        description: None,
        return_url: None,
        address: PaymentAddress { billing: None, shipping: None },
        auth_type: AuthenticationType::NoThreeDs,
        request: RefundsRequestData {
            refund_id: String::from("r1"),
            payment_method_data: PaymentMethod::Wallet,
            connector_transaction_id: String::from("t1"),
            refund_amount: 1000,
        },
        response: None,
        error_response: None,
        payment_method_id: None,
    };
}

#[test]
fn response_adapter_keeps_the_envelope_and_status() {
    let envelope = authorize_envelope();
    let adapter: PaymentsResponseRouterData<Vec<u8>> = router_core::types::ResponseRouterData {
        response: vec![0x7b, 0x7d],
        data: envelope,
        http_code: 200,
    };
    assert_eq!(adapter.http_code, 200);
    assert_eq!(adapter.response, vec![0x7b, 0x7d]);
    assert_eq!(adapter.data.payment_id, "p1");
}
