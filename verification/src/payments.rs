//! Payment context carried by an envelope: the payment method backing the
//! attempt, billing and shipping addresses, mandate details, and the
//! redirect form a connector may answer with.

use vstd::prelude::*;
use crate::masking::Secret;

verus! {

/// A postal address, every part optional; opaque context for this core.
#[derive(Clone)]
pub struct Address {
    pub line1: Option<String>,
    pub city: Option<String>,
    pub country: Option<String>,
    pub zip: Option<String>,
}

/// Billing and shipping context of a payment attempt.
#[derive(Clone)]
pub struct PaymentAddress {
    pub billing: Option<Address>,
    pub shipping: Option<Address>,
}

/// Card data; every field is authentication material or cardholder data,
/// so each is wrapped as a [`Secret`] and has no unmasked rendering.
#[derive(Clone)]
pub struct Card {
    pub card_number: Secret<String>,
    pub card_exp_month: Secret<String>,
    pub card_exp_year: Secret<String>,
    pub card_cvc: Secret<String>,
}

/// The payment method backing an attempt.
#[derive(Clone)]
pub enum PaymentMethod {
    Card(Card),
    BankTransfer,
    Wallet,
    PayLater,
}

/// Details of a mandate set up for future payments.
#[derive(Clone)]
pub struct MandateData {
    pub accepted_by_customer: bool,
    pub mandate_reference: Option<String>,
}

/// The mathematical value of a [`RedirectForm`].
pub struct RedirectFormView {
    pub url: Seq<char>,
    pub method: Seq<char>,
    pub form_fields: Seq<(Seq<char>, Seq<char>)>,
}

/// A form a connector answers with when the customer must be redirected,
/// for example into a 3-D Secure challenge.
pub struct RedirectForm {
    pub url: String,
    pub method: String,
    pub form_fields: Vec<(String, String)>,
}

impl View for RedirectForm {
    type V = RedirectFormView;

    open spec fn view(&self) -> RedirectFormView {
        RedirectFormView {
            url: self.url@,
            method: self.method@,
            form_fields: self.form_fields.deep_view(),
        }
    }
}

impl Clone for RedirectForm {
    fn clone(&self) -> (r: Self)
        ensures
            r@ == self@,
    {
        let mut fields: Vec<(String, String)> = Vec::new();
        let mut i: usize = 0;
        while i < self.form_fields.len()
            invariant
                i <= self.form_fields.len(),
                fields@.len() == i as int,
                forall|j: int| 0 <= j < i as int ==> fields@[j] == self.form_fields@[j],
            decreases self.form_fields.len() - i,
        {
            let pair = &self.form_fields[i];
            fields.push((pair.0.clone(), pair.1.clone()));
            i = i + 1;
        }
        proof {
            assert(fields@ =~= self.form_fields@);
            assert(fields.deep_view() =~= self.form_fields.deep_view());
        }
        Self {
            url: self.url.clone(),
            method: self.method.clone(),
            form_fields: fields,
        }
    }
}

} // verus!
