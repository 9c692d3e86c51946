//! The records of the payment processor, and what goes in and out of it.

use vstd::prelude::*;
use crate::clock::Timestamp;
pub use crate::http::ErrorResponse;
use crate::keyed::Keyed;
use crate::postal::AddressView;
use crate::text::{copy_opt_text, opt_view};

verus! {

/// Where a payment stands.
#[derive(Debug, Clone, Copy, PartialEq, Eq, Structural)]
pub enum PaymentStatus {
    Pending,
    Processing,
    Completed,
    Failed,
    Refunded,
}

/// How a payment is made.
#[derive(Debug, Clone, Copy, PartialEq, Eq, Structural)]
pub enum PaymentMethod {
    CreditCard,
    PayPal,
    BankTransfer,
    Crypto,
}

/// The address to which a payment is billed.
#[derive(Debug)]
pub struct BillingAddress {
    pub street: String,
    pub city: String,
    pub state: String,
    pub postal_code: String,
    pub country: String,
}

impl View for BillingAddress {
    type V = AddressView;

    open spec fn view(&self) -> AddressView {
        AddressView {
            street: self.street@,
            city: self.city@,
            state: self.state@,
            postal_code: self.postal_code@,
            country: self.country@,
        }
    }
}

impl Clone for BillingAddress {
    fn clone(&self) -> (r: Self)
        ensures
            r@ == self@,
    {
        BillingAddress {
            street: self.street.clone(),
            city: self.city.clone(),
            state: self.state.clone(),
            postal_code: self.postal_code.clone(),
            country: self.country.clone(),
        }
    }
}

/// What the payer told about the card and about themselves.
#[derive(Debug)]
pub struct PaymentMetadata {
    pub card_last_four: Option<String>,
    pub card_brand: Option<String>,
    pub customer_email: Option<String>,
    pub customer_name: Option<String>,
    pub billing_address: Option<BillingAddress>,
}

/// What a `PaymentMetadata` says.
pub struct MetadataView {
    pub card_last_four: Option<Seq<char>>,
    pub card_brand: Option<Seq<char>>,
    pub customer_email: Option<Seq<char>>,
    pub customer_name: Option<Seq<char>>,
    pub billing_address: Option<AddressView>,
}

/// What an optional billing address says.
pub open spec fn opt_address_view(a: Option<BillingAddress>) -> Option<AddressView> {
    match a {
        Some(b) => Some(b@),
        None => None,
    }
}

impl View for PaymentMetadata {
    type V = MetadataView;

    open spec fn view(&self) -> MetadataView {
        MetadataView {
            card_last_four: opt_view(self.card_last_four),
            card_brand: opt_view(self.card_brand),
            customer_email: opt_view(self.customer_email),
            customer_name: opt_view(self.customer_name),
            billing_address: opt_address_view(self.billing_address),
        }
    }
}

impl Clone for PaymentMetadata {
    fn clone(&self) -> (r: Self)
        ensures
            r@ == self@,
    {
        PaymentMetadata {
            card_last_four: copy_opt_text(&self.card_last_four),
            card_brand: copy_opt_text(&self.card_brand),
            customer_email: copy_opt_text(&self.customer_email),
            customer_name: copy_opt_text(&self.customer_name),
            billing_address: match &self.billing_address {
                Some(b) => Some(b.clone()),
                None => None,
            },
        }
    }
}

/// What optional metadata say.
pub open spec fn opt_metadata_view(m: Option<PaymentMetadata>) -> Option<MetadataView> {
    match m {
        Some(d) => Some(d@),
        None => None,
    }
}

/// What a payment says. Amounts are in minor units of the currency.
pub struct PaymentRecord {
    pub id: Seq<char>,
    pub order_id: Seq<char>,
    pub amount: int,
    pub currency: Seq<char>,
    pub status: PaymentStatus,
    pub payment_method: PaymentMethod,
    pub created_at: Timestamp,
    pub updated_at: Timestamp,
    pub transaction_id: Option<Seq<char>>,
    pub metadata: Option<MetadataView>,
}

/// A payment for an order. The amount is in minor units of the currency.
#[derive(Debug)]
pub struct Payment {
    pub id: String,
    pub order_id: String,
    pub amount: i64,
    pub currency: String,
    pub status: PaymentStatus,
    pub payment_method: PaymentMethod,
    pub created_at: Timestamp,
    pub updated_at: Timestamp,
    pub transaction_id: Option<String>,
    pub metadata: Option<PaymentMetadata>,
}

impl View for Payment {
    type V = PaymentRecord;

    open spec fn view(&self) -> PaymentRecord {
        PaymentRecord {
            id: self.id@,
            order_id: self.order_id@,
            amount: self.amount as int,
            currency: self.currency@,
            status: self.status,
            payment_method: self.payment_method,
            created_at: self.created_at,
            updated_at: self.updated_at,
            transaction_id: opt_view(self.transaction_id),
            metadata: opt_metadata_view(self.metadata),
        }
    }
}

impl Clone for Payment {
    fn clone(&self) -> (r: Self)
        ensures
            r@ == self@,
    {
        Payment {
            id: self.id.clone(),
            order_id: self.order_id.clone(),
            amount: self.amount,
            currency: self.currency.clone(),
            status: self.status,
            payment_method: self.payment_method,
            created_at: self.created_at,
            updated_at: self.updated_at,
            transaction_id: copy_opt_text(&self.transaction_id),
            metadata: match &self.metadata {
                Some(m) => Some(m.clone()),
                None => None,
            },
        }
    }
}

impl Keyed for Payment {
    open spec fn key_view(&self) -> Seq<char> {
        self.id@
    }

    fn key(&self) -> (k: &String) {
        &self.id
    }
}

/// What is to be captured, for which order, and how.
#[derive(Debug)]
pub struct CreatePaymentRequest {
    pub order_id: String,
    pub amount: i64,
    pub currency: String,
    pub payment_method: PaymentMethod,
    pub metadata: Option<PaymentMetadata>,
}

/// What a `CreatePaymentRequest` says.
pub struct CaptureView {
    pub order_id: Seq<char>,
    pub amount: int,
    pub currency: Seq<char>,
    pub payment_method: PaymentMethod,
    pub metadata: Option<MetadataView>,
}

impl View for CreatePaymentRequest {
    type V = CaptureView;

    open spec fn view(&self) -> CaptureView {
        CaptureView {
            order_id: self.order_id@,
            amount: self.amount as int,
            currency: self.currency@,
            payment_method: self.payment_method,
            metadata: opt_metadata_view(self.metadata),
        }
    }
}

/// Why a payment is to be refunded. The amount is accepted and not
/// accounted for: a refund is always of the whole payment.
#[derive(Debug)]
pub struct RefundRequest {
    pub amount: Option<i64>,
    pub reason: String,
}

/// The answer to a request about one payment.
#[derive(Debug)]
pub struct PaymentResponse {
    pub payment: Payment,
    pub success: bool,
    pub message: Option<String>,
}

/// What a `PaymentResponse` says.
pub struct PaymentResponseView {
    pub payment: PaymentRecord,
    pub success: bool,
    pub message: Option<Seq<char>>,
}

impl View for PaymentResponse {
    type V = PaymentResponseView;

    open spec fn view(&self) -> PaymentResponseView {
        PaymentResponseView { payment: self.payment@, success: self.success, message: opt_view(self.message) }
    }
}

} // verus!
