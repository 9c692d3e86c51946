//! The requests that the payment processor serves, each from the request to
//! the status and body of its answer.

use vstd::prelude::*;
use crate::clock;
use crate::clock::Timestamp;
use crate::http::{ErrorResponse, ErrorView, HealthReport, HttpOutcome};
use crate::ident;
use crate::ident::hyphenated;
use crate::text::{join, join3};
use super::models::{
    CaptureView, CreatePaymentRequest, Payment, PaymentRecord, PaymentResponse, PaymentResponseView,
    PaymentStatus, RefundRequest,
};
use super::store::{of_order, payment_records, PaymentError, Payments};
pub use super::store::AppState;

verus! {

/// The body that says that there is no such payment.
pub open spec fn payment_not_found() -> ErrorView {
    ErrorView { error: "Payment not found"@, code: "payment_not_found"@ }
}

/// What capturing a payment under the identifier `id`, with the transaction
/// reference `txn_` and `reference`, at the time `now` does to the payments,
/// and the answer that goes with it: 201 with the completed payment.
pub open spec fn capture_answer(
    before: Payments,
    after: Payments,
    id: Seq<char>,
    reference: Seq<char>,
    req: CaptureView,
    now: Timestamp,
    out: HttpOutcome<PaymentResponse>,
) -> bool {
    let payment = PaymentRecord::captured(id, "txn_"@ + reference, req, now);
    &&& after == before.file(payment)
    &&& out matches HttpOutcome::Created(r) && r@ == (PaymentResponseView {
        payment,
        success: true,
        message: Some("Payment processed successfully"@),
    })
}

/// Captures a payment: the capture always goes through, and the payment is
/// filed as completed, under a fresh identifier and with a fresh transaction
/// reference, at the time that the clock shows.
pub fn create_payment(data: &mut AppState, req: CreatePaymentRequest) -> (out: HttpOutcome<PaymentResponse>)
    requires
        old(data).wf(),
    ensures
        final(data).wf(),
        exists|id: Seq<char>, reference: Seq<char>, now: Timestamp|
            hyphenated(id) && hyphenated(reference) && now.on_clock() && #[trigger] capture_answer(
                old(data)@,
                final(data)@,
                id,
                reference,
                req@,
                now,
                out,
            ),
{
    let id = ident::fresh_id();
    let now = clock::now();
    let reference = ident::fresh_id();
    let ghost id_view = id@;
    let ghost reference_view = reference@;
    let payment = Payment {
        id,
        order_id: req.order_id,
        amount: req.amount,
        currency: req.currency,
        status: PaymentStatus::Completed,
        payment_method: req.payment_method,
        created_at: now,
        updated_at: now,
        transaction_id: Some(join("txn_", reference.as_str())),
        metadata: req.metadata,
    };
    let stored = payment.clone();
    data.insert(stored);
    let out = HttpOutcome::Created(
        PaymentResponse { payment, success: true, message: Some("Payment processed successfully".to_owned()) },
    );
    assert(capture_answer(old(data)@, data@, id_view, reference_view, req@, now, out));
    out
}

/// Answers with a payment: 200 with the payment, or 404.
pub fn get_payment(data: &AppState, payment_id: &String) -> (out: HttpOutcome<PaymentResponse>)
    ensures
        match out {
            HttpOutcome::Success(r) => data@.has_payment(payment_id@) && r@ == (PaymentResponseView {
                payment: data@.payment(payment_id@),
                success: true,
                message: None,
            }),
            HttpOutcome::NotFound(e) => !data@.has_payment(payment_id@) && e@ == payment_not_found(),
            _ => false,
        },
{
    match data.get(payment_id) {
        Some(payment) => HttpOutcome::Success(PaymentResponse { payment, success: true, message: None }),
        None => HttpOutcome::NotFound(ErrorResponse::new("Payment not found", "payment_not_found")),
    }
}

/// Answers 200 with the payments of an order.
pub fn get_payments_by_order(data: &AppState, order_id: &String) -> (out: HttpOutcome<Vec<Payment>>)
    ensures
        out matches HttpOutcome::Success(found) && payment_records(found@) == of_order(
            data@.records,
            order_id@,
        ),
{
    HttpOutcome::Success(data.by_order(order_id))
}

/// What refunding the payment `id` at the time `now` does to the payments,
/// and the answer that goes with it: 200 with the refunded payment where it
/// was completed; 400 in any other status, and 404 where there is no such
/// payment, both with nothing changed.
pub open spec fn refund_answer(
    before: Payments,
    after: Payments,
    id: Seq<char>,
    now: Timestamp,
    out: HttpOutcome<PaymentResponse>,
) -> bool {
    &&& after == before.refund(id, now)
    &&& match out {
        HttpOutcome::Success(r) => before.refundable(id) && r@ == (PaymentResponseView {
            payment: before.payment(id).refunded(now),
            success: true,
            message: Some("Payment "@ + id + " refunded successfully"@),
        }),
        HttpOutcome::BadRequest(e) => before.has_payment(id) && before.payment(id).status
            != PaymentStatus::Completed && after == before && e@ == (ErrorView {
            error: "Payment cannot be refunded"@,
            code: "invalid_refund_state"@,
        }),
        HttpOutcome::NotFound(e) => !before.has_payment(id) && after == before && e@ == payment_not_found(),
        _ => false,
    }
}

/// Refunds a payment, at the time that the clock shows. The amount and the
/// reason of the request do not bear on the outcome.
pub fn refund_payment(data: &mut AppState, payment_id: &String, req: RefundRequest) -> (out: HttpOutcome<
    PaymentResponse,
>)
    requires
        old(data).wf(),
    ensures
        final(data).wf(),
        exists|now: Timestamp| now.on_clock() && #[trigger] refund_answer(old(data)@, final(data)@, payment_id@, now, out),
{
    let now = clock::now();
    let out = match data.refund(payment_id, now) {
        Ok(payment) => HttpOutcome::Success(
            PaymentResponse {
                payment,
                success: true,
                message: Some(join3("Payment ", payment_id.as_str(), " refunded successfully")),
            },
        ),
        Err(PaymentError::InvalidState) => HttpOutcome::BadRequest(
            ErrorResponse::new("Payment cannot be refunded", "invalid_refund_state"),
        ),
        Err(PaymentError::NotFound) => HttpOutcome::NotFound(
            ErrorResponse::new("Payment not found", "payment_not_found"),
        ),
    };
    assert(refund_answer(old(data)@, data@, payment_id@, now, out));
    out
}

/// Reports that the processor is up, with the time that the clock shows.
pub fn health_check() -> (r: HealthReport)
    ensures
        r.status@ == "ok"@,
        r.service@ == "payment-service"@,
        r.checked_at.on_clock(),
{
    HealthReport::up("payment-service", clock::now())
}

} // verus!
