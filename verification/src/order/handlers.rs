//! The requests that the order orchestrator serves. A request that needs
//! another participant is served in steps: each step says what to ask, and
//! the caller hands the reply to the next.

use vstd::prelude::*;
use crate::clock;
use crate::clock::Timestamp;
use crate::http::{ErrorResponse, ErrorView, HealthReport, HttpOutcome};
use crate::text::{join, join3, opt_view};
use super::book::{of_user, Orders};
use super::config::Config;
use super::models::{
    CaptureRequestView, CreatePaymentRequest, Order, OrderResponse, OrderResponseView, OrderStatus,
    UpdateOrderStatusRequest,
};
pub use super::saga::{catalog_replied, create_order, reservation_replied};
use super::store::order_records;
pub use super::store::AppState;

verus! {

/// The body that says that there is no such order.
pub open spec fn order_not_found() -> ErrorView {
    ErrorView { error: "Order not found"@, code: "order_not_found"@ }
}

/// The body that says that an order has its payment already.
pub open spec fn already_processed() -> ErrorView {
    ErrorView {
        error: "Payment has already been processed for this order"@,
        code: "payment_already_processed"@,
    }
}

/// The body that says that a payment did not go through.
pub open spec fn payment_failed() -> ErrorView {
    ErrorView { error: "Failed to process payment"@, code: "payment_processing_failed"@ }
}

/// Answers with an order: 200 with the order, or 404.
pub fn get_order(data: &AppState, order_id: &String) -> (out: HttpOutcome<OrderResponse>)
    ensures
        match out {
            HttpOutcome::Success(r) => data@.has_order(order_id@) && r@ == (OrderResponseView {
                order: data@.order(order_id@),
                success: true,
                message: None,
            }),
            HttpOutcome::NotFound(e) => !data@.has_order(order_id@) && e@ == order_not_found(),
            _ => false,
        },
{
    match data.get(order_id) {
        Some(order) => HttpOutcome::Success(OrderResponse { order, success: true, message: None }),
        None => HttpOutcome::NotFound(ErrorResponse::new("Order not found", "order_not_found")),
    }
}

/// Answers 200 with the orders of a user.
pub fn get_user_orders(data: &AppState, user_id: &String) -> (out: HttpOutcome<Vec<Order>>)
    ensures
        out matches HttpOutcome::Success(found) && order_records(found@) == of_user(data@.records, user_id@),
{
    HttpOutcome::Success(data.by_user(user_id))
}

/// The end of a change of status: the answer, and the address at which the
/// ledger is to be asked to release the reservation of the order, where the
/// order was cancelled and its reservation is known. The release is asked
/// for once; how it ends does not change the answer.
#[derive(Debug)]
pub struct StatusChange {
    pub release_url: Option<String>,
    pub outcome: HttpOutcome<OrderResponse>,
}

/// The address at which the ledger is asked to do `action` to the
/// reservation `reservation_id`.
pub open spec fn reservation_url(config: Config, reservation_id: Seq<char>, action: Seq<char>) -> Seq<char> {
    config.inventory_service_url@ + "/api/inventory/reservation/"@ + reservation_id + action
}

/// The address at which the ledger is asked to do `action` to the
/// reservation that holds the stock of the order `order_id`; none where the
/// orders do not know the reservation.
pub open spec fn order_reservation_url(
    orders: Orders,
    config: Config,
    order_id: Seq<char>,
    action: Seq<char>,
) -> Option<Seq<char>> {
    match orders.reservation_of(order_id) {
        Some(reservation_id) => Some(reservation_url(config, reservation_id, action)),
        None => None,
    }
}

/// Writes the address at which the ledger is asked to do `action` to the
/// reservation of an order.
fn reservation_address(data: &AppState, order_id: &String, action: &str) -> (url: Option<String>)
    ensures
        opt_view(url) == order_reservation_url(data@, data.settings(), order_id@, action@),
{
    match data.reservation_of(order_id) {
        Some(reservation_id) => {
            let mut url = join3(
                data.config().inventory_service_url.as_str(),
                "/api/inventory/reservation/",
                reservation_id.as_str(),
            );
            url.append(action);
            Some(url)
        },
        None => None,
    }
}

/// What giving the order `id` the status `status` at the time `now` does to
/// the orders, and how it ends: 200 with the order, and where the status is
/// `Cancelled` a release to ask for, of the reservation that holds the stock
/// of the order; or 404, with nothing changed and nothing to ask for. Any
/// status is accepted, whatever status the order had.
pub open spec fn status_answer(
    before: Orders,
    after: Orders,
    config: Config,
    id: Seq<char>,
    status: OrderStatus,
    now: Timestamp,
    change: StatusChange,
) -> bool {
    &&& after == before.set_status(id, status, now)
    &&& if before.has_order(id) {
        &&& change.outcome matches HttpOutcome::Success(r) && r@ == (OrderResponseView {
            order: before.order(id).with_status(status, now),
            success: true,
            message: Some("Order status updated to "@ + status.name_view()),
        })
        &&& opt_view(change.release_url) == (if status == OrderStatus::Cancelled {
            order_reservation_url(before, config, id, "/release"@)
        } else {
            None
        })
    } else {
        &&& after == before
        &&& change.outcome.failed_with(404, order_not_found())
        &&& change.release_url is None
    }
}

/// Gives an order another status, at the time that the clock shows.
pub fn update_order_status(data: &mut AppState, order_id: &String, req: UpdateOrderStatusRequest) -> (change:
    StatusChange)
    requires
        old(data).wf(),
    ensures
        final(data).wf(),
        final(data).settings() == old(data).settings(),
        exists|now: Timestamp|
            now.on_clock() && #[trigger] status_answer(
                old(data)@,
                final(data)@,
                old(data).settings(),
                order_id@,
                req.status,
                now,
                change,
            ),
{
    let now = clock::now();
    proof {
        old(data)@.lemma_set_status(order_id@, req.status, now);
    }
    let change = match data.set_status(order_id, req.status, now) {
        Some(order) => {
            let release_url = match req.status {
                OrderStatus::Cancelled => reservation_address(data, order_id, "/release"),
                _ => None,
            };
            StatusChange {
                release_url,
                outcome: HttpOutcome::Success(
                    OrderResponse {
                        order,
                        success: true,
                        message: Some(join("Order status updated to ", req.status.name())),
                    },
                ),
            }
        },
        None => StatusChange {
            release_url: None,
            outcome: HttpOutcome::NotFound(ErrorResponse::new("Order not found", "order_not_found")),
        },
    };
    proof {
        crate::keyed::lemma_find(old(data)@.ids(), order_id@);
    }
    assert(status_answer(old(data)@, data@, old(data).settings(), order_id@, req.status, now, change));
    change
}

/// What to do next for the payment of an order.
#[derive(Debug)]
pub enum PaymentStep {
    /// Ask the payment processor at `url` to capture `request`, and hand the
    /// reply to `payment_replied`.
    Capture { url: String, request: CreatePaymentRequest },
    /// Answer: nothing is to be captured.
    Done(HttpOutcome<OrderResponse>),
}

/// What the payment processor said to a capture.
#[derive(Debug)]
pub enum CaptureReply {
    /// It answered with success; `payment_id` is the identifier of the
    /// payment in its answer, if the answer names one.
    Captured { payment_id: Option<String> },
    /// It answered with success, and what it said cannot be read.
    Malformed,
    /// It answered with a failure.
    Refused,
    /// It could not be reached.
    Unreachable,
}

/// Starts the payment of an order: the total of the order is to be
/// captured, unless there is no such order (404) or the order has its
/// payment already (400). Nothing is changed.
pub fn process_payment(data: &AppState, order_id: &String) -> (step: PaymentStep)
    ensures
        match step {
            PaymentStep::Capture { url, request } => {
                &&& data@.payable(order_id@)
                &&& url@ == data.settings().payment_service_url@ + "/api/payments"@
                &&& request@ == (CaptureRequestView {
                    order_id: order_id@,
                    amount: data@.order(order_id@).total,
                    currency: "USD"@,
                    payment_method: "credit_card"@,
                })
            },
            PaymentStep::Done(out) => if data@.has_order(order_id@) {
                data@.order(order_id@).payment_id is Some && out.failed_with(400, already_processed())
            } else {
                out.failed_with(404, order_not_found())
            },
        },
{
    match data.get(order_id) {
        None => PaymentStep::Done(
            HttpOutcome::NotFound(ErrorResponse::new("Order not found", "order_not_found")),
        ),
        Some(order) => {
            if order.payment_id.is_some() {
                PaymentStep::Done(
                    HttpOutcome::BadRequest(
                        ErrorResponse::new(
                            "Payment has already been processed for this order",
                            "payment_already_processed",
                        ),
                    ),
                )
            } else {
                PaymentStep::Capture {
                    url: join(data.config().payment_service_url.as_str(), "/api/payments"),
                    request: CreatePaymentRequest {
                        order_id: order_id.clone(),
                        amount: order.total,
                        currency: "USD".to_owned(),
                        payment_method: "credit_card".to_owned(),
                    },
                }
            }
        },
    }
}

/// The end of a payment: the answer, and the address at which the ledger is
/// to be asked to confirm the reservation of the order, where the payment
/// was recorded and the reservation is known. The confirmation is asked for
/// once; how it ends does not change the answer.
#[derive(Debug)]
pub struct Settlement {
    pub confirm_url: Option<String>,
    pub outcome: HttpOutcome<OrderResponse>,
}

/// The identifier under which a captured payment is recorded: the one that
/// the processor named, or `unknown`.
pub open spec fn recorded_id(payment_id: Option<String>) -> Seq<char> {
    match payment_id {
        Some(p) => p@,
        None => "unknown"@,
    }
}

/// What the reply of the payment processor, taken at the time `now`, does to
/// the orders, and how the payment ends. Where the payment was captured and
/// the order has none yet, the payment is recorded, the order moves to
/// `Processing`, the answer is 200 with the order, and a confirmation is to
/// be asked for, of the reservation that holds the stock of the order. In
/// every other case nothing changes and nothing is to be
/// asked for: 500 where the processor could not be reached; 400 where it
/// refused, where its answer cannot be read, where the order has its payment
/// already, and where the order is gone.
pub open spec fn settle_answer(
    before: Orders,
    after: Orders,
    config: Config,
    id: Seq<char>,
    reply: CaptureReply,
    now: Timestamp,
    end: Settlement,
) -> bool {
    match reply {
        CaptureReply::Captured { payment_id } => {
            &&& after == before.pay(id, recorded_id(payment_id), now)
            &&& if before.payable(id) {
                &&& end.outcome matches HttpOutcome::Success(r) && r@ == (OrderResponseView {
                    order: before.order(id).paid(recorded_id(payment_id), now),
                    success: true,
                    message: Some("Payment processed successfully"@),
                })
                &&& opt_view(end.confirm_url) == order_reservation_url(before, config, id, "/confirm"@)
            } else {
                &&& after == before
                &&& end.confirm_url is None
                &&& end.outcome.failed_with(
                    400,
                    if before.has_order(id) {
                        already_processed()
                    } else {
                        payment_failed()
                    },
                )
            }
        },
        CaptureReply::Unreachable => {
            &&& after == before
            &&& end.confirm_url is None
            &&& end.outcome.failed_with(
                500,
                ErrorView { error: "Failed to connect to payment service"@, code: "service_unavailable"@ },
            )
        },
        _ => {
            &&& after == before
            &&& end.confirm_url is None
            &&& end.outcome.failed_with(400, payment_failed())
        },
    }
}

/// Takes the reply of the payment processor to a capture, at the time that
/// the clock shows.
pub fn payment_replied(data: &mut AppState, order_id: &String, reply: CaptureReply) -> (end: Settlement)
    requires
        old(data).wf(),
    ensures
        final(data).wf(),
        final(data).settings() == old(data).settings(),
        exists|now: Timestamp|
            now.on_clock() && #[trigger] settle_answer(
                old(data)@,
                final(data)@,
                old(data).settings(),
                order_id@,
                reply,
                now,
                end,
            ),
{
    let now = clock::now();
    let end = match reply {
        CaptureReply::Captured { payment_id } => {
            let known = data.get(order_id).is_some();
            let recorded = match payment_id {
                Some(p) => p,
                None => "unknown".to_owned(),
            };
            proof {
                data@.lemma_pay(order_id@, recorded@, now);
            }
            match data.record_payment(order_id, recorded, now) {
                Some(order) => {
                    Settlement {
                        confirm_url: reservation_address(data, order_id, "/confirm"),
                        outcome: HttpOutcome::Success(
                            OrderResponse {
                                order,
                                success: true,
                                message: Some("Payment processed successfully".to_owned()),
                            },
                        ),
                    }
                },
                None => Settlement {
                    confirm_url: None,
                    outcome: if known {
                        HttpOutcome::BadRequest(
                            ErrorResponse::new(
                                "Payment has already been processed for this order",
                                "payment_already_processed",
                            ),
                        )
                    } else {
                        HttpOutcome::BadRequest(
                            ErrorResponse::new("Failed to process payment", "payment_processing_failed"),
                        )
                    },
                },
            }
        },
        CaptureReply::Unreachable => Settlement {
            confirm_url: None,
            outcome: HttpOutcome::InternalServerError(
                ErrorResponse::new("Failed to connect to payment service", "service_unavailable"),
            ),
        },
        _ => Settlement {
            confirm_url: None,
            outcome: HttpOutcome::BadRequest(
                ErrorResponse::new("Failed to process payment", "payment_processing_failed"),
            ),
        },
    };
    assert(settle_answer(old(data)@, data@, old(data).settings(), order_id@, reply, now, end));
    end
}

/// Reports that the orchestrator is up, with the time that the clock shows.
pub fn health_check() -> (r: HealthReport)
    ensures
        r.status@ == "ok"@,
        r.service@ == "order-service"@,
        r.checked_at.on_clock(),
{
    HealthReport::up("order-service", clock::now())
}

} // verus!
