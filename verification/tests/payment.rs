use fulfillment::clock::Timestamp;
use fulfillment::http::HttpOutcome;
use fulfillment::payment::handlers::{
    create_payment, get_payment, get_payments_by_order, health_check, refund_payment, AppState,
};
use fulfillment::payment::models::{
    BillingAddress, CreatePaymentRequest, Payment, PaymentMetadata, PaymentMethod, PaymentStatus,
    RefundRequest,
};
use fulfillment::payment::store::PaymentError;

fn text(s: &str) -> String {
    s.to_string()
}

fn capture(order: &str, amount: i64) -> CreatePaymentRequest {
    CreatePaymentRequest {
        order_id: text(order),
        amount,
        currency: text("USD"),
        payment_method: PaymentMethod::CreditCard,
        metadata: None,
    }
}

fn refund() -> RefundRequest {
    RefundRequest { amount: None, reason: text("changed my mind") }
}

fn payment(id: &str, order: &str, status: PaymentStatus) -> Payment {
    Payment {
        id: text(id),
        order_id: text(order),
        amount: 500,
        currency: text("EUR"),
        status,
        payment_method: PaymentMethod::PayPal,
        created_at: Timestamp::new(10, 0),
        updated_at: Timestamp::new(10, 0),
        transaction_id: None,
        metadata: None,
    }
}

fn is_hyphenated(id: &str) -> bool {
    let b = id.as_bytes();
    b.len() == 36 && b[8] == b'-' && b[13] == b'-' && b[18] == b'-' && b[23] == b'-'
}

#[test]
fn capture_completes_at_once() {
    let mut data = AppState::new();
    let metadata = PaymentMetadata {
        card_last_four: Some(text("4242")),
        card_brand: Some(text("visa")),
        customer_email: None,
        customer_name: Some(text("Ada")),
        billing_address: Some(BillingAddress {
            street: text("1 Main St"),
            city: text("Springfield"),
            state: text("IL"),
            postal_code: text("62701"),
            country: text("US"),
        }),
    };
    let req = CreatePaymentRequest {
        order_id: text("o1"),
        amount: 12_345,
        currency: text("USD"),
        payment_method: PaymentMethod::BankTransfer,
        metadata: Some(metadata),
    };
    let out = create_payment(&mut data, req);
    assert_eq!(out.status_code(), 201);
    let r = match out {
        HttpOutcome::Created(r) => r,
        other => panic!("unexpected: {:?}", other),
    };
    assert!(r.success);
    assert_eq!(r.message.as_deref(), Some("Payment processed successfully"));
    let p = r.payment;
    assert!(is_hyphenated(&p.id));
    assert_eq!(p.order_id, "o1");
    assert_eq!(p.amount, 12_345);
    assert_eq!(p.currency, "USD");
    assert_eq!(p.status, PaymentStatus::Completed);
    assert_eq!(p.payment_method, PaymentMethod::BankTransfer);
    assert_eq!(p.created_at, p.updated_at);
    assert!(p.created_at.secs > 1_600_000_000);
    let txn = p.transaction_id.clone().unwrap();
    assert!(txn.starts_with("txn_"));
    assert!(is_hyphenated(&txn[4..]));
    assert_ne!(&txn[4..], p.id);
    let m = p.metadata.as_ref().unwrap();
    assert_eq!(m.card_last_four.as_deref(), Some("4242"));
    assert_eq!(m.customer_email, None);
    assert_eq!(m.billing_address.as_ref().unwrap().city, "Springfield");

    match get_payment(&data, &p.id) {
        HttpOutcome::Success(found) => {
            assert_eq!(found.message, None);
            assert_eq!(found.payment.id, p.id);
            assert_eq!(found.payment.status, PaymentStatus::Completed);
            assert_eq!(found.payment.transaction_id, Some(txn));
            assert_eq!(found.payment.metadata.unwrap().card_brand.as_deref(), Some("visa"));
        }
        other => panic!("unexpected: {:?}", other),
    }
}

#[test]
fn get_of_a_missing_payment_is_404() {
    let data = AppState::new();
    match get_payment(&data, &text("p")) {
        HttpOutcome::NotFound(e) => {
            assert_eq!(e.error, "Payment not found");
            assert_eq!(e.code, "payment_not_found");
        }
        other => panic!("unexpected: {:?}", other),
    }
}

#[test]
fn payments_of_an_order() {
    let mut data = AppState::new();
    create_payment(&mut data, capture("o1", 100));
    create_payment(&mut data, capture("o2", 200));
    create_payment(&mut data, capture("o1", 300));
    match get_payments_by_order(&data, &text("o1")) {
        HttpOutcome::Success(found) => {
            let amounts: Vec<i64> = found.iter().map(|p| p.amount).collect();
            assert_eq!(amounts, vec![100, 300]);
        }
        other => panic!("unexpected: {:?}", other),
    }
    match get_payments_by_order(&data, &text("o3")) {
        HttpOutcome::Success(found) => assert!(found.is_empty()),
        other => panic!("unexpected: {:?}", other),
    }
}

#[test]
fn refund_goes_through_once() {
    let mut data = AppState::new();
    let id = match create_payment(&mut data, capture("o1", 100)) {
        HttpOutcome::Created(r) => r.payment.id,
        other => panic!("unexpected: {:?}", other),
    };
    let out = refund_payment(&mut data, &id, RefundRequest { amount: Some(40), reason: text("partial") });
    assert_eq!(out.status_code(), 200);
    match out {
        HttpOutcome::Success(r) => {
            assert_eq!(r.payment.status, PaymentStatus::Refunded);
            assert_eq!(r.payment.amount, 100);
            assert_eq!(r.message, Some(format!("Payment {} refunded successfully", id)));
        }
        other => panic!("unexpected: {:?}", other),
    }
    let out = refund_payment(&mut data, &id, refund());
    assert_eq!(out.status_code(), 400);
    match out {
        HttpOutcome::BadRequest(e) => {
            assert_eq!(e.error, "Payment cannot be refunded");
            assert_eq!(e.code, "invalid_refund_state");
        }
        other => panic!("unexpected: {:?}", other),
    }
    assert_eq!(data.get(&id).unwrap().status, PaymentStatus::Refunded);
}

#[test]
fn refund_of_a_missing_payment_is_404() {
    let mut data = AppState::new();
    match refund_payment(&mut data, &text("p"), refund()) {
        HttpOutcome::NotFound(e) => assert_eq!(e.code, "payment_not_found"),
        other => panic!("unexpected: {:?}", other),
    }
}

#[test]
fn refund_needs_a_completed_payment() {
    for status in [
        PaymentStatus::Pending,
        PaymentStatus::Processing,
        PaymentStatus::Failed,
        PaymentStatus::Refunded,
    ] {
        let mut data = AppState::new();
        data.insert(payment("p", "o", status));
        let r = data.refund(&text("p"), Timestamp::new(99, 0));
        assert_eq!(r.err(), Some(PaymentError::InvalidState));
        let kept = data.get(&text("p")).unwrap();
        assert_eq!(kept.status, status);
        assert_eq!(kept.updated_at, Timestamp::new(10, 0));
    }
    let mut data = AppState::new();
    data.insert(payment("p", "o", PaymentStatus::Completed));
    let done = data.refund(&text("p"), Timestamp::new(99, 5)).unwrap();
    assert_eq!(done.status, PaymentStatus::Refunded);
    assert_eq!(done.updated_at, Timestamp::new(99, 5));
    assert_eq!(done.created_at, Timestamp::new(10, 0));
    assert_eq!(data.refund(&text("q"), Timestamp::new(1, 0)).err(), Some(PaymentError::NotFound));
}

#[test]
fn a_payment_filed_twice_takes_the_place_of_the_first() {
    let mut data = AppState::new();
    data.insert(payment("p", "o1", PaymentStatus::Completed));
    data.insert(payment("q", "o1", PaymentStatus::Completed));
    data.insert(payment("p", "o2", PaymentStatus::Failed));
    assert_eq!(data.get(&text("p")).unwrap().order_id, "o2");
    assert_eq!(data.by_order(&text("o1")).len(), 1);
    assert_eq!(data.by_order(&text("o2")).len(), 1);
}

#[test]
fn health_of_the_processor() {
    let r = health_check();
    assert_eq!(r.status, "ok");
    assert_eq!(r.service, "payment-service");
}
