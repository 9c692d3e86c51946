use fulfillment::http::HttpOutcome;
use fulfillment::order::config::Config;
use fulfillment::order::handlers::{
    get_order, get_user_orders, health_check, payment_replied, process_payment, update_order_status,
    AppState, CaptureReply, PaymentStep,
};
use fulfillment::order::models::{
    Address, CreateOrderRequest, Order, OrderItemRequest, OrderStatus, ProductResponse,
    UpdateOrderStatusRequest,
};
use fulfillment::order::saga::{
    begin_order, catalog_replied, create_order, reservation_replied, CatalogReply, CreateOrderStep,
    OrderDraft, ReserveReply,
};
use fulfillment::clock::Timestamp;

fn text(s: &str) -> String {
    s.to_string()
}

fn config() -> Config {
    Config {
        server_host: text("0.0.0.0"),
        server_port: 8087,
        log_level: text("info"),
        product_service_url: text("http://catalog"),
        inventory_service_url: text("http://ledger"),
        payment_service_url: text("http://pay"),
    }
}

fn address(street: &str) -> Address {
    Address {
        street: text(street),
        city: text("Springfield"),
        state: text("IL"),
        postal_code: text("62701"),
        country: text("US"),
    }
}

fn request(user: &str, lines: &[(&str, u32)]) -> CreateOrderRequest {
    CreateOrderRequest {
        user_id: text(user),
        items: lines.iter().map(|(p, q)| OrderItemRequest { product_id: text(p), quantity: *q }).collect(),
        shipping_address: address("1 Ship St"),
        billing_address: address("2 Bill St"),
    }
}

fn product(id: &str, name: &str, price: i64) -> CatalogReply {
    CatalogReply::Found(ProductResponse {
        id: text(id),
        name: text(name),
        price,
        description: text("d"),
        category: text("c"),
        image_url: text("http://img"),
        stock: 1,
    })
}

fn fetch(step: CreateOrderStep) -> (String, OrderDraft) {
    match step {
        CreateOrderStep::FetchProduct { url, draft } => (url, draft),
        other => panic!("unexpected: {:?}", other),
    }
}

fn failure(step: CreateOrderStep) -> (u16, String, String) {
    match step {
        CreateOrderStep::Done(out) => {
            let status = out.status_code();
            match out {
                HttpOutcome::BadRequest(e) | HttpOutcome::NotFound(e) | HttpOutcome::InternalServerError(e) => {
                    (status, e.error, e.code)
                }
                other => panic!("unexpected: {:?}", other),
            }
        }
        other => panic!("unexpected: {:?}", other),
    }
}

fn reserved(id: &str) -> ReserveReply {
    ReserveReply::Reserved { reservation_id: Some(text(id)) }
}

/// Files an order whose stock the ledger holds under `res-` and the
/// identifier of the order.
fn place(data: &mut AppState, id: &str, user: &str, lines: &[(&str, u32, i64)]) -> Order {
    let asked: Vec<(&str, u32)> = lines.iter().map(|(p, q, _)| (*p, *q)).collect();
    let mut step = begin_order(&config(), request(user, &asked), text(id), Timestamp::new(1000, 1));
    for (p, _, price) in lines {
        let (_, draft) = fetch(step);
        step = catalog_replied(&config(), draft, product(p, "thing", *price));
    }
    let draft = match step {
        CreateOrderStep::Reserve { draft, .. } => draft,
        other => panic!("unexpected: {:?}", other),
    };
    match reservation_replied(data, draft, reserved(&format!("res-{}", id))) {
        HttpOutcome::Created(r) => r.order,
        other => panic!("unexpected: {:?}", other),
    }
}

#[test]
fn an_order_is_priced_line_by_line_and_filed_when_reserved() {
    let mut data = AppState::new(config());
    let step = begin_order(
        &config(),
        request("u1", &[("pen", 2), ("ink", 3)]),
        text("order-1"),
        Timestamp::new(1000, 5),
    );
    let (url, draft) = fetch(step);
    assert_eq!(url, "http://catalog/api/products/pen");
    assert_eq!(draft.order_id(), "order-1");
    assert_eq!(draft.priced_lines(), 0);
    assert_eq!(draft.total(), 0);

    let (url, draft) = fetch(catalog_replied(&config(), draft, product("pen", "Widget", 1999)));
    assert_eq!(url, "http://catalog/api/products/ink");
    assert_eq!(draft.priced_lines(), 1);
    assert_eq!(draft.total(), 3998);

    let (url, request, draft) = match catalog_replied(&config(), draft, product("ink", "Gadget", 250)) {
        CreateOrderStep::Reserve { url, request, draft } => (url, request, draft),
        other => panic!("unexpected: {:?}", other),
    };
    assert_eq!(url, "http://ledger/api/inventory/reserve");
    assert_eq!(request.order_id, "order-1");
    assert_eq!(request.items.len(), 2);
    assert_eq!(request.items.get(&text("pen")), Some(2));
    assert_eq!(request.items.get(&text("ink")), Some(3));
    assert_eq!(draft.total(), 3998 + 750);
    assert!(matches!(get_order(&data, &text("order-1")), HttpOutcome::NotFound(_)));

    assert_eq!(data.reservation_of(&text("order-1")), None);
    let out = reservation_replied(&mut data, draft, reserved("res-77"));
    assert_eq!(data.reservation_of(&text("order-1")), Some(text("res-77")));
    assert_eq!(out.status_code(), 201);
    let r = match out {
        HttpOutcome::Created(r) => r,
        other => panic!("unexpected: {:?}", other),
    };
    assert!(r.success);
    assert_eq!(r.message.as_deref(), Some("Order created successfully"));
    let order = r.order;
    assert_eq!(order.id, "order-1");
    assert_eq!(order.user_id, "u1");
    assert_eq!(order.status, OrderStatus::Pending);
    assert_eq!(order.payment_id, None);
    assert_eq!(order.created_at, Timestamp::new(1000, 5));
    assert_eq!(order.updated_at, Timestamp::new(1000, 5));
    assert_eq!(order.shipping_address.street, "1 Ship St");
    assert_eq!(order.billing_address.street, "2 Bill St");
    assert_eq!(order.items.len(), 2);
    assert_eq!(order.items[0].product_id, "pen");
    assert_eq!(order.items[0].name, "Widget");
    assert_eq!(order.items[0].price, 1999);
    assert_eq!(order.items[0].quantity, 2);
    assert_eq!(order.items[0].subtotal, 3998);
    assert_eq!(order.items[1].name, "Gadget");
    assert_eq!(order.items[1].subtotal, 750);
    assert_eq!(order.total, 4748);
    assert_eq!(order.total, order.items.iter().map(|i| i.subtotal).sum::<i64>());

    match get_order(&data, &text("order-1")) {
        HttpOutcome::Success(found) => {
            assert_eq!(found.message, None);
            assert_eq!(found.order.total, 4748);
            assert_eq!(found.order.items.len(), 2);
        }
        other => panic!("unexpected: {:?}", other),
    }
}

#[test]
fn create_order_starts_under_a_fresh_identifier() {
    let data = AppState::new(config());
    let (url, draft) = fetch(create_order(&data, request("u", &[("cap", 1)])));
    assert_eq!(url, "http://catalog/api/products/cap");
    let id = draft.order_id().clone();
    assert_eq!(id.len(), 36);
    assert_eq!(id.matches('-').count(), 4);
    let (_, other) = fetch(create_order(&data, request("u", &[("cap", 1)])));
    assert_ne!(&id, other.order_id());
    assert!(matches!(get_order(&data, &id), HttpOutcome::NotFound(_)));
}

#[test]
fn an_order_without_lines_goes_straight_to_the_ledger() {
    let mut data = AppState::new(config());
    let step = begin_order(&config(), request("u", &[]), text("o"), Timestamp::new(1, 0));
    let (request, draft) = match step {
        CreateOrderStep::Reserve { request, draft, .. } => (request, draft),
        other => panic!("unexpected: {:?}", other),
    };
    assert!(request.items.is_empty());
    match reservation_replied(&mut data, draft, reserved("res-0")) {
        HttpOutcome::Created(r) => {
            assert_eq!(r.order.total, 0);
            assert!(r.order.items.is_empty());
        }
        other => panic!("unexpected: {:?}", other),
    }
}

#[test]
fn a_product_asked_twice_is_reserved_with_the_sum_of_the_units() {
    let step = begin_order(
        &config(),
        request("u", &[("p", 2), ("q", 1), ("p", 5)]),
        text("o"),
        Timestamp::new(1, 0),
    );
    let (_, draft) = fetch(step);
    let (_, draft) = fetch(catalog_replied(&config(), draft, product("p", "P", 10)));
    let (_, draft) = fetch(catalog_replied(&config(), draft, product("q", "Q", 100)));
    match catalog_replied(&config(), draft, product("p", "P", 10)) {
        CreateOrderStep::Reserve { request, draft, .. } => {
            assert_eq!(request.items.len(), 2);
            assert_eq!(request.items.get(&text("p")), Some(7));
            assert_eq!(request.items.get(&text("q")), Some(1));
            assert_eq!(request.items.product_at(0), "p");
            assert_eq!(request.items.product_at(1), "q");
            assert_eq!(draft.priced_lines(), 3);
            assert_eq!(draft.total(), 20 + 100 + 50);
        }
        other => panic!("unexpected: {:?}", other),
    }
}

#[test]
fn a_catalog_failure_ends_the_order() {
    let start = || {
        let step = begin_order(&config(), request("u", &[("pen", 1), ("ink", 1)]), text("o"), Timestamp::new(1, 0));
        let (_, draft) = fetch(step);
        let (_, draft) = fetch(catalog_replied(&config(), draft, product("pen", "A", 5)));
        draft
    };
    assert_eq!(
        failure(catalog_replied(&config(), start(), CatalogReply::Refused)),
        (400, text("Product not found: ink"), text("product_not_found"))
    );
    assert_eq!(
        failure(catalog_replied(&config(), start(), CatalogReply::Unreachable)),
        (500, text("Failed to connect to product service"), text("service_unavailable"))
    );
    assert_eq!(
        failure(catalog_replied(&config(), start(), CatalogReply::Malformed)),
        (500, text("Failed to fetch product details"), text("product_fetch_error"))
    );
}

#[test]
fn an_amount_that_cannot_be_held_ends_the_order() {
    let step = begin_order(&config(), request("u", &[("pen", 3)]), text("o"), Timestamp::new(1, 0));
    let (_, draft) = fetch(step);
    assert_eq!(
        failure(catalog_replied(&config(), draft, product("pen", "A", i64::MAX / 2))),
        (500, text("Failed to fetch product details"), text("product_fetch_error"))
    );
    let step = begin_order(&config(), request("u", &[("pen", 1), ("ink", 1)]), text("o"), Timestamp::new(1, 0));
    let (_, draft) = fetch(step);
    let (_, draft) = fetch(catalog_replied(&config(), draft, product("pen", "A", i64::MAX)));
    assert_eq!(draft.total(), i64::MAX);
    assert_eq!(
        failure(catalog_replied(&config(), draft, product("ink", "B", 1))),
        (500, text("Failed to fetch product details"), text("product_fetch_error"))
    );
    let step = begin_order(&config(), request("u", &[("pen", 1), ("ink", 2)]), text("o"), Timestamp::new(1, 0));
    let (_, draft) = fetch(step);
    let (_, draft) = fetch(catalog_replied(&config(), draft, product("pen", "A", i64::MAX)));
    match catalog_replied(&config(), draft, product("ink", "B", -5)) {
        CreateOrderStep::Reserve { draft, .. } => assert_eq!(draft.total(), i64::MAX - 10),
        other => panic!("unexpected: {:?}", other),
    }
}

#[test]
fn units_that_cannot_be_added_up_end_the_order() {
    let step = begin_order(
        &config(),
        request("u", &[("p", u32::MAX), ("q", 1), ("p", 1)]),
        text("o"),
        Timestamp::new(1, 0),
    );
    let (_, draft) = fetch(step);
    let (_, draft) = fetch(catalog_replied(&config(), draft, product("p", "P", 1)));
    let (_, draft) = fetch(catalog_replied(&config(), draft, product("q", "Q", 1)));
    assert_eq!(
        failure(catalog_replied(&config(), draft, product("p", "P", 1))),
        (400, text("Too many units of product: p"), text("invalid_quantity"))
    );

    let step = begin_order(
        &config(),
        request("u", &[("p", u32::MAX - 1), ("p", 1)]),
        text("o"),
        Timestamp::new(1, 0),
    );
    let (_, draft) = fetch(step);
    let (_, draft) = fetch(catalog_replied(&config(), draft, product("p", "P", 1)));
    match catalog_replied(&config(), draft, product("p", "P", 1)) {
        CreateOrderStep::Reserve { request, .. } => {
            assert_eq!(request.items.len(), 1);
            assert_eq!(request.items.get(&text("p")), Some(u32::MAX));
        }
        other => panic!("unexpected: {:?}", other),
    }
}

#[test]
fn a_reply_for_a_complete_draft_changes_nothing() {
    let step = begin_order(&config(), request("u", &[("pen", 1)]), text("o"), Timestamp::new(1, 0));
    let (_, draft) = fetch(step);
    let draft = match catalog_replied(&config(), draft, product("pen", "A", 5)) {
        CreateOrderStep::Reserve { draft, .. } => draft,
        other => panic!("unexpected: {:?}", other),
    };
    match catalog_replied(&config(), draft, CatalogReply::Refused) {
        CreateOrderStep::Reserve { request, draft, .. } => {
            assert_eq!(draft.total(), 5);
            assert_eq!(request.items.len(), 1);
        }
        other => panic!("unexpected: {:?}", other),
    }
}

#[test]
fn a_refused_reservation_files_no_order() {
    for (reply, status, error, code) in [
        (ReserveReply::Refused, 400, "Failed to reserve inventory", "inventory_reservation_failed"),
        (ReserveReply::Unreachable, 500, "Failed to connect to inventory service", "service_unavailable"),
    ] {
        let mut data = AppState::new(config());
        let step = begin_order(&config(), request("u", &[("pen", 1)]), text("o"), Timestamp::new(1, 0));
        let (_, draft) = fetch(step);
        let draft = match catalog_replied(&config(), draft, product("pen", "A", 5)) {
            CreateOrderStep::Reserve { draft, .. } => draft,
            other => panic!("unexpected: {:?}", other),
        };
        let out = reservation_replied(&mut data, draft, reply);
        assert_eq!(out.status_code(), status);
        match out {
            HttpOutcome::BadRequest(e) | HttpOutcome::InternalServerError(e) => {
                assert_eq!(e.error, error);
                assert_eq!(e.code, code);
            }
            other => panic!("unexpected: {:?}", other),
        }
        assert!(matches!(get_order(&data, &text("o")), HttpOutcome::NotFound(_)));
        assert!(data.by_user(&text("u")).is_empty());
        assert_eq!(data.reservation_of(&text("o")), None);
    }
}

#[test]
fn orders_of_a_user() {
    let mut data = AppState::new(config());
    place(&mut data, "o1", "ann", &[("p", 1, 5)]);
    place(&mut data, "o2", "bob", &[("p", 1, 5)]);
    place(&mut data, "o3", "ann", &[("p", 2, 5)]);
    match get_user_orders(&data, &text("ann")) {
        HttpOutcome::Success(found) => {
            let ids: Vec<String> = found.into_iter().map(|o| o.id).collect();
            assert_eq!(ids, vec![text("o1"), text("o3")]);
        }
        other => panic!("unexpected: {:?}", other),
    }
    match get_user_orders(&data, &text("eve")) {
        HttpOutcome::Success(found) => assert!(found.is_empty()),
        other => panic!("unexpected: {:?}", other),
    }
    match get_order(&data, &text("o9")) {
        HttpOutcome::NotFound(e) => {
            assert_eq!(e.error, "Order not found");
            assert_eq!(e.code, "order_not_found");
        }
        other => panic!("unexpected: {:?}", other),
    }
}

#[test]
fn payment_is_captured_once() {
    let mut data = AppState::new(config());
    place(&mut data, "o1", "ann", &[("p", 2, 700), ("q", 1, 99)]);

    let (url, request) = match process_payment(&data, &text("o1")) {
        PaymentStep::Capture { url, request } => (url, request),
        other => panic!("unexpected: {:?}", other),
    };
    assert_eq!(url, "http://pay/api/payments");
    assert_eq!(request.order_id, "o1");
    assert_eq!(request.amount, 1499);
    assert_eq!(request.currency, "USD");
    assert_eq!(request.payment_method, "credit_card");

    let end = payment_replied(&mut data, &text("o1"), CaptureReply::Captured { payment_id: Some(text("pay-7")) });
    assert_eq!(end.confirm_url.as_deref(), Some("http://ledger/api/inventory/reservation/res-o1/confirm"));
    assert_eq!(end.outcome.status_code(), 200);
    match end.outcome {
        HttpOutcome::Success(r) => {
            assert_eq!(r.message.as_deref(), Some("Payment processed successfully"));
            assert_eq!(r.order.payment_id.as_deref(), Some("pay-7"));
            assert_eq!(r.order.status, OrderStatus::Processing);
            assert_eq!(r.order.total, 1499);
            assert_eq!(r.order.created_at, Timestamp::new(1000, 1));
            assert!(r.order.updated_at.secs > 1_600_000_000);
        }
        other => panic!("unexpected: {:?}", other),
    }

    match process_payment(&data, &text("o1")) {
        PaymentStep::Done(out) => {
            assert_eq!(out.status_code(), 400);
            match out {
                HttpOutcome::BadRequest(e) => {
                    assert_eq!(e.error, "Payment has already been processed for this order");
                    assert_eq!(e.code, "payment_already_processed");
                }
                other => panic!("unexpected: {:?}", other),
            }
        }
        other => panic!("unexpected: {:?}", other),
    }

    let late = payment_replied(&mut data, &text("o1"), CaptureReply::Captured { payment_id: Some(text("pay-8")) });
    assert_eq!(late.confirm_url, None);
    match late.outcome {
        HttpOutcome::BadRequest(e) => assert_eq!(e.code, "payment_already_processed"),
        other => panic!("unexpected: {:?}", other),
    }
    assert_eq!(data.get(&text("o1")).unwrap().payment_id.as_deref(), Some("pay-7"));
}

#[test]
fn payment_of_a_missing_order_is_404() {
    let mut data = AppState::new(config());
    match process_payment(&data, &text("o1")) {
        PaymentStep::Done(HttpOutcome::NotFound(e)) => {
            assert_eq!(e.error, "Order not found");
            assert_eq!(e.code, "order_not_found");
        }
        other => panic!("unexpected: {:?}", other),
    }
    let end = payment_replied(&mut data, &text("o1"), CaptureReply::Captured { payment_id: None });
    assert_eq!(end.confirm_url, None);
    match end.outcome {
        HttpOutcome::BadRequest(e) => {
            assert_eq!(e.error, "Failed to process payment");
            assert_eq!(e.code, "payment_processing_failed");
        }
        other => panic!("unexpected: {:?}", other),
    }
}

#[test]
fn a_payment_without_an_identifier_is_recorded_as_unknown() {
    let mut data = AppState::new(config());
    place(&mut data, "o1", "ann", &[("p", 1, 5)]);
    let end = payment_replied(&mut data, &text("o1"), CaptureReply::Captured { payment_id: None });
    match end.outcome {
        HttpOutcome::Success(r) => assert_eq!(r.order.payment_id.as_deref(), Some("unknown")),
        other => panic!("unexpected: {:?}", other),
    }
}

#[test]
fn a_failed_payment_leaves_the_order_alone() {
    for (reply, status, error, code) in [
        (CaptureReply::Refused, 400, "Failed to process payment", "payment_processing_failed"),
        (CaptureReply::Malformed, 400, "Failed to process payment", "payment_processing_failed"),
        (CaptureReply::Unreachable, 500, "Failed to connect to payment service", "service_unavailable"),
    ] {
        let mut data = AppState::new(config());
        let placed = place(&mut data, "o1", "ann", &[("p", 1, 5)]);
        let end = payment_replied(&mut data, &text("o1"), reply);
        assert_eq!(end.confirm_url, None);
        assert_eq!(end.outcome.status_code(), status);
        match end.outcome {
            HttpOutcome::BadRequest(e) | HttpOutcome::InternalServerError(e) => {
                assert_eq!(e.error, error);
                assert_eq!(e.code, code);
            }
            other => panic!("unexpected: {:?}", other),
        }
        let kept = data.get(&text("o1")).unwrap();
        assert_eq!(kept.status, OrderStatus::Pending);
        assert_eq!(kept.payment_id, None);
        assert_eq!(kept.updated_at, placed.updated_at);
        assert!(matches!(process_payment(&data, &text("o1")), PaymentStep::Capture { .. }));
    }
}

#[test]
fn any_status_is_accepted_and_cancelling_asks_for_a_release() {
    let mut data = AppState::new(config());
    place(&mut data, "o1", "ann", &[("p", 3, 5)]);
    for (status, name) in [
        (OrderStatus::Delivered, "Delivered"),
        (OrderStatus::Pending, "Pending"),
        (OrderStatus::Shipped, "Shipped"),
        (OrderStatus::Processing, "Processing"),
    ] {
        let change = update_order_status(&mut data, &text("o1"), UpdateOrderStatusRequest { status });
        assert_eq!(change.release_url, None);
        match change.outcome {
            HttpOutcome::Success(r) => {
                assert_eq!(r.order.status, status);
                assert_eq!(r.message, Some(format!("Order status updated to {}", name)));
                assert_eq!(r.order.total, 15);
                assert_eq!(r.order.items.len(), 1);
                assert!(r.order.updated_at.secs > 1_600_000_000);
                assert_eq!(r.order.created_at, Timestamp::new(1000, 1));
            }
            other => panic!("unexpected: {:?}", other),
        }
        assert_eq!(status.name(), name);
    }
    let change =
        update_order_status(&mut data, &text("o1"), UpdateOrderStatusRequest { status: OrderStatus::Cancelled });
    assert_eq!(change.release_url.as_deref(), Some("http://ledger/api/inventory/reservation/res-o1/release"));
    match change.outcome {
        HttpOutcome::Success(r) => {
            assert_eq!(r.order.status, OrderStatus::Cancelled);
            assert_eq!(r.message.as_deref(), Some("Order status updated to Cancelled"));
        }
        other => panic!("unexpected: {:?}", other),
    }
    assert_eq!(data.get(&text("o1")).unwrap().status, OrderStatus::Cancelled);
}

#[test]
fn an_order_whose_reservation_is_not_known_asks_the_ledger_for_nothing() {
    let mut data = AppState::new(config());
    let step = begin_order(&config(), request("ann", &[("p", 1)]), text("o1"), Timestamp::new(1, 0));
    let (_, draft) = fetch(step);
    let draft = match catalog_replied(&config(), draft, product("p", "P", 5)) {
        CreateOrderStep::Reserve { draft, .. } => draft,
        other => panic!("unexpected: {:?}", other),
    };
    let out = reservation_replied(&mut data, draft, ReserveReply::Reserved { reservation_id: None });
    assert_eq!(out.status_code(), 201);
    assert_eq!(data.reservation_of(&text("o1")), None);
    let end = payment_replied(&mut data, &text("o1"), CaptureReply::Captured { payment_id: Some(text("pay")) });
    assert_eq!(end.outcome.status_code(), 200);
    assert_eq!(end.confirm_url, None);
    let change =
        update_order_status(&mut data, &text("o1"), UpdateOrderStatusRequest { status: OrderStatus::Cancelled });
    assert_eq!(change.outcome.status_code(), 200);
    assert_eq!(change.release_url, None);
}

#[test]
fn the_reservation_of_an_order_is_kept() {
    let mut data = AppState::new(config());
    place(&mut data, "o1", "ann", &[("p", 1, 5)]);
    place(&mut data, "o2", "bob", &[("p", 1, 5)]);
    assert_eq!(data.reservation_of(&text("o1")), Some(text("res-o1")));
    assert_eq!(data.reservation_of(&text("o2")), Some(text("res-o2")));
    assert_eq!(data.reservation_of(&text("o3")), None);
    payment_replied(&mut data, &text("o1"), CaptureReply::Captured { payment_id: None });
    update_order_status(&mut data, &text("o2"), UpdateOrderStatusRequest { status: OrderStatus::Shipped });
    assert_eq!(data.reservation_of(&text("o1")), Some(text("res-o1")));
    assert_eq!(data.reservation_of(&text("o2")), Some(text("res-o2")));
}

#[test]
fn status_of_a_missing_order_is_404() {
    let mut data = AppState::new(config());
    let change =
        update_order_status(&mut data, &text("o1"), UpdateOrderStatusRequest { status: OrderStatus::Cancelled });
    assert_eq!(change.release_url, None);
    assert_eq!(change.outcome.status_code(), 404);
    match change.outcome {
        HttpOutcome::NotFound(e) => assert_eq!(e.code, "order_not_found"),
        other => panic!("unexpected: {:?}", other),
    }
}

#[test]
fn a_change_of_status_keeps_the_payment() {
    let mut data = AppState::new(config());
    place(&mut data, "o1", "ann", &[("p", 3, 5)]);
    payment_replied(&mut data, &text("o1"), CaptureReply::Captured { payment_id: Some(text("pay-1")) });
    update_order_status(&mut data, &text("o1"), UpdateOrderStatusRequest { status: OrderStatus::Pending });
    let kept = data.get(&text("o1")).unwrap();
    assert_eq!(kept.status, OrderStatus::Pending);
    assert_eq!(kept.payment_id.as_deref(), Some("pay-1"));
    assert!(matches!(process_payment(&data, &text("o1")), PaymentStep::Done(HttpOutcome::BadRequest(_))));
}

#[test]
fn an_order_filed_twice_takes_the_place_of_the_first() {
    let mut data = AppState::new(config());
    place(&mut data, "o1", "ann", &[("p", 3, 5)]);
    place(&mut data, "o1", "bob", &[("q", 1, 7)]);
    assert_eq!(data.by_user(&text("ann")).len(), 0);
    assert_eq!(data.by_user(&text("bob")).len(), 1);
    assert_eq!(data.get(&text("o1")).unwrap().total, 7);
    assert_eq!(data.config().payment_service_url, "http://pay");
}

#[test]
fn health_of_the_orchestrator() {
    let r = health_check();
    assert_eq!(r.status, "ok");
    assert_eq!(r.service, "order-service");
}
