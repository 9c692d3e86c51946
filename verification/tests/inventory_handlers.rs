use fulfillment::http::HttpOutcome;
use fulfillment::inventory::handlers::{
    confirm_reservation, create_inventory_item, get_all_inventory, get_inventory_item, health_check,
    refusal, release_reservation, reserve_inventory, update_inventory_item, AppState,
};
use fulfillment::inventory::ledger::Shortfall;
use fulfillment::inventory::store::{LedgerError, LineFailure};
use fulfillment::inventory::models::{
    InventoryStatus, ReleaseInventoryRequest, ReservationStatus, ReserveInventoryRequest,
    UpdateInventoryRequest,
};
use fulfillment::quantities::ProductQuantities;

fn text(s: &str) -> String {
    s.to_string()
}

fn stock(quantity: i32) -> UpdateInventoryRequest {
    UpdateInventoryRequest { quantity, location: None }
}

fn request(order: &str, pairs: &[(&str, u32)]) -> ReserveInventoryRequest {
    let mut items = ProductQuantities::new();
    for (p, n) in pairs {
        items.insert(p.to_string(), *n);
    }
    ReserveInventoryRequest { order_id: text(order), items }
}

fn is_hyphenated(id: &str) -> bool {
    let b = id.as_bytes();
    b.len() == 36
        && b.iter().enumerate().all(|(i, c)| {
            if i == 8 || i == 13 || i == 18 || i == 23 {
                *c == b'-'
            } else {
                c.is_ascii_hexdigit()
            }
        })
}

#[test]
fn get_of_a_missing_product_is_404() {
    let data = AppState::new();
    let out = get_inventory_item(&data, &text("p"));
    assert_eq!(out.status_code(), 404);
    assert!(!out.is_success());
    match out {
        HttpOutcome::NotFound(e) => {
            assert_eq!(e.error, "Inventory item not found");
            assert_eq!(e.code, "inventory_not_found");
        }
        other => panic!("unexpected: {:?}", other),
    }
}

#[test]
fn create_then_get() {
    let mut data = AppState::new();
    let out = create_inventory_item(
        &mut data,
        text("p"),
        UpdateInventoryRequest { quantity: 12, location: Some(text("north")) },
    );
    assert_eq!(out.status_code(), 201);
    let created = match out {
        HttpOutcome::Created(r) => r,
        other => panic!("unexpected: {:?}", other),
    };
    assert!(created.success);
    assert_eq!(created.message.as_deref(), Some("Inventory item created successfully"));
    assert_eq!(created.item.available, 12);
    assert_eq!(created.item.status, InventoryStatus::InStock);
    assert_eq!(created.item.created_at, created.item.updated_at);
    assert!(created.item.created_at.secs > 1_600_000_000);

    match get_inventory_item(&data, &text("p")) {
        HttpOutcome::Success(r) => {
            assert!(r.success);
            assert_eq!(r.message, None);
            assert_eq!(r.item.product_id, "p");
            assert_eq!(r.item.location.as_deref(), Some("north"));
            assert_eq!(r.item.created_at, created.item.created_at);
        }
        other => panic!("unexpected: {:?}", other),
    }
}

#[test]
fn create_twice_is_400() {
    let mut data = AppState::new();
    create_inventory_item(&mut data, text("p"), stock(1));
    match create_inventory_item(&mut data, text("p"), stock(2)) {
        HttpOutcome::BadRequest(e) => {
            assert_eq!(e.error, "Inventory item already exists");
            assert_eq!(e.code, "inventory_already_exists");
        }
        other => panic!("unexpected: {:?}", other),
    }
}

#[test]
fn update_answers() {
    let mut data = AppState::new();
    match update_inventory_item(&mut data, &text("p"), stock(3)) {
        HttpOutcome::NotFound(e) => assert_eq!(e.code, "inventory_not_found"),
        other => panic!("unexpected: {:?}", other),
    }
    create_inventory_item(&mut data, text("p"), stock(1));
    match update_inventory_item(&mut data, &text("p"), stock(30)) {
        HttpOutcome::Success(r) => {
            assert_eq!(r.message.as_deref(), Some("Inventory item updated successfully"));
            assert_eq!(r.item.quantity, 30);
            assert_eq!(r.item.available, 30);
        }
        other => panic!("unexpected: {:?}", other),
    }
}

#[test]
fn list_answers_with_every_record() {
    let mut data = AppState::new();
    create_inventory_item(&mut data, text("a"), stock(1));
    create_inventory_item(&mut data, text("b"), stock(2));
    match get_all_inventory(&data) {
        HttpOutcome::Success(items) => {
            let mut names: Vec<String> = items.into_iter().map(|i| i.product_id).collect();
            names.sort();
            assert_eq!(names, vec![text("a"), text("b")]);
        }
        other => panic!("unexpected: {:?}", other),
    }
}

#[test]
fn reserve_answers_with_a_fresh_reservation() {
    let mut data = AppState::new();
    create_inventory_item(&mut data, text("a"), stock(10));
    let first = match reserve_inventory(&mut data, request("o1", &[("a", 3)])) {
        HttpOutcome::Created(r) => r,
        other => panic!("unexpected: {:?}", other),
    };
    assert!(first.success);
    assert_eq!(first.message.as_deref(), Some("Inventory reserved successfully"));
    assert!(is_hyphenated(&first.reservation.id));
    assert_eq!(first.reservation.order_id, "o1");
    assert_eq!(first.reservation.status, ReservationStatus::Pending);
    let made = first.reservation.created_at;
    assert!(made.secs > 1_600_000_000);
    let expires = first.reservation.expires_at.unwrap();
    assert_eq!(expires.secs, made.secs + 1800);
    assert_eq!(expires.nanos, made.nanos);

    let second = match reserve_inventory(&mut data, request("o2", &[("a", 3)])) {
        HttpOutcome::Created(r) => r,
        other => panic!("unexpected: {:?}", other),
    };
    assert!(is_hyphenated(&second.reservation.id));
    assert_ne!(first.reservation.id, second.reservation.id);
    assert_eq!(data.get(&text("a")).unwrap().available, 4);
}

#[test]
fn reserve_failures_are_400() {
    let mut data = AppState::new();
    create_inventory_item(&mut data, text("a"), stock(2));
    match reserve_inventory(&mut data, request("o", &[("a", 3)])) {
        HttpOutcome::BadRequest(e) => {
            assert_eq!(e.error, "Not enough inventory for product: a");
            assert_eq!(e.code, "insufficient_inventory");
        }
        other => panic!("unexpected: {:?}", other),
    }
    match reserve_inventory(&mut data, request("o", &[("zz", 1), ("a", 3)])) {
        HttpOutcome::BadRequest(e) => {
            assert_eq!(e.error, "Product not found in inventory: zz");
            assert_eq!(e.code, "product_not_found");
        }
        other => panic!("unexpected: {:?}", other),
    }
    assert_eq!(data.get(&text("a")).unwrap().available, 2);
}

#[test]
fn confirm_and_release_answers() {
    let mut data = AppState::new();
    create_inventory_item(&mut data, text("a"), stock(10));
    let id = match reserve_inventory(&mut data, request("o1", &[("a", 3)])) {
        HttpOutcome::Created(r) => r.reservation.id,
        other => panic!("unexpected: {:?}", other),
    };
    match confirm_reservation(&mut data, &text("missing")) {
        HttpOutcome::NotFound(e) => {
            assert_eq!(e.error, "Reservation not found");
            assert_eq!(e.code, "reservation_not_found");
        }
        other => panic!("unexpected: {:?}", other),
    }
    match release_reservation(&mut data, &text("missing")) {
        HttpOutcome::NotFound(e) => assert_eq!(e.code, "reservation_not_found"),
        other => panic!("unexpected: {:?}", other),
    }
    match confirm_reservation(&mut data, &id) {
        HttpOutcome::Success(r) => {
            assert_eq!(r.message.as_deref(), Some("Reservation confirmed successfully"));
            assert_eq!(r.reservation.status, ReservationStatus::Confirmed);
            assert_eq!(r.reservation.expires_at, None);
        }
        other => panic!("unexpected: {:?}", other),
    }
    match release_reservation(&mut data, &id) {
        HttpOutcome::BadRequest(e) => {
            assert_eq!(e.error, "Reservation cannot be released");
            assert_eq!(e.code, "invalid_reservation_state");
        }
        other => panic!("unexpected: {:?}", other),
    }
    assert_eq!(data.get(&text("a")).unwrap().available, 7);

    let other = match reserve_inventory(&mut data, request("o2", &[("a", 7)])) {
        HttpOutcome::Created(r) => r.reservation.id,
        other => panic!("unexpected: {:?}", other),
    };
    match release_reservation(&mut data, &other) {
        HttpOutcome::Success(r) => {
            assert_eq!(r.message.as_deref(), Some("Reservation released successfully"));
            assert_eq!(r.reservation.id, other);
            assert_eq!(r.reservation.status, ReservationStatus::Released);
            assert_eq!(r.reservation.order_id, "o2");
        }
        other => panic!("unexpected: {:?}", other),
    }
    assert_eq!(data.get(&text("a")).unwrap().available, 7);
    match confirm_reservation(&mut data, &other) {
        HttpOutcome::BadRequest(e) => {
            assert_eq!(e.error, "Reservation cannot be confirmed");
            assert_eq!(e.code, "invalid_reservation_state");
        }
        other => panic!("unexpected: {:?}", other),
    }
}

#[test]
fn health_of_the_ledger() {
    let r = health_check();
    assert_eq!(r.status, "ok");
    assert_eq!(r.service, "inventory-service");
    assert!(r.checked_at.secs > 1_600_000_000);
}

#[test]
fn release_request_names_an_order() {
    let r = ReleaseInventoryRequest { order_id: text("o9") };
    assert_eq!(r.order_id, "o9");
}

#[test]
fn a_taken_identifier_is_500() {
    let out = refusal(LedgerError::IdentifierInUse);
    assert_eq!(out.status_code(), 500);
    match out {
        HttpOutcome::InternalServerError(e) => {
            assert_eq!(e.error, "Reservation identifier already in use");
            assert_eq!(e.code, "reservation_conflict");
        }
        other => panic!("unexpected: {:?}", other),
    }
}

#[test]
fn the_first_failed_line_makes_the_answer() {
    let out = refusal(LedgerError::Unfulfillable(vec![
        LineFailure { product_id: text("x"), reason: Shortfall::Missing },
        LineFailure { product_id: text("y"), reason: Shortfall::Insufficient },
    ]));
    match out {
        HttpOutcome::BadRequest(e) => {
            assert_eq!(e.error, "Product not found in inventory: x");
            assert_eq!(e.code, "product_not_found");
        }
        other => panic!("unexpected: {:?}", other),
    }
}
