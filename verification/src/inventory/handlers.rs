//! The requests that the inventory ledger serves, each from the request to
//! the status and body of its answer.

use vstd::prelude::*;
use crate::clock;
use crate::clock::Timestamp;
use crate::http::{ErrorResponse, ErrorView, HealthReport, HttpOutcome};
use crate::ident;
use crate::ident::hyphenated;
use crate::text::{join, opt_view};
use super::ledger::{Ledger, Shortfall};
use super::models::{
    InventoryItem, InventoryResponse, InventoryResponseView, ReservationRecord, ReservationResponse,
    ReservationResponseView, ReserveInventoryRequest, StockRecord, UpdateInventoryRequest,
};
use super::store::{failure_views, records, LedgerError};
pub use super::store::AppState;

verus! {

/// The body that says that a product has no stock record.
pub open spec fn item_not_found() -> ErrorView {
    ErrorView { error: "Inventory item not found"@, code: "inventory_not_found"@ }
}

/// The body that says that there is no such reservation.
pub open spec fn reservation_not_found() -> ErrorView {
    ErrorView { error: "Reservation not found"@, code: "reservation_not_found"@ }
}

/// The body that goes with the first line that could not be reserved.
pub open spec fn shortfall_body(failure: (Seq<char>, Shortfall)) -> ErrorView {
    match failure.1 {
        Shortfall::Insufficient => ErrorView {
            error: "Not enough inventory for product: "@ + failure.0,
            code: "insufficient_inventory"@,
        },
        Shortfall::Missing => ErrorView {
            error: "Product not found in inventory: "@ + failure.0,
            code: "product_not_found"@,
        },
    }
}

/// Answers with the stock record of a product: 200 with the record, or 404.
pub fn get_inventory_item(data: &AppState, product_id: &String) -> (out: HttpOutcome<InventoryResponse>)
    ensures
        match out {
            HttpOutcome::Success(r) => data@.has_product(product_id@) && r@ == (InventoryResponseView {
                item: data@.record(product_id@),
                success: true,
                message: None,
            }),
            HttpOutcome::NotFound(e) => !data@.has_product(product_id@) && e@ == item_not_found(),
            _ => false,
        },
{
    match data.get(product_id) {
        Some(item) => HttpOutcome::Success(InventoryResponse { item, success: true, message: None }),
        None => HttpOutcome::NotFound(ErrorResponse::new("Inventory item not found", "inventory_not_found")),
    }
}

/// Answers 200 with every stock record.
pub fn get_all_inventory(data: &AppState) -> (out: HttpOutcome<Vec<InventoryItem>>)
    ensures
        out matches HttpOutcome::Success(items) && records(items@) == data@.stock,
{
    HttpOutcome::Success(data.list())
}

/// What opening a stock record at the time `now` does to the ledger, and the
/// answer that goes with it: 201 with the new record, or 400 where the
/// product has a record already.
pub open spec fn create_answer(
    before: Ledger,
    after: Ledger,
    product_id: Seq<char>,
    quantity: int,
    location: Option<Seq<char>>,
    now: Timestamp,
    out: HttpOutcome<InventoryResponse>,
) -> bool {
    &&& after == before.create(product_id, quantity, location, now)
    &&& match out {
        HttpOutcome::Created(r) => !before.has_product(product_id) && r@ == (InventoryResponseView {
            item: StockRecord::opened(product_id, quantity, location, now),
            success: true,
            message: Some("Inventory item created successfully"@),
        }),
        HttpOutcome::BadRequest(e) => before.has_product(product_id) && e@ == (ErrorView {
            error: "Inventory item already exists"@,
            code: "inventory_already_exists"@,
        }),
        _ => false,
    }
}

/// Opens a stock record for a product, at the time that the clock shows.
pub fn create_inventory_item(data: &mut AppState, product_id: String, req: UpdateInventoryRequest) -> (out:
    HttpOutcome<InventoryResponse>)
    requires
        old(data).wf(),
    ensures
        final(data).wf(),
        exists|now: Timestamp|
            now.on_clock() && #[trigger] create_answer(
                old(data)@,
                final(data)@,
                product_id@,
                req.quantity as int,
                opt_view(req.location),
                now,
                out,
            ),
{
    let now = clock::now();
    let out = match data.create(product_id, req.quantity, req.location, now) {
        Ok(item) => HttpOutcome::Created(
            InventoryResponse {
                item,
                success: true,
                message: Some("Inventory item created successfully".to_owned()),
            },
        ),
        Err(_) => HttpOutcome::BadRequest(
            ErrorResponse::new("Inventory item already exists", "inventory_already_exists"),
        ),
    };
    assert(create_answer(
        old(data)@,
        data@,
        product_id@,
        req.quantity as int,
        opt_view(req.location),
        now,
        out,
    ));
    out
}

/// What setting the owned units of a product at the time `now` does to the
/// ledger, and the answer that goes with it: 200 with the record, or 404.
pub open spec fn update_answer(
    before: Ledger,
    after: Ledger,
    product_id: Seq<char>,
    quantity: int,
    location: Option<Seq<char>>,
    now: Timestamp,
    out: HttpOutcome<InventoryResponse>,
) -> bool {
    &&& after == before.update(product_id, quantity, location, now)
    &&& match out {
        HttpOutcome::Success(r) => before.has_product(product_id) && r@ == (InventoryResponseView {
            item: before.record(product_id).restocked(quantity, location, now),
            success: true,
            message: Some("Inventory item updated successfully"@),
        }),
        HttpOutcome::NotFound(e) => !before.has_product(product_id) && e@ == item_not_found(),
        _ => false,
    }
}

/// Sets the owned units and the location of a product, at the time that the
/// clock shows.
pub fn update_inventory_item(data: &mut AppState, product_id: &String, req: UpdateInventoryRequest) -> (out:
    HttpOutcome<InventoryResponse>)
    requires
        old(data).wf(),
    ensures
        final(data).wf(),
        exists|now: Timestamp|
            now.on_clock() && #[trigger] update_answer(
                old(data)@,
                final(data)@,
                product_id@,
                req.quantity as int,
                opt_view(req.location),
                now,
                out,
            ),
{
    let now = clock::now();
    let out = match data.update(product_id, req.quantity, req.location, now) {
        Ok(item) => HttpOutcome::Success(
            InventoryResponse {
                item,
                success: true,
                message: Some("Inventory item updated successfully".to_owned()),
            },
        ),
        Err(_) => HttpOutcome::NotFound(ErrorResponse::new("Inventory item not found", "inventory_not_found")),
    };
    assert(update_answer(
        old(data)@,
        data@,
        product_id@,
        req.quantity as int,
        opt_view(req.location),
        now,
        out,
    ));
    out
}

/// The answer to a reservation that the ledger refused: 400 for the first
/// line that failed, 500 where the identifier was taken.
pub fn refusal(e: LedgerError) -> (out: HttpOutcome<ReservationResponse>)
    requires
        e matches LedgerError::Unfulfillable(failures) ==> failures@.len() > 0,
        e is Unfulfillable || e is IdentifierInUse,
    ensures
        match e {
            LedgerError::Unfulfillable(failures) => out matches HttpOutcome::BadRequest(body) && body@
                == shortfall_body(failures@[0]@),
            _ => out matches HttpOutcome::InternalServerError(body) && body@ == (ErrorView {
                error: "Reservation identifier already in use"@,
                code: "reservation_conflict"@,
            }),
        },
{
    match e {
        LedgerError::Unfulfillable(failures) => {
            let first = &failures[0];
            match first.reason {
                Shortfall::Insufficient => HttpOutcome::BadRequest(
                    ErrorResponse {
                        error: join("Not enough inventory for product: ", first.product_id.as_str()),
                        code: "insufficient_inventory".to_owned(),
                    },
                ),
                Shortfall::Missing => HttpOutcome::BadRequest(
                    ErrorResponse {
                        error: join("Product not found in inventory: ", first.product_id.as_str()),
                        code: "product_not_found".to_owned(),
                    },
                ),
            }
        },
        _ => HttpOutcome::InternalServerError(
            ErrorResponse::new("Reservation identifier already in use", "reservation_conflict"),
        ),
    }
}

/// What reserving `lines` under the identifier `id` at the time `now` does to
/// the ledger, and the answer that goes with it: 201 with the reservation;
/// 400 where a line cannot be reserved, for the first such line; 500 where
/// the identifier is taken. Unless the answer is 201, the ledger is unchanged.
pub open spec fn reserve_answer(
    before: Ledger,
    after: Ledger,
    id: Seq<char>,
    order_id: Seq<char>,
    lines: Seq<(Seq<char>, u32)>,
    now: Timestamp,
    out: HttpOutcome<ReservationResponse>,
) -> bool {
    &&& after == before.reserve(id, order_id, lines, now)
    &&& match out {
        HttpOutcome::Created(r) => before.reservable(id, lines) && r@ == (ReservationResponseView {
            reservation: ReservationRecord::opened(id, order_id, lines, now),
            success: true,
            message: Some("Inventory reserved successfully"@),
        }),
        HttpOutcome::BadRequest(e) => before.rejections(lines).len() > 0 && after == before && e@
            == shortfall_body(before.rejections(lines)[0]),
        HttpOutcome::InternalServerError(e) => before.rejections(lines).len() == 0
            && before.has_reservation(id) && after == before && e@ == (ErrorView {
            error: "Reservation identifier already in use"@,
            code: "reservation_conflict"@,
        }),
        _ => false,
    }
}

/// Reserves the lines of a request, all of them or none, under a fresh
/// identifier and at the time that the clock shows.
pub fn reserve_inventory(data: &mut AppState, req: ReserveInventoryRequest) -> (out: HttpOutcome<
    ReservationResponse,
>)
    requires
        old(data).wf(),
    ensures
        final(data).wf(),
        exists|id: Seq<char>, now: Timestamp|
            hyphenated(id) && now.on_clock() && #[trigger] reserve_answer(
                old(data)@,
                final(data)@,
                id,
                req.order_id@,
                req.items@,
                now,
                out,
            ),
{
    let id = ident::fresh_id();
    let now = clock::now();
    let ghost id_view = id@;
    let out = match data.reserve(id, req.order_id, req.items, now) {
        Ok(reservation) => HttpOutcome::Created(
            ReservationResponse {
                reservation,
                success: true,
                message: Some("Inventory reserved successfully".to_owned()),
            },
        ),
        Err(e) => {
            proof {
                if let LedgerError::Unfulfillable(failures) = &e {
                    assert(failure_views(failures@)[0] == failures@[0]@);
                }
            }
            refusal(e)
        },
    };
    assert(reserve_answer(old(data)@, data@, id_view, req.order_id@, req.items@, now, out));
    out
}

/// What confirming the reservation `id` does to the ledger, and the answer
/// that goes with it: 200 with the confirmed reservation, 404 where there is
/// none, 400 where it was released. No stock record changes.
pub open spec fn confirm_answer(before: Ledger, after: Ledger, id: Seq<char>, out: HttpOutcome<ReservationResponse>) -> bool {
    &&& after == before.confirm(id)
    &&& after.stock == before.stock
    &&& match out {
        HttpOutcome::Success(r) => before.has_reservation(id) && before.reservation(id).status.holds_stock()
            && r@ == (ReservationResponseView {
            reservation: before.reservation(id).confirmed(),
            success: true,
            message: Some("Reservation confirmed successfully"@),
        }),
        HttpOutcome::NotFound(e) => !before.has_reservation(id) && e@ == reservation_not_found(),
        HttpOutcome::BadRequest(e) => before.has_reservation(id) && !before.reservation(id).status.holds_stock()
            && e@ == (ErrorView {
            error: "Reservation cannot be confirmed"@,
            code: "invalid_reservation_state"@,
        }),
        _ => false,
    }
}

/// Confirms a reservation.
pub fn confirm_reservation(data: &mut AppState, reservation_id: &String) -> (out: HttpOutcome<
    ReservationResponse,
>)
    requires
        old(data).wf(),
    ensures
        final(data).wf(),
        confirm_answer(old(data)@, final(data)@, reservation_id@, out),
{
    match data.confirm(reservation_id) {
        Ok(reservation) => HttpOutcome::Success(
            ReservationResponse {
                reservation,
                success: true,
                message: Some("Reservation confirmed successfully".to_owned()),
            },
        ),
        Err(LedgerError::NotFound) => HttpOutcome::NotFound(
            ErrorResponse::new("Reservation not found", "reservation_not_found"),
        ),
        Err(_) => HttpOutcome::BadRequest(
            ErrorResponse::new("Reservation cannot be confirmed", "invalid_reservation_state"),
        ),
    }
}

/// What releasing the reservation `id` at the time `now` does to the ledger,
/// and the answer that goes with it: 200 with the released reservation, 404
/// where there is none, 400 where it is not pending. Unless the answer is
/// 200, the ledger is unchanged.
pub open spec fn release_answer(
    before: Ledger,
    after: Ledger,
    id: Seq<char>,
    now: Timestamp,
    out: HttpOutcome<ReservationResponse>,
) -> bool {
    &&& after == before.release(id, now)
    &&& match out {
        HttpOutcome::Success(r) => before.has_reservation(id) && before.reservation(id).status
            == super::models::ReservationStatus::Pending && r@ == (ReservationResponseView {
            reservation: before.reservation(id).released(),
            success: true,
            message: Some("Reservation released successfully"@),
        }),
        HttpOutcome::NotFound(e) => !before.has_reservation(id) && after == before && e@
            == reservation_not_found(),
        HttpOutcome::BadRequest(e) => before.has_reservation(id) && before.reservation(id).status
            != super::models::ReservationStatus::Pending && after == before && e@ == (ErrorView {
            error: "Reservation cannot be released"@,
            code: "invalid_reservation_state"@,
        }),
        _ => false,
    }
}

/// Releases a reservation, at the time that the clock shows.
pub fn release_reservation(data: &mut AppState, reservation_id: &String) -> (out: HttpOutcome<
    ReservationResponse,
>)
    requires
        old(data).wf(),
    ensures
        final(data).wf(),
        exists|now: Timestamp| now.on_clock() && #[trigger] release_answer(old(data)@, final(data)@, reservation_id@, now, out),
{
    let now = clock::now();
    let out = match data.release(reservation_id, now) {
        Ok(reservation) => HttpOutcome::Success(
            ReservationResponse {
                reservation,
                success: true,
                message: Some("Reservation released successfully".to_owned()),
            },
        ),
        Err(LedgerError::NotFound) => HttpOutcome::NotFound(
            ErrorResponse::new("Reservation not found", "reservation_not_found"),
        ),
        Err(_) => HttpOutcome::BadRequest(
            ErrorResponse::new("Reservation cannot be released", "invalid_reservation_state"),
        ),
    };
    proof {
        crate::keyed::lemma_find(old(data)@.reservation_ids(), reservation_id@);
    }
    assert(release_answer(old(data)@, data@, reservation_id@, now, out));
    out
}

/// Reports that the ledger is up, with the time that the clock shows.
pub fn health_check() -> (r: HealthReport)
    ensures
        r.status@ == "ok"@,
        r.service@ == "inventory-service"@,
        r.checked_at.on_clock(),
{
    HealthReport::up("inventory-service", clock::now())
}

} // verus!
