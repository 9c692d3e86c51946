//! The records of the inventory ledger, and what goes in and out of it.

use vstd::prelude::*;
use crate::clock::Timestamp;
pub use crate::http::ErrorResponse;
use crate::keyed::Keyed;
use crate::quantities::{amount, ProductQuantities};
use crate::text::{copy_opt_text, opt_view};

verus! {

/// Above this many available units a product counts as in stock.
pub const LOW_STOCK_LIMIT: i64 = 10;

/// How well a product is stocked. The ledger derives the first three from the
/// available units; `Discontinued` is set from outside only.
#[derive(Debug, Clone, Copy, PartialEq, Eq, Structural)]
pub enum InventoryStatus {
    InStock,
    LowStock,
    OutOfStock,
    Discontinued,
}

impl InventoryStatus {
    /// The status that goes with `available` units.
    pub open spec fn of(available: int) -> InventoryStatus {
        if available > LOW_STOCK_LIMIT {
            InventoryStatus::InStock
        } else if available > 0 {
            InventoryStatus::LowStock
        } else {
            InventoryStatus::OutOfStock
        }
    }

    pub fn for_available(available: i64) -> (s: InventoryStatus)
        ensures
            s == InventoryStatus::of(available as int),
    {
        if available > LOW_STOCK_LIMIT {
            InventoryStatus::InStock
        } else if available > 0 {
            InventoryStatus::LowStock
        } else {
            InventoryStatus::OutOfStock
        }
    }
}

/// What a stock record says: the units owned, the units committed to
/// reservations, and the units still free.
pub struct StockRecord {
    pub id: Seq<char>,
    pub product_id: Seq<char>,
    pub quantity: int,
    pub reserved: int,
    pub available: int,
    pub location: Option<Seq<char>>,
    pub status: InventoryStatus,
    pub created_at: Timestamp,
    pub updated_at: Timestamp,
}

impl StockRecord {
    /// The counters agree: nothing negative is committed, the free units are
    /// the owned units less the committed ones, and the status is derived
    /// from the free units.
    pub open spec fn consistent(self) -> bool {
        &&& self.id == self.product_id
        &&& i32::MIN <= self.quantity <= i32::MAX
        &&& 0 <= self.reserved <= i32::MAX
        &&& self.available == self.quantity - self.reserved
        &&& self.status == InventoryStatus::of(self.available)
    }

    /// The record of a product that enters the ledger with `quantity` units.
    pub open spec fn opened(
        product_id: Seq<char>,
        quantity: int,
        location: Option<Seq<char>>,
        now: Timestamp,
    ) -> StockRecord {
        StockRecord {
            id: product_id,
            product_id,
            quantity,
            reserved: 0,
            available: quantity,
            location,
            status: InventoryStatus::of(quantity),
            created_at: now,
            updated_at: now,
        }
    }

    /// The record after the owned units were set to `quantity`: what is
    /// committed stays committed.
    pub open spec fn restocked(self, quantity: int, location: Option<Seq<char>>, now: Timestamp) -> StockRecord {
        StockRecord {
            quantity,
            available: quantity - self.reserved,
            location,
            status: InventoryStatus::of(quantity - self.reserved),
            updated_at: now,
            ..self
        }
    }

    /// The record after `units` more were committed (fewer, where `units` is
    /// negative).
    pub open spec fn committing(self, units: int, now: Timestamp) -> StockRecord {
        StockRecord {
            reserved: self.reserved + units,
            available: self.available - units,
            status: InventoryStatus::of(self.available - units),
            updated_at: now,
            ..self
        }
    }
}

/// The stock of one product.
#[derive(Debug)]
pub struct InventoryItem {
    pub id: String,
    pub product_id: String,
    pub quantity: i32,
    pub reserved: i32,
    pub available: i64,
    pub location: Option<String>,
    pub status: InventoryStatus,
    pub created_at: Timestamp,
    pub updated_at: Timestamp,
}

impl View for InventoryItem {
    type V = StockRecord;

    open spec fn view(&self) -> StockRecord {
        StockRecord {
            id: self.id@,
            product_id: self.product_id@,
            quantity: self.quantity as int,
            reserved: self.reserved as int,
            available: self.available as int,
            location: opt_view(self.location),
            status: self.status,
            created_at: self.created_at,
            updated_at: self.updated_at,
        }
    }
}

impl Clone for InventoryItem {
    fn clone(&self) -> (r: Self)
        ensures
            r@ == self@,
    {
        InventoryItem {
            id: self.id.clone(),
            product_id: self.product_id.clone(),
            quantity: self.quantity,
            reserved: self.reserved,
            available: self.available,
            location: copy_opt_text(&self.location),
            status: self.status,
            created_at: self.created_at,
            updated_at: self.updated_at,
        }
    }
}

impl Keyed for InventoryItem {
    open spec fn key_view(&self) -> Seq<char> {
        self.product_id@
    }

    fn key(&self) -> (k: &String) {
        &self.product_id
    }
}

/// Where a reservation stands. It only moves forward: from `Pending` to
/// `Confirmed` or to `Released`.
#[derive(Debug, Clone, Copy, PartialEq, Eq, Structural)]
pub enum ReservationStatus {
    Pending,
    Confirmed,
    Released,
    Failed,
}

impl ReservationStatus {
    /// Whether a reservation in this status keeps its units committed.
    pub open spec fn holds_stock(self) -> bool {
        self == ReservationStatus::Pending || self == ReservationStatus::Confirmed
    }
}

/// What a reservation says.
pub struct ReservationRecord {
    pub id: Seq<char>,
    pub order_id: Seq<char>,
    pub items: Seq<(Seq<char>, u32)>,
    pub status: ReservationStatus,
    pub created_at: Timestamp,
    pub expires_at: Option<Timestamp>,
}

impl ReservationRecord {
    /// The units of product `p` that the reservation keeps committed.
    pub open spec fn holding(self, p: Seq<char>) -> int {
        if self.status.holds_stock() {
            amount(self.items, p)
        } else {
            0
        }
    }
}

/// Units of several products, committed to one order.
#[derive(Debug)]
pub struct InventoryReservation {
    pub id: String,
    pub order_id: String,
    pub items: ProductQuantities,
    pub status: ReservationStatus,
    pub created_at: Timestamp,
    pub expires_at: Option<Timestamp>,
}

impl View for InventoryReservation {
    type V = ReservationRecord;

    open spec fn view(&self) -> ReservationRecord {
        ReservationRecord {
            id: self.id@,
            order_id: self.order_id@,
            items: self.items@,
            status: self.status,
            created_at: self.created_at,
            expires_at: self.expires_at,
        }
    }
}

impl Clone for InventoryReservation {
    fn clone(&self) -> (r: Self)
        ensures
            r@ == self@,
    {
        InventoryReservation {
            id: self.id.clone(),
            order_id: self.order_id.clone(),
            items: self.items.clone(),
            status: self.status,
            created_at: self.created_at,
            expires_at: self.expires_at,
        }
    }
}

impl Keyed for InventoryReservation {
    open spec fn key_view(&self) -> Seq<char> {
        self.id@
    }

    fn key(&self) -> (k: &String) {
        &self.id
    }
}

/// The owned units and the location to set for a product.
#[derive(Debug)]
pub struct UpdateInventoryRequest {
    pub quantity: i32,
    pub location: Option<String>,
}

/// The lines to reserve for an order.
#[derive(Debug)]
pub struct ReserveInventoryRequest {
    pub order_id: String,
    pub items: ProductQuantities,
}

/// The order whose stock is to be released.
#[derive(Debug)]
pub struct ReleaseInventoryRequest {
    pub order_id: String,
}

/// The answer to a request about one product.
#[derive(Debug)]
pub struct InventoryResponse {
    pub item: InventoryItem,
    pub success: bool,
    pub message: Option<String>,
}

/// What an `InventoryResponse` says.
pub struct InventoryResponseView {
    pub item: StockRecord,
    pub success: bool,
    pub message: Option<Seq<char>>,
}

impl View for InventoryResponse {
    type V = InventoryResponseView;

    open spec fn view(&self) -> InventoryResponseView {
        InventoryResponseView { item: self.item@, success: self.success, message: opt_view(self.message) }
    }
}

/// The answer to a request about one reservation.
#[derive(Debug)]
pub struct ReservationResponse {
    pub reservation: InventoryReservation,
    pub success: bool,
    pub message: Option<String>,
}

/// What a `ReservationResponse` says.
pub struct ReservationResponseView {
    pub reservation: ReservationRecord,
    pub success: bool,
    pub message: Option<Seq<char>>,
}

impl View for ReservationResponse {
    type V = ReservationResponseView;

    open spec fn view(&self) -> ReservationResponseView {
        ReservationResponseView {
            reservation: self.reservation@,
            success: self.success,
            message: opt_view(self.message),
        }
    }
}

} // verus!
