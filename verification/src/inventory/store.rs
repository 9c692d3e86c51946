//! The ledger in memory: the stock records and the reservations, and the
//! operations that read and change them.

use vstd::prelude::*;
use crate::clock::Timestamp;
use crate::keyed::{keys_of, lemma_find, lemma_find_distinct, position};
use crate::quantities::{lookup, ProductQuantities};
use crate::text::opt_view;
use super::ledger::{
    committed, credited, held, lemma_committed_bound, lemma_lookup_line, Ledger, Shortfall,
    RESERVATION_TTL_SECS,
};
use super::models::{
    InventoryItem, InventoryReservation, InventoryStatus, ReservationRecord, ReservationStatus,
    StockRecord,
};

verus! {

/// A line that could not be reserved, with the reason.
#[derive(Debug)]
pub struct LineFailure {
    pub product_id: String,
    pub reason: Shortfall,
}

impl View for LineFailure {
    type V = (Seq<char>, Shortfall);

    open spec fn view(&self) -> (Seq<char>, Shortfall) {
        (self.product_id@, self.reason)
    }
}

/// What the failures `s` say, in order.
pub open spec fn failure_views(s: Seq<LineFailure>) -> Seq<(Seq<char>, Shortfall)> {
    s.map_values(|f: LineFailure| f@)
}

/// What the items `s` say, in order.
pub open spec fn records(s: Seq<InventoryItem>) -> Seq<StockRecord> {
    s.map_values(|x: InventoryItem| x@)
}

/// What the reservations `s` say, in order.
pub open spec fn reservation_records(s: Seq<InventoryReservation>) -> Seq<ReservationRecord> {
    s.map_values(|x: InventoryReservation| x@)
}

/// Why the ledger refuses an operation.
#[derive(Debug)]
pub enum LedgerError {
    /// There is no such stock record, or no such reservation.
    NotFound,
    /// The product has a stock record already.
    AlreadyExists,
    /// At least one line asks for a product that the ledger does not have,
    /// or for more units than are free. The lines that failed are listed.
    Unfulfillable(Vec<LineFailure>),
    /// The reservation is not pending any more.
    InvalidState,
    /// A reservation with this identifier exists already.
    IdentifierInUse,
}

/// The state of the inventory ledger.
#[derive(Debug)]
pub struct AppState {
    inventory: Vec<InventoryItem>,
    reservations: Vec<InventoryReservation>,
}

impl View for AppState {
    type V = Ledger;

    closed spec fn view(&self) -> Ledger {
        Ledger { stock: records(self.inventory@), reservations: reservation_records(self.reservations@) }
    }
}

/// In a well-formed ledger whose lines were all accepted, the units that a
/// line asks of a record can be committed: they are free, and the committed
/// units stay within what is owned.
proof fn lemma_line_fits(l: Ledger, lines: Seq<(Seq<char>, u32)>, i: int)
    requires
        l.wf(),
        l.rejections(lines).len() == 0,
        0 <= i < l.stock.len(),
    ensures
        l.stock[i].consistent(),
        match lookup(lines, l.stock[i].product_id) {
            Some(q) => q <= l.stock[i].available && l.stock[i].reserved + q <= i32::MAX,
            None => true,
        },
{
    let r = l.stock[i];
    assert(r.consistent());
    l.lemma_rejections(lines);
    lemma_lookup_line(lines, r.product_id);
    if let Some(q) = lookup(lines, r.product_id) {
        let k = choose|k: int| 0 <= k < lines.len() && #[trigger] lines[k] == (r.product_id, q);
        assert(l.verdict(lines[k]) is None);
        assert(l.products()[i] == r.product_id);
        lemma_find_distinct(l.products(), r.product_id, i);
    }
}

/// In a well-formed ledger a record has at least the units committed that a
/// pending reservation asks of it.
proof fn lemma_credit_fits(l: Ledger, j: int, i: int)
    requires
        l.wf(),
        0 <= j < l.reservations.len(),
        l.reservations[j].status == ReservationStatus::Pending,
        0 <= i < l.stock.len(),
    ensures
        l.stock[i].consistent(),
        match lookup(l.reservations[j].items, l.stock[i].product_id) {
            Some(q) => q <= l.stock[i].reserved,
            None => true,
        },
{
    let r = l.stock[i];
    assert(r.consistent());
    assert(l.products()[i] == r.product_id);
    lemma_find_distinct(l.products(), r.product_id, i);
    assert(committed(l.reservations, r.product_id) == l.reserved_of(r.product_id));
    lemma_committed_bound(l.reservations, j, r.product_id);
}

impl AppState {
    /// Whether the ledger is well-formed. Every ledger that `new` made and
    /// the operations below changed is.
    pub open spec fn wf(&self) -> bool {
        self@.wf()
    }

    /// The ledger without records.
    pub fn new() -> (s: AppState)
        ensures
            s@ == Ledger::empty(),
            s.wf(),
    {
        let s = AppState { inventory: Vec::new(), reservations: Vec::new() };
        proof {
            assert(s@.stock =~= Ledger::empty().stock);
            assert(s@.reservations =~= Ledger::empty().reservations);
            Ledger::lemma_empty_wf();
        }
        s
    }

    /// The stock record of `product_id`, if there is one.
    pub fn get(&self, product_id: &String) -> (r: Option<InventoryItem>)
        ensures
            match r {
                Some(item) => self@.has_product(product_id@) && item@ == self@.record(product_id@),
                None => !self@.has_product(product_id@),
            },
    {
        assert(keys_of(self.inventory@) =~= self@.products());
        match position(&self.inventory, product_id) {
            Some(i) => Some(self.inventory[i].clone()),
            None => None,
        }
    }

    /// All stock records, in the order in which they were opened.
    pub fn list(&self) -> (r: Vec<InventoryItem>)
        ensures
            records(r@) == self@.stock,
    {
        let mut r: Vec<InventoryItem> = Vec::new();
        let mut i: usize = 0;
        while i < self.inventory.len()
            invariant
                i <= self.inventory.len(),
                r.len() == i,
                forall|j: int| 0 <= j < i ==> r[j]@ == self.inventory[j]@,
            decreases self.inventory.len() - i,
        {
            r.push(self.inventory[i].clone());
            i = i + 1;
        }
        assert(records(r@) =~= self@.stock);
        r
    }

    /// The reservation `id`, if there is one.
    pub fn get_reservation(&self, id: &String) -> (r: Option<InventoryReservation>)
        ensures
            match r {
                Some(found) => self@.has_reservation(id@) && found@ == self@.reservation(id@),
                None => !self@.has_reservation(id@),
            },
    {
        assert(keys_of(self.reservations@) =~= self@.reservation_ids());
        match position(&self.reservations, id) {
            Some(j) => Some(self.reservations[j].clone()),
            None => None,
        }
    }

    /// Opens a stock record for a product that has none, with nothing
    /// committed.
    pub fn create(
        &mut self,
        product_id: String,
        quantity: i32,
        location: Option<String>,
        now: Timestamp,
    ) -> (r: Result<InventoryItem, LedgerError>)
        requires
            old(self).wf(),
        ensures
            final(self).wf(),
            final(self)@ == old(self)@.create(product_id@, quantity as int, opt_view(location), now),
            match r {
                Ok(item) => !old(self)@.has_product(product_id@) && item@ == StockRecord::opened(
                    product_id@,
                    quantity as int,
                    opt_view(location),
                    now,
                ),
                Err(e) => e is AlreadyExists && old(self)@.has_product(product_id@),
            },
    {
        proof {
            old(self)@.lemma_create_wf(product_id@, quantity as int, opt_view(location), now);
        }
        assert(keys_of(self.inventory@) =~= self@.products());
        if position(&self.inventory, &product_id).is_some() {
            return Err(LedgerError::AlreadyExists);
        }
        let item = InventoryItem {
            id: product_id.clone(),
            product_id,
            quantity,
            reserved: 0,
            available: quantity as i64,
            location,
            status: InventoryStatus::for_available(quantity as i64),
            created_at: now,
            updated_at: now,
        };
        let out = item.clone();
        self.inventory.push(item);
        assert(self@.stock =~= old(self)@.stock.push(out@));
        assert(self@.reservations =~= old(self)@.reservations);
        Ok(out)
    }

    /// Sets the owned units and the location of a product. What is committed
    /// stays committed, and the free units follow.
    pub fn update(
        &mut self,
        product_id: &String,
        quantity: i32,
        location: Option<String>,
        now: Timestamp,
    ) -> (r: Result<InventoryItem, LedgerError>)
        requires
            old(self).wf(),
        ensures
            final(self).wf(),
            final(self)@ == old(self)@.update(product_id@, quantity as int, opt_view(location), now),
            match r {
                Ok(item) => old(self)@.has_product(product_id@) && item@ == old(self)@.record(
                    product_id@,
                ).restocked(quantity as int, opt_view(location), now),
                Err(e) => e is NotFound && !old(self)@.has_product(product_id@),
            },
    {
        proof {
            old(self)@.lemma_update_wf(product_id@, quantity as int, opt_view(location), now);
        }
        assert(keys_of(self.inventory@) =~= self@.products());
        match position(&self.inventory, product_id) {
            Some(i) => {
                assert(old(self)@.stock[i as int].consistent());
                let available: i64 = quantity as i64 - self.inventory[i].reserved as i64;
                self.inventory[i].quantity = quantity;
                self.inventory[i].available = available;
                self.inventory[i].location = location;
                self.inventory[i].updated_at = now;
                self.inventory[i].status = InventoryStatus::for_available(available);
                let out = self.inventory[i].clone();
                assert(self@.stock =~= old(self)@.stock.update(i as int, out@));
                assert(self@.reservations =~= old(self)@.reservations);
                Ok(out)
            },
            None => Err(LedgerError::NotFound),
        }
    }

    /// The lines of `items` that cannot be reserved now, in order.
    pub fn check_lines(&self, items: &ProductQuantities) -> (failures: Vec<LineFailure>)
        ensures
            failure_views(failures@) == self@.rejections(items@),
    {
        let mut failures: Vec<LineFailure> = Vec::new();
        let mut k: usize = 0;
        assert(keys_of(self.inventory@) =~= self@.products());
        assert(failure_views(failures@) =~= self@.rejections(items@.take(0)));
        while k < items.len()
            invariant
                k <= items@.len(),
                keys_of(self.inventory@) == self@.products(),
                failure_views(failures@) == self@.rejections(items@.take(k as int)),
            decreases items@.len() - k,
        {
            let product_id = items.product_at(k);
            let quantity: u32 = items.quantity_at(k);
            let ghost before = failures@;
            let ghost prefix = items@.take(k + 1);
            assert(prefix.drop_last() =~= items@.take(k as int));
            assert(prefix.last() == items@[k as int]);
            match position(&self.inventory, product_id) {
                None => {
                    failures.push(LineFailure { product_id: product_id.clone(), reason: Shortfall::Missing });
                    assert(failure_views(failures@) =~= failure_views(before).push(
                        (product_id@, Shortfall::Missing),
                    ));
                },
                Some(i) => {
                    if self.inventory[i].available < quantity as i64 {
                        failures.push(
                            LineFailure { product_id: product_id.clone(), reason: Shortfall::Insufficient },
                        );
                        assert(failure_views(failures@) =~= failure_views(before).push(
                            (product_id@, Shortfall::Insufficient),
                        ));
                    }
                },
            }
            k = k + 1;
        }
        assert(items@.take(k as int) =~= items@);
        failures
    }

    /// Reserves the lines of `items` for `order_id` under the identifier
    /// `id`, all of them or none: where one line cannot be reserved, or the
    /// identifier is taken, nothing changes.
    pub fn reserve(
        &mut self,
        id: String,
        order_id: String,
        items: ProductQuantities,
        now: Timestamp,
    ) -> (r: Result<InventoryReservation, LedgerError>)
        requires
            old(self).wf(),
            now.can_add(RESERVATION_TTL_SECS as int),
        ensures
            final(self).wf(),
            final(self)@ == old(self)@.reserve(id@, order_id@, items@, now),
            match r {
                Ok(made) => old(self)@.reservable(id@, items@) && made@ == ReservationRecord::opened(
                    id@,
                    order_id@,
                    items@,
                    now,
                ),
                Err(LedgerError::Unfulfillable(failures)) => failures@.len() > 0 && failure_views(failures@)
                    == old(self)@.rejections(items@),
                Err(LedgerError::IdentifierInUse) => old(self)@.rejections(items@).len() == 0 && old(
                    self,
                )@.has_reservation(id@),
                Err(_) => false,
            },
    {
        proof {
            old(self)@.lemma_reserve_wf(id@, order_id@, items@, now);
        }
        let failures = self.check_lines(&items);
        if failures.len() > 0 {
            return Err(LedgerError::Unfulfillable(failures));
        }
        assert(keys_of(self.reservations@) =~= self@.reservation_ids());
        if position(&self.reservations, &id).is_some() {
            return Err(LedgerError::IdentifierInUse);
        }
        let mut i: usize = 0;
        while i < self.inventory.len()
            invariant
                i <= self.inventory.len(),
                self.inventory.len() == old(self).inventory.len(),
                self.reservations == old(self).reservations,
                old(self)@.wf(),
                old(self)@.rejections(items@).len() == 0,
                forall|j: int| 0 <= j < i ==> (#[trigger] self.inventory[j])@ == held(old(self).inventory[j]@, items@, now),
                forall|j: int| i <= j < self.inventory.len() ==> (#[trigger] self.inventory[j])@ == old(self).inventory[j]@,
            decreases self.inventory.len() - i,
        {
            proof {
                lemma_line_fits(old(self)@, items@, i as int);
            }
            match items.get(&self.inventory[i].product_id) {
                Some(quantity) => {
                    let available: i64 = self.inventory[i].available - quantity as i64;
                    self.inventory[i].reserved = self.inventory[i].reserved + quantity as i32;
                    self.inventory[i].available = available;
                    self.inventory[i].updated_at = now;
                    self.inventory[i].status = InventoryStatus::for_available(available);
                },
                None => {},
            }
            i = i + 1;
        }
        let expires_at = now.plus(RESERVATION_TTL_SECS);
        let made = InventoryReservation {
            id,
            order_id,
            items,
            status: ReservationStatus::Pending,
            created_at: now,
            expires_at: Some(expires_at),
        };
        let out = made.clone();
        self.reservations.push(made);
        assert(self@.stock =~= old(self)@.stock.map_values(|r: StockRecord| held(r, items@, now)));
        assert(self@.reservations =~= old(self)@.reservations.push(out@));
        Ok(out)
    }

    /// Confirms a reservation: it no longer expires. No stock record changes.
    /// Confirming a confirmed reservation succeeds and leaves it as it is; a
    /// reservation that was released cannot be confirmed.
    pub fn confirm(&mut self, id: &String) -> (r: Result<InventoryReservation, LedgerError>)
        requires
            old(self).wf(),
        ensures
            final(self).wf(),
            final(self)@ == old(self)@.confirm(id@),
            final(self)@.stock == old(self)@.stock,
            match r {
                Ok(found) => {
                    &&& old(self)@.has_reservation(id@)
                    &&& old(self)@.reservation(id@).status.holds_stock()
                    &&& found@ == old(self)@.reservation(id@).confirmed()
                    &&& found@ == final(self)@.reservation(id@)
                },
                Err(LedgerError::NotFound) => !old(self)@.has_reservation(id@),
                Err(LedgerError::InvalidState) => old(self)@.has_reservation(id@) && !old(self)@.reservation(
                    id@,
                ).status.holds_stock(),
                Err(_) => false,
            },
    {
        proof {
            old(self)@.lemma_confirm_wf(id@);
            lemma_find(old(self)@.reservation_ids(), id@);
        }
        assert(keys_of(self.reservations@) =~= self@.reservation_ids());
        match position(&self.reservations, id) {
            Some(j) => {
                match self.reservations[j].status {
                    ReservationStatus::Pending | ReservationStatus::Confirmed => {
                        self.reservations[j].status = ReservationStatus::Confirmed;
                        self.reservations[j].expires_at = None;
                        let out = self.reservations[j].clone();
                        assert(self@.reservations =~= old(self)@.reservations.update(j as int, out@));
                        assert(self@.stock =~= old(self)@.stock);
                        assert(self@.reservation_ids() =~= old(self)@.reservation_ids());
                        Ok(out)
                    },
                    _ => Err(LedgerError::InvalidState),
                }
            },
            None => Err(LedgerError::NotFound),
        }
    }

    /// Releases a pending reservation: the units of each line are free again.
    /// A reservation that is not pending is refused, so that no units are
    /// given back twice, and none that a paid order has consumed. The result
    /// is the reservation as it stands after the release.
    pub fn release(&mut self, id: &String, now: Timestamp) -> (r: Result<InventoryReservation, LedgerError>)
        requires
            old(self).wf(),
        ensures
            final(self).wf(),
            final(self)@ == old(self)@.release(id@, now),
            match r {
                Ok(found) => {
                    &&& old(self)@.has_reservation(id@)
                    &&& old(self)@.reservation(id@).status == ReservationStatus::Pending
                    &&& found@ == old(self)@.reservation(id@).released()
                    &&& found@ == final(self)@.reservation(id@)
                },
                Err(LedgerError::NotFound) => !old(self)@.has_reservation(id@),
                Err(LedgerError::InvalidState) => old(self)@.has_reservation(id@) && old(self)@.reservation(
                    id@,
                ).status != ReservationStatus::Pending,
                Err(_) => false,
            },
    {
        proof {
            old(self)@.lemma_release_wf(id@, now);
            lemma_find(old(self)@.reservation_ids(), id@);
        }
        assert(keys_of(self.reservations@) =~= self@.reservation_ids());
        let j = match position(&self.reservations, id) {
            Some(j) => j,
            None => {
                return Err(LedgerError::NotFound);
            },
        };
        if self.reservations[j].status != ReservationStatus::Pending {
            return Err(LedgerError::InvalidState);
        }
        self.reservations[j].status = ReservationStatus::Released;
        let out = self.reservations[j].clone();
        let ghost lines = old(self)@.reservations[j as int].items;
        let mut i: usize = 0;
        while i < self.inventory.len()
            invariant
                i <= self.inventory.len(),
                j < self.reservations.len(),
                self.inventory.len() == old(self).inventory.len(),
                self.reservations@.len() == old(self).reservations@.len(),
                reservation_records(self.reservations@) == old(self)@.reservations.update(
                    j as int,
                    old(self)@.reservations[j as int].released(),
                ),
                old(self)@.wf(),
                old(self)@.reservations[j as int].status == ReservationStatus::Pending,
                lines == old(self)@.reservations[j as int].items,
                forall|k: int| 0 <= k < i ==> (#[trigger] self.inventory[k])@ == credited(old(self).inventory[k]@, lines, now),
                forall|k: int| i <= k < self.inventory.len() ==> (#[trigger] self.inventory[k])@ == old(self).inventory[k]@,
            decreases self.inventory.len() - i,
        {
            proof {
                lemma_credit_fits(old(self)@, j as int, i as int);
                assert(reservation_records(self.reservations@)[j as int] == self.reservations[j as int]@);
            }
            match self.reservations[j].items.get(&self.inventory[i].product_id) {
                Some(quantity) => {
                    let available: i64 = self.inventory[i].available + quantity as i64;
                    self.inventory[i].reserved = self.inventory[i].reserved - quantity as i32;
                    self.inventory[i].available = available;
                    self.inventory[i].updated_at = now;
                    self.inventory[i].status = InventoryStatus::for_available(available);
                },
                None => {},
            }
            i = i + 1;
        }
        assert(self@.stock =~= old(self)@.stock.map_values(|r: StockRecord| credited(r, lines, now)));
        assert(self@.reservation_ids() =~= old(self)@.reservation_ids());
        Ok(out)
    }
}

} // verus!
