//! The ledger as a mathematical object: what each operation does to the stock
//! records and the reservations, and what stays true of them throughout.

use vstd::prelude::*;
use crate::clock::Timestamp;
use crate::keyed::{distinct, find, lemma_find, lemma_find_distinct, lemma_push_key, present};
use crate::quantities::{amount, line_keys, lookup};
use super::models::{ReservationRecord, ReservationStatus, StockRecord};

verus! {

/// A reservation expires this many seconds after it was made. Nothing
/// enforces the expiry: the time is a hint to whoever reads the reservation.
pub const RESERVATION_TTL_SECS: i64 = 1800;

/// Why a line cannot be reserved.
#[derive(Debug, Clone, Copy, PartialEq, Eq, Structural)]
pub enum Shortfall {
    /// The product has fewer free units than the line asks for.
    Insufficient,
    /// The ledger has no record of the product.
    Missing,
}

impl ReservationRecord {
    /// The reservation as it is made: pending, and due to expire.
    pub open spec fn opened(
        id: Seq<char>,
        order_id: Seq<char>,
        lines: Seq<(Seq<char>, u32)>,
        now: Timestamp,
    ) -> ReservationRecord {
        ReservationRecord {
            id,
            order_id,
            items: lines,
            status: ReservationStatus::Pending,
            created_at: now,
            expires_at: Some(now.plus_secs(RESERVATION_TTL_SECS as int)),
        }
    }

    /// The reservation once its order is paid: it no longer expires.
    pub open spec fn confirmed(self) -> ReservationRecord {
        ReservationRecord { status: ReservationStatus::Confirmed, expires_at: None, ..self }
    }

    /// The reservation once its units were given back.
    pub open spec fn released(self) -> ReservationRecord {
        ReservationRecord { status: ReservationStatus::Released, ..self }
    }
}

/// The units of product `p` that the reservations `rs` keep committed.
pub open spec fn committed(rs: Seq<ReservationRecord>, p: Seq<char>) -> int
    decreases rs.len(),
{
    if rs.len() == 0 {
        0
    } else {
        committed(rs.drop_last(), p) + rs.last().holding(p)
    }
}

/// The record `r` after the units that `lines` ask of its product were
/// committed; untouched where `lines` do not name the product.
pub open spec fn held(r: StockRecord, lines: Seq<(Seq<char>, u32)>, now: Timestamp) -> StockRecord {
    match lookup(lines, r.product_id) {
        Some(q) => r.committing(q as int, now),
        None => r,
    }
}

/// The record `r` after the units that `lines` ask of its product were given
/// back; untouched where `lines` do not name the product.
pub open spec fn credited(r: StockRecord, lines: Seq<(Seq<char>, u32)>, now: Timestamp) -> StockRecord {
    match lookup(lines, r.product_id) {
        Some(q) => r.committing(-(q as int), now),
        None => r,
    }
}

/// The state of the ledger: one stock record per product, and the
/// reservations made so far.
pub struct Ledger {
    pub stock: Seq<StockRecord>,
    pub reservations: Seq<ReservationRecord>,
}

impl Ledger {
    /// The ledger without records.
    pub open spec fn empty() -> Ledger {
        Ledger { stock: Seq::empty(), reservations: Seq::empty() }
    }

    /// The products that have a stock record, in the order of the records.
    pub open spec fn products(self) -> Seq<Seq<char>> {
        self.stock.map_values(|r: StockRecord| r.product_id)
    }

    /// The identifiers of the reservations, in the order in which they were made.
    pub open spec fn reservation_ids(self) -> Seq<Seq<char>> {
        self.reservations.map_values(|r: ReservationRecord| r.id)
    }

    pub open spec fn has_product(self, p: Seq<char>) -> bool {
        present(self.products(), p)
    }

    /// The stock record of product `p`; meaningful where the ledger has one.
    pub open spec fn record(self, p: Seq<char>) -> StockRecord {
        self.stock[find(self.products(), p).unwrap()]
    }

    pub open spec fn has_reservation(self, id: Seq<char>) -> bool {
        present(self.reservation_ids(), id)
    }

    /// The reservation `id`; meaningful where the ledger has it.
    pub open spec fn reservation(self, id: Seq<char>) -> ReservationRecord {
        self.reservations[find(self.reservation_ids(), id).unwrap()]
    }

    /// The committed units that the stock record of `p` shows: none where the
    /// ledger has no record of `p`.
    pub open spec fn reserved_of(self, p: Seq<char>) -> int {
        if self.has_product(p) {
            self.record(p).reserved
        } else {
            0
        }
    }

    /// What holds of the ledger at all times: no product and no reservation
    /// stands twice, the counters of every stock record agree, and the
    /// committed units of every product are exactly those that the pending
    /// and the confirmed reservations ask of it.
    pub open spec fn wf(self) -> bool {
        &&& distinct(self.products())
        &&& distinct(self.reservation_ids())
        &&& forall|i: int| 0 <= i < self.stock.len() ==> (#[trigger] self.stock[i]).consistent()
        &&& forall|p: Seq<char>| #[trigger] committed(self.reservations, p) == self.reserved_of(p)
    }

    /// Why `line` cannot be reserved, or `None` where it can.
    pub open spec fn verdict(self, line: (Seq<char>, u32)) -> Option<Shortfall> {
        if !self.has_product(line.0) {
            Some(Shortfall::Missing)
        } else if self.record(line.0).available < line.1 {
            Some(Shortfall::Insufficient)
        } else {
            None
        }
    }

    /// The lines among `lines` that cannot be reserved, in order, each with
    /// its reason.
    pub open spec fn rejections(self, lines: Seq<(Seq<char>, u32)>) -> Seq<(Seq<char>, Shortfall)>
        decreases lines.len(),
    {
        if lines.len() == 0 {
            Seq::empty()
        } else {
            let front = self.rejections(lines.drop_last());
            match self.verdict(lines.last()) {
                Some(why) => front.push((lines.last().0, why)),
                None => front,
            }
        }
    }

    /// Whether `lines` can be reserved under the identifier `id`: every line
    /// can, and no reservation has the identifier yet.
    pub open spec fn reservable(self, id: Seq<char>, lines: Seq<(Seq<char>, u32)>) -> bool {
        self.rejections(lines).len() == 0 && !self.has_reservation(id)
    }

    /// The ledger after a record was opened for product `p`; unchanged where
    /// `p` has a record already.
    pub open spec fn create(
        self,
        p: Seq<char>,
        quantity: int,
        location: Option<Seq<char>>,
        now: Timestamp,
    ) -> Ledger {
        if self.has_product(p) {
            self
        } else {
            Ledger { stock: self.stock.push(StockRecord::opened(p, quantity, location, now)), ..self }
        }
    }

    /// The ledger after the owned units of product `p` were set; unchanged
    /// where `p` has no record.
    pub open spec fn update(
        self,
        p: Seq<char>,
        quantity: int,
        location: Option<Seq<char>>,
        now: Timestamp,
    ) -> Ledger {
        match find(self.products(), p) {
            Some(i) => Ledger {
                stock: self.stock.update(i, self.stock[i].restocked(quantity, location, now)),
                ..self
            },
            None => self,
        }
    }

    /// The ledger after `lines` were reserved under `id`: every named record
    /// has the units committed, and the reservation is the newest. Unchanged,
    /// in every record, where the lines are not reservable.
    pub open spec fn reserve(
        self,
        id: Seq<char>,
        order_id: Seq<char>,
        lines: Seq<(Seq<char>, u32)>,
        now: Timestamp,
    ) -> Ledger {
        if self.reservable(id, lines) {
            Ledger {
                stock: self.stock.map_values(|r: StockRecord| held(r, lines, now)),
                reservations: self.reservations.push(ReservationRecord::opened(id, order_id, lines, now)),
            }
        } else {
            self
        }
    }

    /// The ledger after the reservation `id` was confirmed: no stock record
    /// changes. Unchanged where there is no such reservation, or where it no
    /// longer holds its units.
    pub open spec fn confirm(self, id: Seq<char>) -> Ledger {
        match find(self.reservation_ids(), id) {
            Some(j) => if self.reservations[j].status.holds_stock() {
                Ledger { reservations: self.reservations.update(j, self.reservations[j].confirmed()), ..self }
            } else {
                self
            },
            None => self,
        }
    }

    /// The ledger after the pending reservation `id` was released: its units
    /// are free again. Unchanged where there is no such pending reservation.
    pub open spec fn release(self, id: Seq<char>, now: Timestamp) -> Ledger {
        match find(self.reservation_ids(), id) {
            Some(j) => if self.reservations[j].status == ReservationStatus::Pending {
                Ledger {
                    stock: self.stock.map_values(
                        |r: StockRecord| credited(r, self.reservations[j].items, now),
                    ),
                    reservations: self.reservations.update(j, self.reservations[j].released()),
                }
            } else {
                self
            },
            None => self,
        }
    }
}

/// Replacing one reservation changes the committed units by the difference
/// between what the new one and the old one hold.
pub proof fn lemma_committed_update(rs: Seq<ReservationRecord>, j: int, r: ReservationRecord, p: Seq<char>)
    requires
        0 <= j < rs.len(),
    ensures
        committed(rs.update(j, r), p) == committed(rs, p) - rs[j].holding(p) + r.holding(p),
    decreases rs.len(),
{
    let after = rs.update(j, r);
    if j == rs.len() - 1 {
        assert(after.drop_last() =~= rs.drop_last());
    } else {
        assert(after.drop_last() =~= rs.drop_last().update(j, r));
        lemma_committed_update(rs.drop_last(), j, r, p);
    }
}

/// No reservation holds more of a product than all of them together.
pub proof fn lemma_committed_bound(rs: Seq<ReservationRecord>, j: int, p: Seq<char>)
    requires
        0 <= j < rs.len(),
    ensures
        0 <= rs[j].holding(p) <= committed(rs, p),
    decreases rs.len(),
{
    lemma_committed_nonnegative(rs.drop_last(), p);
    if j < rs.len() - 1 {
        lemma_committed_bound(rs.drop_last(), j, p);
    }
}

/// Committed units are never negative.
pub proof fn lemma_committed_nonnegative(rs: Seq<ReservationRecord>, p: Seq<char>)
    ensures
        0 <= committed(rs, p),
    decreases rs.len(),
{
    if rs.len() > 0 {
        lemma_committed_nonnegative(rs.drop_last(), p);
    }
}

/// A line that `lines` name for a product stands among them.
pub proof fn lemma_lookup_line(lines: Seq<(Seq<char>, u32)>, p: Seq<char>)
    ensures
        match lookup(lines, p) {
            Some(q) => exists|k: int| 0 <= k < lines.len() && #[trigger] lines[k] == (p, q),
            None => forall|k: int| 0 <= k < lines.len() ==> (#[trigger] lines[k]).0 != p,
        },
{
    let keys = line_keys(lines);
    lemma_find(keys, p);
    match find(keys, p) {
        Some(i) => {
            assert(lines[i] == (p, lines[i].1));
        },
        None => {
            assert forall|k: int| 0 <= k < lines.len() implies (#[trigger] lines[k]).0 != p by {
                assert(keys[k] == lines[k].0);
            }
        },
    }
}

impl Ledger {
    /// No line is rejected exactly where every line can be reserved.
    pub proof fn lemma_rejections(self, lines: Seq<(Seq<char>, u32)>)
        ensures
            self.rejections(lines).len() == 0 <==> forall|k: int|
                0 <= k < lines.len() ==> self.verdict(#[trigger] lines[k]) is None,
        decreases lines.len(),
    {
        if lines.len() > 0 {
            let front = lines.drop_last();
            self.lemma_rejections(front);
            assert(forall|k: int| 0 <= k < front.len() ==> front[k] == lines[k]);
            if self.rejections(lines).len() == 0 {
                assert(self.verdict(lines.last()) is None);
                assert forall|k: int| 0 <= k < lines.len() implies self.verdict(#[trigger] lines[k]) is None by {
                    if k < front.len() {
                        assert(front[k] == lines[k]);
                    }
                }
            }
            if forall|k: int| 0 <= k < lines.len() ==> self.verdict(#[trigger] lines[k]) is None {
                assert(self.verdict(lines[lines.len() - 1]) is None);
                assert forall|k: int| 0 <= k < front.len() implies self.verdict(#[trigger] front[k]) is None by {
                    assert(front[k] == lines[k]);
                }
            }
        }
    }

    /// In a well-formed ledger the counters of every stock record agree:
    /// the free units are the owned units less the committed ones, and the
    /// committed units are not negative.
    pub proof fn lemma_counters_agree(self, p: Seq<char>)
        requires
            self.wf(),
            self.has_product(p),
        ensures
            self.record(p).product_id == p,
            self.record(p).available == self.record(p).quantity - self.record(p).reserved,
            self.record(p).reserved >= 0,
            self.record(p).reserved == committed(self.reservations, p),
    {
        lemma_find(self.products(), p);
        assert(committed(self.reservations, p) == self.reserved_of(p));
    }

    /// The empty ledger is well-formed.
    pub proof fn lemma_empty_wf()
        ensures
            Ledger::empty().wf(),
    {
        let l = Ledger::empty();
        assert forall|p: Seq<char>| #[trigger] committed(l.reservations, p) == l.reserved_of(p) by {
            lemma_find(l.products(), p);
        }
    }

    /// Opening a stock record keeps the ledger well-formed.
    pub proof fn lemma_create_wf(
        self,
        p: Seq<char>,
        quantity: int,
        location: Option<Seq<char>>,
        now: Timestamp,
    )
        requires
            self.wf(),
            i32::MIN <= quantity <= i32::MAX,
        ensures
            self.create(p, quantity, location, now).wf(),
    {
        let after = self.create(p, quantity, location, now);
        if !self.has_product(p) {
            let keys = self.products();
            lemma_push_key(keys, p);
            assert(after.products() =~= keys.push(p));
            assert forall|i: int| 0 <= i < after.stock.len() implies (#[trigger] after.stock[i]).consistent() by {
                if i < self.stock.len() {
                    assert(self.stock[i].consistent());
                }
            }
            assert forall|x: Seq<char>| #[trigger] committed(after.reservations, x) == after.reserved_of(x) by {
                assert(committed(self.reservations, x) == self.reserved_of(x));
                if x != p {
                    assert(find(keys.push(p), x) == find(keys, x));
                    lemma_find(keys, x);
                }
            }
        }
    }

    /// Setting the owned units of a product keeps the ledger well-formed.
    pub proof fn lemma_update_wf(
        self,
        p: Seq<char>,
        quantity: int,
        location: Option<Seq<char>>,
        now: Timestamp,
    )
        requires
            self.wf(),
            i32::MIN <= quantity <= i32::MAX,
        ensures
            self.update(p, quantity, location, now).wf(),
    {
        let after = self.update(p, quantity, location, now);
        let keys = self.products();
        lemma_find(keys, p);
        if let Some(i) = find(keys, p) {
            assert(after.products() =~= keys);
            assert forall|k: int| 0 <= k < after.stock.len() implies (#[trigger] after.stock[k]).consistent() by {
                assert(self.stock[k].consistent());
            }
            assert forall|x: Seq<char>| #[trigger] committed(after.reservations, x) == after.reserved_of(x) by {
                assert(committed(self.reservations, x) == self.reserved_of(x));
                lemma_find(keys, x);
            }
        }
    }

    /// Reserving keeps the ledger well-formed: in particular no record ends
    /// with fewer free units than none, nor with more committed than owned.
    pub proof fn lemma_reserve_wf(
        self,
        id: Seq<char>,
        order_id: Seq<char>,
        lines: Seq<(Seq<char>, u32)>,
        now: Timestamp,
    )
        requires
            self.wf(),
        ensures
            self.reserve(id, order_id, lines, now).wf(),
    {
        let after = self.reserve(id, order_id, lines, now);
        if self.reservable(id, lines) {
            let keys = self.products();
            let made = ReservationRecord::opened(id, order_id, lines, now);
            self.lemma_rejections(lines);
            assert(after.products() =~= keys);
            lemma_push_key(self.reservation_ids(), id);
            assert(after.reservation_ids() =~= self.reservation_ids().push(id));
            assert forall|i: int| 0 <= i < after.stock.len() implies (#[trigger] after.stock[i]).consistent() by {
                let r = self.stock[i];
                assert(r.consistent());
                lemma_lookup_line(lines, r.product_id);
                if let Some(q) = lookup(lines, r.product_id) {
                    let k = choose|k: int| 0 <= k < lines.len() && #[trigger] lines[k] == (r.product_id, q);
                    assert(self.verdict(lines[k]) is None);
                    assert(keys[i] == r.product_id);
                    lemma_find_distinct(keys, r.product_id, i);
                }
            }
            assert(after.reservations.drop_last() =~= self.reservations);
            assert forall|x: Seq<char>| #[trigger] committed(after.reservations, x) == after.reserved_of(x) by {
                assert(committed(self.reservations, x) == self.reserved_of(x));
                assert(committed(after.reservations, x) == committed(self.reservations, x) + made.holding(x));
                lemma_find(keys, x);
                lemma_lookup_line(lines, x);
                if let Some(q) = lookup(lines, x) {
                    let k = choose|k: int| 0 <= k < lines.len() && #[trigger] lines[k] == (x, q);
                    assert(self.verdict(lines[k]) is None);
                }
            }
        }
    }

    /// Confirming keeps the ledger well-formed.
    pub proof fn lemma_confirm_wf(self, id: Seq<char>)
        requires
            self.wf(),
        ensures
            self.confirm(id).wf(),
    {
        let after = self.confirm(id);
        let ids = self.reservation_ids();
        lemma_find(ids, id);
        if let Some(j) = find(ids, id) {
            if self.reservations[j].status.holds_stock() {
                assert(after.reservation_ids() =~= ids);
                assert forall|x: Seq<char>| #[trigger] committed(after.reservations, x) == after.reserved_of(x) by {
                    assert(committed(self.reservations, x) == self.reserved_of(x));
                    lemma_committed_update(self.reservations, j, self.reservations[j].confirmed(), x);
                }
            }
        }
    }

    /// Releasing keeps the ledger well-formed: no record ends with a negative
    /// number of committed units.
    pub proof fn lemma_release_wf(self, id: Seq<char>, now: Timestamp)
        requires
            self.wf(),
        ensures
            self.release(id, now).wf(),
    {
        let after = self.release(id, now);
        let ids = self.reservation_ids();
        let keys = self.products();
        lemma_find(ids, id);
        if let Some(j) = find(ids, id) {
            if self.reservations[j].status == ReservationStatus::Pending {
                let lines = self.reservations[j].items;
                assert(after.reservation_ids() =~= ids);
                assert(after.products() =~= keys);
                assert forall|i: int| 0 <= i < after.stock.len() implies (#[trigger] after.stock[i]).consistent() by {
                    let r = self.stock[i];
                    assert(r.consistent());
                    assert(keys[i] == r.product_id);
                    lemma_find_distinct(keys, r.product_id, i);
                    assert(committed(self.reservations, r.product_id) == self.reserved_of(r.product_id));
                    lemma_committed_bound(self.reservations, j, r.product_id);
                }
                assert forall|x: Seq<char>| #[trigger] committed(after.reservations, x) == after.reserved_of(x) by {
                    assert(committed(self.reservations, x) == self.reserved_of(x));
                    lemma_committed_update(self.reservations, j, self.reservations[j].released(), x);
                    lemma_committed_bound(self.reservations, j, x);
                    lemma_find(keys, x);
                }
            }
        }
    }
}

/// A reservation is made whole or not at all: where one line names a product
/// that the ledger does not have, or asks for more units than are free, no
/// stock record changes and no reservation is made.
pub proof fn lemma_reserve_all_or_nothing(
    l: Ledger,
    id: Seq<char>,
    order_id: Seq<char>,
    lines: Seq<(Seq<char>, u32)>,
    now: Timestamp,
    k: int,
)
    requires
        0 <= k < lines.len(),
        !l.has_product(lines[k].0) || l.record(lines[k].0).available < lines[k].1,
    ensures
        l.reserve(id, order_id, lines, now) == l,
{
    l.lemma_rejections(lines);
    assert(l.verdict(lines[k]) is Some);
}

/// A reservation that is made leaves no record with a negative number of free
/// units that it touched: each named product had the units free.
pub proof fn lemma_reserve_within_stock(
    l: Ledger,
    id: Seq<char>,
    order_id: Seq<char>,
    lines: Seq<(Seq<char>, u32)>,
    now: Timestamp,
    i: int,
)
    requires
        l.wf(),
        l.reservable(id, lines),
        0 <= i < l.stock.len(),
        lookup(lines, l.stock[i].product_id) is Some,
    ensures
        l.reserve(id, order_id, lines, now).stock[i].available == l.stock[i].available - amount(
            lines,
            l.stock[i].product_id,
        ),
        l.reserve(id, order_id, lines, now).stock[i].available >= 0,
{
    let r = l.stock[i];
    l.lemma_rejections(lines);
    lemma_lookup_line(lines, r.product_id);
    let q = lookup(lines, r.product_id).unwrap();
    let k = choose|k: int| 0 <= k < lines.len() && #[trigger] lines[k] == (r.product_id, q);
    assert(l.verdict(lines[k]) is None);
    assert(l.products()[i] == r.product_id);
    lemma_find_distinct(l.products(), r.product_id, i);
}

/// Confirming never touches a stock record.
pub proof fn lemma_confirm_keeps_stock(l: Ledger, id: Seq<char>)
    ensures
        l.confirm(id).stock == l.stock,
{
}

/// Confirming a reservation a second time changes nothing.
pub proof fn lemma_confirm_twice(l: Ledger, id: Seq<char>)
    ensures
        l.confirm(id).confirm(id) == l.confirm(id),
{
    let ids = l.reservation_ids();
    let once = l.confirm(id);
    lemma_find(ids, id);
    if let Some(j) = find(ids, id) {
        if l.reservations[j].status.holds_stock() {
            assert(once.reservation_ids() =~= ids);
            assert(once.reservations.update(j, once.reservations[j].confirmed()) =~= once.reservations);
        }
    }
}

/// Releasing a reservation a second time changes nothing: the units are
/// given back once.
pub proof fn lemma_release_twice(l: Ledger, id: Seq<char>, first: Timestamp, second: Timestamp)
    ensures
        l.release(id, first).release(id, second) == l.release(id, first),
{
    let ids = l.reservation_ids();
    let once = l.release(id, first);
    lemma_find(ids, id);
    if let Some(j) = find(ids, id) {
        if l.reservations[j].status == ReservationStatus::Pending {
            assert(once.reservation_ids() =~= ids);
        }
    }
}

/// A confirmed reservation cannot be released: its units stay committed.
pub proof fn lemma_release_after_confirm(l: Ledger, id: Seq<char>, now: Timestamp)
    ensures
        l.confirm(id).release(id, now) == l.confirm(id),
{
    let ids = l.reservation_ids();
    let once = l.confirm(id);
    lemma_find(ids, id);
    if let Some(j) = find(ids, id) {
        if l.reservations[j].status.holds_stock() {
            assert(once.reservation_ids() =~= ids);
        }
    }
}

/// A reservation that was released cannot be confirmed: its units stay free.
pub proof fn lemma_confirm_after_release(l: Ledger, id: Seq<char>, now: Timestamp)
    requires
        l.has_reservation(id),
        l.reservation(id).status == ReservationStatus::Pending,
    ensures
        l.release(id, now).confirm(id) == l.release(id, now),
{
    let ids = l.reservation_ids();
    let once = l.release(id, now);
    lemma_find(ids, id);
    if let Some(j) = find(ids, id) {
        if l.reservations[j].status == ReservationStatus::Pending {
            assert(once.reservation_ids() =~= ids);
        }
    }
}

/// Reserving and then releasing gives every stock record its counters back.
pub proof fn lemma_release_undoes_reserve(
    l: Ledger,
    id: Seq<char>,
    order_id: Seq<char>,
    lines: Seq<(Seq<char>, u32)>,
    made: Timestamp,
    undone: Timestamp,
    i: int,
)
    requires
        l.wf(),
        l.reservable(id, lines),
        0 <= i < l.stock.len(),
    ensures
        l.reserve(id, order_id, lines, made).release(id, undone).stock.len() == l.stock.len(),
        l.reserve(id, order_id, lines, made).release(id, undone).stock[i].reserved == l.stock[i].reserved,
        l.reserve(id, order_id, lines, made).release(id, undone).stock[i].available == l.stock[i].available,
        l.reserve(id, order_id, lines, made).release(id, undone).stock[i].quantity == l.stock[i].quantity,
        l.reserve(id, order_id, lines, made).release(id, undone).stock[i].status == l.stock[i].status,
{
    let ids = l.reservation_ids();
    let mid = l.reserve(id, order_id, lines, made);
    lemma_push_key(ids, id);
    assert(mid.reservation_ids() =~= ids.push(id));
    assert(l.stock[i].consistent());
}

} // verus!
