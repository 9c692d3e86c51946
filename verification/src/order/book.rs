//! The orders as a mathematical object: what each operation does to them,
//! and what stays true of them throughout.

use vstd::prelude::*;
use crate::clock::Timestamp;
use crate::keyed::{distinct, find, lemma_find, lemma_push_key, present};
use super::models::{OrderLine, OrderRecord, OrderStatus};

verus! {

/// The sum of the subtotals of `lines`.
pub open spec fn sum_subtotals(lines: Seq<OrderLine>) -> int
    decreases lines.len(),
{
    if lines.len() == 0 {
        0
    } else {
        sum_subtotals(lines.drop_last()) + lines.last().subtotal
    }
}

/// The orders of the user `user_id` among `records`, in order.
pub open spec fn of_user(records: Seq<OrderRecord>, user_id: Seq<char>) -> Seq<OrderRecord>
    decreases records.len(),
{
    if records.len() == 0 {
        Seq::empty()
    } else if records.last().user_id == user_id {
        of_user(records.drop_last(), user_id).push(records.last())
    } else {
        of_user(records.drop_last(), user_id)
    }
}

impl OrderRecord {
    /// The order adds up: every subtotal is price times units, and the total
    /// is the sum of the subtotals.
    pub open spec fn balanced(self) -> bool {
        &&& forall|i: int| 0 <= i < self.items.len() ==> (#[trigger] self.items[i]).priced()
        &&& self.total == sum_subtotals(self.items)
    }

    /// The order with another status.
    pub open spec fn with_status(self, status: OrderStatus, now: Timestamp) -> OrderRecord {
        OrderRecord { status, updated_at: now, ..self }
    }

    /// The order once its payment was captured.
    pub open spec fn paid(self, payment_id: Seq<char>, now: Timestamp) -> OrderRecord {
        OrderRecord {
            payment_id: Some(payment_id),
            status: OrderStatus::Processing,
            updated_at: now,
            ..self
        }
    }
}

/// The state of the orchestrator: the orders made so far, and for each the
/// identifier of the reservation that holds its stock in the ledger, where
/// the ledger named one.
pub struct Orders {
    pub records: Seq<OrderRecord>,
    pub reservations: Seq<Option<Seq<char>>>,
}

impl Orders {
    pub open spec fn empty() -> Orders {
        Orders { records: Seq::empty(), reservations: Seq::empty() }
    }

    /// The identifiers of the orders, in order.
    pub open spec fn ids(self) -> Seq<Seq<char>> {
        self.records.map_values(|r: OrderRecord| r.id)
    }

    pub open spec fn has_order(self, id: Seq<char>) -> bool {
        present(self.ids(), id)
    }

    /// The order `id`; meaningful where there is one.
    pub open spec fn order(self, id: Seq<char>) -> OrderRecord {
        self.records[find(self.ids(), id).unwrap()]
    }

    /// The reservation that holds the stock of the order `id` in the ledger,
    /// if the order is there and the ledger named its reservation.
    pub open spec fn reservation_of(self, id: Seq<char>) -> Option<Seq<char>> {
        match find(self.ids(), id) {
            Some(i) => self.reservations[i],
            None => None,
        }
    }

    /// What holds of the orders at all times: no identifier stands twice,
    /// every order adds up, and every order has its place for a reservation.
    pub open spec fn wf(self) -> bool {
        &&& distinct(self.ids())
        &&& self.reservations.len() == self.records.len()
        &&& forall|i: int| 0 <= i < self.records.len() ==> (#[trigger] self.records[i]).balanced()
    }

    /// Whether a payment can be recorded for the order `id`: the order is
    /// there, and no payment was recorded for it.
    pub open spec fn payable(self, id: Seq<char>) -> bool {
        self.has_order(id) && self.order(id).payment_id is None
    }

    /// The orders after `order` was filed under its identifier, with the
    /// reservation that holds its stock: in the place of the order that had
    /// the identifier, or as the newest.
    pub open spec fn file(self, order: OrderRecord, reservation: Option<Seq<char>>) -> Orders {
        match find(self.ids(), order.id) {
            Some(i) => Orders {
                records: self.records.update(i, order),
                reservations: self.reservations.update(i, reservation),
            },
            None => Orders {
                records: self.records.push(order),
                reservations: self.reservations.push(reservation),
            },
        }
    }

    /// The orders after the order `id` was given the status `status`;
    /// unchanged where there is no such order.
    pub open spec fn set_status(self, id: Seq<char>, status: OrderStatus, now: Timestamp) -> Orders {
        match find(self.ids(), id) {
            Some(i) => Orders {
                records: self.records.update(i, self.records[i].with_status(status, now)),
                ..self
            },
            None => self,
        }
    }

    /// The orders after the payment `payment_id` was recorded for the order
    /// `id`; unchanged where no payment can be recorded for it.
    pub open spec fn pay(self, id: Seq<char>, payment_id: Seq<char>, now: Timestamp) -> Orders {
        if self.payable(id) {
            let i = find(self.ids(), id).unwrap();
            Orders { records: self.records.update(i, self.records[i].paid(payment_id, now)), ..self }
        } else {
            self
        }
    }

    /// Filing an order that adds up keeps the orders well-formed, and the
    /// order and its reservation are then found under its identifier. The
    /// reservations of the other orders stay as they were.
    pub proof fn lemma_file(self, order: OrderRecord, reservation: Option<Seq<char>>)
        requires
            self.wf(),
            order.balanced(),
        ensures
            self.file(order, reservation).wf(),
            self.file(order, reservation).has_order(order.id),
            self.file(order, reservation).order(order.id) == order,
            self.file(order, reservation).reservation_of(order.id) == reservation,
            forall|other: Seq<char>|
                other != order.id ==> #[trigger] self.file(order, reservation).reservation_of(other)
                    == self.reservation_of(other),
    {
        let ids = self.ids();
        let after = self.file(order, reservation);
        assert forall|other: Seq<char>| other != order.id implies #[trigger] after.reservation_of(other)
            == self.reservation_of(other) by {
            lemma_find(ids, other);
            lemma_find(ids, order.id);
            if find(ids, order.id) is Some {
                assert(after.ids() =~= ids);
            } else {
                assert(after.ids() =~= ids.push(order.id));
                assert(ids.push(order.id).drop_last() =~= ids);
            }
        }
        lemma_find(ids, order.id);
        match find(ids, order.id) {
            Some(i) => {
                assert(after.ids() =~= ids);
            },
            None => {
                lemma_push_key(ids, order.id);
                assert(after.ids() =~= ids.push(order.id));
            },
        }
        assert forall|k: int| 0 <= k < after.records.len() implies (#[trigger] after.records[k]).balanced() by {
            if k < self.records.len() && after.records[k] != order {
                assert(self.records[k].balanced());
            }
        }
    }

    /// A change of status keeps the orders well-formed, and leaves the lines,
    /// the total, the payment and the reservation of every order as they
    /// were.
    pub proof fn lemma_set_status(self, id: Seq<char>, status: OrderStatus, now: Timestamp)
        requires
            self.wf(),
        ensures
            self.set_status(id, status, now).wf(),
            self.set_status(id, status, now).ids() == self.ids(),
            self.set_status(id, status, now).reservations == self.reservations,
            forall|other: Seq<char>| #[trigger]
                self.set_status(id, status, now).reservation_of(other) == self.reservation_of(other),
            forall|k: int|
                0 <= k < self.records.len() ==> {
                    let after = #[trigger] self.set_status(id, status, now).records[k];
                    &&& after.items == self.records[k].items
                    &&& after.total == self.records[k].total
                    &&& after.payment_id == self.records[k].payment_id
                },
    {
        let ids = self.ids();
        let after = self.set_status(id, status, now);
        lemma_find(ids, id);
        assert(after.ids() =~= ids);
        assert forall|k: int| 0 <= k < after.records.len() implies (#[trigger] after.records[k]).balanced() by {
            assert(self.records[k].balanced());
        }
    }

    /// Recording a payment keeps the orders well-formed, and leaves the
    /// lines, the total and the reservation of every order as they were.
    pub proof fn lemma_pay(self, id: Seq<char>, payment_id: Seq<char>, now: Timestamp)
        requires
            self.wf(),
        ensures
            self.pay(id, payment_id, now).wf(),
            self.pay(id, payment_id, now).ids() == self.ids(),
            self.pay(id, payment_id, now).reservations == self.reservations,
            forall|other: Seq<char>| #[trigger]
                self.pay(id, payment_id, now).reservation_of(other) == self.reservation_of(other),
            forall|k: int|
                0 <= k < self.records.len() ==> {
                    let after = #[trigger] self.pay(id, payment_id, now).records[k];
                    &&& after.items == self.records[k].items
                    &&& after.total == self.records[k].total
                },
    {
        let ids = self.ids();
        let after = self.pay(id, payment_id, now);
        lemma_find(ids, id);
        assert(after.ids() =~= ids);
        assert forall|k: int| 0 <= k < after.records.len() implies (#[trigger] after.records[k]).balanced() by {
            assert(self.records[k].balanced());
        }
    }

    /// The total of every order is the sum of its subtotals, whatever was
    /// done to the orders since it was made.
    pub proof fn lemma_total_is_sum(self, id: Seq<char>)
        requires
            self.wf(),
            self.has_order(id),
        ensures
            self.order(id).id == id,
            self.order(id).total == sum_subtotals(self.order(id).items),
    {
        lemma_find(self.ids(), id);
        let i = find(self.ids(), id).unwrap();
        assert(self.records[i].balanced());
    }

    /// A payment is recorded once: for an order that has a payment, a second
    /// one changes nothing.
    pub proof fn lemma_pay_once(
        self,
        id: Seq<char>,
        first: Seq<char>,
        second: Seq<char>,
        then: Timestamp,
        later: Timestamp,
    )
        ensures
            self.pay(id, first, then).pay(id, second, later) == self.pay(id, first, then),
            !self.pay(id, first, then).payable(id),
    {
        let ids = self.ids();
        lemma_find(ids, id);
        if self.payable(id) {
            assert(self.pay(id, first, then).ids() =~= ids);
        }
    }

    /// A change of status does not make an order payable again.
    pub proof fn lemma_status_keeps_payment(self, id: Seq<char>, other: Seq<char>, status: OrderStatus, now: Timestamp)
        ensures
            self.set_status(other, status, now).payable(id) == self.payable(id),
    {
        let ids = self.ids();
        lemma_find(ids, id);
        lemma_find(ids, other);
        assert(self.set_status(other, status, now).ids() =~= ids);
    }
}

} // verus!
