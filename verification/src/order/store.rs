//! The orders in memory, and the operations that read and change them.

use vstd::prelude::*;
use crate::clock::Timestamp;
use crate::keyed::{keys_of, position, Keyed};
use crate::text::{copy_opt_text, opt_view};
use super::book::{of_user, Orders};
use super::config::Config;
use super::models::{Order, OrderRecord, OrderStatus};

verus! {

/// What the orders `s` say, in order.
pub open spec fn order_records(s: Seq<Order>) -> Seq<OrderRecord> {
    s.map_values(|x: Order| x@)
}

/// An order as it is kept: with the identifier of the reservation that holds
/// its stock in the ledger, where the ledger named one.
#[derive(Debug)]
struct Filed {
    order: Order,
    reservation_id: Option<String>,
}

impl Keyed for Filed {
    closed spec fn key_view(&self) -> Seq<char> {
        self.order.id@
    }

    fn key(&self) -> (k: &String) {
        &self.order.id
    }
}

/// The state of the order orchestrator: the orders, and the settings that
/// say where the other participants are.
#[derive(Debug)]
pub struct AppState {
    orders: Vec<Filed>,
    config: Config,
}

impl View for AppState {
    type V = Orders;

    closed spec fn view(&self) -> Orders {
        Orders {
            records: self.orders@.map_values(|f: Filed| f.order@),
            reservations: self.orders@.map_values(|f: Filed| opt_view(f.reservation_id)),
        }
    }
}

impl AppState {
    /// Whether the orders are well-formed. Every state that `new` made and
    /// the operations below changed is.
    pub open spec fn wf(&self) -> bool {
        self@.wf()
    }

    /// The settings that the orchestrator was made with.
    pub closed spec fn settings(&self) -> Config {
        self.config
    }

    pub fn config(&self) -> (c: &Config)
        ensures
            *c == self.settings(),
    {
        &self.config
    }

    /// The orchestrator without orders.
    pub fn new(config: Config) -> (s: AppState)
        ensures
            s@ == Orders::empty(),
            s.wf(),
            s.settings() == config,
    {
        let s = AppState { orders: Vec::new(), config };
        assert(s@.records =~= Orders::empty().records);
        assert(s@.reservations =~= Orders::empty().reservations);
        assert(s@.ids() =~= Seq::<Seq<char>>::empty());
        s
    }

    /// Files an order under its identifier, with the identifier of the
    /// reservation that holds its stock in the ledger.
    pub fn insert(&mut self, order: Order, reservation_id: Option<String>)
        requires
            old(self).wf(),
            order@.balanced(),
        ensures
            final(self).wf(),
            final(self)@ == old(self)@.file(order@, opt_view(reservation_id)),
            final(self).settings() == old(self).settings(),
    {
        proof {
            old(self)@.lemma_file(order@, opt_view(reservation_id));
        }
        assert(keys_of(self.orders@) =~= self@.ids());
        match position(&self.orders, &order.id) {
            Some(i) => {
                self.orders.set(i, Filed { order, reservation_id });
                assert(self@.records =~= old(self)@.records.update(i as int, order@));
                assert(self@.reservations =~= old(self)@.reservations.update(i as int, opt_view(reservation_id)));
            },
            None => {
                self.orders.push(Filed { order, reservation_id });
                assert(self@.records =~= old(self)@.records.push(order@));
                assert(self@.reservations =~= old(self)@.reservations.push(opt_view(reservation_id)));
            },
        }
    }

    /// The order `id`, if there is one.
    pub fn get(&self, id: &String) -> (r: Option<Order>)
        ensures
            match r {
                Some(o) => self@.has_order(id@) && o@ == self@.order(id@),
                None => !self@.has_order(id@),
            },
    {
        assert(keys_of(self.orders@) =~= self@.ids());
        match position(&self.orders, id) {
            Some(i) => Some(self.orders[i].order.clone()),
            None => None,
        }
    }

    /// The identifier of the reservation that holds the stock of the order
    /// `id` in the ledger, if the order is there and the ledger named one.
    pub fn reservation_of(&self, id: &String) -> (r: Option<String>)
        ensures
            opt_view(r) == self@.reservation_of(id@),
    {
        assert(keys_of(self.orders@) =~= self@.ids());
        match position(&self.orders, id) {
            Some(i) => copy_opt_text(&self.orders[i].reservation_id),
            None => None,
        }
    }

    /// The orders of a user, in the order in which they were made.
    pub fn by_user(&self, user_id: &String) -> (r: Vec<Order>)
        ensures
            order_records(r@) == of_user(self@.records, user_id@),
    {
        let mut r: Vec<Order> = Vec::new();
        let mut i: usize = 0;
        let ghost all = self@.records;
        assert(order_records(r@) =~= of_user(all.take(0), user_id@));
        while i < self.orders.len()
            invariant
                i <= self.orders.len(),
                all == self@.records,
                all.len() == self.orders.len(),
                order_records(r@) == of_user(all.take(i as int), user_id@),
            decreases self.orders.len() - i,
        {
            let ghost before = r@;
            let ghost longer = all.take(i + 1);
            assert(longer.drop_last() =~= all.take(i as int));
            assert(longer.last() == self.orders[i as int].order@);
            if self.orders[i].order.user_id == *user_id {
                r.push(self.orders[i].order.clone());
                assert(order_records(r@) =~= order_records(before).push(self.orders[i as int].order@));
            }
            i = i + 1;
        }
        assert(all.take(i as int) =~= all);
        r
    }

    /// Gives an order another status, whatever status it had.
    pub fn set_status(&mut self, id: &String, status: OrderStatus, now: Timestamp) -> (r: Option<Order>)
        requires
            old(self).wf(),
        ensures
            final(self).wf(),
            final(self)@ == old(self)@.set_status(id@, status, now),
            final(self).settings() == old(self).settings(),
            match r {
                Some(o) => old(self)@.has_order(id@) && o@ == old(self)@.order(id@).with_status(status, now),
                None => !old(self)@.has_order(id@),
            },
    {
        proof {
            old(self)@.lemma_set_status(id@, status, now);
        }
        assert(keys_of(self.orders@) =~= self@.ids());
        match position(&self.orders, id) {
            Some(i) => {
                self.orders[i].order.status = status;
                self.orders[i].order.updated_at = now;
                let out = self.orders[i].order.clone();
                assert(self@.records =~= old(self)@.records.update(i as int, out@));
                assert(self@.reservations =~= old(self)@.reservations);
                Some(out)
            },
            None => None,
        }
    }

    /// Records the payment of an order that has none, and moves the order to
    /// `Processing`. An order that has a payment keeps it.
    pub fn record_payment(&mut self, id: &String, payment_id: String, now: Timestamp) -> (r: Option<Order>)
        requires
            old(self).wf(),
        ensures
            final(self).wf(),
            final(self)@ == old(self)@.pay(id@, payment_id@, now),
            final(self).settings() == old(self).settings(),
            match r {
                Some(o) => old(self)@.payable(id@) && o@ == old(self)@.order(id@).paid(payment_id@, now),
                None => !old(self)@.payable(id@),
            },
    {
        proof {
            old(self)@.lemma_pay(id@, payment_id@, now);
        }
        assert(keys_of(self.orders@) =~= self@.ids());
        match position(&self.orders, id) {
            Some(i) => {
                if self.orders[i].order.payment_id.is_some() {
                    return None;
                }
                self.orders[i].order.payment_id = Some(payment_id);
                self.orders[i].order.status = OrderStatus::Processing;
                self.orders[i].order.updated_at = now;
                let out = self.orders[i].order.clone();
                assert(self@.records =~= old(self)@.records.update(i as int, out@));
                assert(self@.reservations =~= old(self)@.reservations);
                Some(out)
            },
            None => None,
        }
    }
}

} // verus!
