//! The payments in memory, the operations on them, and what these do to the
//! payments as a mathematical object.

use vstd::prelude::*;
use crate::clock::Timestamp;
use crate::keyed::{distinct, find, keys_of, lemma_find, lemma_push_key, position, present};
use super::models::{CaptureView, Payment, PaymentRecord, PaymentStatus};

verus! {

impl PaymentRecord {
    /// The payment that a capture leaves: completed, with its transaction
    /// reference.
    pub open spec fn captured(id: Seq<char>, transaction_id: Seq<char>, req: CaptureView, now: Timestamp) -> PaymentRecord {
        PaymentRecord {
            id,
            order_id: req.order_id,
            amount: req.amount,
            currency: req.currency,
            status: PaymentStatus::Completed,
            payment_method: req.payment_method,
            created_at: now,
            updated_at: now,
            transaction_id: Some(transaction_id),
            metadata: req.metadata,
        }
    }

    /// The payment after it was refunded.
    pub open spec fn refunded(self, now: Timestamp) -> PaymentRecord {
        PaymentRecord { status: PaymentStatus::Refunded, updated_at: now, ..self }
    }
}

/// The payments of the order `order_id` among `records`, in order.
pub open spec fn of_order(records: Seq<PaymentRecord>, order_id: Seq<char>) -> Seq<PaymentRecord>
    decreases records.len(),
{
    if records.len() == 0 {
        Seq::empty()
    } else if records.last().order_id == order_id {
        of_order(records.drop_last(), order_id).push(records.last())
    } else {
        of_order(records.drop_last(), order_id)
    }
}

/// The state of the payment processor: the payments made so far.
pub struct Payments {
    pub records: Seq<PaymentRecord>,
}

impl Payments {
    pub open spec fn empty() -> Payments {
        Payments { records: Seq::empty() }
    }

    /// The identifiers of the payments, in order.
    pub open spec fn ids(self) -> Seq<Seq<char>> {
        self.records.map_values(|r: PaymentRecord| r.id)
    }

    pub open spec fn has_payment(self, id: Seq<char>) -> bool {
        present(self.ids(), id)
    }

    /// The payment `id`; meaningful where there is one.
    pub open spec fn payment(self, id: Seq<char>) -> PaymentRecord {
        self.records[find(self.ids(), id).unwrap()]
    }

    /// No identifier stands twice.
    pub open spec fn wf(self) -> bool {
        distinct(self.ids())
    }

    /// The payments after `payment` was filed under its identifier: in the
    /// place of the payment that had the identifier, or as the newest.
    pub open spec fn file(self, payment: PaymentRecord) -> Payments {
        match find(self.ids(), payment.id) {
            Some(i) => Payments { records: self.records.update(i, payment) },
            None => Payments { records: self.records.push(payment) },
        }
    }

    /// Whether the payment `id` can be refunded: it is there, and completed.
    pub open spec fn refundable(self, id: Seq<char>) -> bool {
        self.has_payment(id) && self.payment(id).status == PaymentStatus::Completed
    }

    /// The payments after `id` was refunded; unchanged where it cannot be.
    pub open spec fn refund(self, id: Seq<char>, now: Timestamp) -> Payments {
        if self.refundable(id) {
            let i = find(self.ids(), id).unwrap();
            Payments { records: self.records.update(i, self.records[i].refunded(now)) }
        } else {
            self
        }
    }

    /// Filing a payment keeps the identifiers distinct, and the payment is
    /// then found under its identifier.
    pub proof fn lemma_file(self, payment: PaymentRecord)
        requires
            self.wf(),
        ensures
            self.file(payment).wf(),
            self.file(payment).has_payment(payment.id),
            self.file(payment).payment(payment.id) == payment,
    {
        let ids = self.ids();
        let after = self.file(payment);
        lemma_find(ids, payment.id);
        match find(ids, payment.id) {
            Some(i) => {
                assert(after.ids() =~= ids);
            },
            None => {
                lemma_push_key(ids, payment.id);
                assert(after.ids() =~= ids.push(payment.id));
            },
        }
    }

    /// Refunding keeps the identifiers distinct.
    pub proof fn lemma_refund_wf(self, id: Seq<char>, now: Timestamp)
        requires
            self.wf(),
        ensures
            self.refund(id, now).wf(),
    {
        lemma_find(self.ids(), id);
        if self.refundable(id) {
            assert(self.refund(id, now).ids() =~= self.ids());
        }
    }

    /// A refund goes through only for a completed payment: in any other
    /// status, and where there is no such payment, nothing changes. A payment
    /// that was refunded cannot be refunded again.
    pub proof fn lemma_refund_once(self, id: Seq<char>, first: Timestamp, second: Timestamp)
        ensures
            !self.refundable(id) ==> self.refund(id, first) == self,
            self.refundable(id) ==> self.refund(id, first).payment(id).status == PaymentStatus::Refunded,
            self.refund(id, first).refund(id, second) == self.refund(id, first),
    {
        lemma_find(self.ids(), id);
        if self.refundable(id) {
            assert(self.refund(id, first).ids() =~= self.ids());
        }
    }
}

/// What the payments `s` say, in order.
pub open spec fn payment_records(s: Seq<Payment>) -> Seq<PaymentRecord> {
    s.map_values(|x: Payment| x@)
}

/// Why the processor refuses an operation.
#[derive(Debug, Clone, Copy, PartialEq, Eq, Structural)]
pub enum PaymentError {
    /// There is no such payment.
    NotFound,
    /// The payment is not completed, so it cannot be refunded.
    InvalidState,
}

/// The state of the payment processor.
#[derive(Debug)]
pub struct AppState {
    payments: Vec<Payment>,
}

impl View for AppState {
    type V = Payments;

    closed spec fn view(&self) -> Payments {
        Payments { records: payment_records(self.payments@) }
    }
}

impl AppState {
    /// Whether no identifier stands twice. Every state that `new` made and
    /// the operations below changed is so.
    pub open spec fn wf(&self) -> bool {
        self@.wf()
    }

    /// The processor without payments.
    pub fn new() -> (s: AppState)
        ensures
            s@ == Payments::empty(),
            s.wf(),
    {
        let s = AppState { payments: Vec::new() };
        assert(s@.records =~= Payments::empty().records);
        assert(s@.ids() =~= Seq::<Seq<char>>::empty());
        s
    }

    /// Files a payment under its identifier.
    pub fn insert(&mut self, payment: Payment)
        requires
            old(self).wf(),
        ensures
            final(self).wf(),
            final(self)@ == old(self)@.file(payment@),
    {
        proof {
            old(self)@.lemma_file(payment@);
        }
        assert(keys_of(self.payments@) =~= self@.ids());
        match position(&self.payments, &payment.id) {
            Some(i) => {
                self.payments.set(i, payment);
                assert(self@.records =~= old(self)@.records.update(i as int, payment@));
            },
            None => {
                self.payments.push(payment);
                assert(self@.records =~= old(self)@.records.push(payment@));
            },
        }
    }

    /// The payment `id`, if there is one.
    pub fn get(&self, id: &String) -> (r: Option<Payment>)
        ensures
            match r {
                Some(p) => self@.has_payment(id@) && p@ == self@.payment(id@),
                None => !self@.has_payment(id@),
            },
    {
        assert(keys_of(self.payments@) =~= self@.ids());
        match position(&self.payments, id) {
            Some(i) => Some(self.payments[i].clone()),
            None => None,
        }
    }

    /// The payments of an order, in the order in which they were made.
    pub fn by_order(&self, order_id: &String) -> (r: Vec<Payment>)
        ensures
            payment_records(r@) == of_order(self@.records, order_id@),
    {
        let mut r: Vec<Payment> = Vec::new();
        let mut i: usize = 0;
        let ghost all = self@.records;
        assert(payment_records(r@) =~= of_order(all.take(0), order_id@));
        while i < self.payments.len()
            invariant
                i <= self.payments.len(),
                all == self@.records,
                all.len() == self.payments.len(),
                payment_records(r@) == of_order(all.take(i as int), order_id@),
            decreases self.payments.len() - i,
        {
            let ghost before = r@;
            let ghost longer = all.take(i + 1);
            assert(longer.drop_last() =~= all.take(i as int));
            assert(longer.last() == self.payments[i as int]@);
            if self.payments[i].order_id == *order_id {
                r.push(self.payments[i].clone());
                assert(payment_records(r@) =~= payment_records(before).push(self.payments[i as int]@));
            }
            i = i + 1;
        }
        assert(all.take(i as int) =~= all);
        r
    }

    /// Refunds a completed payment.
    pub fn refund(&mut self, id: &String, now: Timestamp) -> (r: Result<Payment, PaymentError>)
        requires
            old(self).wf(),
        ensures
            final(self).wf(),
            final(self)@ == old(self)@.refund(id@, now),
            match r {
                Ok(p) => old(self)@.refundable(id@) && p@ == old(self)@.payment(id@).refunded(now),
                Err(PaymentError::NotFound) => !old(self)@.has_payment(id@),
                Err(PaymentError::InvalidState) => old(self)@.has_payment(id@) && old(self)@.payment(id@).status
                    != PaymentStatus::Completed,
            },
    {
        proof {
            old(self)@.lemma_refund_wf(id@, now);
        }
        assert(keys_of(self.payments@) =~= self@.ids());
        match position(&self.payments, id) {
            Some(i) => {
                if self.payments[i].status != PaymentStatus::Completed {
                    return Err(PaymentError::InvalidState);
                }
                self.payments[i].status = PaymentStatus::Refunded;
                self.payments[i].updated_at = now;
                let out = self.payments[i].clone();
                assert(self@.records =~= old(self)@.records.update(i as int, out@));
                Ok(out)
            },
            None => Err(PaymentError::NotFound),
        }
    }
}

} // verus!
