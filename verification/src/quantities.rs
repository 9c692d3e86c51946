//! How many units of which product: the lines of a reservation.

use vstd::prelude::*;
use crate::keyed::{distinct, find, keys_of, position, Keyed};

verus! {

/// One line: a product and a number of units.
#[derive(Debug)]
pub struct QuantityLine {
    pub product_id: String,
    pub quantity: u32,
}

impl Keyed for QuantityLine {
    open spec fn key_view(&self) -> Seq<char> {
        self.product_id@
    }

    fn key(&self) -> (k: &String) {
        &self.product_id
    }
}

/// The products of `lines`, in order.
pub open spec fn line_keys(lines: Seq<(Seq<char>, u32)>) -> Seq<Seq<char>> {
    lines.map_values(|l: (Seq<char>, u32)| l.0)
}

/// The units that `lines` ask of product `p`, if they name it.
pub open spec fn lookup(lines: Seq<(Seq<char>, u32)>, p: Seq<char>) -> Option<u32> {
    match find(line_keys(lines), p) {
        Some(i) => Some(lines[i].1),
        None => None,
    }
}

/// The units that `lines` ask of product `p`: none where they do not name it.
pub open spec fn amount(lines: Seq<(Seq<char>, u32)>, p: Seq<char>) -> int {
    match lookup(lines, p) {
        Some(q) => q as int,
        None => 0,
    }
}

/// `lines` with the units of product `k` set to `q`: in the place where `k`
/// stands, or in a new last line.
pub open spec fn upsert(lines: Seq<(Seq<char>, u32)>, k: Seq<char>, q: u32) -> Seq<(Seq<char>, u32)> {
    match find(line_keys(lines), k) {
        Some(i) => lines.update(i, (k, q)),
        None => lines.push((k, q)),
    }
}

/// Setting the units of one product changes what is asked of that product
/// and of no other, and keeps the products distinct.
pub proof fn lemma_upsert(lines: Seq<(Seq<char>, u32)>, k: Seq<char>, q: u32)
    ensures
        lookup(upsert(lines, k, q), k) == Some(q),
        forall|p: Seq<char>| p != k ==> #[trigger] lookup(upsert(lines, k, q), p) == lookup(lines, p),
        distinct(line_keys(lines)) ==> distinct(line_keys(upsert(lines, k, q))),
{
    let keys = line_keys(lines);
    let after = upsert(lines, k, q);
    crate::keyed::lemma_find(keys, k);
    assert forall|p: Seq<char>| p != k implies #[trigger] lookup(after, p) == lookup(lines, p) by {
        crate::keyed::lemma_find(keys, p);
        if find(keys, k) is Some {
            assert(line_keys(after) =~= keys);
        } else {
            assert(line_keys(after) =~= keys.push(k));
            assert(keys.push(k).drop_last() =~= keys);
        }
    }
    match find(keys, k) {
        Some(i) => {
            assert(line_keys(after) =~= keys);
        },
        None => {
            assert(line_keys(after) =~= keys.push(k));
            assert(keys.push(k).drop_last() =~= keys);
            assert(keys.push(k).last() == k);
            assert forall|a: int, b: int| 0 <= a < b < keys.push(k).len() && distinct(keys) implies keys.push(
                k,
            )[a] != keys.push(k)[b] by {
                if b < keys.len() {
                } else {
                    assert(keys[a] != k);
                }
            }
        },
    }
}

/// `lines` with `q` more units asked of product `k`: in the place where `k`
/// stands, or in a new last line. Meaningful where the units of `k` then fit
/// the counter.
pub open spec fn added(lines: Seq<(Seq<char>, u32)>, k: Seq<char>, q: u32) -> Seq<(Seq<char>, u32)> {
    match find(line_keys(lines), k) {
        Some(i) => lines.update(i, (k, (lines[i].1 + q) as u32)),
        None => lines.push((k, q)),
    }
}

/// Asking more units of one product adds them to what is asked of that
/// product, changes what is asked of no other, and keeps the products
/// distinct.
pub proof fn lemma_added(lines: Seq<(Seq<char>, u32)>, k: Seq<char>, q: u32)
    requires
        amount(lines, k) + q <= u32::MAX,
    ensures
        lookup(added(lines, k, q), k) == Some((amount(lines, k) + q) as u32),
        amount(added(lines, k, q), k) == amount(lines, k) + q,
        forall|p: Seq<char>| p != k ==> #[trigger] lookup(added(lines, k, q), p) == lookup(lines, p),
        distinct(line_keys(lines)) ==> distinct(line_keys(added(lines, k, q))),
{
    let keys = line_keys(lines);
    let after = added(lines, k, q);
    crate::keyed::lemma_find(keys, k);
    assert forall|p: Seq<char>| p != k implies #[trigger] lookup(after, p) == lookup(lines, p) by {
        crate::keyed::lemma_find(keys, p);
        if find(keys, k) is Some {
            assert(line_keys(after) =~= keys);
        } else {
            assert(line_keys(after) =~= keys.push(k));
            assert(keys.push(k).drop_last() =~= keys);
        }
    }
    match find(keys, k) {
        Some(i) => {
            assert(line_keys(after) =~= keys);
        },
        None => {
            assert(line_keys(after) =~= keys.push(k));
            assert(keys.push(k).drop_last() =~= keys);
            assert(keys.push(k).last() == k);
            assert forall|a: int, b: int| 0 <= a < b < keys.push(k).len() && distinct(keys) implies keys.push(
                k,
            )[a] != keys.push(k)[b] by {
                if b < keys.len() {
                } else {
                    assert(keys[a] != k);
                }
            }
        },
    }
}

/// A table from products to units, in which no product stands twice.
#[derive(Debug)]
pub struct ProductQuantities {
    lines: Vec<QuantityLine>,
}

impl View for ProductQuantities {
    type V = Seq<(Seq<char>, u32)>;

    closed spec fn view(&self) -> Seq<(Seq<char>, u32)> {
        self.lines@.map_values(|l: QuantityLine| (l.product_id@, l.quantity))
    }
}

impl ProductQuantities {
    /// Whether no product stands twice.
    pub open spec fn wf(&self) -> bool {
        distinct(line_keys(self@))
    }

    /// The table without lines.
    pub fn new() -> (r: ProductQuantities)
        ensures
            r@ == Seq::<(Seq<char>, u32)>::empty(),
            r.wf(),
    {
        let r = ProductQuantities { lines: Vec::new() };
        assert(r@ =~= Seq::<(Seq<char>, u32)>::empty());
        r
    }

    pub fn len(&self) -> (n: usize)
        ensures
            n == self@.len(),
    {
        self.lines.len()
    }

    pub fn is_empty(&self) -> (b: bool)
        ensures
            b == (self@.len() == 0),
    {
        self.lines.len() == 0
    }

    /// The product of line `i`.
    pub fn product_at(&self, i: usize) -> (p: &String)
        requires
            i < self@.len(),
        ensures
            p@ == self@[i as int].0,
    {
        &self.lines[i].product_id
    }

    /// The units of line `i`.
    pub fn quantity_at(&self, i: usize) -> (q: u32)
        requires
            i < self@.len(),
        ensures
            q == self@[i as int].1,
    {
        self.lines[i].quantity
    }

    /// The units asked of `product_id`, if the table names it.
    pub fn get(&self, product_id: &String) -> (r: Option<u32>)
        ensures
            r == lookup(self@, product_id@),
    {
        assert(keys_of(self.lines@) =~= line_keys(self@));
        match position(&self.lines, product_id) {
            Some(i) => Some(self.lines[i].quantity),
            None => None,
        }
    }

    /// Sets the units asked of `product_id`, in the line that names it or in
    /// a new last line.
    pub fn insert(&mut self, product_id: String, quantity: u32)
        ensures
            final(self)@ == upsert(old(self)@, product_id@, quantity),
            old(self).wf() ==> final(self).wf(),
    {
        assert(keys_of(self.lines@) =~= line_keys(self@));
        proof {
            lemma_upsert(self@, product_id@, quantity);
        }
        match position(&self.lines, &product_id) {
            Some(i) => {
                self.lines.set(i, QuantityLine { product_id, quantity });
                assert(self@ =~= upsert(old(self)@, product_id@, quantity));
            },
            None => {
                self.lines.push(QuantityLine { product_id, quantity });
                assert(self@ =~= upsert(old(self)@, product_id@, quantity));
            },
        }
    }
    /// Asks `quantity` more units of `product_id`, in the line that names it
    /// or in a new last line. Where the units of the product would no longer
    /// fit the counter, the table stays as it is and the result is `false`.
    pub fn add(&mut self, product_id: String, quantity: u32) -> (ok: bool)
        ensures
            ok == (amount(old(self)@, product_id@) + quantity <= u32::MAX),
            final(self)@ == (if ok {
                added(old(self)@, product_id@, quantity)
            } else {
                old(self)@
            }),
            old(self).wf() ==> final(self).wf(),
    {
        assert(keys_of(self.lines@) =~= line_keys(self@));
        match position(&self.lines, &product_id) {
            Some(i) => {
                let had: u32 = self.lines[i].quantity;
                if quantity > u32::MAX - had {
                    return false;
                }
                proof {
                    lemma_added(self@, product_id@, quantity);
                }
                self.lines.set(i, QuantityLine { product_id, quantity: had + quantity });
                assert(self@ =~= added(old(self)@, product_id@, quantity));
                true
            },
            None => {
                proof {
                    lemma_added(self@, product_id@, quantity);
                }
                self.lines.push(QuantityLine { product_id, quantity });
                assert(self@ =~= added(old(self)@, product_id@, quantity));
                true
            },
        }
    }
}

impl Clone for ProductQuantities {
    fn clone(&self) -> (r: Self)
        ensures
            r@ == self@,
    {
        let mut lines: Vec<QuantityLine> = Vec::new();
        let mut i: usize = 0;
        while i < self.lines.len()
            invariant
                i <= self.lines.len(),
                lines.len() == i,
                forall|j: int|
                    0 <= j < i ==> lines[j].product_id@ == self.lines[j].product_id@ && lines[j].quantity
                        == self.lines[j].quantity,
            decreases self.lines.len() - i,
        {
            lines.push(
                QuantityLine {
                    product_id: self.lines[i].product_id.clone(),
                    quantity: self.lines[i].quantity,
                },
            );
            i = i + 1;
        }
        let r = ProductQuantities { lines };
        assert(r@ =~= self@);
        r
    }
}

} // verus!
