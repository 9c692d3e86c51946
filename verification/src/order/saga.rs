//! Making an order, step by step. Each step says what to ask of another
//! participant next; the caller asks, and hands the reply to the step after.
//! An order is filed only when every line was priced and the ledger has
//! reserved them all.

use vstd::prelude::*;
use crate::clock;
use crate::clock::Timestamp;
use crate::http::{ErrorResponse, ErrorView, HttpOutcome};
use crate::ident;
use crate::ident::hyphenated;
use crate::postal::AddressView;
use crate::quantities::{added, amount, lemma_added, ProductQuantities};
use crate::text::{join, join3, opt_view};
use super::book::{sum_subtotals, Orders};
use super::config::Config;
use super::models::{
    asked_lines, order_lines, Address, CreateOrderRequest, CreateOrderView, Order, OrderItem,
    OrderItemRequest, OrderLine, OrderRecord, OrderResponse, OrderResponseView, OrderStatus,
    ProductResponse, ReserveInventoryRequest,
};
use super::store::AppState;

verus! {

/// The units that the asked lines `lines` ask of product `p`, all lines that
/// name `p` taken together.
pub open spec fn units_asked(lines: Seq<(Seq<char>, u32)>, p: Seq<char>) -> int
    decreases lines.len(),
{
    if lines.len() == 0 {
        0
    } else {
        units_asked(lines.drop_last(), p) + (if lines.last().0 == p {
            lines.last().1 as int
        } else {
            0
        })
    }
}

/// The units to reserve for the asked lines `lines`: one line for each
/// product, in the order in which the products are first asked for, with the
/// units of all lines that name the product added up. Meaningful where the
/// units of each product fit the counter.
pub open spec fn tally(lines: Seq<(Seq<char>, u32)>) -> Seq<(Seq<char>, u32)>
    decreases lines.len(),
{
    if lines.len() == 0 {
        Seq::empty()
    } else {
        added(tally(lines.drop_last()), lines.last().0, lines.last().1)
    }
}

/// What an order in the making says: the asked lines, the lines priced so
/// far with their running total, and the units to reserve for them.
pub struct DraftView {
    pub order_id: Seq<char>,
    pub started_at: Timestamp,
    pub user_id: Seq<char>,
    pub shipping_address: AddressView,
    pub billing_address: AddressView,
    pub requested: Seq<(Seq<char>, u32)>,
    pub priced: Seq<OrderLine>,
    pub total: int,
    pub quantities: Seq<(Seq<char>, u32)>,
}

impl DraftView {
    /// The draft of a request, with no line priced yet.
    pub open spec fn opened(order_id: Seq<char>, now: Timestamp, req: CreateOrderView) -> DraftView {
        DraftView {
            order_id,
            started_at: now,
            user_id: req.user_id,
            shipping_address: req.shipping_address,
            billing_address: req.billing_address,
            requested: req.items,
            priced: Seq::empty(),
            total: 0,
            quantities: Seq::empty(),
        }
    }

    /// The priced lines are the first asked lines, each with its subtotal;
    /// the total is the sum of the subtotals; and the units to reserve are
    /// those of the priced lines, for each product all that these lines ask
    /// of it.
    pub open spec fn wf(self) -> bool {
        &&& self.priced.len() <= self.requested.len()
        &&& forall|i: int|
            0 <= i < self.priced.len() ==> {
                &&& (#[trigger] self.priced[i]).product_id == self.requested[i].0
                &&& self.priced[i].quantity == self.requested[i].1
                &&& self.priced[i].priced()
            }
        &&& self.total == sum_subtotals(self.priced)
        &&& i64::MIN <= self.total <= i64::MAX
        &&& self.quantities == tally(self.requested.take(self.priced.len() as int))
        &&& forall|p: Seq<char>| #[trigger]
            amount(self.quantities, p) == units_asked(self.requested.take(self.priced.len() as int), p)
    }

    /// Whether every asked line is priced.
    pub open spec fn complete(self) -> bool {
        self.priced.len() >= self.requested.len()
    }

    /// The asked line that is priced next.
    pub open spec fn pending(self) -> (Seq<char>, u32) {
        self.requested[self.priced.len() as int]
    }

    /// Whether the units of the pending line can be added to those that the
    /// priced lines ask of its product: the sum fits the counter.
    pub open spec fn units_fit(self) -> bool {
        amount(self.quantities, self.pending().0) + self.pending().1 <= u32::MAX
    }

    /// Whether the pending line can be priced at `price` a unit: its
    /// subtotal and the new total are amounts that can be held.
    pub open spec fn amounts_fit(self, price: int) -> bool {
        &&& i64::MIN <= price * self.pending().1 <= i64::MAX
        &&& i64::MIN <= self.total + price * self.pending().1 <= i64::MAX
    }

    /// Whether the pending line can be taken into the order at `price` a
    /// unit.
    pub open spec fn fits(self, price: int) -> bool {
        self.units_fit() && self.amounts_fit(price)
    }

    /// The draft after the pending line was priced at `price` a unit.
    pub open spec fn with_line(self, name: Seq<char>, price: int) -> DraftView {
        DraftView {
            priced: self.priced.push(
                OrderLine {
                    product_id: self.pending().0,
                    name,
                    price,
                    quantity: self.pending().1 as int,
                    subtotal: price * self.pending().1,
                },
            ),
            total: self.total + price * self.pending().1,
            quantities: added(self.quantities, self.pending().0, self.pending().1),
            ..self
        }
    }

    /// The order that the draft becomes: pending, unpaid, with the priced
    /// lines and their total.
    pub open spec fn order(self) -> OrderRecord {
        OrderRecord {
            id: self.order_id,
            user_id: self.user_id,
            items: self.priced,
            total: self.total,
            status: OrderStatus::Pending,
            shipping_address: self.shipping_address,
            billing_address: self.billing_address,
            payment_id: None,
            created_at: self.started_at,
            updated_at: self.started_at,
        }
    }

    /// Pricing the pending line keeps the draft well-formed.
    pub proof fn lemma_with_line(self, name: Seq<char>, price: int)
        requires
            self.wf(),
            !self.complete(),
            self.fits(price),
        ensures
            self.with_line(name, price).wf(),
    {
        let after = self.with_line(name, price);
        let n = self.priced.len() as int;
        assert(after.priced.drop_last() =~= self.priced);
        let longer = self.requested.take(n + 1);
        assert(longer.drop_last() =~= self.requested.take(n));
        assert(longer.last() == self.pending());
        lemma_added(self.quantities, self.pending().0, self.pending().1);
        assert(after.requested.take(after.priced.len() as int) == longer);
        assert forall|p: Seq<char>| #[trigger] amount(after.quantities, p) == units_asked(longer, p) by {
            assert(amount(self.quantities, p) == units_asked(self.requested.take(n), p));
        }
        assert forall|i: int| 0 <= i < after.priced.len() implies {
            &&& (#[trigger] after.priced[i]).product_id == after.requested[i].0
            &&& after.priced[i].quantity == after.requested[i].1
            &&& after.priced[i].priced()
        } by {
            if i < n {
                assert(self.priced[i].priced());
            }
        }
    }

    /// Once every line is priced, the units to reserve of each product are
    /// all the units that the asked lines ask of it: a product that is asked
    /// for on several lines is reserved with the sum.
    pub proof fn lemma_reserves_what_is_asked(self, p: Seq<char>)
        requires
            self.wf(),
            self.complete(),
        ensures
            self.quantities == tally(self.requested),
            amount(self.quantities, p) == units_asked(self.requested, p),
    {
        assert(self.requested.take(self.priced.len() as int) =~= self.requested);
    }

    /// The total of the order that a draft becomes is the sum of the
    /// subtotals of its lines, each the price of a unit times the units, as
    /// the catalog gave the price when the line was priced.
    pub proof fn lemma_order_adds_up(self)
        requires
            self.wf(),
        ensures
            self.order().balanced(),
            self.order().total == sum_subtotals(self.order().items),
    {
    }
}

/// An order in the making.
#[derive(Debug)]
pub struct OrderDraft {
    order_id: String,
    started_at: Timestamp,
    user_id: String,
    shipping_address: Address,
    billing_address: Address,
    requested: Vec<OrderItemRequest>,
    priced: Vec<OrderItem>,
    total: i64,
    quantities: ProductQuantities,
}

impl View for OrderDraft {
    type V = DraftView;

    closed spec fn view(&self) -> DraftView {
        DraftView {
            order_id: self.order_id@,
            started_at: self.started_at,
            user_id: self.user_id@,
            shipping_address: self.shipping_address@,
            billing_address: self.billing_address@,
            requested: asked_lines(self.requested@),
            priced: order_lines(self.priced@),
            total: self.total as int,
            quantities: self.quantities@,
        }
    }
}

impl OrderDraft {
    /// The identifier under which the order will be filed.
    pub fn order_id(&self) -> (id: &String)
        ensures
            id@ == self@.order_id,
    {
        &self.order_id
    }

    /// How many lines are priced.
    pub fn priced_lines(&self) -> (n: usize)
        ensures
            n == self@.priced.len(),
    {
        self.priced.len()
    }

    /// The running total of the priced lines.
    pub fn total(&self) -> (t: i64)
        ensures
            t == self@.total,
    {
        self.total
    }
}

/// What the catalog said of the product of the pending line.
#[derive(Debug)]
pub enum CatalogReply {
    /// The catalog has the product.
    Found(ProductResponse),
    /// The catalog answered with success, and what it said cannot be read.
    Malformed,
    /// The catalog answered with a failure.
    Refused,
    /// The catalog could not be reached.
    Unreachable,
}

/// What the ledger said to the reservation of the lines.
#[derive(Debug)]
pub enum ReserveReply {
    /// It answered with success; `reservation_id` is the identifier of the
    /// reservation in its answer, if the answer names one.
    Reserved { reservation_id: Option<String> },
    /// It answered with a failure.
    Refused,
    /// It could not be reached.
    Unreachable,
}

/// What to do next for an order in the making.
#[derive(Debug)]
pub enum CreateOrderStep {
    /// Ask the catalog at `url` for the product of the pending line, and
    /// hand the reply to `catalog_replied`.
    FetchProduct { url: String, draft: OrderDraft },
    /// Ask the ledger at `url` to reserve `request`, and hand the reply to
    /// `reservation_replied`.
    Reserve { url: String, request: ReserveInventoryRequest, draft: OrderDraft },
    /// Answer: no order was filed.
    Done(HttpOutcome<OrderResponse>),
}

/// Whether `step` is the step that follows for the draft `draft`: the
/// product of the pending line is fetched; or, where every line is priced,
/// the units of all lines are reserved under the identifier of the order.
pub open spec fn continues(step: CreateOrderStep, config: Config, draft: DraftView) -> bool {
    match step {
        CreateOrderStep::FetchProduct { url, draft: d } => {
            &&& !draft.complete()
            &&& d@ == draft
            &&& d@.wf()
            &&& url@ == config.product_service_url@ + "/api/products/"@ + draft.pending().0
        },
        CreateOrderStep::Reserve { url, request, draft: d } => {
            &&& draft.complete()
            &&& d@ == draft
            &&& d@.wf()
            &&& url@ == config.inventory_service_url@ + "/api/inventory/reserve"@
            &&& request.order_id@ == draft.order_id
            &&& request.items@ == draft.quantities
        },
        CreateOrderStep::Done(_) => false,
    }
}

/// The step that follows for a draft.
pub fn next_step(config: &Config, draft: OrderDraft) -> (step: CreateOrderStep)
    requires
        draft@.wf(),
    ensures
        continues(step, *config, draft@),
{
    let n: usize = draft.priced.len();
    if n < draft.requested.len() {
        let url = join3(
            config.product_service_url.as_str(),
            "/api/products/",
            draft.requested[n].product_id.as_str(),
        );
        CreateOrderStep::FetchProduct { url, draft }
    } else {
        let url = join(config.inventory_service_url.as_str(), "/api/inventory/reserve");
        let request = ReserveInventoryRequest { order_id: draft.order_id.clone(), items: draft.quantities.clone() };
        CreateOrderStep::Reserve { url, request, draft }
    }
}

/// Starts an order under the identifier `order_id`, at the time `now`.
pub fn begin_order(config: &Config, req: CreateOrderRequest, order_id: String, now: Timestamp) -> (step:
    CreateOrderStep)
    ensures
        continues(step, *config, DraftView::opened(order_id@, now, req@)),
{
    let draft = OrderDraft {
        order_id,
        started_at: now,
        user_id: req.user_id,
        shipping_address: req.shipping_address,
        billing_address: req.billing_address,
        requested: req.items,
        priced: Vec::new(),
        total: 0,
        quantities: ProductQuantities::new(),
    };
    proof {
        let d = DraftView::opened(order_id@, now, req@);
        assert(draft@.priced =~= d.priced);
        assert(draft@ == d);
        assert(d.requested.take(0) =~= Seq::<(Seq<char>, u32)>::empty());
    }
    next_step(config, draft)
}

/// Starts an order under a fresh identifier, at the time that the clock
/// shows. Nothing is changed yet: the order is filed by
/// `reservation_replied`, once the ledger has reserved its lines.
pub fn create_order(data: &AppState, req: CreateOrderRequest) -> (step: CreateOrderStep)
    ensures
        exists|id: Seq<char>, now: Timestamp|
            hyphenated(id) && now.on_clock() && #[trigger] continues(
                step,
                data.settings(),
                DraftView::opened(id, now, req@),
            ),
{
    let id = ident::fresh_id();
    let now = clock::now();
    let ghost id_view = id@;
    let step = begin_order(data.config(), req, id, now);
    assert(continues(step, data.settings(), DraftView::opened(id_view, now, req@)));
    step
}

/// The draft with which an order goes on after the catalog replied, or
/// `None` where the order fails: on any reply but a product, on a line whose
/// units cannot be added to those already asked of its product, and on a
/// product whose price gives an amount that cannot be held.
pub open spec fn priced_draft(draft: DraftView, reply: CatalogReply) -> Option<DraftView> {
    if draft.complete() {
        Some(draft)
    } else {
        match reply {
            CatalogReply::Found(p) => if draft.fits(p.price as int) {
                Some(draft.with_line(p.name@, p.price as int))
            } else {
                None
            },
            _ => None,
        }
    }
}

/// The status and the body with which an order fails after the catalog
/// replied.
pub open spec fn catalog_refusal(draft: DraftView, reply: CatalogReply) -> (int, ErrorView) {
    match reply {
        CatalogReply::Refused => (
            400,
            ErrorView { error: "Product not found: "@ + draft.pending().0, code: "product_not_found"@ },
        ),
        CatalogReply::Unreachable => (
            500,
            ErrorView { error: "Failed to connect to product service"@, code: "service_unavailable"@ },
        ),
        CatalogReply::Found(_) => if !draft.units_fit() {
            (
                400,
                ErrorView {
                    error: "Too many units of product: "@ + draft.pending().0,
                    code: "invalid_quantity"@,
                },
            )
        } else {
            (500, ErrorView { error: "Failed to fetch product details"@, code: "product_fetch_error"@ })
        },
        CatalogReply::Malformed => (
            500,
            ErrorView { error: "Failed to fetch product details"@, code: "product_fetch_error"@ },
        ),
    }
}

/// Takes the reply of the catalog for the pending line: prices the line and
/// goes on, or ends the order with a failure. A draft without a pending line
/// goes on as it is.
pub fn catalog_replied(config: &Config, draft: OrderDraft, reply: CatalogReply) -> (step: CreateOrderStep)
    requires
        draft@.wf(),
    ensures
        match priced_draft(draft@, reply) {
            Some(d) => continues(step, *config, d),
            None => step matches CreateOrderStep::Done(out) && out.failed_with(
                catalog_refusal(draft@, reply).0,
                catalog_refusal(draft@, reply).1,
            ),
        },
{
    let mut draft = draft;
    let ghost before = draft@;
    let n: usize = draft.priced.len();
    if n >= draft.requested.len() {
        return next_step(config, draft);
    }
    match reply {
        CatalogReply::Found(product) => {
            let quantity: u32 = draft.requested[n].quantity;
            if !draft.quantities.add(draft.requested[n].product_id.clone(), quantity) {
                return CreateOrderStep::Done(
                    HttpOutcome::BadRequest(
                        ErrorResponse {
                            error: join("Too many units of product: ", draft.requested[n].product_id.as_str()),
                            code: "invalid_quantity".to_owned(),
                        },
                    ),
                );
            }
            let subtotal: i64 = match product.price.checked_mul(quantity as i64) {
                Some(s) => s,
                None => {
                    return CreateOrderStep::Done(
                        HttpOutcome::InternalServerError(
                            ErrorResponse::new("Failed to fetch product details", "product_fetch_error"),
                        ),
                    );
                },
            };
            let total: i64 = match draft.total.checked_add(subtotal) {
                Some(t) => t,
                None => {
                    return CreateOrderStep::Done(
                        HttpOutcome::InternalServerError(
                            ErrorResponse::new("Failed to fetch product details", "product_fetch_error"),
                        ),
                    );
                },
            };
            let product_id = draft.requested[n].product_id.clone();
            draft.priced.push(
                OrderItem { product_id, name: product.name, price: product.price, quantity, subtotal },
            );
            draft.total = total;
            proof {
                let after = before.with_line(product.name@, product.price as int);
                assert(draft@.priced =~= after.priced);
                assert(draft@.requested =~= after.requested);
                assert(draft@ == after);
                before.lemma_with_line(product.name@, product.price as int);
            }
            next_step(config, draft)
        },
        CatalogReply::Malformed => CreateOrderStep::Done(
            HttpOutcome::InternalServerError(
                ErrorResponse::new("Failed to fetch product details", "product_fetch_error"),
            ),
        ),
        CatalogReply::Refused => CreateOrderStep::Done(
            HttpOutcome::BadRequest(
                ErrorResponse {
                    error: join("Product not found: ", draft.requested[n].product_id.as_str()),
                    code: "product_not_found".to_owned(),
                },
            ),
        ),
        CatalogReply::Unreachable => CreateOrderStep::Done(
            HttpOutcome::InternalServerError(
                ErrorResponse::new("Failed to connect to product service", "service_unavailable"),
            ),
        ),
    }
}

/// What the reply of the ledger does to the orders, and the answer that goes
/// with it: where the ledger has reserved the lines, the order is filed with
/// the reservation that the ledger named, and the answer is 201 with the
/// order; where it refused, 400, and where it could not be reached, 500,
/// both with no order filed.
pub open spec fn filed_answer(
    before: Orders,
    after: Orders,
    draft: DraftView,
    reply: ReserveReply,
    out: HttpOutcome<OrderResponse>,
) -> bool {
    match reply {
        ReserveReply::Reserved { reservation_id } => {
            &&& after == before.file(draft.order(), opt_view(reservation_id))
            &&& out matches HttpOutcome::Created(r) && r@ == (OrderResponseView {
                order: draft.order(),
                success: true,
                message: Some("Order created successfully"@),
            })
        },
        ReserveReply::Refused => {
            &&& after == before
            &&& out.failed_with(
                400,
                ErrorView { error: "Failed to reserve inventory"@, code: "inventory_reservation_failed"@ },
            )
        },
        ReserveReply::Unreachable => {
            &&& after == before
            &&& out.failed_with(
                500,
                ErrorView { error: "Failed to connect to inventory service"@, code: "service_unavailable"@ },
            )
        },
    }
}

/// Takes the reply of the ledger to the reservation of a draft whose lines
/// are all priced, and files the order where the lines were reserved.
pub fn reservation_replied(data: &mut AppState, draft: OrderDraft, reply: ReserveReply) -> (out: HttpOutcome<
    OrderResponse,
>)
    requires
        old(data).wf(),
        draft@.wf(),
        draft@.complete(),
    ensures
        final(data).wf(),
        final(data).settings() == old(data).settings(),
        filed_answer(old(data)@, final(data)@, draft@, reply, out),
        reply matches ReserveReply::Reserved { reservation_id } ==> {
            &&& final(data)@.has_order(draft@.order_id)
            &&& final(data)@.order(draft@.order_id) == draft@.order()
            &&& final(data)@.reservation_of(draft@.order_id) == opt_view(reservation_id)
        },
{
    match reply {
        ReserveReply::Unreachable => HttpOutcome::InternalServerError(
            ErrorResponse::new("Failed to connect to inventory service", "service_unavailable"),
        ),
        ReserveReply::Refused => HttpOutcome::BadRequest(
            ErrorResponse::new("Failed to reserve inventory", "inventory_reservation_failed"),
        ),
        ReserveReply::Reserved { reservation_id } => {
            let ghost d = draft@;
            let order = Order {
                id: draft.order_id,
                user_id: draft.user_id,
                items: draft.priced,
                total: draft.total,
                status: OrderStatus::Pending,
                shipping_address: draft.shipping_address,
                billing_address: draft.billing_address,
                payment_id: None,
                created_at: draft.started_at,
                updated_at: draft.started_at,
            };
            assert(order@ == d.order());
            proof {
                d.lemma_order_adds_up();
                old(data)@.lemma_file(d.order(), opt_view(reservation_id));
            }
            let stored = order.clone();
            data.insert(stored, reservation_id);
            HttpOutcome::Created(
                OrderResponse { order, success: true, message: Some("Order created successfully".to_owned()) },
            )
        },
    }
}

} // verus!
