//! The records of the order orchestrator, and what goes in and out of it.
//! Prices and totals are in minor units of the currency.

use vstd::prelude::*;
use crate::clock::Timestamp;
pub use crate::http::ErrorResponse;
pub use crate::inventory::models::ReserveInventoryRequest;
use crate::keyed::Keyed;
use crate::postal::AddressView;
use crate::text::{copy_opt_text, opt_view};

verus! {

/// Where an order stands.
#[derive(Debug, Clone, Copy, PartialEq, Eq, Structural)]
pub enum OrderStatus {
    Pending,
    Processing,
    Shipped,
    Delivered,
    Cancelled,
}

impl OrderStatus {
    /// The name of the status, as it is written in messages.
    pub open spec fn name_view(self) -> Seq<char> {
        match self {
            OrderStatus::Pending => "Pending"@,
            OrderStatus::Processing => "Processing"@,
            OrderStatus::Shipped => "Shipped"@,
            OrderStatus::Delivered => "Delivered"@,
            OrderStatus::Cancelled => "Cancelled"@,
        }
    }

    pub fn name(&self) -> (r: &'static str)
        ensures
            r@ == self.name_view(),
    {
        match self {
            OrderStatus::Pending => "Pending",
            OrderStatus::Processing => "Processing",
            OrderStatus::Shipped => "Shipped",
            OrderStatus::Delivered => "Delivered",
            OrderStatus::Cancelled => "Cancelled",
        }
    }
}

/// A postal address.
#[derive(Debug)]
pub struct Address {
    pub street: String,
    pub city: String,
    pub state: String,
    pub postal_code: String,
    pub country: String,
}

impl View for Address {
    type V = AddressView;

    open spec fn view(&self) -> AddressView {
        AddressView {
            street: self.street@,
            city: self.city@,
            state: self.state@,
            postal_code: self.postal_code@,
            country: self.country@,
        }
    }
}

impl Clone for Address {
    fn clone(&self) -> (r: Self)
        ensures
            r@ == self@,
    {
        Address {
            street: self.street.clone(),
            city: self.city.clone(),
            state: self.state.clone(),
            postal_code: self.postal_code.clone(),
            country: self.country.clone(),
        }
    }
}

/// What a line of an order says.
pub struct OrderLine {
    pub product_id: Seq<char>,
    pub name: Seq<char>,
    pub price: int,
    pub quantity: int,
    pub subtotal: int,
}

impl OrderLine {
    /// The subtotal is the price of one unit times the units.
    pub open spec fn priced(self) -> bool {
        self.subtotal == self.price * self.quantity
    }
}

/// A line of an order: a product, its name and price when the order was
/// made, the units, and the subtotal.
#[derive(Debug)]
pub struct OrderItem {
    pub product_id: String,
    pub name: String,
    pub price: i64,
    pub quantity: u32,
    pub subtotal: i64,
}

impl View for OrderItem {
    type V = OrderLine;

    open spec fn view(&self) -> OrderLine {
        OrderLine {
            product_id: self.product_id@,
            name: self.name@,
            price: self.price as int,
            quantity: self.quantity as int,
            subtotal: self.subtotal as int,
        }
    }
}

impl Clone for OrderItem {
    fn clone(&self) -> (r: Self)
        ensures
            r@ == self@,
    {
        OrderItem {
            product_id: self.product_id.clone(),
            name: self.name.clone(),
            price: self.price,
            quantity: self.quantity,
            subtotal: self.subtotal,
        }
    }
}

/// What the lines `s` say, in order.
pub open spec fn order_lines(s: Seq<OrderItem>) -> Seq<OrderLine> {
    s.map_values(|x: OrderItem| x@)
}

/// A copy of the lines `v`.
pub fn copy_lines(v: &Vec<OrderItem>) -> (r: Vec<OrderItem>)
    ensures
        order_lines(r@) == order_lines(v@),
{
    let mut r: Vec<OrderItem> = Vec::new();
    let mut i: usize = 0;
    while i < v.len()
        invariant
            i <= v.len(),
            r.len() == i,
            forall|j: int| 0 <= j < i ==> r[j]@ == v[j]@,
        decreases v.len() - i,
    {
        r.push(v[i].clone());
        i = i + 1;
    }
    assert(order_lines(r@) =~= order_lines(v@));
    r
}

/// What an order says.
pub struct OrderRecord {
    pub id: Seq<char>,
    pub user_id: Seq<char>,
    pub items: Seq<OrderLine>,
    pub total: int,
    pub status: OrderStatus,
    pub shipping_address: AddressView,
    pub billing_address: AddressView,
    pub payment_id: Option<Seq<char>>,
    pub created_at: Timestamp,
    pub updated_at: Timestamp,
}

/// An order: who ordered what, at which total, and where it stands.
#[derive(Debug)]
pub struct Order {
    pub id: String,
    pub user_id: String,
    pub items: Vec<OrderItem>,
    pub total: i64,
    pub status: OrderStatus,
    pub shipping_address: Address,
    pub billing_address: Address,
    pub payment_id: Option<String>,
    pub created_at: Timestamp,
    pub updated_at: Timestamp,
}

impl View for Order {
    type V = OrderRecord;

    open spec fn view(&self) -> OrderRecord {
        OrderRecord {
            id: self.id@,
            user_id: self.user_id@,
            items: order_lines(self.items@),
            total: self.total as int,
            status: self.status,
            shipping_address: self.shipping_address@,
            billing_address: self.billing_address@,
            payment_id: opt_view(self.payment_id),
            created_at: self.created_at,
            updated_at: self.updated_at,
        }
    }
}

impl Clone for Order {
    fn clone(&self) -> (r: Self)
        ensures
            r@ == self@,
    {
        Order {
            id: self.id.clone(),
            user_id: self.user_id.clone(),
            items: copy_lines(&self.items),
            total: self.total,
            status: self.status,
            shipping_address: self.shipping_address.clone(),
            billing_address: self.billing_address.clone(),
            payment_id: copy_opt_text(&self.payment_id),
            created_at: self.created_at,
            updated_at: self.updated_at,
        }
    }
}

impl Keyed for Order {
    open spec fn key_view(&self) -> Seq<char> {
        self.id@
    }

    fn key(&self) -> (k: &String) {
        &self.id
    }
}

/// A line of an order as it is asked for: a product and a number of units.
#[derive(Debug)]
pub struct OrderItemRequest {
    pub product_id: String,
    pub quantity: u32,
}

impl View for OrderItemRequest {
    type V = (Seq<char>, u32);

    open spec fn view(&self) -> (Seq<char>, u32) {
        (self.product_id@, self.quantity)
    }
}

/// What the asked lines `s` say, in order.
pub open spec fn asked_lines(s: Seq<OrderItemRequest>) -> Seq<(Seq<char>, u32)> {
    s.map_values(|x: OrderItemRequest| x@)
}

/// An order as it is asked for.
#[derive(Debug)]
pub struct CreateOrderRequest {
    pub user_id: String,
    pub items: Vec<OrderItemRequest>,
    pub shipping_address: Address,
    pub billing_address: Address,
}

/// What a `CreateOrderRequest` says.
pub struct CreateOrderView {
    pub user_id: Seq<char>,
    pub items: Seq<(Seq<char>, u32)>,
    pub shipping_address: AddressView,
    pub billing_address: AddressView,
}

impl View for CreateOrderRequest {
    type V = CreateOrderView;

    open spec fn view(&self) -> CreateOrderView {
        CreateOrderView {
            user_id: self.user_id@,
            items: asked_lines(self.items@),
            shipping_address: self.shipping_address@,
            billing_address: self.billing_address@,
        }
    }
}

/// The status to give an order.
#[derive(Debug)]
pub struct UpdateOrderStatusRequest {
    pub status: OrderStatus,
}

/// The answer to a request about one order.
#[derive(Debug)]
pub struct OrderResponse {
    pub order: Order,
    pub success: bool,
    pub message: Option<String>,
}

/// What an `OrderResponse` says.
pub struct OrderResponseView {
    pub order: OrderRecord,
    pub success: bool,
    pub message: Option<Seq<char>>,
}

impl View for OrderResponse {
    type V = OrderResponseView;

    open spec fn view(&self) -> OrderResponseView {
        OrderResponseView { order: self.order@, success: self.success, message: opt_view(self.message) }
    }
}

/// What the catalog says of a product.
#[derive(Debug)]
pub struct ProductResponse {
    pub id: String,
    pub name: String,
    pub price: i64,
    pub description: String,
    pub category: String,
    pub image_url: String,
    pub stock: i32,
}

/// What the orchestrator asks the payment processor to capture.
#[derive(Debug)]
pub struct CreatePaymentRequest {
    pub order_id: String,
    pub amount: i64,
    pub currency: String,
    pub payment_method: String,
}

/// What a `CreatePaymentRequest` says.
pub struct CaptureRequestView {
    pub order_id: Seq<char>,
    pub amount: int,
    pub currency: Seq<char>,
    pub payment_method: Seq<char>,
}

impl View for CreatePaymentRequest {
    type V = CaptureRequestView;

    open spec fn view(&self) -> CaptureRequestView {
        CaptureRequestView {
            order_id: self.order_id@,
            amount: self.amount as int,
            currency: self.currency@,
            payment_method: self.payment_method@,
        }
    }
}

} // verus!
