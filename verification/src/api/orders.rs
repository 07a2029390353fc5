//! Orders: creation with server-side totals, listing, status transitions and
//! item changes while the order awaits payment.

use vstd::prelude::*;

use super::{
    error_reply, error_response, is_reply, ErrorReply, BAD_REQUEST,
    INTERNAL_SERVER_ERROR, NOT_FOUND, UNAUTHORIZED, UNPROCESSABLE_ENTITY,
};
use crate::domain::order::{status_keyword, status_name, transition_allowed, Order, OrderItem, OrderStatus};
use crate::domain::product::Product;
use crate::domain::DomainError;
use crate::text::{clone_opt, concat2, concat3, decimal, lowercase_of, opt_view, push_decimal_i64, string_of};

verus! {

/// One item of `POST /api/orders`.
#[derive(Debug, Clone)]
pub struct CreateOrderItem {
    pub product_id: String,
    pub quantity: i64,
    pub notes: Option<String>,
}

/// Body of `POST /api/orders`.
#[derive(Debug, Clone)]
pub struct CreateOrderRequest {
    pub table_id: Option<String>,
    pub client_id: Option<String>,
    pub items: Vec<CreateOrderItem>,
}

/// Body of `PATCH /api/orders/{id}/status`.
#[derive(Debug, Clone)]
pub struct UpdateStatusRequest {
    pub status: String,
}

/// Body of `POST /api/orders/{id}/items`.
#[derive(Debug, Clone)]
pub struct AddItemRequest {
    pub product_id: String,
    pub quantity: i64,
    pub notes: Option<String>,
}

/// Query of `GET /api/orders`.
#[derive(Debug, Clone)]
pub struct OrderListQuery {
    pub status: Option<String>,
}

/// An order item in a reply.
#[derive(Debug, Clone)]
pub struct OrderItemResponse {
    pub id: String,
    pub order_id: String,
    pub product_id: String,
    pub quantity: i64,
    pub unit_price: i64,
    pub notes: Option<String>,
    pub created_at: String,
}

/// An order with its items in a reply.
#[derive(Debug, Clone)]
pub struct OrderResponse {
    pub id: String,
    pub table_id: Option<String>,
    pub client_id: Option<String>,
    pub status: String,
    pub total: i64,
    pub created_at: String,
    pub updated_at: String,
    pub items: Vec<OrderItemResponse>,
}

/// An order ready to be stored: the order row, its item rows and its total.
#[derive(Debug, Clone)]
pub struct NewOrderPlan {
    pub order: Order,
    pub items: Vec<OrderItem>,
    pub total: i64,
}

impl OrderItemResponse {
    /// The reply form of an order item (same fields).
    pub fn from(i: OrderItem) -> (r: OrderItemResponse)
        ensures
            r.id == i.id && r.order_id == i.order_id && r.product_id == i.product_id && r.quantity
                == i.quantity && r.unit_price == i.unit_price && r.notes == i.notes && r.created_at
                == i.created_at,
    {
        OrderItemResponse {
            id: i.id,
            order_id: i.order_id,
            product_id: i.product_id,
            quantity: i.quantity,
            unit_price: i.unit_price,
            notes: i.notes,
            created_at: i.created_at,
        }
    }
}

/// The reply for a domain error on the order endpoints.
pub open spec fn order_error_reply(err: DomainError) -> (u16, Seq<char>, Seq<char>) {
    match err {
        DomainError::Unauthorized => (UNAUTHORIZED, "Unauthorized"@, "UNAUTHORIZED"@),
        DomainError::NotFound(m) => (NOT_FOUND, m@, "NOT_FOUND"@),
        DomainError::InvalidValue(m) => (BAD_REQUEST, m@, "INVALID_VALUE"@),
        DomainError::InvalidStatusTransition { from, to } => (
            UNPROCESSABLE_ENTITY,
            "Invalid status transition: "@ + from@ + " → "@ + to@,
            "INVALID_STATUS_TRANSITION"@,
        ),
        DomainError::InsufficientBalance { balance, required } => (
            UNPROCESSABLE_ENTITY,
            "Insufficient balance: "@ + decimal(balance as int) + " FCFA (need "@ + decimal(
                required as int,
            ) + ")"@,
            "INSUFFICIENT_BALANCE"@,
        ),
        _ => (INTERNAL_SERVER_ERROR, "Internal server error"@, "INTERNAL_ERROR"@),
    }
}

/// Maps a domain error to the reply of the order endpoints.
pub fn domain_to_http(err: DomainError) -> (r: ErrorReply)
    ensures
        is_reply(r, order_error_reply(err).0, order_error_reply(err).1, order_error_reply(err).2),
{
    match err {
        DomainError::Unauthorized => error_response("Unauthorized", "UNAUTHORIZED", UNAUTHORIZED),
        DomainError::NotFound(msg) => error_reply(msg, "NOT_FOUND", NOT_FOUND),
        DomainError::InvalidValue(msg) => error_reply(msg, "INVALID_VALUE", BAD_REQUEST),
        DomainError::InvalidStatusTransition { from, to } => {
            let mut m = concat3("Invalid status transition: ", from.as_str(), " → ");
            m.append(to.as_str());
            error_reply(m, "INVALID_STATUS_TRANSITION", UNPROCESSABLE_ENTITY)
        },
        DomainError::InsufficientBalance { balance, required } => {
            let mut m = string_of("Insufficient balance: ");
            push_decimal_i64(&mut m, balance);
            m.append(" FCFA (need ");
            push_decimal_i64(&mut m, required);
            m.append(")");
            error_reply(m, "INSUFFICIENT_BALANCE", UNPROCESSABLE_ENTITY)
        },
        _ => error_response("Internal server error", "INTERNAL_ERROR", INTERNAL_SERVER_ERROR),
    }
}

/// An order must have at least one item.
pub fn check_items_present(items: &Vec<CreateOrderItem>) -> (r: Result<(), ErrorReply>)
    ensures
        r is Ok <==> items@.len() > 0,
        r matches Err(e) ==> is_reply(e, BAD_REQUEST, "Items list must not be empty"@, "VALIDATION_ERROR"@),
{
    if items.len() == 0 {
        Err(error_response("Items list must not be empty", "VALIDATION_ERROR", BAD_REQUEST))
    } else {
        Ok(())
    }
}

/// A quantity must be positive.
pub fn check_quantity(quantity: i64) -> (r: Result<(), ErrorReply>)
    ensures
        r is Ok <==> quantity > 0,
        r matches Err(e) ==> is_reply(e, UNPROCESSABLE_ENTITY, "Invalid quantity"@, "INVALID_QUANTITY"@),
{
    if quantity <= 0 {
        Err(error_response("Invalid quantity", "INVALID_QUANTITY", UNPROCESSABLE_ENTITY))
    } else {
        Ok(())
    }
}

/// The unit price of the product an item refers to, which must exist; the
/// price is taken from the catalogue, never from the request.
pub fn resolve_price(product: Option<Product>, product_id: &str) -> (r: Result<i64, ErrorReply>)
    ensures
        product matches Some(p) ==> r == Ok::<i64, ErrorReply>(p.price),
        product is None ==> (r matches Err(e) && is_reply(e, UNPROCESSABLE_ENTITY, "Product not found: "@ + product_id@, "PRODUCT_NOT_FOUND"@)),
{
    match product {
        Some(p) => Ok(p.price),
        None => Err(error_reply(concat2("Product not found: ", product_id), "PRODUCT_NOT_FOUND", UNPROCESSABLE_ENTITY)),
    }
}

/// The total of items at the given unit prices: the sum of price × quantity.
pub open spec fn items_total(items: Seq<CreateOrderItem>, prices: Seq<i64>) -> int
    decreases items.len(),
{
    if items.len() == 0 {
        0
    } else {
        items_total(items.drop_last(), prices) + prices[items.len() - 1] * items.last().quantity
    }
}

/// Whether every product and every running total of an order fits in an `i64`.
pub open spec fn items_total_fits(items: Seq<CreateOrderItem>, prices: Seq<i64>) -> bool {
    &&& prices.len() == items.len()
    &&& forall|k: int| 0 <= k < items.len() ==> i64::MIN <= #[trigger] prices[k] * items[k].quantity <= i64::MAX
    &&& forall|k: int| 0 <= k <= items.len() ==> i64::MIN <= #[trigger] items_total(items.take(k), prices) <= i64::MAX
}

proof fn lemma_items_total_take(items: Seq<CreateOrderItem>, prices: Seq<i64>, k: int)
    requires
        0 <= k < items.len(),
    ensures
        items_total(items.take(k + 1), prices) == items_total(items.take(k), prices) + prices[k] * items[k].quantity,
{
    assert(items.take(k + 1).drop_last() =~= items.take(k));
}

/// Whether the total of an order fits in an `i64` (the condition under which
/// `plan_order` may be called).
pub fn order_total_in_range(items: &Vec<CreateOrderItem>, prices: &Vec<i64>) -> (r: bool)
    ensures
        r == items_total_fits(items@, prices@),
{
    if items.len() != prices.len() {
        return false;
    }
    let mut sum: i64 = 0;
    let mut i: usize = 0;
    assert(items@.take(0) =~= Seq::<CreateOrderItem>::empty());
    while i < items.len()
        invariant
            i <= items.len(),
            prices@.len() == items@.len(),
            sum == items_total(items@.take(i as int), prices@),
            forall|k: int| 0 <= k < i ==> i64::MIN <= #[trigger] prices@[k] * items@[k].quantity <= i64::MAX,
            forall|k: int| 0 <= k <= i ==> i64::MIN <= #[trigger] items_total(items@.take(k), prices@) <= i64::MAX,
        decreases items.len() - i,
    {
        proof {
            lemma_items_total_take(items@, prices@, i as int);
        }
        let line = match prices[i].checked_mul(items[i].quantity) {
            Some(v) => v,
            None => return false,
        };
        sum = match sum.checked_add(line) {
            Some(v) => v,
            None => return false,
        };
        i = i + 1;
    }
    proof {
        assert forall|k: int| 0 <= k < items@.len() implies i64::MIN <= #[trigger] prices@[k] * items@[k].quantity <= i64::MAX by {}
    }
    true
}

/// Whether `it` is the item row of request item `req` at `price` in order `order_id`.
pub open spec fn item_row(it: OrderItem, id: String, order_id: Seq<char>, req: CreateOrderItem, price: i64, now: Seq<char>) -> bool {
    &&& it.id@ == id@
    &&& it.order_id@ == order_id
    &&& it.product_id@ == req.product_id@
    &&& it.quantity == req.quantity
    &&& it.unit_price == price
    &&& opt_view(it.notes) == opt_view(req.notes)
    &&& it.created_at@ == now
}

/// The rows of a new order: the order (pending payment, total computed from the
/// catalogue prices), one item per requested item with its price, in order.
pub fn plan_order(
    order_id: String,
    table_id: Option<String>,
    client_id: Option<String>,
    now: String,
    items: Vec<CreateOrderItem>,
    prices: &Vec<i64>,
    item_ids: Vec<String>,
) -> (r: NewOrderPlan)
    requires
        items_total_fits(items@, prices@),
        item_ids@.len() == items@.len(),
    ensures
        r.total == items_total(items@, prices@),
        r.order.id == order_id,
        r.order.table_id == table_id,
        r.order.client_id == client_id,
        r.order.status == OrderStatus::PendingPayment,
        r.order.total == 0,
        r.order.created_at@ == now@,
        r.order.updated_at@ == now@,
        r.items@.len() == items@.len(),
        forall|k: int| 0 <= k < items@.len() ==> item_row(#[trigger] r.items@[k], item_ids@[k], order_id@, items@[k], prices@[k], now@),
{
    let mut rows: Vec<OrderItem> = Vec::new();
    let mut total: i64 = 0;
    let mut i: usize = 0;
    let n = items.len();
    assert(items@.take(0) =~= Seq::<CreateOrderItem>::empty());
    while i < n
        invariant
            n == items@.len(),
            i <= n,
            items_total_fits(items@, prices@),
            item_ids@.len() == n,
            total == items_total(items@.take(i as int), prices@),
            rows@.len() == i,
            forall|k: int| 0 <= k < i ==> item_row(#[trigger] rows@[k], item_ids@[k], order_id@, items@[k], prices@[k], now@),
        decreases n - i,
    {
        proof {
            lemma_items_total_take(items@, prices@, i as int);
        }
        let req = &items[i];
        let notes = clone_opt(&req.notes);
        let row = OrderItem {
            id: item_ids[i].clone(),
            order_id: string_of(order_id.as_str()),
            product_id: req.product_id.clone(),
            quantity: req.quantity,
            unit_price: prices[i],
            notes,
            created_at: string_of(now.as_str()),
        };
        rows.push(row);
        total = total + prices[i] * req.quantity;
        i = i + 1;
    }
    assert(items@.take(n as int) =~= items@);
    let order = Order::new(order_id, table_id, client_id, now);
    NewOrderPlan { order, items: rows, total }
}


/// Whether `r` shows the item `i` (same field values).
pub open spec fn shows_item(r: OrderItemResponse, i: OrderItem) -> bool {
    &&& r.id@ == i.id@
    &&& r.order_id@ == i.order_id@
    &&& r.product_id@ == i.product_id@
    &&& r.quantity == i.quantity
    &&& r.unit_price == i.unit_price
    &&& opt_view(r.notes) == opt_view(i.notes)
    &&& r.created_at@ == i.created_at@
}

/// The reply forms of `items`, in order.
pub fn item_responses(items: &Vec<OrderItem>) -> (r: Vec<OrderItemResponse>)
    ensures
        r@.len() == items@.len(),
        forall|k: int| 0 <= k < items@.len() ==> shows_item(#[trigger] r@[k], items@[k]),
{
    let mut out: Vec<OrderItemResponse> = Vec::new();
    let mut i: usize = 0;
    while i < items.len()
        invariant
            i <= items@.len(),
            out@.len() == i,
            forall|k: int| 0 <= k < i ==> shows_item(#[trigger] out@[k], items@[k]),
        decreases items.len() - i,
    {
        let it = &items[i];
        out.push(
            OrderItemResponse {
                id: it.id.clone(),
                order_id: it.order_id.clone(),
                product_id: it.product_id.clone(),
                quantity: it.quantity,
                unit_price: it.unit_price,
                notes: clone_opt(&it.notes),
                created_at: it.created_at.clone(),
            },
        );
        i = i + 1;
    }
    out
}

/// Whether `r` shows `order` with `total` and the items `items`.
pub open spec fn shows_order(r: OrderResponse, order: Order, total: i64, items: Seq<OrderItem>) -> bool {
    &&& r.id@ == order.id@
    &&& opt_view(r.table_id) == opt_view(order.table_id)
    &&& opt_view(r.client_id) == opt_view(order.client_id)
    &&& r.status@ == status_name(order.status)
    &&& r.total == total
    &&& r.created_at@ == order.created_at@
    &&& r.updated_at@ == order.updated_at@
    &&& r.items@.len() == items.len()
    &&& forall|k: int| 0 <= k < items.len() ==> shows_item(#[trigger] r.items@[k], items[k])
}

/// The reply showing `order` with its stored total and `items`.
pub fn order_response(order: Order, items: &Vec<OrderItem>) -> (r: OrderResponse)
    ensures
        shows_order(r, order, order.total, items@),
{
    let total = order.total;
    order_response_with_total(order, total, items)
}

/// The reply showing `order` with the given total and `items`.
pub fn order_response_with_total(order: Order, total: i64, items: &Vec<OrderItem>) -> (r: OrderResponse)
    ensures
        shows_order(r, order, total, items@),
{
    OrderResponse {
        id: string_of(order.id.as_str()),
        table_id: clone_opt(&order.table_id),
        client_id: clone_opt(&order.client_id),
        status: string_of(order.status.as_str()),
        total,
        created_at: string_of(order.created_at.as_str()),
        updated_at: string_of(order.updated_at.as_str()),
        items: item_responses(items),
    }
}

/// The reply of a created order: the order with the computed total.
pub fn created_order_response(plan: &NewOrderPlan) -> (r: OrderResponse)
    ensures
        shows_order(r, plan.order, plan.total, plan.items@),
{
    OrderResponse {
        id: string_of(plan.order.id.as_str()),
        table_id: clone_opt(&plan.order.table_id),
        client_id: clone_opt(&plan.order.client_id),
        status: string_of(plan.order.status.as_str()),
        total: plan.total,
        created_at: string_of(plan.order.created_at.as_str()),
        updated_at: string_of(plan.order.updated_at.as_str()),
        items: item_responses(&plan.items),
    }
}

/// The optional status filter of the order list.
pub fn parse_status_filter(status: &Option<String>) -> (r: Result<Option<OrderStatus>, ErrorReply>)
    ensures
        status is None ==> r == Ok::<Option<OrderStatus>, ErrorReply>(None),
        status is Some && status_keyword(lowercase_of(status->0@)) is Some ==> r == Ok::<Option<OrderStatus>, ErrorReply>(status_keyword(lowercase_of(status->0@))),
        status is Some && status_keyword(lowercase_of(status->0@)) is None ==> (r matches Err(e) && is_reply(e, BAD_REQUEST, "Invalid status: "@ + status->0@, "INVALID_VALUE"@)),
{
    match status {
        None => Ok(None),
        Some(s) => match OrderStatus::from_str(s.as_str()) {
            Ok(st) => Ok(Some(st)),
            Err(_) => Err(error_reply(concat2("Invalid status: ", s.as_str()), "INVALID_VALUE", BAD_REQUEST)),
        },
    }
}

/// The order looked up, which must exist.
pub fn require_order(found: Option<Order>) -> (r: Result<Order, ErrorReply>)
    ensures
        found matches Some(o) ==> r == Ok::<Order, ErrorReply>(o),
        found is None ==> (r matches Err(e) && is_reply(e, NOT_FOUND, "Order not found"@, "ORDER_NOT_FOUND"@)),
{
    match found {
        Some(o) => Ok(o),
        None => Err(error_response("Order not found", "ORDER_NOT_FOUND", NOT_FOUND)),
    }
}

/// Moves `order` to the requested status when it names a status and the
/// lifecycle allows the step.
pub fn apply_status_change(order: Order, requested: &str) -> (r: Result<Order, ErrorReply>)
    ensures
        status_keyword(lowercase_of(requested@)) is None ==> (r matches Err(e) && is_reply(e, BAD_REQUEST, "Unknown order status: "@ + requested@, "INVALID_VALUE"@)),
        status_keyword(lowercase_of(requested@)) is Some && !transition_allowed(order.status, status_keyword(lowercase_of(requested@))->0) ==> (r matches Err(e) && is_reply(
            e,
            UNPROCESSABLE_ENTITY,
            "Invalid status transition: "@ + status_name(order.status) + " → "@ + status_name(status_keyword(lowercase_of(requested@))->0),
            "INVALID_STATUS_TRANSITION"@,
        )),
        r matches Ok(o) ==> status_keyword(lowercase_of(requested@)) == Some(o.status) && transition_allowed(order.status, o.status)
            && o.id == order.id && o.table_id == order.table_id && o.client_id == order.client_id && o.total == order.total
            && o.created_at == order.created_at && o.updated_at == order.updated_at,
        r is Ok <==> (status_keyword(lowercase_of(requested@)) is Some && transition_allowed(order.status, status_keyword(lowercase_of(requested@))->0)),
{
    let new_status = match OrderStatus::from_str(requested) {
        Ok(s) => s,
        Err(e) => return Err(domain_to_http(e)),
    };
    let mut order = order;
    match order.transition_to(new_status) {
        Ok(()) => Ok(order),
        Err(e) => Err(domain_to_http(e)),
    }
}

/// The order whose items are to change: it must exist and still await payment.
pub fn check_order_modifiable(found: Option<Order>) -> (r: Result<Order, ErrorReply>)
    ensures
        found is None ==> (r matches Err(e) && is_reply(e, NOT_FOUND, "Order not found"@, "ORDER_NOT_FOUND"@)),
        found is Some && found->0.status != OrderStatus::PendingPayment ==> (r matches Err(e) && is_reply(
            e,
            UNPROCESSABLE_ENTITY,
            "Cannot modify order in status: "@ + status_name(found->0.status),
            "INVALID_ORDER_STATUS"@,
        )),
        found is Some && found->0.status == OrderStatus::PendingPayment ==> r == Ok::<Order, ErrorReply>(found->0),
{
    match found {
        None => Err(error_response("Order not found", "ORDER_NOT_FOUND", NOT_FOUND)),
        Some(o) => {
            if o.status != OrderStatus::PendingPayment {
                Err(error_reply(concat2("Cannot modify order in status: ", o.status.as_str()), "INVALID_ORDER_STATUS", UNPROCESSABLE_ENTITY))
            } else {
                Ok(o)
            }
        },
    }
}

/// The item row added to order `order_id` for `req` at `unit_price`.
pub fn new_order_item(item_id: String, order_id: &str, req: AddItemRequest, unit_price: i64, now: String) -> (r: OrderItem)
    ensures
        r.id == item_id && r.order_id@ == order_id@ && r.product_id == req.product_id && r.quantity == req.quantity
            && r.unit_price == unit_price && r.notes == req.notes && r.created_at == now,
{
    OrderItem {
        id: item_id,
        order_id: string_of(order_id),
        product_id: req.product_id,
        quantity: req.quantity,
        unit_price,
        notes: req.notes,
        created_at: now,
    }
}

/// The reply when removing an item fails: a missing item is reported as such.
pub fn remove_item_error(err: DomainError) -> (r: ErrorReply)
    ensures
        err is NotFound ==> is_reply(r, NOT_FOUND, "Order item not found"@, "ITEM_NOT_FOUND"@),
        !(err is NotFound) ==> is_reply(r, order_error_reply(err).0, order_error_reply(err).1, order_error_reply(err).2),
{
    match err {
        DomainError::NotFound(_) => error_response("Order item not found", "ITEM_NOT_FOUND", NOT_FOUND),
        _ => domain_to_http(err),
    }
}

/// Items change only while an order awaits payment: whatever the order,
/// `check_order_modifiable` lets it through only in `PendingPayment`, and no
/// transition leads back there.
pub proof fn lemma_items_frozen_after_payment(s: OrderStatus)
    ensures
        !transition_allowed(s, OrderStatus::PendingPayment),
{
}

/// The total the store recomputes from item rows: the sum of quantity ×
/// unit price.
pub open spec fn rows_total(rows: Seq<OrderItem>) -> int
    decreases rows.len(),
{
    if rows.len() == 0 {
        0
    } else {
        rows_total(rows.drop_last()) + rows.last().quantity * rows.last().unit_price
    }
}

/// The total returned when an order is created is the one the store
/// recomputes from the item rows that are written for it.
pub proof fn lemma_created_total_matches_rows(
    rows: Seq<OrderItem>,
    ids: Seq<String>,
    order_id: Seq<char>,
    items: Seq<CreateOrderItem>,
    prices: Seq<i64>,
    now: Seq<char>,
)
    requires
        rows.len() == items.len(),
        forall|k: int| 0 <= k < items.len() ==> item_row(#[trigger] rows[k], ids[k], order_id, items[k], prices[k], now),
    ensures
        rows_total(rows) == items_total(items, prices),
    decreases items.len(),
{
    if items.len() > 0 {
        let n = items.len() - 1;
        assert forall|k: int| 0 <= k < items.drop_last().len() implies item_row(#[trigger] rows.drop_last()[k], ids[k], order_id, items.drop_last()[k], prices[k], now) by {
            assert(item_row(rows[k], ids[k], order_id, items[k], prices[k], now));
        }
        lemma_created_total_matches_rows(rows.drop_last(), ids, order_id, items.drop_last(), prices, now);
        assert(item_row(rows[n], ids[n], order_id, items[n], prices[n], now));
        assert(rows.last().quantity * rows.last().unit_price == prices[n] * items.last().quantity) by (nonlinear_arith)
            requires
                rows.last().quantity == items.last().quantity,
                rows.last().unit_price == prices[n],
        ;
    }
}

} // verus!
