//! Kitchen display: the paid orders in preparation and the ready orders,
//! oldest first, each item with its product's name.

use vstd::prelude::*;

use super::{error_reply, error_response, is_reply, ErrorReply, INTERNAL_SERVER_ERROR, NOT_FOUND, UNAUTHORIZED};
use crate::domain::order::{status_name, Order, OrderItem};
use crate::domain::product::Product;
use crate::domain::DomainError;
use crate::text::{clone_opt, opt_view, string_of};

verus! {

/// An item of a kitchen order.
#[derive(Debug, Clone)]
pub struct KitchenItemResponse {
    pub product_id: String,
    pub name: String,
    pub quantity: i64,
    pub unit_price: i64,
    pub notes: Option<String>,
}

/// An order on the kitchen display.
#[derive(Debug, Clone)]
pub struct KitchenOrderResponse {
    pub id: String,
    pub table_id: Option<String>,
    pub client_id: Option<String>,
    pub status: String,
    pub total: i64,
    pub created_at: String,
    pub updated_at: String,
    pub items: Vec<KitchenItemResponse>,
    pub elapsed_min: i64,
}

/// Reply of `GET /api/kitchen/orders`.
#[derive(Debug, Clone)]
pub struct KitchenResponse {
    pub in_preparation: Vec<KitchenOrderResponse>,
    pub ready: Vec<KitchenOrderResponse>,
}

/// The reply for a domain error on the kitchen display: 401 and 404 keep
/// their meaning, anything else is an internal error whose details are not
/// shown.
pub fn domain_to_http(err: DomainError) -> (r: ErrorReply)
    ensures
        err is Unauthorized ==> is_reply(r, UNAUTHORIZED, "Unauthorized"@, "UNAUTHORIZED"@),
        err matches DomainError::NotFound(m) ==> is_reply(r, NOT_FOUND, m@, "NOT_FOUND"@),
        !(err is Unauthorized) && !(err is NotFound) ==> is_reply(r, INTERNAL_SERVER_ERROR, "Internal server error"@, "INTERNAL_ERROR"@),
{
    match err {
        DomainError::Unauthorized => error_response("Unauthorized", "UNAUTHORIZED", UNAUTHORIZED),
        DomainError::NotFound(msg) => error_reply(msg, "NOT_FOUND", NOT_FOUND),
        _ => error_response("Internal server error", "INTERNAL_ERROR", INTERNAL_SERVER_ERROR),
    }
}

/// What `rfc3339_millis` returns: the instant written in RFC 3339 form in
/// `text`, in milliseconds since 1970, or `None` when `text` does not parse.
pub uninterp spec fn rfc3339_instant_millis(text: Seq<char>) -> Option<i64>;

/// Parses `text` as a `chrono::DateTime<Utc>` (its `FromStr`, RFC 3339) and
/// gives `timestamp_millis`; `None` when it does not parse. The result is
/// named `rfc3339_instant_millis`.
#[verifier::external_body]
fn rfc3339_millis(text: &str) -> (r: Option<i64>)
    ensures
        r == rfc3339_instant_millis(text@),
{
    text.parse::<chrono::DateTime<chrono::Utc>>().ok().map(|d| d.timestamp_millis())
}

/// The current time in milliseconds since 1970 (`chrono::Utc::now`, then
/// `timestamp_millis`). It depends on the clock, so nothing is stated of it.
#[verifier::external_body]
fn now_millis() -> i64 {
    chrono::Utc::now().timestamp_millis()
}

/// Whole minutes from `created` to `now` (milliseconds), rounded toward zero
/// as `TimeDelta::num_minutes` does; a creation time that could not be read
/// counts as now, so 0.
pub open spec fn elapsed_between(created: Option<i64>, now: i64) -> int {
    match created {
        Some(c) => if now - c >= 0 {
            (now - c) / 60000
        } else {
            -((c - now) / 60000)
        },
        None => 0,
    }
}

/// Whole minutes from `created` to `now` (see `elapsed_between`).
pub fn elapsed_minutes(created: Option<i64>, now: i64) -> (r: i64)
    ensures
        r == elapsed_between(created, now),
{
    match created {
        Some(c) => {
            let d: i128 = now as i128 - c as i128;
            if d >= 0 {
                let m: i128 = d / 60000;
                assert(m <= d);
                m as i64
            } else {
                let m: i128 = (-d) / 60000;
                assert(m <= -d);
                -(m as i64)
            }
        },
        None => 0,
    }
}

/// The name shown for a product looked up by `find_product_by_id`: its name
/// when found, a placeholder when it is gone or the lookup failed.
pub open spec fn shown_product_name(lookup: Result<Option<Product>, DomainError>) -> Seq<char> {
    match lookup {
        Ok(Some(p)) => p.name@,
        _ => "(Produit supprime)"@,
    }
}

/// The name shown for a product (see `shown_product_name`).
pub fn get_product_name(lookup: Result<Option<Product>, DomainError>) -> (r: String)
    ensures
        r@ == shown_product_name(lookup),
{
    match lookup {
        Ok(Some(p)) => p.name,
        _ => string_of("(Produit supprime)"),
    }
}

/// Whether `r` shows `order` with these items, item names and elapsed time.
pub open spec fn shows_kitchen_order(r: KitchenOrderResponse, order: Order, items: Seq<OrderItem>, names: Seq<String>, elapsed: i64) -> bool {
    &&& r.id@ == order.id@
    &&& opt_view(r.table_id) == opt_view(order.table_id)
    &&& opt_view(r.client_id) == opt_view(order.client_id)
    &&& r.status@ == status_name(order.status)
    &&& r.total == order.total
    &&& r.created_at@ == order.created_at@
    &&& r.updated_at@ == order.updated_at@
    &&& r.elapsed_min == elapsed
    &&& r.items@.len() == items.len()
    &&& forall|i: int| 0 <= i < items.len() ==> {
        &&& (#[trigger] r.items@[i]).product_id@ == items[i].product_id@
        &&& r.items@[i].name@ == names[i]@
        &&& r.items@[i].quantity == items[i].quantity
        &&& r.items@[i].unit_price == items[i].unit_price
        &&& opt_view(r.items@[i].notes) == opt_view(items[i].notes)
    }
}

/// A kitchen order from its items, the names shown for their products (in
/// the same order) and the minutes elapsed since it was created.
pub fn build_order_response(order: Order, items: &Vec<OrderItem>, names: &Vec<String>, elapsed: i64) -> (r: KitchenOrderResponse)
    requires
        names@.len() == items@.len(),
    ensures
        shows_kitchen_order(r, order, items@, names@, elapsed),
{
    let mut out: Vec<KitchenItemResponse> = Vec::new();
    let mut i: usize = 0;
    while i < items.len()
        invariant
            i <= items.len(),
            names@.len() == items@.len(),
            out@.len() == i,
            forall|j: int| 0 <= j < i ==> {
                &&& (#[trigger] out@[j]).product_id@ == items@[j].product_id@
                &&& out@[j].name@ == names@[j]@
                &&& out@[j].quantity == items@[j].quantity
                &&& out@[j].unit_price == items@[j].unit_price
                &&& opt_view(out@[j].notes) == opt_view(items@[j].notes)
            },
        decreases items.len() - i,
    {
        let it = &items[i];
        out.push(KitchenItemResponse {
            product_id: it.product_id.clone(),
            name: names[i].clone(),
            quantity: it.quantity,
            unit_price: it.unit_price,
            notes: clone_opt(&it.notes),
        });
        i = i + 1;
    }
    KitchenOrderResponse {
        id: order.id,
        table_id: order.table_id,
        client_id: order.client_id,
        status: string_of(order.status.as_str()),
        total: order.total,
        created_at: order.created_at,
        updated_at: order.updated_at,
        items: out,
        elapsed_min: elapsed,
    }
}

/// A kitchen order as displayed now: `build_order_response` with the whole
/// minutes elapsed since the order was created, for the current time.
pub fn kitchen_order_response(order: Order, items: &Vec<OrderItem>, names: &Vec<String>) -> (r: KitchenOrderResponse)
    requires
        names@.len() == items@.len(),
    ensures
        shows_kitchen_order(r, order, items@, names@, r.elapsed_min),
        exists|now: i64| r.elapsed_min == #[trigger] elapsed_between(rfc3339_instant_millis(order.created_at@), now),
{
    let created = rfc3339_millis(order.created_at.as_str());
    let now = now_millis();
    let elapsed = elapsed_minutes(created, now);
    assert(elapsed == elapsed_between(rfc3339_instant_millis(order.created_at@), now));
    build_order_response(order, items, names, elapsed)
}

/// Orders read newest first, put oldest first.
pub fn oldest_first(orders: Vec<Order>) -> (r: Vec<Order>)
    ensures
        r@ == orders@.reverse(),
{
    let mut out: Vec<Order> = Vec::new();
    let mut rest = orders;
    let ghost all = rest@;
    while rest.len() > 0
        invariant
            all.len() == out@.len() + rest@.len(),
            rest@ == all.take(rest@.len() as int),
            out@ == all.skip(rest@.len() as int).reverse(),
        decreases rest.len(),
    {
        let ghost before = rest@;
        let o = rest.pop().unwrap();
        proof {
            assert(rest@ =~= all.take(rest@.len() as int));
            assert(all.skip(rest@.len() as int) =~= seq![o] + all.skip(before.len() as int));
        }
        out.push(o);
        proof {
            assert(out@ =~= all.skip(rest@.len() as int).reverse());
        }
    }
    assert(all.skip(0) =~= all);
    out
}

} // verus!
