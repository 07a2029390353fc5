//! Orders, their items, and the order lifecycle.

use vstd::prelude::*;

use super::DomainError;
use crate::text::{all_ascii, ascii_lowercase, concat2, lowercase_of, str_eq, string_of, to_lowercase};

verus! {

/// Status of an order through its lifecycle:
/// PendingPayment → PaidPreparing → Ready → Delivered.
#[derive(Debug, Clone, Copy, PartialEq, Eq, Structural)]
pub enum OrderStatus {
    PendingPayment,
    PaidPreparing,
    Ready,
    Delivered,
}

/// The lifecycle rank of a status (0 for PendingPayment, up to 3 for Delivered).
pub open spec fn status_rank(s: OrderStatus) -> int {
    match s {
        OrderStatus::PendingPayment => 0,
        OrderStatus::PaidPreparing => 1,
        OrderStatus::Ready => 2,
        OrderStatus::Delivered => 3,
    }
}

/// The allowed transitions: exactly one step forward in the lifecycle.
pub open spec fn transition_allowed(from: OrderStatus, to: OrderStatus) -> bool {
    status_rank(to) == status_rank(from) + 1
}

/// The database string of a status.
pub open spec fn status_name(s: OrderStatus) -> Seq<char> {
    match s {
        OrderStatus::PendingPayment => "pending_payment"@,
        OrderStatus::PaidPreparing => "paid_preparing"@,
        OrderStatus::Ready => "ready"@,
        OrderStatus::Delivered => "delivered"@,
    }
}

/// The status named by an already lower-cased keyword.
pub open spec fn status_keyword(k: Seq<char>) -> Option<OrderStatus> {
    if k == "pending_payment"@ {
        Some(OrderStatus::PendingPayment)
    } else if k == "paid_preparing"@ {
        Some(OrderStatus::PaidPreparing)
    } else if k == "ready"@ {
        Some(OrderStatus::Ready)
    } else if k == "delivered"@ {
        Some(OrderStatus::Delivered)
    } else {
        None
    }
}

impl OrderStatus {
    /// Whether a transition from `self` to `next` is valid.
    pub fn can_transition_to(&self, next: &Self) -> (r: bool)
        ensures
            r == transition_allowed(*self, *next),
    {
        match (self, next) {
            (OrderStatus::PendingPayment, OrderStatus::PaidPreparing) => true,
            (OrderStatus::PaidPreparing, OrderStatus::Ready) => true,
            (OrderStatus::Ready, OrderStatus::Delivered) => true,
            _ => false,
        }
    }

    /// The status named by a lower-cased keyword.
    pub fn from_keyword(k: &str) -> (r: Option<OrderStatus>)
        ensures
            r == status_keyword(k@),
    {
        if str_eq(k, "pending_payment") {
            Some(OrderStatus::PendingPayment)
        } else if str_eq(k, "paid_preparing") {
            Some(OrderStatus::PaidPreparing)
        } else if str_eq(k, "ready") {
            Some(OrderStatus::Ready)
        } else if str_eq(k, "delivered") {
            Some(OrderStatus::Delivered)
        } else {
            None
        }
    }

    /// Parses a status from its database string, ignoring case.
    pub fn from_str(s: &str) -> (r: Result<OrderStatus, DomainError>)
        ensures
            r is Ok <==> status_keyword(lowercase_of(s@)) is Some,
            r matches Ok(st) ==> status_keyword(lowercase_of(s@)) == Some(st),
            all_ascii(s@) ==> lowercase_of(s@) == ascii_lowercase(s@),
            r matches Err(e) ==> e matches DomainError::InvalidValue(m) && m@
                == "Unknown order status: "@ + s@,
    {
        let lower = to_lowercase(s);
        match OrderStatus::from_keyword(lower.as_str()) {
            Some(st) => Ok(st),
            None => Err(DomainError::InvalidValue(concat2("Unknown order status: ", s))),
        }
    }

    /// The database string of this status.
    pub fn as_str(&self) -> (r: &'static str)
        ensures
            r@ == status_name(*self),
    {
        match self {
            OrderStatus::PendingPayment => "pending_payment",
            OrderStatus::PaidPreparing => "paid_preparing",
            OrderStatus::Ready => "ready",
            OrderStatus::Delivered => "delivered",
        }
    }
}

/// An item within an order.
#[derive(Debug, Clone)]
pub struct OrderItem {
    pub id: String,
    pub order_id: String,
    pub product_id: String,
    pub quantity: i64,
    pub unit_price: i64,
    pub notes: Option<String>,
    pub created_at: String,
}

/// A customer order with its lifecycle status.
#[derive(Debug, Clone)]
pub struct Order {
    pub id: String,
    pub table_id: Option<String>,
    pub client_id: Option<String>,
    pub status: OrderStatus,
    pub total: i64,
    pub created_at: String,
    pub updated_at: String,
}

impl Order {
    /// A new order in PendingPayment status, with total 0 and both
    /// timestamps set to `created_at`.
    pub fn new(id: String, table_id: Option<String>, client_id: Option<String>, created_at: String) -> (r: Order)
        ensures
            r.id == id,
            r.table_id == table_id,
            r.client_id == client_id,
            r.status == OrderStatus::PendingPayment,
            r.total == 0,
            r.created_at@ == created_at@,
            r.updated_at@ == created_at@,
    {
        let updated_at = string_of(created_at.as_str());
        Order {
            id,
            table_id,
            client_id,
            status: OrderStatus::PendingPayment,
            total: 0,
            created_at,
            updated_at,
        }
    }

    /// Moves this order to `new_status` when the lifecycle allows it; otherwise
    /// leaves it unchanged and reports both statuses.
    pub fn transition_to(&mut self, new_status: OrderStatus) -> (r: Result<(), DomainError>)
        ensures
            r is Ok <==> transition_allowed(old(self).status, new_status),
            r is Ok ==> final(self).status == new_status,
            r is Err ==> final(self).status == old(self).status,
            r matches Err(e) ==> e matches DomainError::InvalidStatusTransition { from, to } && from@
                == status_name(old(self).status) && to@ == status_name(new_status),
            final(self).id == old(self).id,
            final(self).table_id == old(self).table_id,
            final(self).client_id == old(self).client_id,
            final(self).total == old(self).total,
            final(self).created_at == old(self).created_at,
            final(self).updated_at == old(self).updated_at,
    {
        if !self.status.can_transition_to(&new_status) {
            return Err(
                DomainError::InvalidStatusTransition {
                    from: string_of(self.status.as_str()),
                    to: string_of(new_status.as_str()),
                },
            );
        }
        self.status = new_status;
        Ok(())
    }
}

/// Storage of orders and their items; implemented over the database.
pub trait OrderRepository: Send + Sync {
    fn create(&self, order: &Order) -> Result<(), DomainError>;

    /// Delete an order by identifier (cleanup on partial failure).
    fn delete(&self, id: &str) -> Result<(), DomainError>;

    fn update_status(&self, id: &str, status: &OrderStatus) -> Result<(), DomainError>;

    fn find_by_id(&self, id: &str) -> Result<Option<Order>, DomainError>;

    fn list_by_status(&self, status: &OrderStatus) -> Result<Vec<Order>, DomainError>;

    fn list_all(&self) -> Result<Vec<Order>, DomainError>;

    fn add_item(&self, item: &OrderItem) -> Result<(), DomainError>;

    fn get_items(&self, order_id: &str) -> Result<Vec<OrderItem>, DomainError>;

    fn remove_item(&self, order_id: &str, item_id: &str) -> Result<(), DomainError>;

    /// Recalculate and persist the order total from its items.
    fn update_total(&self, order_id: &str) -> Result<(), DomainError>;
}

/// The database name of every status reads back as that status.
pub proof fn lemma_status_name_round_trip(s: OrderStatus)
    ensures
        status_keyword(status_name(s)) == Some(s),
{
    reveal_strlit("pending_payment");
    reveal_strlit("paid_preparing");
    reveal_strlit("ready");
    reveal_strlit("delivered");
    assert("pending_payment"@[1] != "paid_preparing"@[1]);
    assert("pending_payment"@[0] != "ready"@[0]);
    assert("pending_payment"@[0] != "delivered"@[0]);
    assert("paid_preparing"@[0] != "ready"@[0]);
    assert("paid_preparing"@[0] != "delivered"@[0]);
    assert("ready"@[0] != "delivered"@[0]);
}

/// The order lifecycle is a single forward path PendingPayment →
/// PaidPreparing → Ready → Delivered: each allowed transition advances one
/// step, each status has at most one successor, Delivered has none, and no
/// transition leads back to PendingPayment.
pub proof fn lemma_lifecycle_is_forward_path(from: OrderStatus, to: OrderStatus, other: OrderStatus)
    ensures
        transition_allowed(from, to) ==> status_rank(to) == status_rank(from) + 1,
        transition_allowed(from, to) && transition_allowed(from, other) ==> to == other,
        !transition_allowed(OrderStatus::Delivered, to),
        !transition_allowed(from, OrderStatus::PendingPayment),
        from != OrderStatus::Delivered ==> exists|next: OrderStatus| #[trigger] transition_allowed(from, next),
{
    if from != OrderStatus::Delivered {
        let next = match from {
            OrderStatus::PendingPayment => OrderStatus::PaidPreparing,
            OrderStatus::PaidPreparing => OrderStatus::Ready,
            _ => OrderStatus::Delivered,
        };
        assert(transition_allowed(from, next));
    }
}

} // verus!
