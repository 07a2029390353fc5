//! Orders as stored: a row becomes an `Order` once its status parses.

use vstd::prelude::*;

use crate::domain::order::{status_keyword, Order, OrderStatus};
use crate::domain::DomainError;
use crate::text::{lowercase_of, opt_view};

verus! {

/// The columns of an `orders` row.
#[derive(Debug, Clone)]
pub struct OrderRow {
    pub id: String,
    pub table_id: Option<String>,
    pub client_id: Option<String>,
    pub status: String,
    pub total: i64,
    pub created_at: String,
    pub updated_at: String,
}

/// The order stored in a row, or the parse error of its status.
pub fn order_from_row(row: OrderRow) -> (r: Result<Order, DomainError>)
    ensures
        r is Ok <==> status_keyword(lowercase_of(row.status@)) is Some,
        r matches Ok(o) ==> {
            &&& Some(o.status) == status_keyword(lowercase_of(row.status@))
            &&& o.id@ == row.id@ && opt_view(o.table_id) == opt_view(row.table_id)
            &&& opt_view(o.client_id) == opt_view(row.client_id) && o.total == row.total
            &&& o.created_at@ == row.created_at@ && o.updated_at@ == row.updated_at@
        },
        r matches Err(e) ==> (e matches DomainError::InvalidValue(m) && m@ == "Unknown order status: "@ + row.status@),
{
    let status = OrderStatus::from_str(row.status.as_str())?;
    Ok(Order {
        id: row.id,
        table_id: row.table_id,
        client_id: row.client_id,
        status,
        total: row.total,
        created_at: row.created_at,
        updated_at: row.updated_at,
    })
}

} // verus!
