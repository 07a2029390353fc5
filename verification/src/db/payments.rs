//! Payments as stored: a row becomes a `Payment` once its method parses.

use vstd::prelude::*;

use crate::domain::payment::{method_keyword, Payment, PaymentMethod};
use crate::text::{lowercase_of, opt_view};

verus! {

/// The columns of a `payments` row.
#[derive(Debug, Clone)]
pub struct PaymentRow {
    pub id: String,
    pub order_id: String,
    pub method: String,
    pub amount: i64,
    pub client_id: Option<String>,
    pub reference: Option<String>,
    pub momo_operator: Option<String>,
    pub parent_payment_id: Option<String>,
    pub created_at: String,
}

/// The payment stored in a row, or the text of the parse error of its method.
pub fn payment_from_row(row: PaymentRow) -> (r: Result<Payment, String>)
    ensures
        r is Ok <==> method_keyword(lowercase_of(row.method@)) is Some,
        r matches Ok(p) ==> {
            &&& Some(p.method) == method_keyword(lowercase_of(row.method@))
            &&& p.id@ == row.id@ && p.order_id@ == row.order_id@ && p.amount == row.amount
            &&& opt_view(p.client_id) == opt_view(row.client_id) && opt_view(p.reference) == opt_view(row.reference)
            &&& opt_view(p.momo_operator) == opt_view(row.momo_operator)
            &&& opt_view(p.parent_payment_id) == opt_view(row.parent_payment_id)
            &&& p.created_at@ == row.created_at@
        },
        r matches Err(m) ==> m@ == "Invalid value: "@ + ("Unknown payment method: "@ + row.method@),
{
    let method = match PaymentMethod::from_str(row.method.as_str()) {
        Ok(m) => m,
        Err(e) => return Err(e.message()),
    };
    Ok(Payment {
        id: row.id,
        order_id: row.order_id,
        method,
        amount: row.amount,
        client_id: row.client_id,
        reference: row.reference,
        momo_operator: row.momo_operator,
        parent_payment_id: row.parent_payment_id,
        created_at: row.created_at,
    })
}

} // verus!
