//! Print jobs for the thermal printer.

use vstd::prelude::*;

verus! {

/// A print job for the thermal printer.
#[derive(Debug, Clone)]
pub struct PrintJob {
    pub id: String,
    pub order_id: String,
    pub content: String,
    pub created_at: String,
}

} // verus!
