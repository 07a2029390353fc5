//! Catalogue queries.

use vstd::prelude::*;

use crate::text::concat3;

verus! {

/// The `LIKE` pattern of a product search: the query anywhere in the name.
pub fn search_pattern(query: &str) -> (r: String)
    ensures
        r@ == "%"@ + query@ + "%"@,
{
    concat3("%", query, "%")
}

} // verus!
