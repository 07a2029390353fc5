//! The wallet ledger as stored: row decoding, the checks made before an
//! entry is appended, and how a failed client registration is reported.

use vstd::prelude::*;

use crate::domain::wallet::{entry_type_keyword, ledger_balance, LedgerEntryType, WalletLedgerEntry};
use crate::domain::DomainError;
use crate::text::{concat2, contains_str, has_substring, lowercase_of, opt_view};

verus! {

/// The columns of a `wallet_ledger` row.
#[derive(Debug, Clone)]
pub struct LedgerRow {
    pub id: String,
    pub client_id: String,
    pub entry_type: String,
    pub amount: i64,
    pub reference: Option<String>,
    pub description: Option<String>,
    pub created_at: String,
}

/// The ledger entry stored in a row, or the text of the parse error of its
/// type.
pub fn ledger_entry_from_row(row: LedgerRow) -> (r: Result<WalletLedgerEntry, String>)
    ensures
        r is Ok <==> entry_type_keyword(lowercase_of(row.entry_type@)) is Some,
        r matches Ok(e) ==> {
            &&& Some(e.entry_type) == entry_type_keyword(lowercase_of(row.entry_type@))
            &&& e.id@ == row.id@ && e.client_id@ == row.client_id@ && e.amount == row.amount
            &&& opt_view(e.reference) == opt_view(row.reference) && opt_view(e.description) == opt_view(row.description)
            &&& e.created_at@ == row.created_at@
        },
        r matches Err(m) ==> m@ == "Invalid value: "@ + ("Unknown ledger entry type: "@ + row.entry_type@),
{
    let entry_type = match LedgerEntryType::from_str(row.entry_type.as_str()) {
        Ok(t) => t,
        Err(e) => return Err(e.message()),
    };
    Ok(WalletLedgerEntry {
        id: row.id,
        client_id: row.client_id,
        entry_type,
        amount: row.amount,
        reference: row.reference,
        description: row.description,
        created_at: row.created_at,
    })
}

/// The domain error of a failed client insert: a uniqueness violation means
/// the phone is taken.
pub fn registration_failure(cause: &str) -> (r: DomainError)
    ensures
        has_substring(cause@, "UNIQUE"@) ==> r is DuplicatePhone,
        !has_substring(cause@, "UNIQUE"@) ==> (r matches DomainError::Internal(m) && m@ == "Failed to register client: "@ + cause@),
{
    if contains_str(cause, "UNIQUE") {
        DomainError::DuplicatePhone
    } else {
        DomainError::Internal(concat2("Failed to register client: ", cause))
    }
}

/// The check made inside the append transaction: the entry's client must
/// exist (`client_count` rows carry its id).
pub fn check_entry_client(entry: &WalletLedgerEntry, client_count: i64) -> (r: Result<(), DomainError>)
    ensures
        r is Ok <==> client_count > 0,
        r matches Err(e) ==> (e matches DomainError::NotFound(m) && m@ == "Wallet client not found: "@ + entry.client_id@),
{
    if client_count > 0 {
        Ok(())
    } else {
        Err(DomainError::NotFound(concat2("Wallet client not found: ", entry.client_id.as_str())))
    }
}

/// Appending an entry to a client's ledger moves its balance by exactly the
/// entry's amount: a credit raises it, a payment (negative) lowers it.
pub proof fn lemma_append_moves_balance(entries: Seq<WalletLedgerEntry>, entry: WalletLedgerEntry)
    ensures
        ledger_balance(entries.push(entry)) == ledger_balance(entries) + entry.amount,
{
    assert(entries.push(entry).drop_last() =~= entries);
}

} // verus!
