//! Wallet clients and the append-only wallet ledger.

use vstd::prelude::*;

use super::DomainError;
use crate::text::{all_ascii, ascii_lowercase, concat2, lowercase_of, str_eq, string_of, to_lowercase};

verus! {

/// A wallet client, identified by phone number.
#[derive(Debug, Clone)]
pub struct WalletClient {
    pub id: String,
    pub phone: String,
    pub name: Option<String>,
    pub referrer_id: Option<String>,
    pub created_at: String,
    pub updated_at: String,
}

/// Source types for wallet ledger entries.
#[derive(Debug, Clone, Copy, PartialEq, Eq, Structural)]
pub enum LedgerEntryType {
    Payment,
    Credit,
    Cashback,
    ReferralBonus,
    Migration,
}

/// The database string of an entry type.
pub open spec fn entry_type_name(t: LedgerEntryType) -> Seq<char> {
    match t {
        LedgerEntryType::Payment => "payment"@,
        LedgerEntryType::Credit => "credit"@,
        LedgerEntryType::Cashback => "cashback"@,
        LedgerEntryType::ReferralBonus => "referral_bonus"@,
        LedgerEntryType::Migration => "migration"@,
    }
}

/// The entry type named by an already lower-cased keyword.
pub open spec fn entry_type_keyword(k: Seq<char>) -> Option<LedgerEntryType> {
    if k == "payment"@ {
        Some(LedgerEntryType::Payment)
    } else if k == "credit"@ {
        Some(LedgerEntryType::Credit)
    } else if k == "cashback"@ {
        Some(LedgerEntryType::Cashback)
    } else if k == "referral_bonus"@ || k == "referralbonus"@ {
        Some(LedgerEntryType::ReferralBonus)
    } else if k == "migration"@ {
        Some(LedgerEntryType::Migration)
    } else {
        None
    }
}

impl LedgerEntryType {
    /// The entry type named by a lower-cased keyword.
    pub fn from_keyword(k: &str) -> (r: Option<LedgerEntryType>)
        ensures
            r == entry_type_keyword(k@),
    {
        if str_eq(k, "payment") {
            Some(LedgerEntryType::Payment)
        } else if str_eq(k, "credit") {
            Some(LedgerEntryType::Credit)
        } else if str_eq(k, "cashback") {
            Some(LedgerEntryType::Cashback)
        } else if str_eq(k, "referral_bonus") || str_eq(k, "referralbonus") {
            Some(LedgerEntryType::ReferralBonus)
        } else if str_eq(k, "migration") {
            Some(LedgerEntryType::Migration)
        } else {
            None
        }
    }

    /// Parses an entry type from its database string, ignoring case.
    pub fn from_str(s: &str) -> (r: Result<LedgerEntryType, DomainError>)
        ensures
            r is Ok <==> entry_type_keyword(lowercase_of(s@)) is Some,
            r matches Ok(t) ==> entry_type_keyword(lowercase_of(s@)) == Some(t),
            all_ascii(s@) ==> lowercase_of(s@) == ascii_lowercase(s@),
            r matches Err(e) ==> e matches DomainError::InvalidValue(m) && m@
                == "Unknown ledger entry type: "@ + s@,
    {
        let lower = to_lowercase(s);
        match LedgerEntryType::from_keyword(lower.as_str()) {
            Some(t) => Ok(t),
            None => Err(DomainError::InvalidValue(concat2("Unknown ledger entry type: ", s))),
        }
    }

    /// The database string of this entry type.
    pub fn as_str(&self) -> (r: &'static str)
        ensures
            r@ == entry_type_name(*self),
    {
        match self {
            LedgerEntryType::Payment => "payment",
            LedgerEntryType::Credit => "credit",
            LedgerEntryType::Cashback => "cashback",
            LedgerEntryType::ReferralBonus => "referral_bonus",
            LedgerEntryType::Migration => "migration",
        }
    }
}

/// A single entry in the append-only wallet ledger.
#[derive(Debug, Clone)]
pub struct WalletLedgerEntry {
    pub id: String,
    pub client_id: String,
    pub entry_type: LedgerEntryType,
    pub amount: i64,
    pub reference: Option<String>,
    pub description: Option<String>,
    pub created_at: String,
}

/// The balance of a ledger: the sum of its amounts.
pub open spec fn ledger_balance(entries: Seq<WalletLedgerEntry>) -> int
    decreases entries.len(),
{
    if entries.len() == 0 {
        0
    } else {
        ledger_balance(entries.drop_last()) + entries.last().amount
    }
}

impl WalletLedgerEntry {
    /// Checks the entry invariant: a ledger entry never has a zero amount.
    pub fn validate(&self) -> (r: Result<(), DomainError>)
        ensures
            r is Ok <==> self.amount != 0,
            r matches Err(e) ==> e matches DomainError::Internal(m) && m@
                == "Wallet entry amount must not be zero"@,
    {
        if self.amount == 0 {
            return Err(DomainError::Internal(string_of("Wallet entry amount must not be zero")));
        }
        Ok(())
    }
}

/// Storage of wallet clients and of the ledger; implemented over the database.
/// The ledger is append-only and a client's balance is the sum of its entries.
pub trait WalletRepository: Send + Sync {
    fn register_client(&self, client: &WalletClient) -> Result<(), DomainError>;

    fn find_client_by_phone(&self, phone: &str) -> Result<Option<WalletClient>, DomainError>;

    fn find_client_by_id(&self, id: &str) -> Result<Option<WalletClient>, DomainError>;

    fn list_all_clients(&self) -> Result<Vec<WalletClient>, DomainError>;

    /// Append a new entry to the ledger, in a single transaction.
    fn append_entry(&self, entry: &WalletLedgerEntry) -> Result<(), DomainError>;

    /// The balance of a client: the sum of the amounts of its entries.
    fn get_balance(&self, client_id: &str) -> Result<i64, DomainError>;

    /// The last `limit` entries of a client, newest first.
    fn get_ledger(&self, client_id: &str, limit: i64) -> Result<Vec<WalletLedgerEntry>, DomainError>;
}

/// The database name of every ledger entry type reads back as that type.
pub proof fn lemma_entry_type_name_round_trip(t: LedgerEntryType)
    ensures
        entry_type_keyword(entry_type_name(t)) == Some(t),
{
    reveal_strlit("payment");
    reveal_strlit("credit");
    reveal_strlit("cashback");
    reveal_strlit("referral_bonus");
    reveal_strlit("referralbonus");
    reveal_strlit("migration");
    assert("payment"@[0] != "credit"@[0]);
    assert("payment"@[0] != "cashback"@[0]);
    assert("payment"@[0] != "referral_bonus"@[0]);
    assert("payment"@[0] != "migration"@[0]);
    assert("credit"@[1] != "cashback"@[1]);
    assert("credit"@[0] != "referral_bonus"@[0]);
    assert("credit"@[0] != "migration"@[0]);
    assert("cashback"@[0] != "referral_bonus"@[0]);
    assert("cashback"@[0] != "migration"@[0]);
    assert("referral_bonus"@[0] != "migration"@[0]);
}

} // verus!
