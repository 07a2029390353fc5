//! Wallet endpoints: registering a client by phone, reading a client's
//! balance and ledger, and crediting a wallet by hand.

use vstd::prelude::*;

use super::{
    domain_error_reply, error_reply, error_response, is_reply, ErrorReply, CONFLICT,
    INTERNAL_SERVER_ERROR, NOT_FOUND, UNPROCESSABLE_ENTITY,
};
use crate::domain::wallet::{entry_type_name, LedgerEntryType, WalletClient, WalletLedgerEntry};
use crate::domain::payment::text_or_empty;
use crate::domain::DomainError;
use crate::text::{byte_len, clone_opt, concat2, concat3, lowercase_of, opt_view, str_eq, string_of, to_lowercase, trim, trim_seq};

verus! {

/// A wallet client and its balance in a reply.
#[derive(Debug, Clone)]
pub struct WalletClientResponse {
    pub id: String,
    pub phone: String,
    pub name: String,
    pub balance: i64,
    pub created_at: String,
}

/// A ledger entry in a reply.
#[derive(Debug, Clone)]
pub struct LedgerEntryResponse {
    pub id: String,
    pub client_id: String,
    pub entry_type: String,
    pub amount: i64,
    pub reference: Option<String>,
    pub description: Option<String>,
    pub created_at: String,
}

/// Reply of `GET /api/wallet/{id}/ledger`.
#[derive(Debug, Clone)]
pub struct LedgerResponse {
    pub client_id: String,
    pub entries: Vec<LedgerEntryResponse>,
    pub balance: i64,
}

/// Reply of `POST /api/wallet/register`.
#[derive(Debug, Clone)]
pub struct RegisterResponse {
    pub id: String,
    pub phone: String,
    pub name: String,
    pub balance: i64,
}

/// Body of `POST /api/wallet/register`.
#[derive(Debug, Clone)]
pub struct RegisterRequest {
    pub phone: String,
    pub name: Option<String>,
}

/// Query of `GET /api/wallet/{id}/ledger`.
#[derive(Debug, Clone)]
pub struct LedgerQuery {
    pub limit: i64,
}

/// Body of `POST /api/wallet/{client_id}/credit`.
#[derive(Debug, Clone)]
pub struct CreditWalletRequest {
    pub amount: i64,
    pub source: String,
    pub reference: Option<String>,
}

/// Reply of a manual credit.
#[derive(Debug, Clone)]
pub struct CreditWalletResponse {
    pub status: String,
    pub new_balance: i64,
}

/// The number of ledger entries listed when the query names none.
pub fn default_limit() -> (r: i64)
    ensures
        r == 50,
{
    50
}

/// Whether `c` is an ASCII decimal digit.
pub open spec fn ascii_digit(c: char) -> bool {
    '0' <= c && c <= '9'
}

/// Whether a phone number, once trimmed, is exactly nine ASCII digits (nine
/// bytes long).
pub open spec fn phone_ok(phone: Seq<char>) -> bool {
    &&& byte_len(trim_seq(phone)) == 9
    &&& forall|i: int| 0 <= i < trim_seq(phone).len() ==> ascii_digit(#[trigger] trim_seq(phone)[i])
}

/// The trimmed phone number, or 422 when it is not nine digits.
pub fn validate_phone(phone: &str) -> (r: Result<String, ErrorReply>)
    ensures
        r is Ok <==> phone_ok(phone@),
        r matches Ok(p) ==> p@ == trim_seq(phone@),
        r matches Err(e) ==> is_reply(e, UNPROCESSABLE_ENTITY, "Phone must be exactly 9 digits"@, "VALIDATION_ERROR"@),
{
    let t = trim(phone);
    let mut digits = true;
    let n = t.unicode_len();
    let mut i: usize = 0;
    while i < n
        invariant
            n == t@.len(),
            i <= n,
            digits == forall|j: int| 0 <= j < i ==> ascii_digit(#[trigger] t@[j]),
        decreases n - i,
    {
        let c = t.get_char(i);
        if !('0' <= c && c <= '9') {
            digits = false;
        }
        i = i + 1;
    }
    if t.len() != 9 || !digits {
        return Err(error_response("Phone must be exactly 9 digits", "VALIDATION_ERROR", UNPROCESSABLE_ENTITY));
    }
    Ok(string_of(t))
}

/// The reply form of a client with its balance; a missing name shows empty.
pub fn client_to_response(client: &WalletClient, balance: i64) -> (r: WalletClientResponse)
    ensures
        r.id@ == client.id@,
        r.phone@ == client.phone@,
        r.name@ == text_or_empty(client.name),
        r.balance == balance,
        r.created_at@ == client.created_at@,
{
    let name = match &client.name {
        Some(n) => n.clone(),
        None => String::new(),
    };
    WalletClientResponse {
        id: client.id.clone(),
        phone: client.phone.clone(),
        name,
        balance,
        created_at: client.created_at.clone(),
    }
}

/// Whether `r` shows the ledger entry `e`.
pub open spec fn shows_entry(r: LedgerEntryResponse, e: WalletLedgerEntry) -> bool {
    &&& r.id@ == e.id@
    &&& r.client_id@ == e.client_id@
    &&& r.entry_type@ == entry_type_name(e.entry_type)
    &&& r.amount == e.amount
    &&& opt_view(r.reference) == opt_view(e.reference)
    &&& opt_view(r.description) == opt_view(e.description)
    &&& r.created_at@ == e.created_at@
}

/// The reply form of a ledger entry.
pub fn entry_to_response(entry: &WalletLedgerEntry) -> (r: LedgerEntryResponse)
    ensures
        shows_entry(r, *entry),
{
    LedgerEntryResponse {
        id: entry.id.clone(),
        client_id: entry.client_id.clone(),
        entry_type: string_of(entry.entry_type.as_str()),
        amount: entry.amount,
        reference: clone_opt(&entry.reference),
        description: clone_opt(&entry.description),
        created_at: entry.created_at.clone(),
    }
}

/// The client that `POST /api/wallet/register` stores: the trimmed phone,
/// the given name, no referrer, created and updated `now`.
pub fn prepare_registration(body: RegisterRequest, id: String, now: String) -> (r: Result<WalletClient, ErrorReply>)
    ensures
        r is Ok <==> phone_ok(body.phone@),
        r matches Err(e) ==> is_reply(e, UNPROCESSABLE_ENTITY, "Phone must be exactly 9 digits"@, "VALIDATION_ERROR"@),
        r matches Ok(c) ==> {
            &&& c.id@ == id@
            &&& c.phone@ == trim_seq(body.phone@)
            &&& opt_view(c.name) == opt_view(body.name)
            &&& c.referrer_id is None
            &&& c.created_at@ == now@ && c.updated_at@ == now@
        },
{
    let phone = validate_phone(body.phone.as_str())?;
    let created_at = now.clone();
    Ok(WalletClient { id, phone, name: body.name, referrer_id: None, created_at, updated_at: now })
}

/// The reply when storing a new client failed: a phone already taken is a
/// conflict, anything else an internal error.
pub fn registration_error_reply(e: &DomainError) -> (r: ErrorReply)
    ensures
        *e is DuplicatePhone ==> is_reply(r, CONFLICT, "Phone already registered"@, "DUPLICATE_PHONE"@),
        !(*e is DuplicatePhone) ==> is_reply(r, INTERNAL_SERVER_ERROR, e.message_spec(), "REGISTRATION_ERROR"@),
{
    match e {
        DomainError::DuplicatePhone => error_response("Phone already registered", "DUPLICATE_PHONE", CONFLICT),
        _ => domain_error_reply(e, "REGISTRATION_ERROR", INTERNAL_SERVER_ERROR),
    }
}

/// The reply of a registration: a new client's balance is 0.
pub fn register_response(client: WalletClient) -> (r: RegisterResponse)
    ensures
        r.id@ == client.id@,
        r.phone@ == client.phone@,
        r.name@ == text_or_empty(client.name),
        r.balance == 0,
{
    let name = match client.name {
        Some(n) => n,
        None => String::new(),
    };
    RegisterResponse { id: client.id, phone: client.phone, name, balance: 0 }
}

/// The client that was looked up, or 404 when there is none.
pub fn require_client(found: Option<WalletClient>) -> (r: Result<WalletClient, ErrorReply>)
    ensures
        found matches Some(c) ==> (r matches Ok(d) && d == c),
        found is None ==> r is Err && is_reply(r->Err_0, NOT_FOUND, "Client not found"@, "NOT_FOUND"@),
{
    match found {
        Some(c) => Ok(c),
        None => Err(error_response("Client not found", "NOT_FOUND", NOT_FOUND)),
    }
}

/// A requested number of ledger entries, a negative one counting as 0.
pub fn ledger_limit(limit: i64) -> (r: i64)
    ensures
        r == if limit < 0 { 0 } else { limit },
{
    if limit < 0 {
        0
    } else {
        limit
    }
}

/// The ledger reply: the entries in the order given, and the balance.
pub fn ledger_response(client_id: String, entries: &Vec<WalletLedgerEntry>, balance: i64) -> (r: LedgerResponse)
    ensures
        r.client_id@ == client_id@,
        r.balance == balance,
        r.entries@.len() == entries@.len(),
        forall|i: int| 0 <= i < entries@.len() ==> shows_entry(#[trigger] r.entries@[i], entries@[i]),
{
    let mut out: Vec<LedgerEntryResponse> = Vec::new();
    let mut i: usize = 0;
    while i < entries.len()
        invariant
            i <= entries.len(),
            out@.len() == i,
            forall|j: int| 0 <= j < i ==> shows_entry(#[trigger] out@[j], entries@[j]),
        decreases entries.len() - i,
    {
        out.push(entry_to_response(&entries[i]));
        i = i + 1;
    }
    LedgerResponse { client_id, entries: out, balance }
}

/// Whether a lower-cased source is one a manual credit accepts.
pub open spec fn credit_source_ok(source: Seq<char>) -> bool {
    source == "cash"@ || source == "momo"@ || source == "gift"@
}

/// Why a manual credit is refused before the client is looked up: the amount
/// must be positive, then the source, ignoring case, must be cash, momo or
/// gift.
pub open spec fn credit_problem(body: CreditWalletRequest) -> Option<Seq<char>> {
    if body.amount <= 0 {
        Some("Amount must be positive"@)
    } else if !credit_source_ok(lowercase_of(body.source@)) {
        Some("Invalid source: '"@ + body.source@ + "' (must be cash, momo, or gift)"@)
    } else {
        None
    }
}

/// A manual credit is accepted before the lookup exactly when its amount is
/// positive and its source, ignoring case, is cash, momo or gift.
pub proof fn lemma_credit_acceptance(body: CreditWalletRequest)
    ensures
        credit_problem(body) is None <==> (body.amount > 0 && (lowercase_of(body.source@) == "cash"@
            || lowercase_of(body.source@) == "momo"@ || lowercase_of(body.source@) == "gift"@)),
{
}

/// The lower-cased source of a manual credit, or 422.
pub fn check_credit(body: &CreditWalletRequest) -> (r: Result<String, ErrorReply>)
    ensures
        credit_problem(*body) matches Some(m) ==> r is Err && is_reply(r->Err_0, UNPROCESSABLE_ENTITY, m, "VALIDATION_ERROR"@),
        credit_problem(*body) is None ==> (r matches Ok(s) && s@ == lowercase_of(body.source@)),
{
    if body.amount <= 0 {
        return Err(error_response("Amount must be positive", "VALIDATION_ERROR", UNPROCESSABLE_ENTITY));
    }
    let source = to_lowercase(body.source.as_str());
    let s = source.as_str();
    if !(str_eq(s, "cash") || str_eq(s, "momo") || str_eq(s, "gift")) {
        let m = concat3("Invalid source: '", body.source.as_str(), "' (must be cash, momo, or gift)");
        return Err(error_reply(m, "VALIDATION_ERROR", UNPROCESSABLE_ENTITY));
    }
    Ok(source)
}

/// The ledger entry of a manual credit: a credit of the requested amount
/// with the given reference, described as "Manual credit via {source}".
pub fn credit_entry(id: String, client_id: String, body: CreditWalletRequest, source: &str, now: String) -> (r: WalletLedgerEntry)
    ensures
        r.id@ == id@,
        r.client_id@ == client_id@,
        r.entry_type == LedgerEntryType::Credit,
        r.amount == body.amount,
        opt_view(r.reference) == opt_view(body.reference),
        r.description matches Some(d) && d@ == "Manual credit via "@ + source@,
        r.created_at@ == now@,
{
    WalletLedgerEntry {
        id,
        client_id,
        entry_type: LedgerEntryType::Credit,
        amount: body.amount,
        reference: body.reference,
        description: Some(concat2("Manual credit via ", source)),
        created_at: now,
    }
}

/// The reply of a manual credit.
pub fn credit_response(new_balance: i64) -> (r: CreditWalletResponse)
    ensures
        r.status@ == "credited"@,
        r.new_balance == new_balance,
{
    CreditWalletResponse { status: string_of("credited"), new_balance }
}

} // verus!
