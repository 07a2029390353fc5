//! Payment of an order: the payment gate and the atomic wallet debit.
//!
//! A wallet payment checks the balance, debits the ledger, records the payment
//! and marks the order paid, all in one transaction; a cash payment records the
//! payment and marks the order paid. Other methods are not implemented yet.

use vstd::prelude::*;

use super::{error_reply, error_response, is_reply, ErrorReply, INTERNAL_SERVER_ERROR, NOT_FOUND, NOT_IMPLEMENTED, UNPROCESSABLE_ENTITY};
use crate::domain::order::{Order, OrderStatus};
use crate::domain::payment::{method_keyword, method_name, Payment, PaymentMethod};
use crate::domain::wallet::{LedgerEntryType, WalletLedgerEntry};
use crate::domain::DomainError;
use crate::text::{concat2, concat3, decimal, lowercase_of, push_decimal_i64, string_of};


verus! {

/// Body of `POST /api/payments`.
#[derive(Debug, Clone)]
pub struct ProcessPaymentRequest {
    pub order_id: String,
    pub method: String,
    pub client_id: Option<String>,
}

/// Reply of a successful payment.
#[derive(Debug, Clone)]
pub struct PaymentResponse {
    pub status: String,
    pub new_balance: Option<i64>,
    pub payment_id: String,
}

/// The rows a wallet payment writes, and the balance after it.
#[derive(Debug, Clone)]
pub struct WalletDebit {
    pub entry: WalletLedgerEntry,
    pub payment: Payment,
    pub new_balance: i64,
}

/// The reply for a domain error on this endpoint.
pub open spec fn payment_error_reply(err: DomainError) -> (u16, Seq<char>, Seq<char>) {
    match err {
        DomainError::NotFound(m) => (NOT_FOUND, m@, "NOT_FOUND"@),
        DomainError::InvalidValue(m) => (UNPROCESSABLE_ENTITY, m@, "INVALID_VALUE"@),
        DomainError::InsufficientBalance { balance, required } => (
            UNPROCESSABLE_ENTITY,
            "Insufficient balance: "@ + decimal(balance as int) + " FCFA (need "@ + decimal(
                required as int,
            ) + ")"@,
            "INSUFFICIENT_BALANCE"@,
        ),
        _ => (INTERNAL_SERVER_ERROR, "Internal server error"@, "INTERNAL_ERROR"@),
    }
}

/// The message of an insufficient-balance refusal.
fn insufficient_balance_message(balance: i64, required: i64) -> (r: String)
    ensures
        r@ == "Insufficient balance: "@ + decimal(balance as int) + " FCFA (need "@ + decimal(
            required as int,
        ) + ")"@,
{
    let mut m = string_of("Insufficient balance: ");
    push_decimal_i64(&mut m, balance);
    m.append(" FCFA (need ");
    push_decimal_i64(&mut m, required);
    m.append(")");
    m
}

/// Maps a domain error to the reply of this endpoint.
pub fn domain_to_http(err: DomainError) -> (r: ErrorReply)
    ensures
        is_reply(r, payment_error_reply(err).0, payment_error_reply(err).1, payment_error_reply(err).2),
{
    match err {
        DomainError::NotFound(msg) => error_reply(msg, "NOT_FOUND", NOT_FOUND),
        DomainError::InvalidValue(msg) => error_reply(msg, "INVALID_VALUE", UNPROCESSABLE_ENTITY),
        DomainError::InsufficientBalance { balance, required } => error_reply(
            insufficient_balance_message(balance, required),
            "INSUFFICIENT_BALANCE",
            UNPROCESSABLE_ENTITY,
        ),
        _ => error_response("Internal server error", "INTERNAL_ERROR", INTERNAL_SERVER_ERROR),
    }
}

/// Step 1: the payment method named in the request.
pub fn resolve_method(method: &str) -> (r: Result<PaymentMethod, ErrorReply>)
    ensures
        r is Ok <==> method_keyword(lowercase_of(method@)) is Some,
        r matches Ok(m) ==> method_keyword(lowercase_of(method@)) == Some(m),
        r matches Err(e) ==> is_reply(e, UNPROCESSABLE_ENTITY, "Unknown payment method: "@ + method@, "INVALID_VALUE"@),
{
    match PaymentMethod::from_str(method) {
        Ok(m) => Ok(m),
        Err(e) => Err(domain_to_http(e)),
    }
}

/// Step 2: the order to pay must exist and be awaiting payment.
pub fn check_order_payable(order: Option<Order>) -> (r: Result<Order, ErrorReply>)
    ensures
        order is None ==> (r matches Err(e) && is_reply(e, NOT_FOUND, "Order not found"@, "ORDER_NOT_FOUND"@)),
        order is Some && order->0.status != OrderStatus::PendingPayment ==> (r matches Err(e) && is_reply(
            e,
            UNPROCESSABLE_ENTITY,
            "Order not in PendingPayment status"@,
            "INVALID_ORDER_STATUS"@,
        )),
        order is Some && order->0.status == OrderStatus::PendingPayment ==> r == Ok::<Order, ErrorReply>(order->0),
{
    match order {
        None => Err(error_response("Order not found", "ORDER_NOT_FOUND", NOT_FOUND)),
        Some(o) => {
            if o.status != OrderStatus::PendingPayment {
                Err(
                    error_response(
                        "Order not in PendingPayment status",
                        "INVALID_ORDER_STATUS",
                        UNPROCESSABLE_ENTITY,
                    ),
                )
            } else {
                Ok(o)
            }
        },
    }
}

/// Step 3 (wallet): the request must name a client.
pub fn wallet_client_id(client_id: &Option<String>) -> (r: Result<String, ErrorReply>)
    ensures
        client_id is Some && client_id->0@.len() > 0 ==> (r matches Ok(x) && x@ == client_id->0@),
        !(client_id is Some && client_id->0@.len() > 0) ==> (r matches Err(e) && is_reply(
            e,
            UNPROCESSABLE_ENTITY,
            "client_id is required for wallet payments"@,
            "VALIDATION_ERROR"@,
        )),
{
    match client_id {
        Some(c) => {
            if c.as_str().unicode_len() > 0 {
                return Ok(c.clone());
            }
        },
        None => {},
    }
    Err(error_response("client_id is required for wallet payments", "VALIDATION_ERROR", UNPROCESSABLE_ENTITY))
}

/// Step 4 (wallet): the named client must exist.
pub fn check_wallet_client(found: bool) -> (r: Result<(), ErrorReply>)
    ensures
        found <==> r is Ok,
        r matches Err(e) ==> is_reply(e, UNPROCESSABLE_ENTITY, "Client not found"@, "CLIENT_NOT_FOUND"@),
{
    if found {
        Ok(())
    } else {
        Err(error_response("Client not found", "CLIENT_NOT_FOUND", UNPROCESSABLE_ENTITY))
    }
}

/// Whether a wallet holding `balance` may pay `total`: it must cover the total
/// unless negative balances are allowed by the settings.
pub open spec fn wallet_may_pay(balance: i64, total: i64, wallet_negative: bool) -> bool {
    balance >= total || wallet_negative
}

/// The rows of a wallet payment of `total` for the order `order_id` by the
/// client `client_id` holding `balance`: a ledger debit of `-total` referring to
/// the order, a wallet payment of `total` referring to the ledger entry, and
/// the balance after the debit.
pub open spec fn wallet_debit_rows(
    d: WalletDebit,
    total: i64,
    order_id: Seq<char>,
    client_id: Seq<char>,
    balance: i64,
    ledger_id: Seq<char>,
    payment_id: Seq<char>,
    now: Seq<char>,
) -> bool {
    &&& d.new_balance == balance - total
    &&& d.entry.id@ == ledger_id
    &&& d.entry.client_id@ == client_id
    &&& d.entry.entry_type == LedgerEntryType::Payment
    &&& d.entry.amount == -total
    &&& d.entry.reference is Some && d.entry.reference->0@ == order_id
    &&& d.entry.description is Some && d.entry.description->0@ == "Payment for order "@ + order_id
    &&& d.entry.created_at@ == now
    &&& d.payment.id@ == payment_id
    &&& d.payment.order_id@ == order_id
    &&& d.payment.method == PaymentMethod::Wallet
    &&& d.payment.amount == total
    &&& d.payment.client_id is Some && d.payment.client_id->0@ == client_id
    &&& d.payment.reference is Some && d.payment.reference->0@ == ledger_id
    &&& d.payment.momo_operator is None
    &&& d.payment.parent_payment_id is None
    &&& d.payment.created_at@ == now
}

/// Step 5 (wallet): given the client's current balance, the rows that debit
/// the wallet by the order total and record the payment, and the new balance.
/// Refused with INSUFFICIENT_BALANCE when the balance does not cover the
/// total and negative balances are not allowed, and with VALIDATION_ERROR
/// when the total is not positive.
pub fn plan_wallet_debit(
    order: &Order,
    order_id: &str,
    client_id: &str,
    balance: i64,
    wallet_negative: bool,
    ledger_id: String,
    payment_id: String,
    now: &str,
) -> (r: Result<WalletDebit, ErrorReply>)
    requires
        wallet_may_pay(balance, order.total, wallet_negative) ==> order.total > i64::MIN && i64::MIN <= balance - order.total <= i64::MAX,
    ensures
        !wallet_may_pay(balance, order.total, wallet_negative) ==> (r matches Err(e) && is_reply(
            e,
            UNPROCESSABLE_ENTITY,
            "Insufficient balance: "@ + decimal(balance as int) + " FCFA (need "@ + decimal(
                order.total as int,
            ) + ")"@,
            "INSUFFICIENT_BALANCE"@,
        )),
        wallet_may_pay(balance, order.total, wallet_negative) && order.total <= 0 ==> (r matches Err(e)
            && is_reply(
            e,
            UNPROCESSABLE_ENTITY,
            "Invalid value: Payment amount must be positive"@,
            "VALIDATION_ERROR"@,
        )),
        r is Ok <==> wallet_may_pay(balance, order.total, wallet_negative) && order.total > 0,
        r matches Ok(d) ==> wallet_debit_rows(d, order.total, order_id@, client_id@, balance, ledger_id@, payment_id@, now@),
{
    let total = order.total;
    if balance < total && !wallet_negative {
        return Err(
            error_reply(
                insufficient_balance_message(balance, total),
                "INSUFFICIENT_BALANCE",
                UNPROCESSABLE_ENTITY,
            ),
        );
    }
    let payment_ref = string_of(ledger_id.as_str());
    let entry = WalletLedgerEntry {
        id: ledger_id,
        client_id: string_of(client_id),
        entry_type: LedgerEntryType::Payment,
        amount: -total,
        reference: Some(string_of(order_id)),
        description: Some(concat2("Payment for order ", order_id)),
        created_at: string_of(now),
    };
    let payment = Payment {
        id: payment_id,
        order_id: string_of(order_id),
        method: PaymentMethod::Wallet,
        amount: total,
        client_id: Some(string_of(client_id)),
        reference: Some(payment_ref),
        momo_operator: None,
        parent_payment_id: None,
        created_at: string_of(now),
    };
    match payment.validate() {
        Err(e) => {
            proof {
                reveal_strlit("Invalid value: ");
                reveal_strlit("Payment amount must be positive");
                reveal_strlit("Invalid value: Payment amount must be positive");
                assert("Invalid value: "@ + "Payment amount must be positive"@
                    =~= "Invalid value: Payment amount must be positive"@);
            }
            return Err(error_reply(e.message(), "VALIDATION_ERROR", UNPROCESSABLE_ENTITY));
        },
        Ok(()) => {},
    }
    Ok(WalletDebit { entry, payment, new_balance: balance - total })
}

/// The payment row of a cash payment of `total` for the order `order_id`.
pub open spec fn cash_payment_row(p: Payment, total: i64, order_id: Seq<char>, payment_id: String, now: Seq<char>) -> bool {
    &&& p.id == payment_id
    &&& p.order_id@ == order_id
    &&& p.method == PaymentMethod::Cash
    &&& p.amount == total
    &&& p.client_id is None
    &&& p.reference is None
    &&& p.momo_operator is None
    &&& p.parent_payment_id is None
    &&& p.created_at@ == now
}

/// Step 3 (cash): the payment row of a cash payment of the order total.
/// Refused when the total is not positive.
pub fn plan_cash_payment(order: &Order, order_id: &str, payment_id: String, now: &str) -> (r: Result<Payment, ErrorReply>)
    ensures
        r is Ok <==> order.total > 0,
        r matches Err(e) ==> is_reply(e, UNPROCESSABLE_ENTITY, "Payment amount must be positive"@, "INVALID_VALUE"@),
        r matches Ok(p) ==> p.id == payment_id && p.order_id@ == order_id@ && p.method
            == PaymentMethod::Cash && p.amount == order.total && p.client_id is None
            && p.reference is None && p.momo_operator is None && p.parent_payment_id is None
            && p.created_at@ == now@,
        r matches Ok(p) ==> cash_payment_row(p, order.total, order_id@, payment_id, now@),
{
    let payment = Payment {
        id: payment_id,
        order_id: string_of(order_id),
        method: PaymentMethod::Cash,
        amount: order.total,
        client_id: None,
        reference: None,
        momo_operator: None,
        parent_payment_id: None,
        created_at: string_of(now),
    };
    match payment.validate() {
        Err(e) => Err(domain_to_http(e)),
        Ok(()) => Ok(payment),
    }
}

/// The reply for a method that is not implemented yet (MoMo, split).
pub fn unsupported_method(method: PaymentMethod) -> (r: ErrorReply)
    ensures
        is_reply(r, NOT_IMPLEMENTED, "Payment method '"@ + method_name(method) + "' not yet implemented"@, "NOT_IMPLEMENTED"@),
{
    let m = concat3("Payment method '", method.as_str(), "' not yet implemented");
    error_reply(m, "NOT_IMPLEMENTED", NOT_IMPLEMENTED)
}

/// What a payment request needs next, once its method is known: the order
/// it names has been read, and, for a wallet payment, the client.
#[derive(Debug)]
pub enum PaymentStep {
    /// Read the wallet client with this identifier, then debit it.
    ReadClient { order: Order, client_id: String },
    /// Read the client's balance and debit the wallet, in one transaction.
    DebitWallet { order: Order, client_id: String },
    /// Record this cash payment and mark the order paid, in one transaction.
    RecordCash { order: Order, payment: Payment },
    /// Refuse the request with this reply.
    Refuse(ErrorReply),
}

/// Why a request whose method is `method` is refused once its order has been
/// read (`lookup`, the result of `find_by_id`), in the order of the checks:
/// the read, the order's existence and status, then what the method needs
/// (a client for a wallet, a positive total for cash); other methods are
/// not implemented.
pub open spec fn order_step_refusal(
    client_id: Option<Seq<char>>,
    method: PaymentMethod,
    lookup: Result<Option<Order>, DomainError>,
) -> Option<(u16, Seq<char>, Seq<char>)> {
    match lookup {
        Err(e) => Some(payment_error_reply(e)),
        Ok(None) => Some((NOT_FOUND, "Order not found"@, "ORDER_NOT_FOUND"@)),
        Ok(Some(o)) => if o.status != OrderStatus::PendingPayment {
            Some((UNPROCESSABLE_ENTITY, "Order not in PendingPayment status"@, "INVALID_ORDER_STATUS"@))
        } else {
            match method {
                PaymentMethod::Wallet => if client_id matches Some(c) && c.len() > 0 {
                    None
                } else {
                    Some((UNPROCESSABLE_ENTITY, "client_id is required for wallet payments"@, "VALIDATION_ERROR"@))
                },
                PaymentMethod::Cash => if o.total > 0 {
                    None
                } else {
                    Some((UNPROCESSABLE_ENTITY, "Payment amount must be positive"@, "INVALID_VALUE"@))
                },
                _ => Some((NOT_IMPLEMENTED, "Payment method '"@ + method_name(method) + "' not yet implemented"@, "NOT_IMPLEMENTED"@)),
            }
        },
    }
}

/// The step after reading the order of a request paid by `method`: a
/// refusal as `order_step_refusal` gives it; otherwise reading the named
/// client (wallet) or recording the cash payment `payment_id` of the order
/// total at `now` (cash).
pub fn step_after_order(
    req: &ProcessPaymentRequest,
    method: PaymentMethod,
    lookup: Result<Option<Order>, DomainError>,
    payment_id: String,
    now: &str,
) -> (r: PaymentStep)
    ensures
        order_step_refusal(crate::text::opt_view(req.client_id), method, lookup) matches Some(p)
            ==> (r matches PaymentStep::Refuse(e) && is_reply(e, p.0, p.1, p.2)),
        order_step_refusal(crate::text::opt_view(req.client_id), method, lookup) is None && method == PaymentMethod::Wallet
            ==> (r matches PaymentStep::ReadClient { order, client_id } && lookup == Ok::<Option<Order>, DomainError>(Some(order))
                && client_id@ == req.client_id->0@),
        order_step_refusal(crate::text::opt_view(req.client_id), method, lookup) is None && method != PaymentMethod::Wallet
            ==> (r matches PaymentStep::RecordCash { order, payment } && lookup == Ok::<Option<Order>, DomainError>(Some(order))
                && method == PaymentMethod::Cash && payment.id == payment_id && payment.order_id@ == req.order_id@
                && payment.method == PaymentMethod::Cash && payment.amount == order.total && payment.client_id is None
                && payment.reference is None && payment.momo_operator is None && payment.parent_payment_id is None
                && payment.created_at@ == now@),
{
    let found = match lookup {
        Ok(f) => f,
        Err(e) => return PaymentStep::Refuse(domain_to_http(e)),
    };
    let order = match check_order_payable(found) {
        Ok(o) => o,
        Err(e) => return PaymentStep::Refuse(e),
    };
    match method {
        PaymentMethod::Wallet => match wallet_client_id(&req.client_id) {
            Ok(client_id) => PaymentStep::ReadClient { order, client_id },
            Err(e) => PaymentStep::Refuse(e),
        },
        PaymentMethod::Cash => match plan_cash_payment(&order, req.order_id.as_str(), payment_id, now) {
            Ok(payment) => PaymentStep::RecordCash { order, payment },
            Err(e) => PaymentStep::Refuse(e),
        },
        other => PaymentStep::Refuse(unsupported_method(other)),
    }
}

/// The step after reading the wallet client named by a wallet payment
/// (`lookup` says whether `find_client_by_id` found it): a failed read is
/// refused as this endpoint maps domain errors, an unknown client with 422
/// `CLIENT_NOT_FOUND`, and a known one goes on to the debit.
pub fn step_after_client(order: Order, client_id: String, lookup: Result<bool, DomainError>) -> (r: PaymentStep)
    ensures
        lookup matches Err(e) ==> (r matches PaymentStep::Refuse(x) && is_reply(
            x,
            payment_error_reply(e).0,
            payment_error_reply(e).1,
            payment_error_reply(e).2,
        )),
        lookup == Ok::<bool, DomainError>(false) ==> (r matches PaymentStep::Refuse(x) && is_reply(
            x,
            UNPROCESSABLE_ENTITY,
            "Client not found"@,
            "CLIENT_NOT_FOUND"@,
        )),
        lookup == Ok::<bool, DomainError>(true) ==> r == (PaymentStep::DebitWallet { order, client_id }),
{
    match lookup {
        Err(e) => PaymentStep::Refuse(domain_to_http(e)),
        Ok(found) => match check_wallet_client(found) {
            Ok(()) => PaymentStep::DebitWallet { order, client_id },
            Err(e) => PaymentStep::Refuse(e),
        },
    }
}

/// The reply of a payment that went through.
pub fn paid_response(new_balance: Option<i64>, payment_id: String) -> (r: PaymentResponse)
    ensures
        r.status@ == "paid"@,
        r.new_balance == new_balance,
        r.payment_id == payment_id,
{
    PaymentResponse { status: string_of("paid"), new_balance, payment_id }
}

/// A wallet payment never takes a balance below zero unless negative
/// balances are allowed, and the debit plus the new balance give back the
/// old balance.
pub proof fn lemma_wallet_debit_balance(balance: i64, total: i64, wallet_negative: bool)
    requires
        wallet_may_pay(balance, total, wallet_negative),
        total > 0,
    ensures
        !wallet_negative ==> balance - total >= 0,
        (balance - total) + total == balance,
{
}

/// A planned wallet debit records a wallet payment: whatever the inputs, the
/// payment row is a `wallet` payment (not cash) of the amount the ledger entry
/// takes off the wallet, made by the client whose wallet is debited, and it
/// refers to that ledger entry; the balance after it is the balance plus the
/// (negative) entry.
pub proof fn lemma_wallet_debit_is_wallet_payment(
    d: WalletDebit,
    total: i64,
    order_id: Seq<char>,
    client_id: Seq<char>,
    balance: i64,
    ledger_id: Seq<char>,
    payment_id: Seq<char>,
    now: Seq<char>,
)
    requires
        wallet_debit_rows(d, total, order_id, client_id, balance, ledger_id, payment_id, now),
    ensures
        d.payment.method == PaymentMethod::Wallet,
        method_name(d.payment.method) == "wallet"@,
        d.payment.client_id matches Some(c) && c@ == d.entry.client_id@,
        d.payment.reference matches Some(x) && x@ == d.entry.id@,
        d.payment.amount == -d.entry.amount,
        d.payment.order_id@ == order_id,
        d.entry.reference matches Some(o) && o@ == order_id,
        d.new_balance == balance + d.entry.amount,
{
}

/// A cash payment and a wallet debit record different methods: the cash row
/// is a `cash` payment of the whole total that names no client and refers to
/// no ledger entry, while the payment of a wallet debit names the client and
/// its ledger entry.
pub proof fn lemma_cash_and_wallet_rows_differ(
    c: Payment,
    d: WalletDebit,
    total: i64,
    order_id: Seq<char>,
    client_id: Seq<char>,
    balance: i64,
    ledger_id: Seq<char>,
    payment_id: String,
    now: Seq<char>,
)
    requires
        cash_payment_row(c, total, order_id, payment_id, now),
        wallet_debit_rows(d, total, order_id, client_id, balance, ledger_id, payment_id@, now),
    ensures
        method_name(c.method) == "cash"@,
        c.method != d.payment.method,
        c.amount == d.payment.amount,
        c.client_id is None && d.payment.client_id is Some,
        c.reference is None && d.payment.reference is Some,
{
    reveal_strlit("cash");
}

/// The reply when a storage step of a payment failed: `{context}: {cause}`
/// with code `DB_ERROR` (for example `Failed to debit wallet`).
pub fn db_error_reply(context: &str, cause: &str) -> (r: ErrorReply)
    ensures
        is_reply(r, INTERNAL_SERVER_ERROR, context@ + ": "@ + cause@, "DB_ERROR"@),
{
    error_reply(concat3(context, ": ", cause), "DB_ERROR", INTERNAL_SERVER_ERROR)
}

} // verus!
