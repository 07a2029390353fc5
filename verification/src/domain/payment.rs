//! Payments, payment methods and the validation of split payments.

use vstd::prelude::*;

use super::DomainError;
use crate::text::{
    all_ascii, ascii_lowercase, concat2, decimal, lowercase_of, push_decimal_i64,
    push_decimal_u64, str_eq, string_of, to_lowercase,
};

verus! {

/// Supported payment methods.
#[derive(Debug, Clone, Copy, PartialEq, Eq, Structural)]
pub enum PaymentMethod {
    Wallet,
    Cash,
    MoMo,
    Split,
}

/// The database string of a method.
pub open spec fn method_name(m: PaymentMethod) -> Seq<char> {
    match m {
        PaymentMethod::Wallet => "wallet"@,
        PaymentMethod::Cash => "cash"@,
        PaymentMethod::MoMo => "momo"@,
        PaymentMethod::Split => "split"@,
    }
}

/// The method named by an already lower-cased keyword.
pub open spec fn method_keyword(k: Seq<char>) -> Option<PaymentMethod> {
    if k == "wallet"@ {
        Some(PaymentMethod::Wallet)
    } else if k == "cash"@ {
        Some(PaymentMethod::Cash)
    } else if k == "momo"@ {
        Some(PaymentMethod::MoMo)
    } else if k == "split"@ {
        Some(PaymentMethod::Split)
    } else {
        None
    }
}

impl PaymentMethod {
    /// The method named by a lower-cased keyword.
    pub fn from_keyword(k: &str) -> (r: Option<PaymentMethod>)
        ensures
            r == method_keyword(k@),
    {
        if str_eq(k, "wallet") {
            Some(PaymentMethod::Wallet)
        } else if str_eq(k, "cash") {
            Some(PaymentMethod::Cash)
        } else if str_eq(k, "momo") {
            Some(PaymentMethod::MoMo)
        } else if str_eq(k, "split") {
            Some(PaymentMethod::Split)
        } else {
            None
        }
    }

    /// Parses a method from its database string, ignoring case.
    pub fn from_str(s: &str) -> (r: Result<PaymentMethod, DomainError>)
        ensures
            r is Ok <==> method_keyword(lowercase_of(s@)) is Some,
            r matches Ok(m) ==> method_keyword(lowercase_of(s@)) == Some(m),
            all_ascii(s@) ==> lowercase_of(s@) == ascii_lowercase(s@),
            r matches Err(e) ==> e matches DomainError::InvalidValue(msg) && msg@
                == "Unknown payment method: "@ + s@,
    {
        let lower = to_lowercase(s);
        match PaymentMethod::from_keyword(lower.as_str()) {
            Some(m) => Ok(m),
            None => Err(DomainError::InvalidValue(concat2("Unknown payment method: ", s))),
        }
    }

    /// The database string of this method.
    pub fn as_str(&self) -> (r: &'static str)
        ensures
            r@ == method_name(*self),
    {
        match self {
            PaymentMethod::Wallet => "wallet",
            PaymentMethod::Cash => "cash",
            PaymentMethod::MoMo => "momo",
            PaymentMethod::Split => "split",
        }
    }
}

/// A single payment transaction.
#[derive(Debug, Clone)]
pub struct Payment {
    pub id: String,
    pub order_id: String,
    pub method: PaymentMethod,
    pub amount: i64,
    pub client_id: Option<String>,
    pub reference: Option<String>,
    pub momo_operator: Option<String>,
    pub parent_payment_id: Option<String>,
    pub created_at: String,
}

impl Payment {
    /// Checks the payment invariant: the amount is positive.
    pub fn validate(&self) -> (r: Result<(), DomainError>)
        ensures
            r is Ok <==> self.amount > 0,
            r matches Err(e) ==> e matches DomainError::InvalidValue(m) && m@
                == "Payment amount must be positive"@,
    {
        if self.amount <= 0 {
            return Err(DomainError::InvalidValue(string_of("Payment amount must be positive")));
        }
        Ok(())
    }
}

/// Storage of payments; implemented over the database.
pub trait PaymentRepository: Send + Sync {
    fn create(&self, payment: &Payment) -> Result<(), DomainError>;

    fn find_by_id(&self, id: &str) -> Result<Option<Payment>, DomainError>;

    fn list_by_order(&self, order_id: &str) -> Result<Vec<Payment>, DomainError>;

    fn list_by_client(&self, client_id: &str) -> Result<Vec<Payment>, DomainError>;
}

/// One sub-payment of a split payment.
#[derive(Debug, Clone)]
pub struct SplitPaymentItem {
    pub method: String,
    pub amount: i64,
    pub client_id: Option<String>,
    pub momo_operator: Option<String>,
}

/// The sum of the amounts of `items`.
pub open spec fn split_sum(items: Seq<SplitPaymentItem>) -> int
    decreases items.len(),
{
    if items.len() == 0 {
        0
    } else {
        split_sum(items.drop_last()) + items.last().amount
    }
}

/// Whether every running total of the amounts of `items` fits in an `i64`.
pub open spec fn split_sums_fit(items: Seq<SplitPaymentItem>) -> bool {
    forall|k: int|
        0 <= k <= items.len() ==> i64::MIN <= #[trigger] split_sum(items.take(k)) <= i64::MAX
}

/// The text of an optional string, empty when absent.
pub open spec fn text_or_empty(o: Option<String>) -> Seq<char> {
    match o {
        Some(s) => s@,
        None => Seq::empty(),
    }
}

/// What is wrong with sub-payment `p` at position `i`, if anything.
pub open spec fn split_item_problem(i: int, p: SplitPaymentItem) -> Option<Seq<char>> {
    let head = "Split payment item "@ + decimal(i);
    if p.amount <= 0 {
        Some(head + " has non-positive amount: "@ + decimal(p.amount as int))
    } else {
        let m = lowercase_of(p.method@);
        if m == "wallet"@ {
            if text_or_empty(p.client_id).len() == 0 {
                Some(head + " (wallet) requires client_id"@)
            } else {
                None
            }
        } else if m == "momo"@ {
            let op = text_or_empty(p.momo_operator);
            if op.len() == 0 {
                Some(head + " (MoMo) requires momo_operator"@)
            } else if op != "orange"@ && op != "mtn"@ {
                Some(
                    head + " has invalid momo_operator: '"@ + op
                        + "' (must be 'orange' or 'mtn')"@,
                )
            } else {
                None
            }
        } else if m == "cash"@ {
            None
        } else {
            Some(head + " has unknown method: '"@ + p.method@ + "'"@)
        }
    }
}

/// Which sub-payments of a split are accepted, whatever their position: none
/// with an amount that is not positive; with a positive amount, a cash one
/// always, a wallet one exactly when it names a client, a MoMo one exactly
/// when its operator is `orange` or `mtn`, and one of any other method never.
/// The method is read ignoring case.
pub proof fn lemma_split_item_acceptance(i: int, p: SplitPaymentItem)
    ensures
        p.amount <= 0 ==> split_item_problem(i, p) is Some,
        p.amount > 0 && lowercase_of(p.method@) == "cash"@ ==> split_item_problem(i, p) is None,
        p.amount > 0 && lowercase_of(p.method@) == "wallet"@ ==> (split_item_problem(i, p) is None
            <==> text_or_empty(p.client_id).len() > 0),
        p.amount > 0 && lowercase_of(p.method@) == "momo"@ ==> (split_item_problem(i, p) is None
            <==> (text_or_empty(p.momo_operator) == "orange"@ || text_or_empty(p.momo_operator) == "mtn"@)),
        p.amount > 0 && lowercase_of(p.method@) != "cash"@ && lowercase_of(p.method@) != "wallet"@
            && lowercase_of(p.method@) != "momo"@ ==> split_item_problem(i, p) is Some,
{
    reveal_strlit("cash");
    reveal_strlit("wallet");
    reveal_strlit("momo");
    reveal_strlit("orange");
    reveal_strlit("mtn");
    assert("cash"@[0] != "wallet"@[0] && "cash"@[0] != "momo"@[0] && "wallet"@[0] != "momo"@[0]);
    assert("orange"@.len() > 0 && "mtn"@.len() > 0);
}

/// Whether the running totals of `items` fit in an `i64` (the condition under
/// which `validate_split` may be called).
pub fn split_sums_in_range(items: &Vec<SplitPaymentItem>) -> (r: bool)
    ensures
        r == split_sums_fit(items@),
{
    let mut sum: i64 = 0;
    let mut i: usize = 0;
    assert(items@.take(0) =~= Seq::<SplitPaymentItem>::empty());
    while i < items.len()
        invariant
            i <= items.len(),
            sum == split_sum(items@.take(i as int)),
            forall|k: int| 0 <= k <= i ==> i64::MIN <= #[trigger] split_sum(items@.take(k)) <= i64::MAX,
        decreases items.len() - i,
    {
        assert(items@.take(i + 1).drop_last() =~= items@.take(i as int));
        match sum.checked_add(items[i].amount) {
            Some(s) => {
                sum = s;
            },
            None => {
                assert(!(i64::MIN <= split_sum(items@.take(i + 1)) <= i64::MAX));
                return false;
            },
        }
        i = i + 1;
    }
    true
}

fn optional_text_is_empty(o: &Option<String>) -> (r: bool)
    ensures
        r == (text_or_empty(*o).len() == 0),
{
    match o {
        Some(s) => s.as_str().unicode_len() == 0,
        None => true,
    }
}

fn item_head(i: usize) -> (r: String)
    ensures
        r@ == "Split payment item "@ + decimal(i as int),
{
    let mut r = string_of("Split payment item ");
    push_decimal_u64(&mut r, i as u64);
    r
}

/// Checks one sub-payment at position `i`.
fn check_split_item(i: usize, p: &SplitPaymentItem) -> (r: Option<String>)
    ensures
        r is None <==> split_item_problem(i as int, *p) is None,
        r matches Some(m) ==> split_item_problem(i as int, *p) == Some(m@),
{
    if p.amount <= 0 {
        let mut m = item_head(i);
        m.append(" has non-positive amount: ");
        push_decimal_i64(&mut m, p.amount);
        return Some(m);
    }
    let lower = to_lowercase(p.method.as_str());
    if str_eq(lower.as_str(), "wallet") {
        if optional_text_is_empty(&p.client_id) {
            let mut m = item_head(i);
            m.append(" (wallet) requires client_id");
            return Some(m);
        }
        None
    } else if str_eq(lower.as_str(), "momo") {
        let op: &str = match &p.momo_operator {
            Some(o) => o.as_str(),
            None => "",
        };
        proof {
            reveal_strlit("");
        }
        assert(op@ == text_or_empty(p.momo_operator));
        if op.unicode_len() == 0 {
            let mut m = item_head(i);
            m.append(" (MoMo) requires momo_operator");
            return Some(m);
        }
        if !str_eq(op, "orange") && !str_eq(op, "mtn") {
            let mut m = item_head(i);
            m.append(" has invalid momo_operator: '");
            m.append(op);
            m.append("' (must be 'orange' or 'mtn')");
            return Some(m);
        }
        None
    } else if str_eq(lower.as_str(), "cash") {
        None
    } else {
        let mut m = item_head(i);
        m.append(" has unknown method: '");
        m.append(p.method.as_str());
        m.append("'");
        Some(m)
    }
}

/// The message when split amounts summing to `sum` do not match the order
/// total `total`.
pub open spec fn split_mismatch_text(sum: int, total: int) -> Seq<char> {
    "Split total mismatch: "@ + decimal(sum) + " != "@ + decimal(total)
}

/// Validates a split payment: the amounts must add up to `total`, and then each
/// sub-payment, in order, must have a positive amount and the fields its
/// method requires (a client for `wallet`, an operator `orange` or `mtn` for
/// `momo`; `cash` needs nothing; other methods are refused). The first problem
/// found is reported, always as `InvalidValue`.
pub fn validate_split(payments: &Vec<SplitPaymentItem>, total: i64) -> (r: Result<(), DomainError>)
    requires
        split_sums_fit(payments@),
    ensures
        split_sum(payments@) != total ==> (r matches Err(DomainError::InvalidValue(m)) && m@ == split_mismatch_text(
            split_sum(payments@),
            total as int,
        )),
        split_sum(payments@) == total ==> (r is Ok <==> forall|i: int|
            0 <= i < payments@.len() ==> split_item_problem(i, #[trigger] payments@[i]) is None),
        split_sum(payments@) == total ==> (r matches Err(e) ==> (e matches DomainError::InvalidValue(
            m,
        ) && exists|i: int|
            0 <= i < payments@.len() && split_item_problem(i, #[trigger] payments@[i]) == Some(m@)
                && forall|j: int| 0 <= j < i ==> split_item_problem(j, payments@[j]) is None)),
{
    let mut sum: i64 = 0;
    let mut i: usize = 0;
    assert(payments@.take(0) =~= Seq::<SplitPaymentItem>::empty());
    while i < payments.len()
        invariant
            i <= payments.len(),
            split_sums_fit(payments@),
            sum == split_sum(payments@.take(i as int)),
        decreases payments.len() - i,
    {
        assert(payments@.take(i + 1).drop_last() =~= payments@.take(i as int));
        assert(i64::MIN <= split_sum(payments@.take(i + 1)) <= i64::MAX);
        sum = sum + payments[i].amount;
        i = i + 1;
    }
    assert(payments@.take(payments@.len() as int) =~= payments@);
    if sum != total {
        let mut m = string_of("Split total mismatch: ");
        push_decimal_i64(&mut m, sum);
        m.append(" != ");
        push_decimal_i64(&mut m, total);
        return Err(DomainError::InvalidValue(m));
    }
    let mut j: usize = 0;
    while j < payments.len()
        invariant
            j <= payments.len(),
            split_sum(payments@) == total,
            forall|k: int| 0 <= k < j ==> split_item_problem(k, #[trigger] payments@[k]) is None,
        decreases payments.len() - j,
    {
        match check_split_item(j, &payments[j]) {
            Some(m) => {
                assert(split_item_problem(j as int, payments@[j as int]) == Some(m@));
                return Err(DomainError::InvalidValue(m));
            },
            None => {},
        }
        j = j + 1;
    }
    Ok(())
}

/// The database name of every payment method reads back as that method.
pub proof fn lemma_method_name_round_trip(m: PaymentMethod)
    ensures
        method_keyword(method_name(m)) == Some(m),
{
    reveal_strlit("wallet");
    reveal_strlit("cash");
    reveal_strlit("momo");
    reveal_strlit("split");
    assert("wallet"@[0] != "cash"@[0]);
    assert("wallet"@[0] != "momo"@[0]);
    assert("wallet"@[0] != "split"@[0]);
    assert("cash"@[0] != "momo"@[0]);
    assert("cash"@[0] != "split"@[0]);
    assert("momo"@[0] != "split"@[0]);
}

} // verus!
