use mboacaisse::api::orders::{
    apply_status_change, check_items_present, check_order_modifiable, check_quantity, created_order_response,
    domain_to_http as order_error, order_total_in_range, parse_status_filter, plan_order, remove_item_error,
    require_order, resolve_price, CreateOrderItem,
};
use mboacaisse::api::payments::{
    check_order_payable, check_wallet_client, db_error_reply, paid_response, plan_cash_payment, plan_wallet_debit,
    resolve_method, step_after_client, step_after_order, unsupported_method, wallet_client_id, PaymentStep,
    ProcessPaymentRequest,
};
use mboacaisse::api::products::{
    category_from_request, check_category_deletable, check_category_filter, check_parent_not_self,
    CreateCategoryRequest,
};
use mboacaisse::domain::order::{Order, OrderStatus};
use mboacaisse::domain::payment::PaymentMethod;
use mboacaisse::domain::product::Product;
use mboacaisse::domain::wallet::LedgerEntryType;
use mboacaisse::domain::DomainError;

fn order(status: OrderStatus, total: i64) -> Order {
    Order {
        id: "o1".to_string(),
        table_id: None,
        client_id: None,
        status,
        total,
        created_at: "t".to_string(),
        updated_at: "t".to_string(),
    }
}

fn item(product: &str, quantity: i64) -> CreateOrderItem {
    CreateOrderItem { product_id: product.to_string(), quantity, notes: None }
}

#[test]
fn order_creation_totals() {
    assert!(check_items_present(&vec![]).is_err());
    assert_eq!(check_quantity(0).unwrap_err().1.code, "INVALID_QUANTITY");
    assert!(check_quantity(3).is_ok());
    let p = Product {
        id: "p1".to_string(),
        name: "Miondo".to_string(),
        price: 500,
        category_id: "c".to_string(),
        stock: 0,
        alert_threshold: 0,
        created_at: "t".to_string(),
        updated_at: "t".to_string(),
    };
    assert_eq!(resolve_price(Some(p), "p1").unwrap(), 500);
    assert_eq!(resolve_price(None, "p9").unwrap_err().1.error, "Product not found: p9");
    let items = vec![item("p1", 3), item("p2", 2)];
    let prices = vec![500, 1500];
    assert!(order_total_in_range(&items, &prices));
    let plan = plan_order("o1".to_string(), Some("T4".to_string()), None, "now".to_string(), items, &prices, vec!["i1".to_string(), "i2".to_string()]);
    assert_eq!(plan.total, 4500);
    assert_eq!(plan.order.status, OrderStatus::PendingPayment);
    assert_eq!((plan.items[1].unit_price, plan.items[1].quantity), (1500, 2));
    let recomputed: i64 = plan.items.iter().map(|i| i.quantity * i.unit_price).sum();
    assert_eq!(recomputed, plan.total);
    let r = created_order_response(&plan);
    assert_eq!((r.total, r.status.as_str(), r.items.len()), (4500, "pending_payment", 2));
    assert!(!order_total_in_range(&vec![item("p", i64::MAX)], &vec![2]));
}

#[test]
fn order_status_changes() {
    assert_eq!(parse_status_filter(&None).unwrap(), None);
    assert_eq!(parse_status_filter(&Some("Ready".to_string())).unwrap(), Some(OrderStatus::Ready));
    assert!(parse_status_filter(&Some("nope".to_string())).is_err());
    assert_eq!(require_order(None).unwrap_err().1.code, "ORDER_NOT_FOUND");
    let o = apply_status_change(order(OrderStatus::PaidPreparing, 10), "ready").unwrap();
    assert_eq!(o.status, OrderStatus::Ready);
    assert!(apply_status_change(order(OrderStatus::PendingPayment, 10), "delivered").is_err());
    assert!(apply_status_change(order(OrderStatus::PendingPayment, 10), "lost").is_err());
    assert!(check_order_modifiable(Some(order(OrderStatus::PendingPayment, 0))).is_ok());
    assert!(check_order_modifiable(Some(order(OrderStatus::Ready, 0))).is_err());
    assert_eq!(remove_item_error(DomainError::NotFound("x".to_string())).1.code, "ITEM_NOT_FOUND");
    assert_eq!(order_error(DomainError::Unauthorized).0, 401);
}

#[test]
fn payment_gate_and_wallet_debit() {
    assert_eq!(resolve_method("CASH").unwrap(), PaymentMethod::Cash);
    assert!(resolve_method("card").is_err());
    assert!(check_order_payable(None).is_err());
    assert!(check_order_payable(Some(order(OrderStatus::Ready, 100))).is_err());
    assert!(check_order_payable(Some(order(OrderStatus::PendingPayment, 100))).is_ok());
    assert!(wallet_client_id(&Some(String::new())).is_err());
    assert_eq!(wallet_client_id(&Some("c1".to_string())).unwrap(), "c1");
    assert!(check_wallet_client(false).is_err());
    let o = order(OrderStatus::PendingPayment, 1200);
    let e = plan_wallet_debit(&o, "o1", "c1", 1000, false, "l1".to_string(), "p1".to_string(), "t").unwrap_err();
    assert_eq!((e.0, e.1.error.as_str(), e.1.code.as_str()), (422, "Insufficient balance: 1000 FCFA (need 1200)", "INSUFFICIENT_BALANCE"));
    let d = plan_wallet_debit(&o, "o1", "c1", 1000, true, "l1".to_string(), "p1".to_string(), "t").unwrap();
    assert_eq!(d.new_balance, -200);
    assert_eq!((d.entry.amount, d.entry.entry_type), (-1200, LedgerEntryType::Payment));
    assert_eq!(d.entry.description.as_deref(), Some("Payment for order o1"));
    assert_eq!((d.payment.amount, d.payment.reference.as_deref()), (1200, Some("l1")));
    let d = plan_wallet_debit(&o, "o1", "c1", 5000, false, "l1".to_string(), "p1".to_string(), "t").unwrap();
    assert_eq!(d.new_balance, 3800);
    let c = plan_cash_payment(&o, "o1", "p2".to_string(), "t").unwrap();
    assert_eq!((c.method, c.amount), (PaymentMethod::Cash, 1200));
    assert!(plan_cash_payment(&order(OrderStatus::PendingPayment, 0), "o1", "p".to_string(), "t").is_err());
    assert_eq!(unsupported_method(PaymentMethod::MoMo).0, 501);
    let r = paid_response(Some(3800), "p1".to_string());
    assert_eq!((r.status.as_str(), r.new_balance), ("paid", Some(3800)));
    let e = db_error_reply("Failed to debit wallet", "locked");
    assert_eq!((e.0, e.1.error.as_str(), e.1.code.as_str()), (500, "Failed to debit wallet: locked", "DB_ERROR"));
}

fn pay_request(method: &str, client: Option<&str>) -> ProcessPaymentRequest {
    ProcessPaymentRequest { order_id: "o1".to_string(), method: method.to_string(), client_id: client.map(|c| c.to_string()) }
}

fn refusal(step: PaymentStep) -> (u16, String, String) {
    match step {
        PaymentStep::Refuse(e) => (e.0, e.1.error, e.1.code),
        other => panic!("not refused: {:?}", other),
    }
}

#[test]
fn payment_steps_in_order() {
    let open = || Ok(Some(order(OrderStatus::PendingPayment, 1200)));
    let r = refusal(step_after_order(&pay_request("wallet", Some("c1")), PaymentMethod::Wallet, Err(DomainError::NotFound("gone".to_string())), "p".to_string(), "t"));
    assert_eq!(r, (404, "gone".to_string(), "NOT_FOUND".to_string()));
    let r = refusal(step_after_order(&pay_request("wallet", None), PaymentMethod::Wallet, Ok(None), "p".to_string(), "t"));
    assert_eq!(r, (404, "Order not found".to_string(), "ORDER_NOT_FOUND".to_string()));
    let r = refusal(step_after_order(&pay_request("wallet", None), PaymentMethod::Wallet, Ok(Some(order(OrderStatus::Ready, 1200))), "p".to_string(), "t"));
    assert_eq!(r.2, "INVALID_ORDER_STATUS");
    let r = refusal(step_after_order(&pay_request("wallet", Some("")), PaymentMethod::Wallet, open(), "p".to_string(), "t"));
    assert_eq!(r, (422, "client_id is required for wallet payments".to_string(), "VALIDATION_ERROR".to_string()));
    match step_after_order(&pay_request("wallet", Some("c1")), PaymentMethod::Wallet, open(), "p".to_string(), "t") {
        PaymentStep::ReadClient { order, client_id } => assert_eq!((order.total, client_id.as_str()), (1200, "c1")),
        other => panic!("unexpected {:?}", other),
    }
    match step_after_order(&pay_request("cash", None), PaymentMethod::Cash, open(), "p9".to_string(), "t") {
        PaymentStep::RecordCash { payment, .. } => assert_eq!((payment.id.as_str(), payment.amount, payment.method), ("p9", 1200, PaymentMethod::Cash)),
        other => panic!("unexpected {:?}", other),
    }
    let r = refusal(step_after_order(&pay_request("cash", None), PaymentMethod::Cash, Ok(Some(order(OrderStatus::PendingPayment, 0))), "p".to_string(), "t"));
    assert_eq!(r, (422, "Payment amount must be positive".to_string(), "INVALID_VALUE".to_string()));
    let r = refusal(step_after_order(&pay_request("momo", None), PaymentMethod::MoMo, open(), "p".to_string(), "t"));
    assert_eq!(r, (501, "Payment method 'momo' not yet implemented".to_string(), "NOT_IMPLEMENTED".to_string()));
    let r = refusal(step_after_client(order(OrderStatus::PendingPayment, 1200), "c1".to_string(), Ok(false)));
    assert_eq!(r, (422, "Client not found".to_string(), "CLIENT_NOT_FOUND".to_string()));
    let r = refusal(step_after_client(order(OrderStatus::PendingPayment, 1200), "c1".to_string(), Err(DomainError::Internal("db".to_string()))));
    assert_eq!(r, (500, "Internal server error".to_string(), "INTERNAL_ERROR".to_string()));
    match step_after_client(order(OrderStatus::PendingPayment, 1200), "c1".to_string(), Ok(true)) {
        PaymentStep::DebitWallet { client_id, .. } => assert_eq!(client_id, "c1"),
        other => panic!("unexpected {:?}", other),
    }
}

#[test]
fn catalogue_guards() {
    assert!(check_category_filter(&Some(String::new())).is_err());
    assert!(check_category_filter(&None).is_ok());
    assert!(check_parent_not_self("c1", &Some("c1".to_string())).is_err());
    assert!(check_parent_not_self("c1", &Some("c2".to_string())).is_ok());
    assert!(check_category_deletable(0, 0).is_ok());
    assert!(check_category_deletable(2, 0).is_err());
    assert!(check_category_deletable(0, 1).is_err());
    let c = category_from_request(CreateCategoryRequest { name: "Plats".to_string(), parent_id: None }, "c9".to_string(), "t".to_string()).unwrap();
    assert_eq!((c.id.as_str(), c.name.as_str()), ("c9", "Plats"));
    assert!(category_from_request(CreateCategoryRequest { name: " ".to_string(), parent_id: None }, "c".to_string(), "t".to_string()).is_err());
}
