use mboacaisse::domain::crypto::{hash_password, verify_password};
use mboacaisse::domain::jwt::{
    decode_token_at, encode_token, encode_token_at, generate_secret, refresh_token_at, Claims,
    REFRESH_WINDOW_SECS, TOKEN_LIFETIME_SECS,
};
use mboacaisse::domain::order::{Order, OrderStatus};
use mboacaisse::domain::payment::{validate_split, Payment, PaymentMethod, SplitPaymentItem};
use mboacaisse::domain::product::{Category, Product};
use mboacaisse::domain::user::{Permission, Role, User};
use mboacaisse::domain::wallet::{LedgerEntryType, WalletLedgerEntry};
use mboacaisse::domain::DomainError;

fn user(role: Role) -> User {
    User {
        id: "u-1".to_string(),
        email: "ana@example.cm".to_string(),
        password_hash: String::new(),
        name: "Ana".to_string(),
        role,
        created_at: "2024-01-01T00:00:00.000Z".to_string(),
        updated_at: "2024-01-01T00:00:00.000Z".to_string(),
    }
}

#[test]
fn admin_has_every_permission() {
    let all = [
        Permission::All,
        Permission::Sell,
        Permission::ViewReports,
        Permission::ManageUsers,
        Permission::ManageMenu,
        Permission::ManageStock,
        Permission::ViewOrders,
        Permission::ManageSettings,
    ];
    for p in all.iter() {
        assert!(Role::Admin.has_permission(p));
    }
    assert_eq!(Role::Admin.permissions().len(), 8);
}

#[test]
fn only_admin_holds_all() {
    for r in [Role::Caissier, Role::Vendeur, Role::GestionnaireStock] {
        assert!(!r.has_permission(&Permission::All));
    }
}

#[test]
fn role_permission_table() {
    assert!(Role::Caissier.has_permission(&Permission::Sell));
    assert!(Role::Caissier.has_permission(&Permission::ViewOrders));
    assert!(!Role::Caissier.has_permission(&Permission::ManageUsers));
    assert!(Role::Vendeur.has_permission(&Permission::ManageMenu));
    assert!(!Role::Vendeur.has_permission(&Permission::Sell));
    assert!(Role::GestionnaireStock.has_permission(&Permission::ManageStock));
    assert!(!Role::GestionnaireStock.has_permission(&Permission::ViewOrders));
    assert!(Role::GestionnaireStock.has_permission(&Permission::ManageMenu));
}

#[test]
fn role_names_read_back_ignoring_case() {
    for r in [Role::Admin, Role::Caissier, Role::Vendeur, Role::GestionnaireStock] {
        assert_eq!(Role::from_str(r.as_str()).unwrap(), r);
    }
    assert_eq!(Role::from_str("ADMIN").unwrap(), Role::Admin);
    assert_eq!(Role::from_str("GestionnaireStock").unwrap(), Role::GestionnaireStock);
    match Role::from_str("chef") {
        Err(e) => assert_eq!(e.message(), "Invalid value: Unknown role: chef"),
        Ok(_) => panic!("unknown role accepted"),
    }
}

#[test]
fn status_and_method_names_read_back() {
    for s in [OrderStatus::PendingPayment, OrderStatus::PaidPreparing, OrderStatus::Ready, OrderStatus::Delivered] {
        assert_eq!(OrderStatus::from_str(s.as_str()).unwrap(), s);
    }
    for m in [PaymentMethod::Wallet, PaymentMethod::Cash, PaymentMethod::MoMo, PaymentMethod::Split] {
        assert_eq!(PaymentMethod::from_str(m.as_str()).unwrap(), m);
    }
    for t in [
        LedgerEntryType::Payment,
        LedgerEntryType::Credit,
        LedgerEntryType::Cashback,
        LedgerEntryType::ReferralBonus,
        LedgerEntryType::Migration,
    ] {
        assert_eq!(LedgerEntryType::from_str(t.as_str()).unwrap(), t);
    }
    assert_eq!(LedgerEntryType::from_str("ReferralBonus").unwrap(), LedgerEntryType::ReferralBonus);
    assert!(PaymentMethod::from_str("card").is_err());
}

#[test]
fn lifecycle_moves_one_step_forward() {
    let mut o = Order::new("o-1".to_string(), None, None, "t0".to_string());
    assert_eq!(o.status, OrderStatus::PendingPayment);
    assert_eq!(o.total, 0);
    assert!(o.transition_to(OrderStatus::Ready).is_err());
    assert_eq!(o.status, OrderStatus::PendingPayment);
    assert!(o.transition_to(OrderStatus::PaidPreparing).is_ok());
    assert!(o.transition_to(OrderStatus::Ready).is_ok());
    assert!(o.transition_to(OrderStatus::Delivered).is_ok());
    for next in [OrderStatus::PendingPayment, OrderStatus::PaidPreparing, OrderStatus::Ready, OrderStatus::Delivered] {
        assert!(!OrderStatus::Delivered.can_transition_to(&next));
    }
    match o.transition_to(OrderStatus::PendingPayment) {
        Err(e) => assert_eq!(e.message(), "Invalid status transition: delivered → pending_payment"),
        Ok(()) => panic!("went back"),
    }
}

#[test]
fn domain_error_texts() {
    assert_eq!(DomainError::Unauthorized.message(), "Unauthorized");
    assert_eq!(DomainError::NotFound("x".to_string()).message(), "Not found: x");
    assert_eq!(DomainError::ProductNotFound.message(), "Product not found");
    assert_eq!(DomainError::DuplicatePhone.message(), "Duplicate phone number");
    assert_eq!(
        DomainError::InsufficientBalance { balance: -5, required: 1200 }.message(),
        "Insufficient balance: -5 < 1200"
    );
    assert_eq!(DomainError::Internal("db".to_string()).message(), "Internal error: db");
    match DomainError::from_message("boom".to_string()) {
        DomainError::Internal(m) => assert_eq!(m, "boom"),
        _ => panic!("wrong variant"),
    }
}

#[test]
fn password_hash_round_trip() {
    let h = hash_password("s3cret-pass").unwrap();
    assert_ne!(h, "s3cret-pass");
    assert!(h.starts_with("$argon2"));
    assert_eq!(verify_password("s3cret-pass", &h).unwrap(), true);
    assert_eq!(verify_password("wrong-pass", &h).unwrap(), false);
    match verify_password("x", "not a hash") {
        Err(e) => assert!(e.message().starts_with("Internal error: Invalid password hash format: ")),
        Ok(_) => panic!("garbage hash accepted"),
    }
}

#[test]
fn token_round_trip_and_expiry() {
    let secret = generate_secret();
    assert_eq!(secret.len(), 32);
    let u = user(Role::Caissier);
    let now: u64 = 1_700_000_000;
    let t = encode_token_at(&u, &secret, now).unwrap();
    let c = decode_token_at(&t, &secret, now + 10).unwrap();
    assert_eq!(c.sub, "u-1");
    assert_eq!(c.email, "ana@example.cm");
    assert_eq!(c.role, "caissier");
    assert_eq!(c.iat, now);
    assert_eq!(c.exp, now + TOKEN_LIFETIME_SECS);
    assert!(decode_token_at(&t, &secret, now + TOKEN_LIFETIME_SECS + 60).is_ok());
    assert_eq!(decode_token_at(&t, &secret, now + TOKEN_LIFETIME_SECS + 61).unwrap_err(), "TOKEN_EXPIRED");
    let other = generate_secret();
    assert_eq!(decode_token_at(&t, &other, now).unwrap_err(), "INVALID_TOKEN");
    assert!(decode_token_at("abc", &secret, now).unwrap_err().starts_with("INVALID_TOKEN"));
    assert!(encode_token(&u, &secret).is_ok());
}

#[test]
fn refresh_only_in_last_hour() {
    let secret = generate_secret();
    let u = user(Role::Admin);
    let now: u64 = 1_700_000_000;
    let t = encode_token_at(&u, &secret, now).unwrap();
    let early = now + 100;
    assert_eq!(refresh_token_at(&t, &secret, early).unwrap_err(), "Token does not need refresh");
    let late = now + TOKEN_LIFETIME_SECS - REFRESH_WINDOW_SECS + 1;
    let t2 = refresh_token_at(&t, &secret, late).unwrap();
    let c2 = decode_token_at(&t2, &secret, late).unwrap();
    assert_eq!(c2.iat, late);
    assert_eq!(c2.exp, late + TOKEN_LIFETIME_SECS);
    assert_eq!(c2.sub, "u-1");
    let claims = Claims { sub: String::new(), email: String::new(), role: String::new(), iat: 0, exp: 5000 };
    assert!(claims.should_refresh_at(2000));
    assert!(!claims.should_refresh_at(1000));
    assert!(claims.should_refresh_at(9000));
}

fn split(method: &str, amount: i64, client: Option<&str>, op: Option<&str>) -> SplitPaymentItem {
    SplitPaymentItem {
        method: method.to_string(),
        amount,
        client_id: client.map(|s| s.to_string()),
        momo_operator: op.map(|s| s.to_string()),
    }
}

#[test]
fn split_payment_rules() {
    let ok = vec![split("cash", 400, None, None), split("wallet", 300, Some("c1"), None), split("momo", 300, None, Some("mtn"))];
    assert!(validate_split(&ok, 1000).is_ok());
    match validate_split(&ok, 900) {
        Err(DomainError::InvalidValue(m)) => assert_eq!(m, "Split total mismatch: 1000 != 900"),
        _ => panic!("mismatch not reported"),
    }
    let no_client = vec![split("wallet", 500, None, None), split("cash", 500, None, None)];
    assert!(matches!(validate_split(&no_client, 1000), Err(DomainError::InvalidValue(_))));
    let bad_op = vec![split("momo", 1000, None, Some("free"))];
    assert!(matches!(validate_split(&bad_op, 1000), Err(DomainError::InvalidValue(_))));
    let short = vec![split("cash", 500, None, None)];
    match validate_split(&short, 1000) {
        Err(e) => assert_eq!(e.message(), "Invalid value: Split total mismatch: 500 != 1000"),
        Ok(_) => panic!("short split accepted"),
    }
    let zero = vec![split("cash", 0, None, None), split("cash", 1000, None, None)];
    assert!(matches!(validate_split(&zero, 1000), Err(DomainError::InvalidValue(_))));
}

#[test]
fn payment_and_ledger_invariants() {
    let mut p = Payment {
        id: "p".to_string(),
        order_id: "o".to_string(),
        method: PaymentMethod::Cash,
        amount: 0,
        client_id: None,
        reference: None,
        momo_operator: None,
        parent_payment_id: None,
        created_at: "t".to_string(),
    };
    assert!(p.validate().is_err());
    p.amount = 1;
    assert!(p.validate().is_ok());
    let mut e = WalletLedgerEntry {
        id: "e".to_string(),
        client_id: "c".to_string(),
        entry_type: LedgerEntryType::Credit,
        amount: 0,
        reference: None,
        description: None,
        created_at: "t".to_string(),
    };
    match e.validate() {
        Err(err) => assert_eq!(err.message(), "Internal error: Wallet entry amount must not be zero"),
        Ok(()) => panic!("zero entry accepted"),
    }
    e.amount = -300;
    assert!(e.validate().is_ok());
}

#[test]
fn product_and_category_validation() {
    let p = Product::new("Bière 33".to_string(), 500, "cat".to_string(), 10, 2).unwrap();
    assert_eq!(p.id.len(), 36);
    assert_eq!(p.created_at, p.updated_at);
    match Product::new("   ".to_string(), 500, "cat".to_string(), 10, 2) {
        Err(e) => assert_eq!(e.message(), "Invalid value: Product name cannot be empty"),
        Ok(_) => panic!("blank name accepted"),
    }
    assert!(Product::new("x".to_string(), -1, "cat".to_string(), 0, 0).is_err());
    assert!(Product::new("x".to_string(), 1, "cat".to_string(), -1, 0).is_err());
    assert!(Product::new("x".to_string(), 1, "cat".to_string(), 0, -1).is_err());
    let mut q = p.clone();
    assert!(q.update("Bière 65".to_string(), 700, "cat2".to_string(), 5, 1).is_ok());
    assert_eq!(q.name, "Bière 65");
    assert_eq!(q.created_at, p.created_at);
    let c = Category::new("Boissons".to_string(), None).unwrap();
    assert_eq!(c.name, "Boissons");
    assert!(Category::new("".to_string(), None).is_err());
}

#[test]
fn secrets_are_random() {
    let a = generate_secret();
    let b = generate_secret();
    assert_eq!(a.len(), 32);
    assert!(a.iter().any(|x| *x != 0));
    assert_ne!(a, b);
}
