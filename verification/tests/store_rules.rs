use mboacaisse::api::auth::authenticate;
use mboacaisse::db::migration_wallet::{migration_entry, migration_should_run, placeholder_phone, plan_migration, MigrationOrder};
use mboacaisse::db::orders::{order_from_row, OrderRow};
use mboacaisse::db::payments::{payment_from_row, PaymentRow};
use mboacaisse::db::products::search_pattern;
use mboacaisse::db::seed::{admin_seed_needed, catalogue_seed_needed, generate_admin_password, plan_admin, plan_catalogue};
use mboacaisse::db::users::{user_from_row, UserRow};
use mboacaisse::db::wallet_ledger::{check_entry_client, ledger_entry_from_row, registration_failure, LedgerRow};
use mboacaisse::db::{check_rows_affected, failure, DbError, POOL_MAX_SIZE, POOL_MIN_IDLE};
use mboacaisse::domain::order::OrderStatus;
use mboacaisse::domain::payment::PaymentMethod;
use mboacaisse::domain::product::Product;
use mboacaisse::domain::user::Role;
use mboacaisse::domain::wallet::{LedgerEntryType, WalletLedgerEntry};
use mboacaisse::domain::DomainError;
use mboacaisse::server::{port_candidates, resolve_port};

fn user_row(role: &str) -> UserRow {
    UserRow {
        id: "u".to_string(),
        email: "e@x.cm".to_string(),
        password_hash: "h".to_string(),
        name: "n".to_string(),
        role: role.to_string(),
        created_at: "c".to_string(),
        updated_at: "u".to_string(),
    }
}

#[test]
fn rows_become_domain_values() {
    assert_eq!(user_from_row(user_row("Vendeur")).unwrap().role, Role::Vendeur);
    assert_eq!(
        user_from_row(user_row("chef")).unwrap_err(),
        "Invalid role 'chef' in database: Invalid value: Unknown role: chef"
    );
    let o = OrderRow {
        id: "o".to_string(),
        table_id: None,
        client_id: Some("c".to_string()),
        status: "READY".to_string(),
        total: 900,
        created_at: "c".to_string(),
        updated_at: "u".to_string(),
    };
    assert_eq!(order_from_row(o.clone()).unwrap().status, OrderStatus::Ready);
    let mut bad = o;
    bad.status = "lost".to_string();
    assert_eq!(order_from_row(bad).unwrap_err().message(), "Invalid value: Unknown order status: lost");
    let p = PaymentRow {
        id: "p".to_string(),
        order_id: "o".to_string(),
        method: "Wallet".to_string(),
        amount: 10,
        client_id: None,
        reference: None,
        momo_operator: None,
        parent_payment_id: None,
        created_at: "c".to_string(),
    };
    assert_eq!(payment_from_row(p.clone()).unwrap().method, PaymentMethod::Wallet);
    let mut bad = p;
    bad.method = "card".to_string();
    assert_eq!(payment_from_row(bad).unwrap_err(), "Invalid value: Unknown payment method: card");
    let l = LedgerRow {
        id: "l".to_string(),
        client_id: "c".to_string(),
        entry_type: "migration".to_string(),
        amount: 5,
        reference: Some("o".to_string()),
        description: None,
        created_at: "c".to_string(),
    };
    assert_eq!(ledger_entry_from_row(l.clone()).unwrap().entry_type, LedgerEntryType::Migration);
    let mut bad = l;
    bad.entry_type = "gift".to_string();
    assert_eq!(ledger_entry_from_row(bad).unwrap_err(), "Invalid value: Unknown ledger entry type: gift");
}

#[test]
fn storage_error_texts() {
    assert_eq!(DbError::Connection("x".to_string()).message(), "DB connection error: x");
    assert_eq!(DbError::Query("x".to_string()).message(), "DB query error: x");
    assert_eq!(DbError::Migration("x".to_string()).message(), "DB migration error: x");
    assert_eq!(DbError::NotFound("x".to_string()).message(), "DB not found: x");
    assert_eq!(DbError::from_sql_failure(true, "ignored".to_string()).message(), "DB not found: query returned no rows");
    assert_eq!(DbError::from_sql_failure(false, "syntax".to_string()).message(), "DB query error: syntax");
    assert_eq!(failure("Failed to commit", "busy").message(), "Internal error: Failed to commit: busy");
    assert!(check_rows_affected(1, "Order", "o1").is_ok());
    assert_eq!(check_rows_affected(0, "Order", "o1").unwrap_err().message(), "Not found: Order o1 not found");
    assert_eq!(search_pattern("bière"), "%bière%");
    assert_eq!((POOL_MAX_SIZE, POOL_MIN_IDLE), (5, 1));
}

#[test]
fn wallet_store_rules() {
    assert!(matches!(registration_failure("UNIQUE constraint failed: wallet_clients.phone"), DomainError::DuplicatePhone));
    assert_eq!(registration_failure("locked").message(), "Internal error: Failed to register client: locked");
    let e = WalletLedgerEntry {
        id: "e".to_string(),
        client_id: "w9".to_string(),
        entry_type: LedgerEntryType::Credit,
        amount: 100,
        reference: None,
        description: None,
        created_at: "t".to_string(),
    };
    assert!(check_entry_client(&e, 1).is_ok());
    assert_eq!(check_entry_client(&e, 0).unwrap_err().message(), "Not found: Wallet client not found: w9");
}

fn mo(id: &str, client: &str, total: i64) -> MigrationOrder {
    MigrationOrder { order_id: id.to_string(), client_id: client.to_string(), total }
}

#[test]
fn wallet_migration_is_idempotent() {
    assert!(migration_should_run(true, false, true));
    assert!(!migration_should_run(false, false, true));
    assert!(!migration_should_run(true, true, true));
    assert!(!migration_should_run(true, false, false));
    let orders = vec![mo("o1", "c1", 1000), mo("o2", "c2", 500), mo("o3", "c1", 700)];
    let first = plan_migration(&orders, &vec!["o2".to_string()]);
    let ids: Vec<&str> = first.iter().map(|o| o.order_id.as_str()).collect();
    assert_eq!(ids, vec!["o1", "o3"]);
    let mut refs = vec!["o2".to_string()];
    refs.extend(first.iter().map(|o| o.order_id.clone()));
    assert!(plan_migration(&orders, &refs).is_empty());
    let e = migration_entry("e1".to_string(), &first[0], "t".to_string());
    assert_eq!((e.entry_type, e.amount, e.reference.as_deref()), (LedgerEntryType::Migration, 1000, Some("o1")));
    assert_eq!(e.description.as_deref(), Some("Migration commande anterieure"));
    assert_eq!(placeholder_phone("0190d2a4-77aa-7bbb-8ccc-000000000000"), "CLI-0190d2a4");
    assert_eq!(placeholder_phone("c1"), "CLI-c1");
    assert_eq!(placeholder_phone(""), "CLI-");
}

#[test]
fn first_start_seed() {
    assert!(admin_seed_needed(0));
    assert!(!admin_seed_needed(1));
    assert!(catalogue_seed_needed(0));
    assert!(!catalogue_seed_needed(3));
    let alphabet = "ABCDEFGHJKLMNPQRSTUVWXYZabcdefghjkmnpqrstuvwxyz23456789";
    let p = generate_admin_password();
    assert_eq!(p.chars().count(), 12);
    assert!(p.chars().all(|c| alphabet.contains(c)));
    let seed = plan_admin("now".to_string()).unwrap();
    assert_eq!(seed.user.email, "admin@mboacaisse.local");
    assert_eq!((seed.user.name.as_str(), seed.user.role), ("Admin", Role::Admin));
    assert_eq!(seed.user.id.len(), 36);
    let logged = authenticate(Ok(Some(seed.user.clone())), &seed.password).unwrap();
    assert_eq!(logged.email, "admin@mboacaisse.local");
    let cat = plan_catalogue("now");
    let names: Vec<&str> = cat.categories.iter().map(|c| c.name.as_str()).collect();
    assert_eq!(names, vec!["Boissons", "Plats", "Snacks"]);
    assert_eq!(cat.products.len(), 10);
    assert_eq!((cat.products[3].name.as_str(), cat.products[3].price, cat.products[3].stock), ("Eau minérale", 200, 100));
    assert_eq!(cat.products[9].category_id, cat.categories[2].id);
    assert_eq!(cat.products[4].category_id, cat.categories[1].id);
    for p in &cat.products {
        assert!(Product::new(p.name.clone(), p.price, p.category_id.clone(), p.stock, p.alert_threshold).is_ok());
    }
}

#[test]
fn listening_port_rules() {
    assert_eq!(resolve_port(None), 3000);
    assert_eq!(resolve_port(Some("3042".to_string())), 3042);
    assert_eq!(resolve_port(Some("+3042".to_string())), 3042);
    assert_eq!(resolve_port(Some("3100".to_string())), 3000);
    assert_eq!(resolve_port(Some(" 3042".to_string())), 3000);
    assert_eq!(resolve_port(Some("70000".to_string())), 3000);
    assert_eq!(resolve_port(Some("abc".to_string())), 3000);
    assert_eq!(port_candidates(3000), vec![3000, 3001, 3002, 3003, 3004, 3005]);
    assert_eq!(port_candidates(65533), vec![65533, 65534, 65535]);
}
