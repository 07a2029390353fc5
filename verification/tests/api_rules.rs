use mboacaisse::api::auth::{
    account_creation_error_reply, authenticate, issue_session, logout_reply, prepare_account, profile,
    session_cookie_header, validate_email as auth_validate_email, RegisterRequest,
};
use mboacaisse::api::auth_middleware::{extract_cookie, authorize_at, is_public_path, required_permission, Access, AuthError};
use mboacaisse::api::health::health_check;
use mboacaisse::api::kitchen::{build_order_response, domain_to_http as kitchen_error, elapsed_minutes, get_product_name, oldest_first};
use mboacaisse::api::settings::{
    entries_from_config, is_valid_hostname, patch_status, plan_settings_patch, save_failure_message, PatchSettingsBody,
    SettingValue,
};
use mboacaisse::api::users::{
    admin_count, apply_user_update, check_last_admin, check_not_self, creation_error_reply, default_role,
    prepare_new_user, require_user, to_response, validate_email, validate_password, validate_role,
    CreateUserRequest, UpdateUserRequest,
};
use mboacaisse::api::wallet::{
    check_credit, client_to_response, credit_entry, credit_response, default_limit, ledger_limit, ledger_response,
    prepare_registration, register_response, registration_error_reply, require_client, validate_phone,
    CreditWalletRequest, RegisterRequest as WalletRegisterRequest,
};
use mboacaisse::api::{domain_error_reply, error_response, resolve_dist_path};
use mboacaisse::domain::crypto::hash_password;
use mboacaisse::domain::jwt::{encode_token_at, generate_secret, TOKEN_LIFETIME_SECS};
use mboacaisse::domain::order::{Order, OrderItem, OrderStatus};
use mboacaisse::domain::product::Product;
use mboacaisse::domain::user::{Permission, Role, User};
use mboacaisse::domain::wallet::{LedgerEntryType, WalletClient, WalletLedgerEntry};
use mboacaisse::domain::DomainError;
use mboacaisse::settings::Config;

fn mk_user(id: &str, role: Role) -> User {
    User {
        id: id.to_string(),
        email: format!("{}@example.cm", id),
        password_hash: String::new(),
        name: "N".to_string(),
        role,
        created_at: "t0".to_string(),
        updated_at: "t0".to_string(),
    }
}

#[test]
fn users_email_rules() {
    assert_eq!(validate_email("  Ana@Example.CM ").unwrap(), "ana@example.cm");
    let e = validate_email("   ").unwrap_err();
    assert_eq!((e.0, e.1.error.as_str(), e.1.code.as_str()), (422, "Email is required", "VALIDATION_ERROR"));
    for bad in ["ana", "@example.cm", "ana@", "ana@example", "ana@@example"] {
        let e = validate_email(bad).unwrap_err();
        assert_eq!(e.1.error, "Invalid email format", "{}", bad);
    }
    assert!(validate_email("a@b@c.d").is_ok());
    assert!(auth_validate_email(" a@b.c ").is_ok());
    assert!(auth_validate_email("a@bc").is_err());
}

#[test]
fn users_password_and_role_rules() {
    assert!(validate_password("12345678").is_ok());
    let e = validate_password("1234567").unwrap_err();
    assert_eq!(e.1.error, "Password must be at least 8 characters");
    assert!(validate_password("éééé").is_ok());
    assert_eq!(validate_role("Vendeur").unwrap(), Role::Vendeur);
    let e = validate_role("boss").unwrap_err();
    assert_eq!(e.1.error, "Invalid role. Must be: admin, caissier, vendeur, or gestionnaire_stock");
    assert_eq!(default_role(), "caissier");
}

#[test]
fn create_user_flow() {
    let body = CreateUserRequest {
        email: " Bob@Shop.CM".to_string(),
        password: "longenough".to_string(),
        name: None,
        role: "gestionnaire_stock".to_string(),
    };
    let u = prepare_new_user(body.clone(), &Ok(None), "id-1".to_string(), "now".to_string()).unwrap();
    assert_eq!(u.email, "bob@shop.cm");
    assert_eq!(u.name, "");
    assert_eq!(u.role, Role::GestionnaireStock);
    assert_eq!(u.created_at, "now");
    assert!(mboacaisse::domain::crypto::verify_password("longenough", &u.password_hash).unwrap());
    let taken = prepare_new_user(body.clone(), &Ok(Some(mk_user("x", Role::Admin))), "id".to_string(), "now".to_string());
    let e = taken.unwrap_err();
    assert_eq!((e.0, e.1.code.as_str()), (409, "DUPLICATE_EMAIL"));
    let failed_lookup = prepare_new_user(body, &Err(DomainError::Internal("db".to_string())), "id".to_string(), "n".to_string());
    assert!(failed_lookup.is_ok());
    let mut short = CreateUserRequest { email: "a@b.c".to_string(), password: "short".to_string(), name: None, role: "x".to_string() };
    assert_eq!(prepare_new_user(short.clone(), &Ok(None), "i".to_string(), "n".to_string()).unwrap_err().1.error, "Password must be at least 8 characters");
    short.password = "longenough".to_string();
    assert_eq!(prepare_new_user(short, &Ok(None), "i".to_string(), "n".to_string()).unwrap_err().1.code, "VALIDATION_ERROR");
    let e = creation_error_reply(&DomainError::Internal("UNIQUE constraint failed".to_string()));
    assert_eq!((e.0, e.1.error.as_str()), (409, "Email already registered"));
    let e = creation_error_reply(&DomainError::Internal("disk full".to_string()));
    assert_eq!((e.1.error.as_str(), e.1.code.as_str()), ("Failed to create user", "CREATION_ERROR"));
}

#[test]
fn update_user_flow() {
    let base = mk_user("u1", Role::Caissier);
    let body = UpdateUserRequest { email: Some(" New@Mail.CM ".to_string()), name: Some("Zoe".to_string()), role: Some("ADMIN".to_string()), password: None };
    let u = apply_user_update(base.clone(), body.clone(), Some("u1".to_string()), "later".to_string()).unwrap();
    assert_eq!(u.email, "new@mail.cm");
    assert_eq!(u.name, "Zoe");
    assert_eq!(u.role, Role::Admin);
    assert_eq!(u.created_at, "t0");
    assert_eq!(u.updated_at, "later");
    let e = apply_user_update(base.clone(), body, Some("other".to_string()), "later".to_string()).unwrap_err();
    assert_eq!((e.0, e.1.error.as_str()), (409, "Email already in use"));
    let bad_role = UpdateUserRequest { email: None, name: None, role: Some("x".to_string()), password: None };
    assert_eq!(apply_user_update(base.clone(), bad_role, None, "l".to_string()).unwrap_err().0, 422);
    let pw = UpdateUserRequest { email: None, name: None, role: None, password: Some("newpassword".to_string()) };
    let u = apply_user_update(base.clone(), pw, None, "l".to_string()).unwrap();
    assert!(mboacaisse::domain::crypto::verify_password("newpassword", &u.password_hash).unwrap());
    let short = UpdateUserRequest { email: None, name: None, role: None, password: Some("abc".to_string()) };
    assert_eq!(apply_user_update(base, short, None, "l".to_string()).unwrap_err().1.error, "Password must be at least 8 characters");
}

#[test]
fn deletion_guards_keep_an_admin() {
    let e = check_not_self("u1", "u1").unwrap_err();
    assert_eq!((e.0, e.1.code.as_str()), (400, "SELF_DELETE"));
    assert!(check_not_self("u1", "u2").is_ok());
    assert_eq!(require_user(None).unwrap_err().1.code, "NOT_FOUND");
    let users = vec![mk_user("a", Role::Admin), mk_user("b", Role::Caissier), mk_user("c", Role::Vendeur)];
    assert_eq!(admin_count(&users), 1);
    let e = check_last_admin(&users[0], admin_count(&users)).unwrap_err();
    assert_eq!((e.0, e.1.error.as_str(), e.1.code.as_str()), (400, "Cannot delete the last admin", "LAST_ADMIN"));
    assert!(check_last_admin(&users[1], admin_count(&users)).is_ok());
    let two = vec![mk_user("a", Role::Admin), mk_user("d", Role::Admin)];
    assert_eq!(admin_count(&two), 2);
    assert!(check_last_admin(&two[0], 2).is_ok());
    let r = to_response(&users[2]);
    assert_eq!((r.id.as_str(), r.role.as_str()), ("c", "vendeur"));
}

#[test]
fn wallet_phone_and_credit_rules() {
    assert_eq!(validate_phone(" 699123456 ").unwrap(), "699123456");
    for bad in ["69912345", "6991234567", "69912345a", "６99123456"] {
        assert_eq!(validate_phone(bad).unwrap_err().1.error, "Phone must be exactly 9 digits", "{}", bad);
    }
    let c = prepare_registration(WalletRegisterRequest { phone: "677000111".to_string(), name: None }, "w1".to_string(), "t".to_string()).unwrap();
    assert_eq!(c.phone, "677000111");
    assert!(c.referrer_id.is_none());
    let r = register_response(c.clone());
    assert_eq!((r.name.as_str(), r.balance), ("", 0));
    assert_eq!(client_to_response(&c, 1500).balance, 1500);
    let e = registration_error_reply(&DomainError::DuplicatePhone);
    assert_eq!((e.0, e.1.code.as_str()), (409, "DUPLICATE_PHONE"));
    let e = registration_error_reply(&DomainError::Internal("x".to_string()));
    assert_eq!((e.0, e.1.error.as_str(), e.1.code.as_str()), (500, "Internal error: x", "REGISTRATION_ERROR"));
    assert_eq!(require_client(None).unwrap_err().1.error, "Client not found");
    assert_eq!(default_limit(), 50);
    assert_eq!(ledger_limit(-3), 0);
    assert_eq!(ledger_limit(7), 7);
    let zero = CreditWalletRequest { amount: 0, source: "cash".to_string(), reference: None };
    assert_eq!(check_credit(&zero).unwrap_err().1.error, "Amount must be positive");
    let bad = CreditWalletRequest { amount: 10, source: "Card".to_string(), reference: None };
    assert_eq!(check_credit(&bad).unwrap_err().1.error, "Invalid source: 'Card' (must be cash, momo, or gift)");
    let good = CreditWalletRequest { amount: 2500, source: "MoMo".to_string(), reference: Some("r".to_string()) };
    let source = check_credit(&good).unwrap();
    assert_eq!(source, "momo");
    let e = credit_entry("e1".to_string(), "w1".to_string(), good, &source, "t".to_string());
    assert_eq!(e.entry_type, LedgerEntryType::Credit);
    assert_eq!(e.amount, 2500);
    assert_eq!(e.description.as_deref(), Some("Manual credit via momo"));
    assert_eq!(credit_response(4000).status, "credited");
    let entries = vec![e];
    let l = ledger_response("w1".to_string(), &entries, 2500);
    assert_eq!((l.entries.len(), l.entries[0].entry_type.as_str(), l.balance), (1, "credit", 2500));
}

#[test]
fn public_paths_and_permissions() {
    assert!(is_public_path("/"));
    assert!(is_public_path("/assets/app.js"));
    assert!(is_public_path("/api/health"));
    assert!(is_public_path("/api/auth/login"));
    assert!(is_public_path("/api/auth/register"));
    assert!(!is_public_path("/api/auth/logout"));
    assert!(!is_public_path("/api/auth/me"));
    assert_eq!(required_permission("/api/auth/me"), None);
    assert_eq!(required_permission("/api/users"), Some(Permission::ManageUsers));
    assert_eq!(required_permission("/api/users/42"), Some(Permission::ManageUsers));
    assert_eq!(required_permission("/api/usersx"), Some(Permission::All));
    for p in ["/api/products", "/api/products/p1", "/api/categories", "/api/categories/c1"] {
        assert!(Role::GestionnaireStock.has_permission(&required_permission(p).unwrap()));
    }
    assert_eq!(required_permission("/api/categories/1"), Some(Permission::ManageMenu));
    assert_eq!(required_permission("/api/wallet/by-phone/699"), Some(Permission::Sell));
    assert_eq!(required_permission("/api/kitchen/orders"), Some(Permission::ViewOrders));
    assert_eq!(required_permission("/api/reports"), Some(Permission::ViewReports));
    assert_eq!(required_permission("/api/stock/x"), Some(Permission::ManageStock));
    assert_eq!(required_permission("/api/settings"), Some(Permission::ManageSettings));
    assert_eq!(required_permission("/index.html"), None);
}

#[test]
fn cookie_extraction() {
    assert_eq!(extract_cookie("a=1; mboa_session=tok; b=2", "mboa_session"), Some("tok"));
    assert_eq!(extract_cookie(" mboa_session = x=y ;", "mboa_session"), Some("x=y"));
    assert_eq!(extract_cookie("mboa_session=first; mboa_session=second", "mboa_session"), Some("first"));
    assert_eq!(extract_cookie("novalue; other=1", "mboa_session"), None);
    assert_eq!(extract_cookie("", "mboa_session"), None);
    assert_eq!(extract_cookie("mboa_session=", "mboa_session"), Some(""));
}

#[test]
fn session_is_accepted_until_expiry() {
    let secret = generate_secret();
    let now: u64 = 1_700_000_000;
    let cashier = mk_user("c1", Role::Caissier);
    let token = encode_token_at(&cashier, &secret, now).unwrap();
    let cookie = format!("theme=dark; mboa_session={}", token);
    match authorize_at("/api/orders", &cookie, &secret, now + 60) {
        Access::Granted { user, token: t, refresh } => {
            assert_eq!((user.id.as_str(), user.role.as_str()), ("c1", "caissier"));
            assert_eq!(t, token);
            assert!(!refresh);
        },
        other => panic!("{:?}", other),
    }
    match authorize_at("/api/orders", &cookie, &secret, now + TOKEN_LIFETIME_SECS - 10) {
        Access::Granted { refresh, .. } => assert!(refresh),
        other => panic!("{:?}", other),
    }
    match authorize_at("/api/users", &cookie, &secret, now) {
        Access::Refused { status, body } => assert_eq!((status, body.code.as_str(), body.error.as_str()), (403, "FORBIDDEN", "Forbidden")),
        other => panic!("{:?}", other),
    }
    match authorize_at("/api/orders", &cookie, &secret, now + TOKEN_LIFETIME_SECS + 61) {
        Access::Refused { status, body } => assert_eq!((status, body.code.as_str()), (401, "TOKEN_EXPIRED")),
        other => panic!("{:?}", other),
    }
    match authorize_at("/api/orders", "theme=dark", &secret, now) {
        Access::Refused { status, body } => assert_eq!((status, body.error.as_str()), (401, "Authentication required")),
        other => panic!("{:?}", other),
    }
    match authorize_at("/api/orders", &cookie, &generate_secret(), now) {
        Access::Refused { status, body } => assert_eq!((status, body.code.as_str()), (401, "INVALID_TOKEN")),
        other => panic!("{:?}", other),
    }
    assert!(matches!(authorize_at("/api/health", "", &secret, now), Access::Public));
    let admin = mk_user("a1", Role::Admin);
    let at = encode_token_at(&admin, &secret, now).unwrap();
    let ac = format!("mboa_session={}", at);
    assert!(matches!(authorize_at("/api/anything/new", &ac, &secret, now), Access::Granted { .. }));
    let e = AuthError::new("x", "Y");
    assert_eq!((e.error.as_str(), e.code.as_str()), ("x", "Y"));
}

#[test]
fn register_login_logout() {
    let body = RegisterRequest { email: " First@Bar.CM ".to_string(), password: "password1".to_string(), name: Some("F".to_string()) };
    let first = prepare_account(body.clone(), &Ok(None), &Ok(true), "u1".to_string(), "t".to_string()).unwrap();
    assert_eq!((first.email.as_str(), first.role), ("first@bar.cm", Role::Admin));
    let second = prepare_account(body.clone(), &Ok(None), &Ok(false), "u2".to_string(), "t".to_string()).unwrap();
    assert_eq!(second.role, Role::Caissier);
    let e = prepare_account(body.clone(), &Ok(None), &Err(DomainError::Internal("db down".to_string())), "u".to_string(), "t".to_string()).unwrap_err();
    assert_eq!((e.0, e.1.error.as_str()), (500, "Internal error: db down"));
    let e = prepare_account(body.clone(), &Ok(Some(first.clone())), &Ok(false), "u".to_string(), "t".to_string()).unwrap_err();
    assert_eq!(e.1.code, "DUPLICATE_EMAIL");
    let logged = authenticate(Ok(Some(first.clone())), "password1").unwrap();
    assert_eq!(logged.id, "u1");
    assert_eq!(authenticate(Ok(Some(first.clone())), "password2").unwrap_err().1.code, "INVALID_CREDENTIALS");
    assert_eq!(authenticate(Ok(None), "password1").unwrap_err().0, 401);
    let s = issue_session(logged, &generate_secret()).unwrap();
    assert_eq!(s.cookie, format!("mboa_session={}; Path=/; HttpOnly; SameSite=Lax; Max-Age=86400", s.token));
    assert_eq!(s.body.role, "admin");
    assert_eq!(session_cookie_header("abc", 0), "mboa_session=abc; Path=/; HttpOnly; SameSite=Lax; Max-Age=0");
    let (cookie, msg) = logout_reply();
    assert_eq!(cookie, "mboa_session=; Path=/; HttpOnly; SameSite=Lax; Max-Age=0");
    assert_eq!(msg.message, "Logged out");
    assert_eq!(profile(Ok(None)).unwrap_err().1.code, "USER_NOT_FOUND");
    assert_eq!(account_creation_error_reply(&DomainError::Internal("duplicate key".to_string())).1.code, "DUPLICATE_EMAIL");
    assert_eq!(account_creation_error_reply(&DomainError::Internal("io".to_string())).1.error, "Registration failed");
}

#[test]
fn hostname_rules() {
    for ok in ["mboacaisse", "pos-1.local", "a", "A1.b2.C3"] {
        assert!(is_valid_hostname(ok), "{}", ok);
    }
    let long_label = "a".repeat(64);
    let max_label = "a".repeat(63);
    for bad in ["", "-pos", "pos-", "a..b", ".a", "a.", "a_b", "caf\u{e9}", "a.-b", "a-.b", long_label.as_str()] {
        assert!(!is_valid_hostname(bad), "{}", bad);
    }
    assert!(is_valid_hostname(&max_label));
}

#[test]
fn settings_patch_rules() {
    let body = PatchSettingsBody { port: Some(3050), hostname: Some("bad_host".to_string()), backup_interval_hours: Some(200), headless: Some(true) };
    let plan = plan_settings_patch(body);
    assert_eq!(plan.updates.len(), 2);
    assert_eq!(plan.updates[0].key, "port");
    assert_eq!(plan.updates[0].requires_restart, Some(true));
    assert_eq!(plan.updates[1].key, "headless");
    assert_eq!(plan.warnings.len(), 2);
    assert_eq!(plan.warnings[0].message, "Hostname must be a valid DNS name (alphanumeric, hyphens, dots)");
    assert_eq!(plan.warnings[1].message, "Interval must be between 1 and 168 hours");
    assert_eq!(patch_status(&plan), 422);
    let ok = plan_settings_patch(PatchSettingsBody { port: None, hostname: None, backup_interval_hours: Some(12), headless: None });
    assert_eq!(ok.updates[0].requires_restart, Some(false));
    assert_eq!(patch_status(&ok), 200);
    let bad_port = plan_settings_patch(PatchSettingsBody { port: Some(80), hostname: None, backup_interval_hours: None, headless: None });
    assert_eq!(bad_port.warnings[0].message, "Port must be between 3000 and 3099");
    let cfg = Config::default();
    let entries = entries_from_config(&cfg);
    assert_eq!(entries.len(), 4);
    assert!(matches!(entries[0].value, SettingValue::Number(3000)));
    assert_eq!(entries[2].requires_restart, None);
    assert_eq!(save_failure_message("backup_interval_hours", "disk"), "Failed to save interval: disk");
    assert_eq!(save_failure_message("port", "disk"), "Failed to save port: disk");
    let c = Config::from_stored(Some(65536 + 3005), Some(String::new()), Some(0), None, Some(true));
    assert_eq!((c.port, c.hostname.as_str(), c.backup_interval_hours, c.headless, c.wallet_negative), (3000, "mboacaisse", 24, false, true));
    assert_eq!(Config::from_stored(Some(68586), None, None, None, None).port, 3000);
    assert_eq!(Config::from_stored(Some(3099), None, None, None, None).port, 3099);
    let back = Config::from_stored(Some(3077), Some("pos-2".to_string()), Some(6), Some(true), Some(false));
    assert_eq!((back.port, back.hostname.as_str(), back.backup_interval_hours, back.headless), (3077, "pos-2", 6, true));
    assert!(Config::requires_restart("hostname"));
    assert!(!Config::requires_restart("wallet_negative"));
}

fn order(id: &str, created: &str) -> Order {
    Order {
        id: id.to_string(),
        table_id: Some("T1".to_string()),
        client_id: None,
        status: OrderStatus::PaidPreparing,
        total: 1000,
        created_at: created.to_string(),
        updated_at: created.to_string(),
    }
}

#[test]
fn kitchen_display_rules() {
    let v = oldest_first(vec![order("c", "3"), order("b", "2"), order("a", "1")]);
    let ids: Vec<&str> = v.iter().map(|o| o.id.as_str()).collect();
    assert_eq!(ids, vec!["a", "b", "c"]);
    assert_eq!(get_product_name(Err(DomainError::Unauthorized)), "(Produit supprime)");
    assert_eq!(get_product_name(Ok(None)), "(Produit supprime)");
    let p = Product {
        id: "p".to_string(),
        name: "Miondo".to_string(),
        price: 500,
        category_id: "c".to_string(),
        stock: 1,
        alert_threshold: 0,
        created_at: "t".to_string(),
        updated_at: "t".to_string(),
    };
    assert_eq!(get_product_name(Ok(Some(p))), "Miondo");
    let items = vec![OrderItem {
        id: "i".to_string(),
        order_id: "a".to_string(),
        product_id: "p".to_string(),
        quantity: 2,
        unit_price: 500,
        notes: Some("sans piment".to_string()),
        created_at: "t".to_string(),
    }];
    let r = build_order_response(order("a", "1"), &items, &vec!["Miondo".to_string()], 7);
    assert_eq!((r.status.as_str(), r.elapsed_min, r.items[0].name.as_str()), ("paid_preparing", 7, "Miondo"));
    assert_eq!(elapsed_minutes(Some(0), 125_000), 2);
    assert_eq!(elapsed_minutes(Some(125_000), 0), -2);
    assert_eq!(elapsed_minutes(Some(1_000), 60_999), 0);
    assert_eq!(elapsed_minutes(None, 9_999_999), 0);
    let e = kitchen_error(DomainError::NotFound("gone".to_string()));
    assert_eq!((e.0, e.1.error.as_str()), (404, "gone"));
    let e = kitchen_error(DomainError::Internal("secret detail".to_string()));
    assert_eq!((e.0, e.1.error.as_str()), (500, "Internal server error"));
}

#[test]
fn small_replies() {
    let h = health_check("1.2.3");
    assert_eq!((h.status, h.version), ("ok", "1.2.3"));
    assert_eq!(resolve_dist_path(true), "../dist");
    assert_eq!(resolve_dist_path(false), "dist");
    let e = error_response("m", "C", 418);
    assert_eq!((e.0, e.1.error.as_str(), e.1.code.as_str()), (418, "m", "C"));
    let e = domain_error_reply(&DomainError::ProductNotFound, "X", 500);
    assert_eq!(e.1.error, "Product not found");
    let hash = hash_password("pw-pw-pw").unwrap();
    assert!(hash.len() > 20);
    let _ = WalletClient {
        id: String::new(),
        phone: String::new(),
        name: None,
        referrer_id: None,
        created_at: String::new(),
        updated_at: String::new(),
    };
    let _ = WalletLedgerEntry {
        id: String::new(),
        client_id: String::new(),
        entry_type: LedgerEntryType::Payment,
        amount: 1,
        reference: None,
        description: None,
        created_at: String::new(),
    };
}

#[test]
fn unknown_role_in_token_is_refused_where_a_permission_is_needed() {
    let secret = generate_secret();
    let now: u64 = 1_700_000_000;
    let mut claims = serde_json::Map::new();
    claims.insert("sub".to_string(), serde_json::Value::from("u9"));
    claims.insert("email".to_string(), serde_json::Value::from("x@y.cm"));
    claims.insert("role".to_string(), serde_json::Value::from("chef"));
    claims.insert("iat".to_string(), serde_json::Value::from(now));
    claims.insert("exp".to_string(), serde_json::Value::from(now + 86400));
    let token = jsonwebtoken::encode(
        &jsonwebtoken::Header::default(),
        &claims,
        &jsonwebtoken::EncodingKey::from_secret(&secret),
    )
    .unwrap();
    let cookie = format!("mboa_session={}", token);
    match authorize_at("/api/orders", &cookie, &secret, now) {
        Access::Refused { status, body } => assert_eq!((status, body.error.as_str(), body.code.as_str()), (403, "Invalid role", "INVALID_ROLE")),
        other => panic!("{:?}", other),
    }
    assert!(matches!(authorize_at("/api/auth/me", &cookie, &secret, now), Access::Granted { .. }));
    claims.remove("email");
    let partial = jsonwebtoken::encode(
        &jsonwebtoken::Header::default(),
        &claims,
        &jsonwebtoken::EncodingKey::from_secret(&secret),
    )
    .unwrap();
    match authorize_at("/api/auth/me", &format!("mboa_session={}", partial), &secret, now) {
        Access::Refused { status, body } => assert_eq!((status, body.code.as_str()), (401, "INVALID_TOKEN")),
        other => panic!("{:?}", other),
    }
}
