//! First-start data: the administrator account with a generated password,
//! and a starter catalogue of 3 categories and 10 products. Each part is
//! created only while its table is empty.

use vstd::prelude::*;

use super::DbError;
use crate::clock::uuid_v7;
use crate::api::auth::{lemma_registered_password_logs_in, login_outcome};
use crate::domain::crypto::{hash_password, lemma_password_within_limit, password_accepted};
use crate::domain::DomainError;
use crate::domain::product::{category_problem, product_problem, Category, Product};
use crate::domain::user::{Role, User};
use crate::random::random_index;
use crate::text::{concat2, is_white_space, string_of, trim_end_seq, trim_seq, trim_start_seq};

verus! {

/// The characters of a generated password: letters and digits without the
/// easily confused `I`, `O`, `i`, `l`, `o`, `0` and `1`.
pub open spec fn password_alphabet() -> Seq<char> {
    "ABCDEFGHJKLMNPQRSTUVWXYZabcdefghjkmnpqrstuvwxyz23456789"@
}

/// A random 12-character administrator password over `password_alphabet`.
pub fn generate_admin_password() -> (r: String)
    ensures
        r@.len() == 12,
        forall|i: int| 0 <= i < 12 ==> password_alphabet().contains(#[trigger] r@[i]),
{
    let alphabet = "ABCDEFGHJKLMNPQRSTUVWXYZabcdefghjkmnpqrstuvwxyz23456789";
    proof {
        reveal_strlit("ABCDEFGHJKLMNPQRSTUVWXYZabcdefghjkmnpqrstuvwxyz23456789");
    }
    let n = alphabet.unicode_len();
    let mut out = String::new();
    let mut k: usize = 0;
    while k < 12
        invariant
            n == alphabet@.len(),
            alphabet@ == password_alphabet(),
            n == 55,
            k <= 12,
            out@.len() == k,
            forall|i: int| 0 <= i < k ==> password_alphabet().contains(#[trigger] out@[i]),
        decreases 12 - k,
    {
        let idx = random_index(n);
        let c = alphabet.substring_char(idx, idx + 1);
        let ghost before = out@;
        out.append(c);
        proof {
            assert(out@ == before + c@);
            assert(c@[0] == alphabet@[idx as int]);
            assert(out@[k as int] == alphabet@[idx as int]);
            assert forall|i: int| 0 <= i < k + 1 implies password_alphabet().contains(#[trigger] out@[i]) by {
                if i < k {
                    assert(out@[i] == before[i]);
                }
            }
        }
        k = k + 1;
    }
    out
}

/// Whether the administrator is seeded: only when no user exists.
pub fn admin_seed_needed(user_count: i64) -> (r: bool)
    ensures
        r == (user_count <= 0),
{
    user_count <= 0
}

/// Whether the catalogue is seeded: only when no category exists.
pub fn catalogue_seed_needed(category_count: i64) -> (r: bool)
    ensures
        r == (category_count <= 0),
{
    category_count <= 0
}

/// The seeded administrator and its password (shown once at first start).
#[derive(Debug, Clone)]
pub struct AdminSeed {
    pub user: User,
    pub password: String,
}

/// The administrator account of the first start: `admin@mboacaisse.local`,
/// named `Admin`, with a generated password whose Argon2 hash is stored.
/// Hashing a 12-character password does not fail, so this always succeeds.
pub fn plan_admin(now: String) -> (r: Result<AdminSeed, DbError>)
    ensures
        r is Ok,
        r matches Ok(s) ==> {
            &&& s.password@.len() == 12
            &&& forall|i: int| 0 <= i < 12 ==> password_alphabet().contains(#[trigger] s.password@[i])
            &&& password_accepted(s.password@, s.user.password_hash@)
            &&& s.user.email@ == "admin@mboacaisse.local"@
            &&& s.user.name@ == "Admin"@
            &&& s.user.role == Role::Admin
            &&& s.user.id@.len() == 36
            &&& s.user.created_at@ == now@ && s.user.updated_at@ == now@
        },
{
    let password = generate_admin_password();
    proof {
        lemma_password_within_limit(password@);
    }
    let password_hash = match hash_password(password.as_str()) {
        Ok(h) => h,
        Err(e) => return Err(DbError::Query(concat2("Failed to hash admin password: ", e.message().as_str()))),
    };
    let id = uuid_v7();
    let created_at = now.clone();
    let user = User {
        id,
        email: string_of("admin@mboacaisse.local"),
        password_hash,
        name: string_of("Admin"),
        role: Role::Admin,
        created_at,
        updated_at: now,
    };
    Ok(AdminSeed { user, password })
}

/// The names of the seeded categories, in order.
pub open spec fn seed_category_names() -> Seq<Seq<char>> {
    seq!["Boissons"@, "Plats"@, "Snacks"@]
}

/// The seeded products, in order: name, price, index of the category in
/// `seed_category_names`, stock and alert threshold.
pub open spec fn seed_product_table() -> Seq<(Seq<char>, i64, int, i64, i64)> {
    seq![
        ("Bière 33"@, 500i64, 0int, 50i64, 10i64),
        ("Bière 65"@, 700i64, 0int, 50i64, 10i64),
        ("Jus de fruits"@, 400i64, 0int, 30i64, 5i64),
        ("Eau minérale"@, 200i64, 0int, 100i64, 20i64),
        ("Planteur frites"@, 1500i64, 1int, 20i64, 5i64),
        ("Poulet braisé"@, 2000i64, 1int, 15i64, 3i64),
        ("Poisson braisé"@, 2500i64, 1int, 15i64, 3i64),
        ("Miondo"@, 500i64, 2int, 40i64, 10i64),
        ("Beignets (5 pcs)"@, 300i64, 2int, 50i64, 10i64),
        ("Brochettes (3 pcs)"@, 1000i64, 2int, 30i64, 8i64),
    ]
}

/// The starter catalogue.
#[derive(Debug, Clone)]
pub struct CatalogueSeed {
    pub categories: Vec<Category>,
    pub products: Vec<Product>,
}

fn seed_category(name: &str, now: &str) -> (r: Category)
    ensures
        r.name@ == name@,
        r.parent_id is None,
        r.id@.len() == 36,
        r.created_at@ == now@ && r.updated_at@ == now@,
{
    Category { id: uuid_v7(), name: string_of(name), parent_id: None, created_at: string_of(now), updated_at: string_of(now) }
}

fn seed_product(name: &str, price: i64, category: &Category, stock: i64, alert_threshold: i64, now: &str) -> (r: Product)
    ensures
        r.name@ == name@,
        r.price == price,
        r.category_id@ == category.id@,
        r.stock == stock,
        r.alert_threshold == alert_threshold,
        r.id@.len() == 36,
        r.created_at@ == now@ && r.updated_at@ == now@,
{
    Product {
        id: uuid_v7(),
        name: string_of(name),
        price,
        category_id: category.id.clone(),
        stock,
        alert_threshold,
        created_at: string_of(now),
        updated_at: string_of(now),
    }
}

/// Whether `p` is the seeded product described by `t`, in `categories`.
pub open spec fn seeded_as(p: Product, t: (Seq<char>, i64, int, i64, i64), categories: Seq<Category>, now: Seq<char>) -> bool {
    &&& p.name@ == t.0
    &&& p.price == t.1
    &&& p.category_id@ == categories[t.2].id@
    &&& p.stock == t.3
    &&& p.alert_threshold == t.4
    &&& p.id@.len() == 36
    &&& p.created_at@ == now && p.updated_at@ == now
}

/// The starter catalogue stamped `now`, each row with a fresh identifier.
pub fn plan_catalogue(now: &str) -> (r: CatalogueSeed)
    ensures
        r.categories@.len() == 3,
        forall|i: int| 0 <= i < 3 ==> {
            &&& (#[trigger] r.categories@[i]).name@ == seed_category_names()[i]
            &&& r.categories@[i].parent_id is None
            &&& r.categories@[i].id@.len() == 36
            &&& r.categories@[i].created_at@ == now@ && r.categories@[i].updated_at@ == now@
        },
        r.products@.len() == 10,
        forall|i: int| 0 <= i < 10 ==> seeded_as(#[trigger] r.products@[i], seed_product_table()[i], r.categories@, now@),
{
    let boissons = seed_category("Boissons", now);
    let plats = seed_category("Plats", now);
    let snacks = seed_category("Snacks", now);
    let mut products: Vec<Product> = Vec::new();
    products.push(seed_product("Bière 33", 500, &boissons, 50, 10, now));
    products.push(seed_product("Bière 65", 700, &boissons, 50, 10, now));
    products.push(seed_product("Jus de fruits", 400, &boissons, 30, 5, now));
    products.push(seed_product("Eau minérale", 200, &boissons, 100, 20, now));
    products.push(seed_product("Planteur frites", 1500, &plats, 20, 5, now));
    products.push(seed_product("Poulet braisé", 2000, &plats, 15, 3, now));
    products.push(seed_product("Poisson braisé", 2500, &plats, 15, 3, now));
    products.push(seed_product("Miondo", 500, &snacks, 40, 10, now));
    products.push(seed_product("Beignets (5 pcs)", 300, &snacks, 50, 10, now));
    products.push(seed_product("Brochettes (3 pcs)", 1000, &snacks, 30, 8, now));
    let categories = vec![boissons, plats, snacks];
    assert(categories@[0].name@ == seed_category_names()[0]);
    CatalogueSeed { categories, products }
}

proof fn lemma_untrimmed(s: Seq<char>)
    requires
        s.len() > 0,
        !is_white_space(s[0]),
        !is_white_space(s.last()),
    ensures
        trim_seq(s) == s,
{
    assert(trim_start_seq(s) == s);
    assert(trim_end_seq(s) == s);
}

/// The seed data passes the catalogue's own checks: no seeded category or
/// product has a problem that `Category::new` or `Product::new` would refuse.
pub proof fn lemma_seed_data_valid()
    ensures
        forall|i: int| 0 <= i < 3 ==> category_problem(#[trigger] seed_category_names()[i]) is None,
        forall|i: int| 0 <= i < 10 ==> {
            let t = #[trigger] seed_product_table()[i];
            product_problem(t.0, t.1, t.3, t.4) is None && 0 <= t.2 < 3
        },
{
    reveal_strlit("Boissons");
    reveal_strlit("Plats");
    reveal_strlit("Snacks");
    reveal_strlit("Bière 33");
    reveal_strlit("Bière 65");
    reveal_strlit("Jus de fruits");
    reveal_strlit("Eau minérale");
    reveal_strlit("Planteur frites");
    reveal_strlit("Poulet braisé");
    reveal_strlit("Poisson braisé");
    reveal_strlit("Miondo");
    reveal_strlit("Beignets (5 pcs)");
    reveal_strlit("Brochettes (3 pcs)");
    let names = seed_category_names();
    assert forall|i: int| 0 <= i < 3 implies category_problem(#[trigger] seed_category_names()[i]) is None by {
        lemma_untrimmed(names[i]);
    }
    let table = seed_product_table();
    assert forall|i: int| 0 <= i < 10 implies {
        let t = #[trigger] seed_product_table()[i];
        product_problem(t.0, t.1, t.3, t.4) is None && 0 <= t.2 < 3
    } by {
        lemma_untrimmed(table[i].0);
    }
}

/// The password shown at first start logs the seeded administrator in: a
/// login with it, for the stored account, succeeds.
pub proof fn lemma_seeded_admin_logs_in(seed: AdminSeed)
    requires
        password_accepted(seed.password@, seed.user.password_hash@),
    ensures
        login_outcome(Ok::<Option<User>, DomainError>(Some(seed.user)), seed.password@) == Ok::<User, (u16, Seq<char>, Seq<char>)>(seed.user),
{
    lemma_registered_password_logs_in(seed.user, seed.password@);
}

} // verus!
