//! Users, their roles and the permissions each role grants.

use vstd::prelude::*;

use super::DomainError;
use crate::text::{all_ascii, ascii_lowercase, concat2, lowercase_of, str_eq, to_lowercase};

verus! {

/// A user of the point of sale.
#[derive(Debug, Clone)]
pub struct User {
    pub id: String,
    pub email: String,
    pub password_hash: String,
    pub name: String,
    pub role: Role,
    pub created_at: String,
    pub updated_at: String,
}

/// The four roles; permissions are derived from the role, never stored.
#[derive(Debug, Clone, Copy, PartialEq, Eq, Structural)]
pub enum Role {
    Admin,
    Caissier,
    Vendeur,
    GestionnaireStock,
}

/// Granular permissions checked on the API routes.
#[derive(Debug, Clone, Copy, PartialEq, Eq, Structural)]
pub enum Permission {
    /// Super-admin access: grants everything.
    All,
    /// Can process sales.
    Sell,
    /// Can view reports.
    ViewReports,
    /// Can manage users.
    ManageUsers,
    /// Can manage the product catalogue.
    ManageMenu,
    /// Can manage stock levels and alerts.
    ManageStock,
    /// Can view orders (kitchen display, order history).
    ViewOrders,
    /// Can manage system settings.
    ManageSettings,
}

/// The permissions granted to each role, in the order they are listed. The
/// stock manager looks after products and categories as well as stock.
pub open spec fn role_permissions(role: Role) -> Seq<Permission> {
    match role {
        Role::Admin => seq![
            Permission::All,
            Permission::Sell,
            Permission::ViewReports,
            Permission::ManageUsers,
            Permission::ManageMenu,
            Permission::ManageStock,
            Permission::ViewOrders,
            Permission::ManageSettings,
        ],
        Role::Caissier => seq![Permission::Sell, Permission::ViewReports, Permission::ViewOrders],
        Role::Vendeur => seq![Permission::ViewOrders, Permission::ManageMenu],
        Role::GestionnaireStock => seq![Permission::ManageStock, Permission::ViewReports, Permission::ManageMenu],
    }
}

/// Whether `role` grants `perm`: `All` in the role's list grants every
/// permission; otherwise the permission itself must be listed.
pub open spec fn role_grants(role: Role, perm: Permission) -> bool {
    role_permissions(role).contains(Permission::All) || role_permissions(role).contains(perm)
}

/// The database string of a role.
pub open spec fn role_name(role: Role) -> Seq<char> {
    match role {
        Role::Admin => "admin"@,
        Role::Caissier => "caissier"@,
        Role::Vendeur => "vendeur"@,
        Role::GestionnaireStock => "gestionnaire_stock"@,
    }
}

/// The role named by an already lower-cased keyword.
pub open spec fn role_keyword(k: Seq<char>) -> Option<Role> {
    if k == "admin"@ {
        Some(Role::Admin)
    } else if k == "caissier"@ {
        Some(Role::Caissier)
    } else if k == "vendeur"@ {
        Some(Role::Vendeur)
    } else if k == "gestionnaire_stock"@ || k == "gestionnairestock"@ {
        Some(Role::GestionnaireStock)
    } else {
        None
    }
}

impl Role {
    /// All permissions granted to this role.
    pub fn permissions(&self) -> (r: Vec<Permission>)
        ensures
            r@ == role_permissions(*self),
    {
        match self {
            Role::Admin => vec![
                Permission::All,
                Permission::Sell,
                Permission::ViewReports,
                Permission::ManageUsers,
                Permission::ManageMenu,
                Permission::ManageStock,
                Permission::ViewOrders,
                Permission::ManageSettings,
            ],
            Role::Caissier => vec![Permission::Sell, Permission::ViewReports, Permission::ViewOrders],
            Role::Vendeur => vec![Permission::ViewOrders, Permission::ManageMenu],
            Role::GestionnaireStock => vec![Permission::ManageStock, Permission::ViewReports, Permission::ManageMenu],
        }
    }

    /// The role named by a lower-cased keyword (`admin`, `caissier`, `vendeur`,
    /// `gestionnaire_stock` or `gestionnairestock`).
    pub fn from_keyword(k: &str) -> (r: Option<Role>)
        ensures
            r == role_keyword(k@),
    {
        if str_eq(k, "admin") {
            Some(Role::Admin)
        } else if str_eq(k, "caissier") {
            Some(Role::Caissier)
        } else if str_eq(k, "vendeur") {
            Some(Role::Vendeur)
        } else if str_eq(k, "gestionnaire_stock") || str_eq(k, "gestionnairestock") {
            Some(Role::GestionnaireStock)
        } else {
            None
        }
    }

    /// Parses a role from its database string, ignoring case.
    pub fn from_str(s: &str) -> (r: Result<Role, DomainError>)
        ensures
            r is Ok <==> role_keyword(lowercase_of(s@)) is Some,
            r matches Ok(role) ==> role_keyword(lowercase_of(s@)) == Some(role),
            all_ascii(s@) ==> lowercase_of(s@) == ascii_lowercase(s@),
            r matches Err(e) ==> e matches DomainError::InvalidValue(m) && m@ == "Unknown role: "@
                + s@,
    {
        let lower = to_lowercase(s);
        match Role::from_keyword(lower.as_str()) {
            Some(role) => Ok(role),
            None => Err(DomainError::InvalidValue(concat2("Unknown role: ", s))),
        }
    }

    /// Whether this role grants `perm`.
    pub fn has_permission(&self, perm: &Permission) -> (r: bool)
        ensures
            r == role_grants(*self, *perm),
    {
        let perms = self.permissions();
        let mut i: usize = 0;
        while i < perms.len()
            invariant
                perms@ == role_permissions(*self),
                i <= perms.len(),
                forall|k: int| 0 <= k < i ==> perms@[k] != Permission::All && perms@[k] != *perm,
            decreases perms.len() - i,
        {
            let p = perms[i];
            let granted = match (p, *perm) {
                (Permission::All, _) => true,
                (_, Permission::All) => false,
                _ => p == *perm,
            };
            if granted {
                assert(perms@[i as int] == p);
                return true;
            }
            i = i + 1;
        }
        false
    }

    /// The database string of this role.
    pub fn as_str(&self) -> (r: &'static str)
        ensures
            r@ == role_name(*self),
    {
        match self {
            Role::Admin => "admin",
            Role::Caissier => "caissier",
            Role::Vendeur => "vendeur",
            Role::GestionnaireStock => "gestionnaire_stock",
        }
    }
}

/// Storage of users; implemented over the database.
pub trait UserRepository: Send + Sync {
    /// Find a user by their email address.
    fn find_by_email(&self, email: &str) -> Result<Option<User>, DomainError>;

    /// Find a user by their identifier.
    fn find_by_id(&self, id: &str) -> Result<Option<User>, DomainError>;

    /// Create a new user.
    fn create(&self, user: &User) -> Result<(), DomainError>;

    /// Update an existing user.
    fn update(&self, user: &User) -> Result<(), DomainError>;

    /// Delete a user by identifier.
    fn delete(&self, id: &str) -> Result<(), DomainError>;

    /// List all users.
    fn list_all(&self) -> Result<Vec<User>, DomainError>;
}

/// The database name of every role reads back as that role.
pub proof fn lemma_role_name_round_trip(role: Role)
    ensures
        role_keyword(role_name(role)) == Some(role),
{
    reveal_strlit("admin");
    reveal_strlit("caissier");
    reveal_strlit("vendeur");
    reveal_strlit("gestionnaire_stock");
    reveal_strlit("gestionnairestock");
    assert("admin"@[0] != "caissier"@[0]);
    assert("admin"@[0] != "vendeur"@[0]);
    assert("admin"@[0] != "gestionnaire_stock"@[0]);
    assert("caissier"@[0] != "vendeur"@[0]);
    assert("caissier"@[0] != "gestionnaire_stock"@[0]);
    assert("vendeur"@[0] != "gestionnaire_stock"@[0]);
}

/// The administrator holds every permission, and `All` belongs to the
/// administrator alone.
pub proof fn lemma_admin_alone_holds_all(role: Role, perm: Permission)
    ensures
        role_grants(Role::Admin, perm),
        role_grants(role, Permission::All) <==> role == Role::Admin,
{
    assert(role_permissions(Role::Admin)[0] == Permission::All);
    if role != Role::Admin {
        assert(!role_permissions(role).contains(Permission::All)) by {
            if role_permissions(role).contains(Permission::All) {
                let i = choose|i: int| 0 <= i < role_permissions(role).len() && role_permissions(role)[i] == Permission::All;
            }
        }
    }
}

} // verus!
