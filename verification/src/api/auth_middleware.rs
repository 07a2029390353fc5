//! Access control for the API: which paths are public, which permission each
//! route needs, how the session cookie is read, and what a request is
//! answered before it reaches a handler.

use vstd::prelude::*;

use super::{FORBIDDEN, UNAUTHORIZED};
use crate::domain::jwt::{
    decode_token_at, now_epoch, lemma_issued_token_round_trip, refresh_due, session_token_for, token_decoding, ClaimsView,
    EXPIRY_LEEWAY_SECS, TOKEN_LIFETIME_SECS,
};
use crate::domain::user::{lemma_role_name_round_trip, role_name, User};
use crate::domain::user::{role_grants, role_keyword, role_permissions, Permission, Role};
use crate::text::{find_char, is_white_space, lowercase_of, starts_with, str_eq, string_of, trim, trim_seq};

verus! {

/// The authenticated user, as read from the session token.
#[derive(Debug, Clone)]
pub struct AuthUser {
    pub id: String,
    pub email: String,
    pub role: String,
}

/// The JSON body of a refused request.
#[derive(Debug, Clone)]
pub struct AuthError {
    pub error: String,
    pub code: String,
}

impl AuthError {
    /// A refusal body with this message and code.
    pub fn new(error: &str, code: &str) -> (r: AuthError)
        ensures
            r.error@ == error@,
            r.code@ == code@,
    {
        AuthError { error: string_of(error), code: string_of(code) }
    }
}

/// Whether `path` needs no session: every path outside `/api/`, and the
/// health, register and login endpoints.
pub open spec fn public_path(path: Seq<char>) -> bool {
    ||| !"/api/"@.is_prefix_of(path)
    ||| path == "/api/health"@
    ||| path == "/api/auth/register"@
    ||| path == "/api/auth/login"@
}

/// Whether `path` does not require authentication.
pub fn is_public_path(path: &str) -> (r: bool)
    ensures
        r == public_path(path@),
{
    if !starts_with(path, "/api/") {
        return true;
    }
    str_eq(path, "/api/health") || str_eq(path, "/api/auth/register") || str_eq(path, "/api/auth/login")
}

/// Whether `path` is `base` or lies below `base_slash` (`base` followed by `/`).
pub open spec fn route_under(path: Seq<char>, base: Seq<char>, base_slash: Seq<char>) -> bool {
    path == base || base_slash.is_prefix_of(path)
}

/// The permission a path requires: none for public paths and for logout and
/// me (a session suffices); the permission of its area for the known areas;
/// `All` (administrators only) for any other `/api/` path.
pub open spec fn route_permission(path: Seq<char>) -> Option<Permission> {
    if public_path(path) {
        None
    } else if path == "/api/auth/logout"@ || path == "/api/auth/me"@ {
        None
    } else if route_under(path, "/api/users"@, "/api/users/"@) {
        Some(Permission::ManageUsers)
    } else if route_under(path, "/api/settings"@, "/api/settings/"@) {
        Some(Permission::ManageSettings)
    } else if route_under(path, "/api/products"@, "/api/products/"@) || route_under(path, "/api/categories"@, "/api/categories/"@) {
        Some(Permission::ManageMenu)
    } else if route_under(path, "/api/orders"@, "/api/orders/"@) {
        Some(Permission::ViewOrders)
    } else if route_under(path, "/api/payments"@, "/api/payments/"@) {
        Some(Permission::Sell)
    } else if route_under(path, "/api/wallet"@, "/api/wallet/"@) {
        Some(Permission::Sell)
    } else if route_under(path, "/api/kitchen"@, "/api/kitchen/"@) {
        Some(Permission::ViewOrders)
    } else if route_under(path, "/api/reports"@, "/api/reports/"@) {
        Some(Permission::ViewReports)
    } else if route_under(path, "/api/stock"@, "/api/stock/"@) {
        Some(Permission::ManageStock)
    } else if "/api/"@.is_prefix_of(path) {
        Some(Permission::All)
    } else {
        None
    }
}

fn under(path: &str, base: &str, base_slash: &str) -> (r: bool)
    ensures
        r == route_under(path@, base@, base_slash@),
{
    str_eq(path, base) || starts_with(path, base_slash)
}

/// The permission required for `path` (see `route_permission`).
pub fn required_permission(path: &str) -> (r: Option<Permission>)
    ensures
        r == route_permission(path@),
{
    if is_public_path(path) {
        return None;
    }
    if str_eq(path, "/api/auth/logout") || str_eq(path, "/api/auth/me") {
        return None;
    }
    if under(path, "/api/users", "/api/users/") {
        return Some(Permission::ManageUsers);
    }
    if under(path, "/api/settings", "/api/settings/") {
        return Some(Permission::ManageSettings);
    }
    if under(path, "/api/products", "/api/products/") || under(path, "/api/categories", "/api/categories/") {
        return Some(Permission::ManageMenu);
    }
    if under(path, "/api/orders", "/api/orders/") {
        return Some(Permission::ViewOrders);
    }
    if under(path, "/api/payments", "/api/payments/") {
        return Some(Permission::Sell);
    }
    if under(path, "/api/wallet", "/api/wallet/") {
        return Some(Permission::Sell);
    }
    if under(path, "/api/kitchen", "/api/kitchen/") {
        return Some(Permission::ViewOrders);
    }
    if under(path, "/api/reports", "/api/reports/") {
        return Some(Permission::ViewReports);
    }
    if under(path, "/api/stock", "/api/stock/") {
        return Some(Permission::ManageStock);
    }
    if starts_with(path, "/api/") {
        return Some(Permission::All);
    }
    None
}

/// The pieces of `s` between occurrences of `sep` (what `str::split` yields):
/// one more piece than there are separators, empty pieces included.
pub open spec fn split_pieces(s: Seq<char>, sep: char) -> Seq<Seq<char>>
    decreases s.len(),
{
    if s.len() == 0 {
        seq![Seq::<char>::empty()]
    } else {
        let p = split_pieces(s.drop_last(), sep);
        if s.last() == sep {
            p.push(Seq::<char>::empty())
        } else {
            p.update(p.len() - 1, p.last().push(s.last()))
        }
    }
}

/// The value of the cookie pair `piece` when its name is `name`: the piece is
/// trimmed and split at its first `=`, and both sides are trimmed.
pub open spec fn cookie_pair_value(piece: Seq<char>, name: Seq<char>) -> Option<Seq<char>> {
    let t = trim_seq(piece);
    match t.index_of_first('=') {
        Some(k) => if trim_seq(t.take(k)) == name {
            Some(trim_seq(t.skip(k + 1)))
        } else {
            None
        },
        None => None,
    }
}

/// The value of the first of `pieces` that is a pair named `name`.
pub open spec fn first_cookie(pieces: Seq<Seq<char>>, name: Seq<char>) -> Option<Seq<char>>
    decreases pieces.len(),
{
    if pieces.len() == 0 {
        None
    } else if cookie_pair_value(pieces[0], name) is Some {
        cookie_pair_value(pieces[0], name)
    } else {
        first_cookie(pieces.drop_first(), name)
    }
}

/// The value of the cookie `name` in a `Cookie` header: the first of its
/// `;`-separated pairs with that name.
pub open spec fn cookie_value(header: Seq<char>, name: Seq<char>) -> Option<Seq<char>> {
    first_cookie(split_pieces(header, ';'), name)
}

proof fn lemma_split_pieces_nonempty(s: Seq<char>, sep: char)
    ensures
        split_pieces(s, sep).len() >= 1,
    decreases s.len(),
{
    if s.len() > 0 {
        lemma_split_pieces_nonempty(s.drop_last(), sep);
    }
}

proof fn lemma_first_cookie_push(p: Seq<Seq<char>>, x: Seq<char>, name: Seq<char>)
    ensures
        first_cookie(p.push(x), name) == if first_cookie(p, name) is Some {
            first_cookie(p, name)
        } else {
            cookie_pair_value(x, name)
        },
    decreases p.len(),
{
    if p.len() == 0 {
        assert(p.push(x).drop_first() =~= Seq::<Seq<char>>::empty());
        assert(p.push(x)[0] == x);
        assert(first_cookie(Seq::<Seq<char>>::empty(), name) is None);
    } else {
        assert(p.push(x)[0] == p[0]);
        assert(p.push(x).drop_first() =~= p.drop_first().push(x));
        lemma_first_cookie_push(p.drop_first(), x, name);
    }
}

fn pair_value<'a>(piece: &'a str, name: &str) -> (r: Option<&'a str>)
    ensures
        r matches Some(v) ==> cookie_pair_value(piece@, name@) == Some(v@),
        r is None ==> cookie_pair_value(piece@, name@) is None,
{
    let t = trim(piece);
    let ghost ts = t@;
    let n = t.unicode_len();
    proof {
        ts.index_of_first_ensures('=');
    }
    match find_char(t, '=') {
        None => None,
        Some(k) => {
            proof {
                assert(ts[k as int] == '=');
                assert(ts.contains('='));
                let idx = ts.index_of_first('=')->0;
                if idx < k {
                    assert(ts[idx] == '=');
                }
                if k < idx {
                    assert(ts[k as int] == '=');
                }
            }
            let key = trim(t.substring_char(0, k));
            assert(t@.subrange(0, k as int) =~= ts.take(k as int));
            if str_eq(key, name) {
                let value = trim(t.substring_char(k + 1, n));
                assert(t@.subrange(k + 1, n as int) =~= ts.skip(k + 1));
                Some(value)
            } else {
                None
            }
        },
    }
}

/// The value of the cookie `name` in the `Cookie` header `cookie_header`.
pub fn extract_cookie<'a>(cookie_header: &'a str, name: &str) -> (r: Option<&'a str>)
    ensures
        r matches Some(v) ==> cookie_value(cookie_header@, name@) == Some(v@),
        r is None ==> cookie_value(cookie_header@, name@) is None,
{
    let ghost h = cookie_header@;
    let n = cookie_header.unicode_len();
    let mut found: Option<&'a str> = None;
    let mut start: usize = 0;
    let mut i: usize = 0;
    let ghost mut done: Seq<Seq<char>> = Seq::empty();
    assert(h.take(0) =~= Seq::<char>::empty());
    assert(split_pieces(h.take(0), ';') =~= done.push(h.subrange(0, 0)));
    while i < n
        invariant
            h == cookie_header@,
            n == h.len(),
            start <= i <= n,
            split_pieces(h.take(i as int), ';') == done.push(h.subrange(start as int, i as int)),
            found matches Some(v) ==> first_cookie(done, name@) == Some(v@),
            found is None ==> first_cookie(done, name@) is None,
        decreases n - i,
    {
        let c = cookie_header.get_char(i);
        let ghost prev = split_pieces(h.take(i as int), ';');
        assert(h.take(i + 1).drop_last() =~= h.take(i as int));
        assert(h.take(i + 1).last() == c);
        proof {
            lemma_split_pieces_nonempty(h.take(i as int), ';');
        }
        if c == ';' {
            let piece = cookie_header.substring_char(start, i);
            proof {
                lemma_first_cookie_push(done, piece@, name@);
            }
            if found.is_none() {
                found = pair_value(piece, name);
            }
            proof {
                assert(split_pieces(h.take(i + 1), ';') == prev.push(Seq::<char>::empty()));
                done = done.push(piece@);
                assert(h.subrange(i + 1, i + 1) =~= Seq::<char>::empty());
            }
            start = i + 1;
        } else {
            proof {
                assert(h.subrange(start as int, i as int).push(c) =~= h.subrange(start as int, i + 1));
                assert(prev.update(prev.len() - 1, prev.last().push(c)) =~= done.push(h.subrange(start as int, i + 1)));
            }
        }
        i = i + 1;
    }
    let last = cookie_header.substring_char(start, n);
    proof {
        lemma_first_cookie_push(done, last@, name@);
        assert(h.take(n as int) =~= h);
    }
    if found.is_none() {
        found = pair_value(last, name);
    }
    found
}

/// What a request to the API is answered before its handler runs.
#[derive(Debug, Clone)]
pub enum Access {
    /// The path is public: the request goes through without a session.
    Public,
    /// The request is refused with this status and body.
    Refused { status: u16, body: AuthError },
    /// The session is valid and allows the path; the token is to be renewed
    /// after the handler when `refresh` is set.
    Granted { user: AuthUser, token: String, refresh: bool },
}

/// The name of the session cookie.
pub open spec fn session_cookie_name() -> Seq<char> {
    "mboa_session"@
}

/// Whether `a` refuses with this status, message and code.
pub open spec fn refuses(a: Access, status: u16, error: Seq<char>, code: Seq<char>) -> bool {
    a matches Access::Refused { status: s, body } && s == status && body.error@ == error && body.code@ == code
}

/// Whether `a` grants the session described by `c` (a decoded token), with
/// the given refresh flag.
pub open spec fn grants(a: Access, token: Seq<char>, c: ClaimsView, refresh: bool) -> bool {
    a matches Access::Granted { user, token: t, refresh: f } && user.id@ == c.0 && user.email@ == c.1
        && user.role@ == c.2 && t@ == token && f == refresh
}

/// What the decoded claims `c` allow on `path` at time `now`: a route that
/// needs a permission needs a known role (403 `INVALID_ROLE`) that grants it
/// (403 `FORBIDDEN`).
pub open spec fn claims_allow(path: Seq<char>, c: ClaimsView) -> Option<(Seq<char>, Seq<char>)> {
    match route_permission(path) {
        Some(p) => match role_keyword(lowercase_of(c.2)) {
            None => Some(("Invalid role"@, "INVALID_ROLE"@)),
            Some(role) => if role_grants(role, p) {
                None
            } else {
                Some(("Forbidden"@, "FORBIDDEN"@))
            },
        },
        None => None,
    }
}

fn refuse(status: u16, error: &str, code: &str) -> (r: Access)
    ensures
        refuses(r, status, error@, code@),
{
    Access::Refused { status, body: AuthError::new(error, code) }
}

/// The access decision for a request to `path` with the `Cookie` header
/// `header`, the token being checked against `secret` at time `now`.
pub open spec fn access_decided(r: Access, path: Seq<char>, header: Seq<char>, secret: Seq<u8>, now: u64) -> bool {
    if public_path(path) {
        r is Public
    } else {
        match cookie_value(header, session_cookie_name()) {
            None => refuses(r, UNAUTHORIZED, "Authentication required"@, "UNAUTHORIZED"@),
            Some(t) => match token_decoding(t, secret, now) {
                Err(m) => if m == "TOKEN_EXPIRED"@ {
                    refuses(r, UNAUTHORIZED, "Token expired"@, "TOKEN_EXPIRED"@)
                } else {
                    refuses(r, UNAUTHORIZED, "Invalid token"@, "INVALID_TOKEN"@)
                },
                Ok(c) => match claims_allow(path, c) {
                    Some((e, code)) => refuses(r, FORBIDDEN, e, code),
                    None => grants(r, t, c, refresh_due(c.4, now)),
                },
            },
        }
    }
}

/// The access decision for a request to `path` carrying the `Cookie` header
/// `cookie_header`, with the token checked against `secret` at time `now`:
/// public paths pass; otherwise the `mboa_session` cookie must be present
/// (401 `UNAUTHORIZED`), its token valid (401 `TOKEN_EXPIRED` for an expired
/// one, 401 `INVALID_TOKEN` for any other failure), and its role must grant
/// the route's permission (403).
pub fn authorize_at(path: &str, cookie_header: &str, secret: &[u8], now: u64) -> (r: Access)
    ensures
        access_decided(r, path@, cookie_header@, secret@, now),
{
    if is_public_path(path) {
        return Access::Public;
    }
    let token = match extract_cookie(cookie_header, "mboa_session") {
        Some(t) => t,
        None => return refuse(UNAUTHORIZED, "Authentication required", "UNAUTHORIZED"),
    };
    let claims = match decode_token_at(token, secret, now) {
        Ok(c) => c,
        Err(err) => {
            if str_eq(err.as_str(), "TOKEN_EXPIRED") {
                return refuse(UNAUTHORIZED, "Token expired", "TOKEN_EXPIRED");
            } else {
                return refuse(UNAUTHORIZED, "Invalid token", "INVALID_TOKEN");
            }
        },
    };
    if let Some(required) = required_permission(path) {
        let role = match Role::from_str(claims.role.as_str()) {
            Ok(role) => role,
            Err(_) => return refuse(FORBIDDEN, "Invalid role", "INVALID_ROLE"),
        };
        if !role.has_permission(&required) {
            return refuse(FORBIDDEN, "Forbidden", "FORBIDDEN");
        }
    }
    let refresh = claims.should_refresh_at(now);
    Access::Granted {
        user: AuthUser { id: claims.sub, email: claims.email, role: claims.role },
        token: string_of(token),
        refresh,
    }
}

/// The access decision for a request, the token being checked at the
/// current time (see `authorize_at`).
pub fn authorize(path: &str, cookie_header: &str, secret: &[u8]) -> (r: Access)
    ensures
        exists|now: u64| #[trigger] access_decided(r, path@, cookie_header@, secret@, now),
{
    let now = now_epoch();
    let r = authorize_at(path, cookie_header, secret, now);
    assert(access_decided(r, path@, cookie_header@, secret@, now));
    r
}

proof fn lemma_split_without_separator(s: Seq<char>, sep: char)
    requires
        forall|i: int| 0 <= i < s.len() ==> s[i] != sep,
    ensures
        split_pieces(s, sep) == seq![s],
    decreases s.len(),
{
    if s.len() > 0 {
        lemma_split_without_separator(s.drop_last(), sep);
        assert(s.drop_last().push(s.last()) =~= s);
    } else {
        assert(s =~= Seq::<char>::empty());
    }
}

proof fn lemma_trim_without_white_space(s: Seq<char>)
    requires
        forall|i: int| 0 <= i < s.len() ==> !is_white_space(#[trigger] s[i]),
    ensures
        trim_seq(s) == s,
{
    if s.len() > 0 {
        assert(!is_white_space(s[0]));
        assert(!is_white_space(s[s.len() - 1]));
    }
}

/// Whether `t` can travel as a cookie value unchanged: no `;` and no white
/// space (true of every HS256 token, which is base64url text and dots).
pub open spec fn plain_cookie_value(t: Seq<char>) -> bool {
    forall|i: int| 0 <= i < t.len() ==> t[i] != ';' && !is_white_space(#[trigger] t[i])
}

/// A session survives the round trip through the browser: the token that a
/// login or a registration signed for `user` at time `issued`, sent back as
/// the `mboa_session` cookie, is never refused with 401 before it expires,
/// and a granted request carries that user's claims. When the user's role
/// allows the route (and its name reads back as itself once lower-cased, as
/// every role name is lower-case ASCII), the request is let through.
pub proof fn lemma_session_cookie_accepted(
    r: Access,
    path: Seq<char>,
    token: Seq<char>,
    secret: Seq<u8>,
    user: User,
    issued: u64,
    now: u64,
)
    requires
        session_token_for(token, secret, user, issued),
        plain_cookie_value(token),
        now <= issued + TOKEN_LIFETIME_SECS + EXPIRY_LEEWAY_SECS,
        access_decided(r, path, "mboa_session="@ + token, secret, now),
    ensures
        !(r matches Access::Refused { status, .. } && status == UNAUTHORIZED),
        r matches Access::Granted { user: u, .. } ==> u.id@ == user.id@ && u.email@ == user.email@ && u.role@ == role_name(user.role),
        (lowercase_of(role_name(user.role)) == role_name(user.role) && match route_permission(path) {
            Some(p) => role_grants(user.role, p),
            None => true,
        }) ==> (r is Public || r is Granted),
{
    let h = "mboa_session="@ + token;
    reveal_strlit("mboa_session=");
    reveal_strlit("mboa_session");
    assert(h.len() == 13 + token.len());
    assert forall|i: int| 0 <= i < h.len() implies h[i] != ';' by {
        if i >= 13 {
            assert(h[i] == token[i - 13]);
        }
    }
    lemma_split_without_separator(h, ';');
    assert forall|i: int| 0 <= i < h.len() implies !is_white_space(#[trigger] h[i]) by {
        if i >= 13 {
            assert(h[i] == token[i - 13]);
        }
    }
    lemma_trim_without_white_space(h);
    h.index_of_first_ensures('=');
    assert(h[12] == '=');
    assert(h.contains('='));
    let k = h.index_of_first('=')->0;
    if k < 12 {
        assert(h[k] == "mboa_session="@[k]);
    }
    if k > 12 {
        assert(h[12] == '=');
    }
    assert(k == 12);
    assert(h.take(12) =~= "mboa_session"@);
    assert forall|i: int| 0 <= i < 12 implies !is_white_space(#[trigger] h.take(12)[i]) by {}
    lemma_trim_without_white_space(h.take(12));
    assert(h.skip(13) =~= token);
    assert forall|i: int| 0 <= i < token.len() implies !is_white_space(#[trigger] token[i]) by {}
    lemma_trim_without_white_space(token);
    assert(cookie_pair_value(h, "mboa_session"@) == Some(token));
    assert(seq![h].drop_first() =~= Seq::<Seq<char>>::empty());
    assert(cookie_value(h, session_cookie_name()) == Some(token));
    lemma_issued_token_round_trip(token, secret, user.id@, user.email@, role_name(user.role), issued, now);
    lemma_role_name_round_trip(user.role);
}

/// The order endpoints (`/api/orders` and every path below it) require
/// `ViewOrders`, so the roles holding it (cashier and vendeur, and the
/// administrator) reach them, and the stock manager, which does not, is kept
/// out.
pub proof fn lemma_order_routes_need_view_orders(path: Seq<char>)
    requires
        path == "/api/orders"@ || "/api/orders/"@.is_prefix_of(path),
    ensures
        route_permission(path) == Some(Permission::ViewOrders),
        role_grants(Role::Vendeur, route_permission(path)->0),
        role_grants(Role::Caissier, route_permission(path)->0),
        role_grants(Role::Admin, route_permission(path)->0),
        !role_grants(Role::GestionnaireStock, route_permission(path)->0),
{
    reveal_strlit("/api/orders");
    reveal_strlit("/api/orders/");
    reveal_strlit("/api/");
    reveal_strlit("/api/health");
    reveal_strlit("/api/auth/register");
    reveal_strlit("/api/auth/login");
    reveal_strlit("/api/auth/logout");
    reveal_strlit("/api/auth/me");
    reveal_strlit("/api/users");
    reveal_strlit("/api/users/");
    reveal_strlit("/api/settings");
    reveal_strlit("/api/settings/");
    reveal_strlit("/api/products");
    reveal_strlit("/api/products/");
    reveal_strlit("/api/categories");
    reveal_strlit("/api/categories/");
    assert(path.len() >= 11);
    if path != "/api/orders"@ {
        assert(path.subrange(0, 12) =~= "/api/orders/"@);
        assert(path.subrange(0, 12)[5] == path[5]);
        assert(path.subrange(0, 12)[6] == path[6]);
        assert(path.subrange(0, 12)[1] == path[1]);
    }
    assert(path[5] == 'o' && path[6] == 'r');
    assert("/api/"@.is_prefix_of(path)) by {
        assert(path.subrange(0, 5) =~= "/api/"@);
    }
    assert(!public_path(path));
    assert(!route_under(path, "/api/users"@, "/api/users/"@)) by {
        assert("/api/users"@[5] == 'u');
        assert("/api/users/"@[5] == 'u');
        if "/api/users/"@.is_prefix_of(path) {
            assert(path.subrange(0, 11)[5] == path[5]);
        }
    }
    assert(!route_under(path, "/api/settings"@, "/api/settings/"@)) by {
        if "/api/settings/"@.is_prefix_of(path) {
            assert(path.subrange(0, 14)[5] == path[5]);
        }
    }
    assert(!route_under(path, "/api/products"@, "/api/products/"@)) by {
        if "/api/products/"@.is_prefix_of(path) {
            assert(path.subrange(0, 14)[6] == path[6]);
        }
    }
    assert(!route_under(path, "/api/categories"@, "/api/categories/"@)) by {
        if "/api/categories/"@.is_prefix_of(path) {
            assert(path.subrange(0, 16)[5] == path[5]);
        }
    }
    assert(role_permissions(Role::Vendeur)[0] == Permission::ViewOrders);
    assert(role_permissions(Role::Caissier)[2] == Permission::ViewOrders);
    assert(role_permissions(Role::Admin)[0] == Permission::All);
}

/// A path under an area agrees with the area's base on its first seven
/// characters (`/api/` and the two that follow).
proof fn lemma_under_agrees(path: Seq<char>, base: Seq<char>, base_slash: Seq<char>)
    requires
        route_under(path, base, base_slash),
        base.len() >= 7,
        base_slash.len() == base.len() + 1,
        base_slash.subrange(0, base.len() as int) == base,
    ensures
        path.len() >= 7,
        path[5] == base[5],
        path[6] == base[6],
        path.subrange(0, 5) == base.subrange(0, 5),
{
    if path != base {
        assert(path.subrange(0, base_slash.len() as int)[5] == path[5]);
        assert(path.subrange(0, base_slash.len() as int)[6] == path[6]);
        assert(base_slash.subrange(0, base.len() as int)[5] == base_slash[5]);
        assert(base_slash.subrange(0, base.len() as int)[6] == base_slash[6]);
        assert(path.subrange(0, 5) =~= path.subrange(0, base_slash.len() as int).subrange(0, 5));
        assert(base.subrange(0, 5) =~= base_slash.subrange(0, 5));
    }
}

/// The permission of each area of the API, for `base` and every path below
/// `base/`: payments and wallets need `Sell`, the kitchen display
/// `ViewOrders`, reports `ViewReports`, stock `ManageStock`, products and
/// categories `ManageMenu`, settings `ManageSettings` and users
/// `ManageUsers`.
pub proof fn lemma_area_permissions(path: Seq<char>)
    ensures
        route_under(path, "/api/payments"@, "/api/payments/"@) ==> route_permission(path) == Some(Permission::Sell),
        route_under(path, "/api/wallet"@, "/api/wallet/"@) ==> route_permission(path) == Some(Permission::Sell),
        route_under(path, "/api/kitchen"@, "/api/kitchen/"@) ==> route_permission(path) == Some(Permission::ViewOrders),
        route_under(path, "/api/reports"@, "/api/reports/"@) ==> route_permission(path) == Some(Permission::ViewReports),
        route_under(path, "/api/stock"@, "/api/stock/"@) ==> route_permission(path) == Some(Permission::ManageStock),
        route_under(path, "/api/products"@, "/api/products/"@) ==> route_permission(path) == Some(Permission::ManageMenu),
        route_under(path, "/api/categories"@, "/api/categories/"@) ==> route_permission(path) == Some(Permission::ManageMenu),
        route_under(path, "/api/settings"@, "/api/settings/"@) ==> route_permission(path) == Some(Permission::ManageSettings),
        route_under(path, "/api/users"@, "/api/users/"@) ==> route_permission(path) == Some(Permission::ManageUsers),
{
    reveal_strlit("/api/");
    reveal_strlit("/api/health");
    reveal_strlit("/api/auth/register");
    reveal_strlit("/api/auth/login");
    reveal_strlit("/api/auth/logout");
    reveal_strlit("/api/auth/me");
    reveal_strlit("/api/users");
    reveal_strlit("/api/users/");
    reveal_strlit("/api/settings");
    reveal_strlit("/api/settings/");
    reveal_strlit("/api/products");
    reveal_strlit("/api/products/");
    reveal_strlit("/api/categories");
    reveal_strlit("/api/categories/");
    reveal_strlit("/api/orders");
    reveal_strlit("/api/orders/");
    reveal_strlit("/api/payments");
    reveal_strlit("/api/payments/");
    reveal_strlit("/api/wallet");
    reveal_strlit("/api/wallet/");
    reveal_strlit("/api/kitchen");
    reveal_strlit("/api/kitchen/");
    reveal_strlit("/api/reports");
    reveal_strlit("/api/reports/");
    reveal_strlit("/api/stock");
    reveal_strlit("/api/stock/");
    if route_under(path, "/api/users"@, "/api/users/"@) {
        assert("/api/users/"@.subrange(0, 10) =~= "/api/users"@);
        lemma_under_agrees(path, "/api/users"@, "/api/users/"@);
    }
    if route_under(path, "/api/settings"@, "/api/settings/"@) {
        assert("/api/settings/"@.subrange(0, 13) =~= "/api/settings"@);
        lemma_under_agrees(path, "/api/settings"@, "/api/settings/"@);
    }
    if route_under(path, "/api/products"@, "/api/products/"@) {
        assert("/api/products/"@.subrange(0, 13) =~= "/api/products"@);
        lemma_under_agrees(path, "/api/products"@, "/api/products/"@);
    }
    if route_under(path, "/api/categories"@, "/api/categories/"@) {
        assert("/api/categories/"@.subrange(0, 15) =~= "/api/categories"@);
        lemma_under_agrees(path, "/api/categories"@, "/api/categories/"@);
    }
    if route_under(path, "/api/orders"@, "/api/orders/"@) {
        assert("/api/orders/"@.subrange(0, 11) =~= "/api/orders"@);
        lemma_under_agrees(path, "/api/orders"@, "/api/orders/"@);
    }
    if route_under(path, "/api/payments"@, "/api/payments/"@) {
        assert("/api/payments/"@.subrange(0, 13) =~= "/api/payments"@);
        lemma_under_agrees(path, "/api/payments"@, "/api/payments/"@);
    }
    if route_under(path, "/api/wallet"@, "/api/wallet/"@) {
        assert("/api/wallet/"@.subrange(0, 11) =~= "/api/wallet"@);
        lemma_under_agrees(path, "/api/wallet"@, "/api/wallet/"@);
    }
    if route_under(path, "/api/kitchen"@, "/api/kitchen/"@) {
        assert("/api/kitchen/"@.subrange(0, 12) =~= "/api/kitchen"@);
        lemma_under_agrees(path, "/api/kitchen"@, "/api/kitchen/"@);
    }
    if route_under(path, "/api/reports"@, "/api/reports/"@) {
        assert("/api/reports/"@.subrange(0, 12) =~= "/api/reports"@);
        lemma_under_agrees(path, "/api/reports"@, "/api/reports/"@);
    }
    if route_under(path, "/api/stock"@, "/api/stock/"@) {
        assert("/api/stock/"@.subrange(0, 10) =~= "/api/stock"@);
        lemma_under_agrees(path, "/api/stock"@, "/api/stock/"@);
    }
    if path.len() >= 7 && path.subrange(0, 5) == "/api/"@.subrange(0, 5) {
        assert("/api/"@.subrange(0, 5) =~= "/api/"@);
        assert("/api/"@.is_prefix_of(path));
    }
    assert("/api/health"@[5] == 'h' && "/api/auth/register"@[5] == 'a' && "/api/auth/login"@[5] == 'a');
    assert("/api/auth/logout"@[5] == 'a' && "/api/auth/me"@[5] == 'a');
}

/// Under `/api/`, only health, register and login go without a session;
/// every other API path but logout and me needs a permission; and the
/// administrator holds the permission of every route.
pub proof fn lemma_route_rules(path: Seq<char>)
    requires
        "/api/"@.is_prefix_of(path),
    ensures
        public_path(path) <==> (path == "/api/health"@ || path == "/api/auth/register"@ || path == "/api/auth/login"@),
        !public_path(path) && path != "/api/auth/logout"@ && path != "/api/auth/me"@ ==> route_permission(path) is Some,
        route_permission(path) matches Some(p) ==> role_grants(Role::Admin, p),
{
    if route_permission(path) is Some {
        crate::domain::user::lemma_admin_alone_holds_all(Role::Admin, route_permission(path)->0);
    }
}

} // verus!
