//! The catalogue: products and (sub-)categories.

use vstd::prelude::*;

use super::{
    error_reply, error_response, is_reply, ErrorReply, BAD_REQUEST, INTERNAL_SERVER_ERROR,
    NOT_FOUND, UNAUTHORIZED, UNPROCESSABLE_ENTITY,
};
use crate::domain::product::{category_problem, product_problem, Category, Product};
use crate::domain::DomainError;
use crate::text::{clone_opt, decimal, opt_view, push_decimal_i64, string_of};

verus! {

/// Body of `POST /api/products`.
#[derive(Debug, Clone)]
pub struct CreateProductRequest {
    pub name: String,
    pub price: i64,
    pub category_id: String,
    pub stock: Option<i64>,
    pub alert_threshold: Option<i64>,
}

/// Body of `PUT /api/products/{id}`.
#[derive(Debug, Clone)]
pub struct UpdateProductRequest {
    pub name: String,
    pub price: i64,
    pub category_id: String,
    pub stock: Option<i64>,
    pub alert_threshold: Option<i64>,
}

/// A product in a reply.
#[derive(Debug, Clone)]
pub struct ProductResponse {
    pub id: String,
    pub name: String,
    pub price: i64,
    pub category_id: String,
    pub stock: i64,
    pub alert_threshold: i64,
    pub created_at: String,
    pub updated_at: String,
}

/// Body of `POST /api/categories`.
#[derive(Debug, Clone)]
pub struct CreateCategoryRequest {
    pub name: String,
    pub parent_id: Option<String>,
}

/// Body of `PUT /api/categories/{id}`.
#[derive(Debug, Clone)]
pub struct UpdateCategoryRequest {
    pub name: String,
    pub parent_id: Option<String>,
}

/// A category in a reply, with its direct children when requested.
#[derive(Debug)]
pub struct CategoryResponse {
    pub id: String,
    pub name: String,
    pub parent_id: Option<String>,
    pub created_at: String,
    pub updated_at: String,
    pub children: Option<Vec<CategoryResponse>>,
}

/// Query of `GET /api/products`.
#[derive(Debug, Clone)]
pub struct ProductQueryParams {
    pub category: Option<String>,
}

/// Stock given to a new product when the request names none.
pub const DEFAULT_STOCK: i64 = 0;

/// Alert threshold given to a new product when the request names none.
pub const DEFAULT_ALERT_THRESHOLD: i64 = 5;

impl ProductResponse {
    /// The reply form of a product (same fields).
    pub fn from(p: Product) -> (r: ProductResponse)
        ensures
            r.id == p.id && r.name == p.name && r.price == p.price && r.category_id == p.category_id
                && r.stock == p.stock && r.alert_threshold == p.alert_threshold && r.created_at
                == p.created_at && r.updated_at == p.updated_at,
    {
        ProductResponse {
            id: p.id,
            name: p.name,
            price: p.price,
            category_id: p.category_id,
            stock: p.stock,
            alert_threshold: p.alert_threshold,
            created_at: p.created_at,
            updated_at: p.updated_at,
        }
    }
}

/// Whether `r` shows category `c` without children.
pub open spec fn shows_category(r: CategoryResponse, c: Category) -> bool {
    &&& r.id@ == c.id@
    &&& r.name@ == c.name@
    &&& opt_view(r.parent_id) == opt_view(c.parent_id)
    &&& r.created_at@ == c.created_at@
    &&& r.updated_at@ == c.updated_at@
    &&& r.children is None
}

impl CategoryResponse {
    /// The reply form of a category, without children.
    pub fn from(c: Category) -> (r: CategoryResponse)
        ensures
            shows_category(r, c),
    {
        CategoryResponse {
            id: c.id,
            name: c.name,
            parent_id: c.parent_id,
            created_at: c.created_at,
            updated_at: c.updated_at,
            children: None,
        }
    }

    /// The reply form of a category with its direct children, in order.
    pub fn with_children(cat: Category, children: Vec<Category>) -> (r: CategoryResponse)
        ensures
            r.id == cat.id && r.name == cat.name && r.parent_id == cat.parent_id && r.created_at
                == cat.created_at && r.updated_at == cat.updated_at,
            r.children is Some,
            r.children->0@.len() == children@.len(),
            forall|k: int| 0 <= k < children@.len() ==> shows_category(#[trigger] r.children->0@[k], children@[k]),
    {
        let mut kids: Vec<CategoryResponse> = Vec::new();
        let mut i: usize = 0;
        while i < children.len()
            invariant
                i <= children@.len(),
                kids@.len() == i,
                forall|k: int| 0 <= k < i ==> shows_category(#[trigger] kids@[k], children@[k]),
            decreases children.len() - i,
        {
            let c = &children[i];
            kids.push(
                CategoryResponse {
                    id: c.id.clone(),
                    name: c.name.clone(),
                    parent_id: clone_opt(&c.parent_id),
                    created_at: c.created_at.clone(),
                    updated_at: c.updated_at.clone(),
                    children: None,
                },
            );
            i = i + 1;
        }
        CategoryResponse {
            id: cat.id,
            name: cat.name,
            parent_id: cat.parent_id,
            created_at: cat.created_at,
            updated_at: cat.updated_at,
            children: Some(kids),
        }
    }
}

/// The reply for a domain error on the catalogue endpoints.
pub open spec fn catalogue_error_reply(err: DomainError) -> (u16, Seq<char>, Seq<char>) {
    match err {
        DomainError::Unauthorized => (UNAUTHORIZED, "Unauthorized"@, "UNAUTHORIZED"@),
        DomainError::NotFound(m) => (NOT_FOUND, m@, "NOT_FOUND"@),
        DomainError::ProductNotFound => (NOT_FOUND, "Product not found"@, "PRODUCT_NOT_FOUND"@),
        DomainError::InvalidValue(m) => (BAD_REQUEST, m@, "INVALID_VALUE"@),
        _ => (INTERNAL_SERVER_ERROR, "Internal server error"@, "INTERNAL_ERROR"@),
    }
}

/// Maps a domain error to the reply of the catalogue endpoints.
pub fn domain_to_http(err: DomainError) -> (r: ErrorReply)
    ensures
        is_reply(r, catalogue_error_reply(err).0, catalogue_error_reply(err).1, catalogue_error_reply(err).2),
{
    match err {
        DomainError::Unauthorized => error_response("Unauthorized", "UNAUTHORIZED", UNAUTHORIZED),
        DomainError::NotFound(msg) => error_reply(msg, "NOT_FOUND", NOT_FOUND),
        DomainError::ProductNotFound => error_response("Product not found", "PRODUCT_NOT_FOUND", NOT_FOUND),
        DomainError::InvalidValue(msg) => error_reply(msg, "INVALID_VALUE", BAD_REQUEST),
        _ => error_response("Internal server error", "INTERNAL_ERROR", INTERNAL_SERVER_ERROR),
    }
}

/// The category a product refers to must exist.
pub fn require_category(found: bool) -> (r: Result<(), ErrorReply>)
    ensures
        r is Ok <==> found,
        r matches Err(e) ==> is_reply(e, UNPROCESSABLE_ENTITY, "Category not found"@, "CATEGORY_NOT_FOUND"@),
{
    if found {
        Ok(())
    } else {
        Err(error_response("Category not found", "CATEGORY_NOT_FOUND", UNPROCESSABLE_ENTITY))
    }
}

/// The product to create from a request whose category exists: stock 0 and
/// alert threshold 5 unless given, and the checks of `product_problem`.
pub fn product_from_request(req: CreateProductRequest, id: String, now: String) -> (r: Result<Product, ErrorReply>)
    ensures
        ({
            let stock = match req.stock { Some(s) => s, None => DEFAULT_STOCK };
            let alert = match req.alert_threshold { Some(a) => a, None => DEFAULT_ALERT_THRESHOLD };
            &&& r is Ok <==> product_problem(req.name@, req.price, stock, alert) is None
            &&& r matches Err(e) ==> is_reply(e, BAD_REQUEST, product_problem(req.name@, req.price, stock, alert)->0, "INVALID_VALUE"@)
            &&& r matches Ok(p) ==> p.id == id && p.name == req.name && p.price == req.price && p.category_id == req.category_id
                && p.stock == stock && p.alert_threshold == alert && p.created_at@ == now@ && p.updated_at@ == now@
        }),
{
    let stock = match req.stock {
        Some(s) => s,
        None => DEFAULT_STOCK,
    };
    let alert = match req.alert_threshold {
        Some(a) => a,
        None => DEFAULT_ALERT_THRESHOLD,
    };
    match Product::from_parts(id, now, req.name, req.price, req.category_id, stock, alert) {
        Ok(p) => Ok(p),
        Err(e) => Err(domain_to_http(e)),
    }
}

/// The category filter of the product list must not be empty when given.
pub fn check_category_filter(category: &Option<String>) -> (r: Result<(), ErrorReply>)
    ensures
        r is Ok <==> !(category is Some && category->0@.len() == 0),
        r matches Err(e) ==> is_reply(e, BAD_REQUEST, "category parameter is empty"@, "INVALID_CATEGORY"@),
{
    match category {
        Some(c) => {
            if c.as_str().unicode_len() == 0 {
                return Err(error_response("category parameter is empty", "INVALID_CATEGORY", BAD_REQUEST));
            }
            Ok(())
        },
        None => Ok(()),
    }
}

/// The product looked up, which must exist.
pub fn require_product(found: Option<Product>) -> (r: Result<Product, ErrorReply>)
    ensures
        found matches Some(p) ==> r == Ok::<Product, ErrorReply>(p),
        found is None ==> (r matches Err(e) && is_reply(e, NOT_FOUND, "Product not found"@, "PRODUCT_NOT_FOUND"@)),
{
    match found {
        Some(p) => Ok(p),
        None => Err(error_response("Product not found", "PRODUCT_NOT_FOUND", NOT_FOUND)),
    }
}

/// Applies an update request to an existing product: stock and alert
/// threshold keep their values unless given; the named category must exist;
/// then the checks of `product_problem`.
pub fn apply_product_update(product: Product, req: UpdateProductRequest, category_found: bool, now: String) -> (r: Result<Product, ErrorReply>)
    ensures
        ({
            let stock = match req.stock { Some(s) => s, None => product.stock };
            let alert = match req.alert_threshold { Some(a) => a, None => product.alert_threshold };
            &&& !category_found ==> (r matches Err(e) && is_reply(e, UNPROCESSABLE_ENTITY, "Category not found"@, "CATEGORY_NOT_FOUND"@))
            &&& category_found ==> (r is Ok <==> product_problem(req.name@, req.price, stock, alert) is None)
            &&& category_found && product_problem(req.name@, req.price, stock, alert) is Some ==> (r matches Err(e) && is_reply(
                e,
                BAD_REQUEST,
                product_problem(req.name@, req.price, stock, alert)->0,
                "INVALID_VALUE"@,
            ))
            &&& r matches Ok(p) ==> p.id == product.id && p.created_at == product.created_at && p.name == req.name
                && p.price == req.price && p.category_id == req.category_id && p.stock == stock
                && p.alert_threshold == alert && p.updated_at@ == now@
        }),
{
    let stock = match req.stock {
        Some(s) => s,
        None => product.stock,
    };
    let alert = match req.alert_threshold {
        Some(a) => a,
        None => product.alert_threshold,
    };
    if !category_found {
        return Err(error_response("Category not found", "CATEGORY_NOT_FOUND", UNPROCESSABLE_ENTITY));
    }
    let mut product = product;
    match product.update_at(now, req.name, req.price, req.category_id, stock, alert) {
        Ok(()) => Ok(product),
        Err(e) => Err(domain_to_http(e)),
    }
}

/// A parent category named in a request must exist.
pub fn require_parent(found: bool) -> (r: Result<(), ErrorReply>)
    ensures
        r is Ok <==> found,
        r matches Err(e) ==> is_reply(e, UNPROCESSABLE_ENTITY, "Parent category not found"@, "PARENT_CATEGORY_NOT_FOUND"@),
{
    if found {
        Ok(())
    } else {
        Err(error_response("Parent category not found", "PARENT_CATEGORY_NOT_FOUND", UNPROCESSABLE_ENTITY))
    }
}

/// A category cannot be its own parent.
pub fn check_parent_not_self(id: &str, parent_id: &Option<String>) -> (r: Result<(), ErrorReply>)
    ensures
        r is Ok <==> !(parent_id is Some && parent_id->0@ == id@),
        r matches Err(e) ==> is_reply(e, UNPROCESSABLE_ENTITY, "Category cannot be its own parent"@, "SELF_PARENT"@),
{
    match parent_id {
        Some(p) => {
            if crate::text::str_eq(p.as_str(), id) {
                return Err(error_response("Category cannot be its own parent", "SELF_PARENT", UNPROCESSABLE_ENTITY));
            }
            Ok(())
        },
        None => Ok(()),
    }
}

/// The category looked up, which must exist.
pub fn require_category_found(found: Option<Category>) -> (r: Result<Category, ErrorReply>)
    ensures
        found matches Some(c) ==> r == Ok::<Category, ErrorReply>(c),
        found is None ==> (r matches Err(e) && is_reply(e, NOT_FOUND, "Category not found"@, "CATEGORY_NOT_FOUND"@)),
{
    match found {
        Some(c) => Ok(c),
        None => Err(error_response("Category not found", "CATEGORY_NOT_FOUND", NOT_FOUND)),
    }
}

/// The category to create from a request (whose parent, if any, exists).
pub fn category_from_request(req: CreateCategoryRequest, id: String, now: String) -> (r: Result<Category, ErrorReply>)
    ensures
        r is Ok <==> category_problem(req.name@) is None,
        r matches Err(e) ==> is_reply(e, BAD_REQUEST, category_problem(req.name@)->0, "INVALID_VALUE"@),
        r matches Ok(c) ==> c.id == id && c.name == req.name && c.parent_id == req.parent_id && c.created_at@ == now@ && c.updated_at@ == now@,
{
    match Category::from_parts(id, now, req.name, req.parent_id) {
        Ok(c) => Ok(c),
        Err(e) => Err(domain_to_http(e)),
    }
}

/// Applies an update request to an existing category.
pub fn apply_category_update(category: Category, req: UpdateCategoryRequest, now: String) -> (r: Result<Category, ErrorReply>)
    ensures
        r is Ok <==> category_problem(req.name@) is None,
        r matches Err(e) ==> is_reply(e, BAD_REQUEST, category_problem(req.name@)->0, "INVALID_VALUE"@),
        r matches Ok(c) ==> c.id == category.id && c.created_at == category.created_at && c.name == req.name
            && c.parent_id == req.parent_id && c.updated_at@ == now@,
{
    let mut category = category;
    match category.update_at(now, req.name, req.parent_id) {
        Ok(()) => Ok(category),
        Err(e) => Err(domain_to_http(e)),
    }
}

/// Whether a category with these counts of products and of sub-categories may
/// be deleted: only when it has neither.
pub open spec fn category_deletable(products: i64, children: i64) -> bool {
    products <= 0 && children <= 0
}

/// The guards of deleting a category: no product attached (checked first),
/// then no sub-category.
pub fn check_category_deletable(product_count: i64, child_count: i64) -> (r: Result<(), ErrorReply>)
    ensures
        r is Ok <==> category_deletable(product_count, child_count),
        product_count > 0 ==> (r matches Err(e) && is_reply(
            e,
            UNPROCESSABLE_ENTITY,
            "Cannot delete category with "@ + decimal(product_count as int) + " product(s) attached"@,
            "CATEGORY_HAS_PRODUCTS"@,
        )),
        product_count <= 0 && child_count > 0 ==> (r matches Err(e) && is_reply(
            e,
            UNPROCESSABLE_ENTITY,
            "Cannot delete category with "@ + decimal(child_count as int) + " sub-categor(ies)"@,
            "CATEGORY_HAS_CHILDREN"@,
        )),
{
    if product_count > 0 {
        let mut m = string_of("Cannot delete category with ");
        push_decimal_i64(&mut m, product_count);
        m.append(" product(s) attached");
        return Err(error_reply(m, "CATEGORY_HAS_PRODUCTS", UNPROCESSABLE_ENTITY));
    }
    if child_count > 0 {
        let mut m = string_of("Cannot delete category with ");
        push_decimal_i64(&mut m, child_count);
        m.append(" sub-categor(ies)");
        return Err(error_reply(m, "CATEGORY_HAS_CHILDREN", UNPROCESSABLE_ENTITY));
    }
    Ok(())
}

} // verus!
