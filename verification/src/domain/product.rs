//! Products and categories of the catalogue.

use vstd::prelude::*;

use super::DomainError;
use crate::clock::{now_iso, uuid_v7};
use crate::text::{string_of, trim, trim_seq};

verus! {

/// A product sold by the establishment; prices are in FCFA.
#[derive(Debug, Clone)]
pub struct Product {
    pub id: String,
    pub name: String,
    pub price: i64,
    pub category_id: String,
    pub stock: i64,
    pub alert_threshold: i64,
    pub created_at: String,
    pub updated_at: String,
}

/// A category (or sub-category) organising products.
#[derive(Debug, Clone)]
pub struct Category {
    pub id: String,
    pub name: String,
    pub parent_id: Option<String>,
    pub created_at: String,
    pub updated_at: String,
}

/// What is wrong with the fields of a product, checked in this order: a name
/// that is blank once trimmed, then a negative price, stock or alert threshold.
pub open spec fn product_problem(name: Seq<char>, price: i64, stock: i64, alert_threshold: i64) -> Option<Seq<char>> {
    if trim_seq(name).len() == 0 {
        Some("Product name cannot be empty"@)
    } else if price < 0 {
        Some("Product price cannot be negative"@)
    } else if stock < 0 {
        Some("Stock cannot be negative"@)
    } else if alert_threshold < 0 {
        Some("Alert threshold cannot be negative"@)
    } else {
        None
    }
}

/// What is wrong with the name of a category, if anything.
pub open spec fn category_problem(name: Seq<char>) -> Option<Seq<char>> {
    if trim_seq(name).len() == 0 {
        Some("Category name cannot be empty"@)
    } else {
        None
    }
}

/// Checks the fields of a product; the message of the first problem.
pub fn check_product_fields(name: &str, price: i64, stock: i64, alert_threshold: i64) -> (r: Option<String>)
    ensures
        r is None <==> product_problem(name@, price, stock, alert_threshold) is None,
        r matches Some(m) ==> product_problem(name@, price, stock, alert_threshold) == Some(m@),
{
    if trim(name).unicode_len() == 0 {
        Some(string_of("Product name cannot be empty"))
    } else if price < 0 {
        Some(string_of("Product price cannot be negative"))
    } else if stock < 0 {
        Some(string_of("Stock cannot be negative"))
    } else if alert_threshold < 0 {
        Some(string_of("Alert threshold cannot be negative"))
    } else {
        None
    }
}

/// Checks the name of a category.
pub fn check_category_name(name: &str) -> (r: Option<String>)
    ensures
        r is None <==> category_problem(name@) is None,
        r matches Some(m) ==> category_problem(name@) == Some(m@),
{
    if trim(name).unicode_len() == 0 {
        Some(string_of("Category name cannot be empty"))
    } else {
        None
    }
}

impl Product {
    /// A product with the given identifier and creation time, when its fields
    /// are valid (see `product_problem`).
    pub fn from_parts(
        id: String,
        now: String,
        name: String,
        price: i64,
        category_id: String,
        stock: i64,
        alert_threshold: i64,
    ) -> (r: Result<Product, DomainError>)
        ensures
            r is Ok <==> product_problem(name@, price, stock, alert_threshold) is None,
            r matches Err(e) ==> e matches DomainError::InvalidValue(m) && product_problem(
                name@,
                price,
                stock,
                alert_threshold,
            ) == Some(m@),
            r matches Ok(p) ==> p.id == id && p.name == name && p.price == price && p.category_id
                == category_id && p.stock == stock && p.alert_threshold == alert_threshold
                && p.created_at@ == now@ && p.updated_at@ == now@,
    {
        match check_product_fields(name.as_str(), price, stock, alert_threshold) {
            Some(m) => Err(DomainError::InvalidValue(m)),
            None => {
                let created_at = string_of(now.as_str());
                Ok(
                    Product {
                        id,
                        name,
                        price,
                        category_id,
                        stock,
                        alert_threshold,
                        created_at,
                        updated_at: now,
                    },
                )
            },
        }
    }

    /// A new product with a fresh UUID v7 and the current time, when its fields
    /// are valid (see `product_problem`).
    pub fn new(name: String, price: i64, category_id: String, stock: i64, alert_threshold: i64) -> (r: Result<Product, DomainError>)
        ensures
            r is Ok <==> product_problem(name@, price, stock, alert_threshold) is None,
            r matches Err(e) ==> e matches DomainError::InvalidValue(m) && product_problem(
                name@,
                price,
                stock,
                alert_threshold,
            ) == Some(m@),
            r matches Ok(p) ==> p.name == name && p.price == price && p.category_id == category_id
                && p.stock == stock && p.alert_threshold == alert_threshold && p.id@.len() == 36
                && p.created_at@ == p.updated_at@,
    {
        match check_product_fields(name.as_str(), price, stock, alert_threshold) {
            Some(m) => Err(DomainError::InvalidValue(m)),
            None => {
                let id = uuid_v7();
                let now = now_iso();
                Product::from_parts(id, now, name, price, category_id, stock, alert_threshold)
            },
        }
    }

    /// Replaces the editable fields and sets `updated_at` to `now`, when the
    /// new fields are valid; otherwise leaves the product unchanged.
    pub fn update_at(
        &mut self,
        now: String,
        name: String,
        price: i64,
        category_id: String,
        stock: i64,
        alert_threshold: i64,
    ) -> (r: Result<(), DomainError>)
        ensures
            r is Ok <==> product_problem(name@, price, stock, alert_threshold) is None,
            r matches Err(e) ==> e matches DomainError::InvalidValue(m) && product_problem(
                name@,
                price,
                stock,
                alert_threshold,
            ) == Some(m@),
            r is Err ==> *final(self) == *old(self),
            r is Ok ==> final(self).name == name && final(self).price == price
                && final(self).category_id == category_id && final(self).stock == stock
                && final(self).alert_threshold == alert_threshold && final(self).updated_at@
                == now@ && final(self).id == old(self).id && final(self).created_at
                == old(self).created_at,
    {
        match check_product_fields(name.as_str(), price, stock, alert_threshold) {
            Some(m) => Err(DomainError::InvalidValue(m)),
            None => {
                self.name = name;
                self.price = price;
                self.category_id = category_id;
                self.stock = stock;
                self.alert_threshold = alert_threshold;
                self.updated_at = now;
                Ok(())
            },
        }
    }

    /// Replaces the editable fields and refreshes `updated_at` with the current
    /// time, when the new fields are valid; otherwise leaves the product unchanged.
    pub fn update(&mut self, name: String, price: i64, category_id: String, stock: i64, alert_threshold: i64) -> (r: Result<(), DomainError>)
        ensures
            r is Ok <==> product_problem(name@, price, stock, alert_threshold) is None,
            r matches Err(e) ==> e matches DomainError::InvalidValue(m) && product_problem(
                name@,
                price,
                stock,
                alert_threshold,
            ) == Some(m@),
            r is Err ==> *final(self) == *old(self),
            r is Ok ==> final(self).name == name && final(self).price == price
                && final(self).category_id == category_id && final(self).stock == stock
                && final(self).alert_threshold == alert_threshold && final(self).id == old(self).id
                && final(self).created_at == old(self).created_at,
    {
        match check_product_fields(name.as_str(), price, stock, alert_threshold) {
            Some(m) => Err(DomainError::InvalidValue(m)),
            None => {
                let now = now_iso();
                self.update_at(now, name, price, category_id, stock, alert_threshold)
            },
        }
    }
}

impl Category {
    /// A category with the given identifier and creation time, when its name is
    /// not blank.
    pub fn from_parts(id: String, now: String, name: String, parent_id: Option<String>) -> (r: Result<Category, DomainError>)
        ensures
            r is Ok <==> category_problem(name@) is None,
            r matches Err(e) ==> e matches DomainError::InvalidValue(m) && category_problem(name@)
                == Some(m@),
            r matches Ok(c) ==> c.id == id && c.name == name && c.parent_id == parent_id
                && c.created_at@ == now@ && c.updated_at@ == now@,
    {
        match check_category_name(name.as_str()) {
            Some(m) => Err(DomainError::InvalidValue(m)),
            None => {
                let created_at = string_of(now.as_str());
                Ok(Category { id, name, parent_id, created_at, updated_at: now })
            },
        }
    }

    /// A new category with a fresh UUID v7 and the current time, when its name
    /// is not blank.
    pub fn new(name: String, parent_id: Option<String>) -> (r: Result<Category, DomainError>)
        ensures
            r is Ok <==> category_problem(name@) is None,
            r matches Err(e) ==> e matches DomainError::InvalidValue(m) && category_problem(name@)
                == Some(m@),
            r matches Ok(c) ==> c.name == name && c.parent_id == parent_id && c.id@.len() == 36
                && c.created_at@ == c.updated_at@,
    {
        match check_category_name(name.as_str()) {
            Some(m) => Err(DomainError::InvalidValue(m)),
            None => {
                let id = uuid_v7();
                let now = now_iso();
                Category::from_parts(id, now, name, parent_id)
            },
        }
    }

    /// Renames / re-parents the category and sets `updated_at` to `now`, when
    /// the new name is not blank; otherwise leaves it unchanged.
    pub fn update_at(&mut self, now: String, name: String, parent_id: Option<String>) -> (r: Result<(), DomainError>)
        ensures
            r is Ok <==> category_problem(name@) is None,
            r matches Err(e) ==> e matches DomainError::InvalidValue(m) && category_problem(name@)
                == Some(m@),
            r is Err ==> *final(self) == *old(self),
            r is Ok ==> final(self).name == name && final(self).parent_id == parent_id
                && final(self).updated_at@ == now@ && final(self).id == old(self).id
                && final(self).created_at == old(self).created_at,
    {
        match check_category_name(name.as_str()) {
            Some(m) => Err(DomainError::InvalidValue(m)),
            None => {
                self.name = name;
                self.parent_id = parent_id;
                self.updated_at = now;
                Ok(())
            },
        }
    }

    /// Renames / re-parents the category and refreshes `updated_at` with the
    /// current time, when the new name is not blank.
    pub fn update(&mut self, name: String, parent_id: Option<String>) -> (r: Result<(), DomainError>)
        ensures
            r is Ok <==> category_problem(name@) is None,
            r matches Err(e) ==> e matches DomainError::InvalidValue(m) && category_problem(name@)
                == Some(m@),
            r is Err ==> *final(self) == *old(self),
            r is Ok ==> final(self).name == name && final(self).parent_id == parent_id
                && final(self).id == old(self).id && final(self).created_at == old(self).created_at,
    {
        match check_category_name(name.as_str()) {
            Some(m) => Err(DomainError::InvalidValue(m)),
            None => {
                let now = now_iso();
                self.update_at(now, name, parent_id)
            },
        }
    }
}

/// Storage of products and categories; implemented over the database.
pub trait ProductRepository: Send + Sync {
    fn create_product(&self, product: &Product) -> Result<(), DomainError>;

    fn update_product(&self, product: &Product) -> Result<(), DomainError>;

    fn delete_product(&self, id: &str) -> Result<(), DomainError>;

    fn find_product_by_id(&self, id: &str) -> Result<Option<Product>, DomainError>;

    fn list_products_by_category(&self, category_id: &str) -> Result<Vec<Product>, DomainError>;

    fn search_products(&self, query: &str) -> Result<Vec<Product>, DomainError>;

    fn list_all_products(&self) -> Result<Vec<Product>, DomainError>;

    fn create_category(&self, category: &Category) -> Result<(), DomainError>;

    fn update_category(&self, category: &Category) -> Result<(), DomainError>;

    fn delete_category(&self, id: &str) -> Result<(), DomainError>;

    fn find_category_by_id(&self, id: &str) -> Result<Option<Category>, DomainError>;

    fn list_all_categories(&self) -> Result<Vec<Category>, DomainError>;

    /// Count products belonging to a category (guards deletion).
    fn count_products_by_category(&self, category_id: &str) -> Result<i64, DomainError>;

    /// Count child categories of a parent.
    fn count_child_categories(&self, parent_id: &str) -> Result<i64, DomainError>;

    /// The child categories of a parent.
    fn find_child_categories(&self, parent_id: &str) -> Result<Vec<Category>, DomainError>;
}

} // verus!
