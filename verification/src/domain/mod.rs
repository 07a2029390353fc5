//! Domain layer: entities, their rules, repository traits and domain errors.

pub mod crypto;
pub mod jwt;
pub mod order;
pub mod payment;
pub mod print_job;
pub mod product;
pub mod user;
pub mod wallet;

use vstd::prelude::*;

use crate::text::{concat2, concat3, decimal, push_decimal_i64, string_of};

verus! {

/// Errors of the domain layer; the only errors that request handlers deal with.
#[derive(Debug)]
pub enum DomainError {
    /// The authenticated user lacks the required permission.
    Unauthorized,
    /// The requested entity was not found.
    NotFound(String),
    /// A provided value is not acceptable.
    InvalidValue(String),
    /// A product referenced by an operation does not exist.
    ProductNotFound,
    /// A wallet client with this phone already exists.
    DuplicatePhone,
    /// Wallet balance is insufficient for the requested operation.
    InsufficientBalance { balance: i64, required: i64 },
    /// An order status transition is not allowed.
    InvalidStatusTransition { from: String, to: String },
    /// Internal / unexpected errors.
    Internal(String),
}

impl DomainError {
    /// The human-readable text of the error.
    pub open spec fn message_spec(&self) -> Seq<char> {
        match self {
            DomainError::Unauthorized => "Unauthorized"@,
            DomainError::NotFound(s) => "Not found: "@ + s@,
            DomainError::InvalidValue(s) => "Invalid value: "@ + s@,
            DomainError::ProductNotFound => "Product not found"@,
            DomainError::DuplicatePhone => "Duplicate phone number"@,
            DomainError::InsufficientBalance { balance, required } => "Insufficient balance: "@
                + decimal(*balance as int) + " < "@ + decimal(*required as int),
            DomainError::InvalidStatusTransition { from, to } => "Invalid status transition: "@
                + from@ + " → "@ + to@,
            DomainError::Internal(msg) => "Internal error: "@ + msg@,
        }
    }

    /// The human-readable text of the error (what its `Display` form shows).
    pub fn message(&self) -> (r: String)
        ensures
            r@ == self.message_spec(),
    {
        match self {
            DomainError::Unauthorized => string_of("Unauthorized"),
            DomainError::NotFound(s) => concat2("Not found: ", s.as_str()),
            DomainError::InvalidValue(s) => concat2("Invalid value: ", s.as_str()),
            DomainError::ProductNotFound => string_of("Product not found"),
            DomainError::DuplicatePhone => string_of("Duplicate phone number"),
            DomainError::InsufficientBalance { balance, required } => {
                let mut r = string_of("Insufficient balance: ");
                push_decimal_i64(&mut r, *balance);
                r.append(" < ");
                push_decimal_i64(&mut r, *required);
                r
            },
            DomainError::InvalidStatusTransition { from, to } => {
                let mut r = concat3("Invalid status transition: ", from.as_str(), " → ");
                r.append(to.as_str());
                r
            },
            DomainError::Internal(msg) => concat2("Internal error: ", msg.as_str()),
        }
    }

    /// An internal error carrying `msg`.
    pub fn from_message(msg: String) -> (r: DomainError)
        ensures
            r matches DomainError::Internal(m) && m@ == msg@,
    {
        DomainError::Internal(msg)
    }
}

} // verus!
