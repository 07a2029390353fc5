//! MboaCaisse core: the business rules of a bar / restaurant / grocery
//! point of sale (orders, payments, wallets, catalogue, users and access
//! control), with their contracts proved by Verus.

pub mod api;
pub mod clock;
pub mod db;
pub mod domain;
pub mod random;
pub mod server;
pub mod settings;
pub mod text;
