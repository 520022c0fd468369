//! Verified core of the quotations service: error responses, DynamoDB item
//! keys, query and update plans, pricing of quotations and the decisions of
//! the use cases. I/O lives outside this crate.

pub mod clock;
pub mod client_quotations;
pub mod error;
pub mod identity;
pub mod key_codec;
pub mod models;
pub mod pricing;
pub mod repositories;
pub mod services;
pub mod text;
pub mod transaction;
pub mod usecases;
pub mod workdays;
