//! The DynamoDB repositories: how models are stored and what is asked of the tables.

pub mod keys;
pub mod orders;
pub mod parts;
pub mod plans;
pub mod projects;
pub mod quotations;
