pub mod balance;
pub mod claim;
pub mod constants;
pub mod data;
pub mod investment;
pub mod validation;
pub mod operations;
