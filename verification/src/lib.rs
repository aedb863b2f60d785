//! The decision and formatting logic behind the Bitcredit web front end:
//! payment links and payment checks, the keys that pay a bill, the pages that
//! each route shows, the plan for issuing a bill and the template registry.

pub mod decimal;
pub mod payment;
pub mod keys;
pub mod pages;
pub mod issue;
pub mod dates;
pub mod templates;
pub mod bill_view;
pub mod flows;
