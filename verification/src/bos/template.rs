//! Boot session templates.

pub mod mesa;
