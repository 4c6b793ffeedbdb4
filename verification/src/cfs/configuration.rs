//! Configurations: ordered layers of playbooks, each from a repository.

pub mod mesa;
