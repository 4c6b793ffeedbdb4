//! The hardware state manager: node groups, components and inventory.

pub mod group;
pub mod hw_components;
pub mod hw_inventory;
pub mod types;
