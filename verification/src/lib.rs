//! A small task-tracking service core: an entity store for todos and
//! categories, a mutation service with partial-update and soft-delete
//! semantics, and a lossy broadcast hub that fans change events out to
//! subscribers.

mod clock;
pub mod error;
pub mod hub;
mod ids;
pub mod model;
pub mod order;
pub mod service;
pub mod store;
