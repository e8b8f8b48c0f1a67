//! An in-memory supply-chain registry: products, their append-only
//! custody events, and users, with contracts proved by Verus.
mod clock;
mod health;
mod ids;
pub mod laws;
mod records;
mod registry;
mod store;

pub use health::{http_request, HttpRequest, HttpResponse};
pub use ids::{decimal_string, make_id};
pub use records::{Product, SupplyEvent, User};
pub use registry::{Duplicate, Keyed, Registry};
pub use store::{lists_exactly, EventTrail, Store};
