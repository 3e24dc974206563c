//! A small TCP load balancer: a sticky router that maps each client to one
//! backend of a fixed pool for a short time window, and the decision logic of a
//! single-shot forwarding session; beside them, two small vector exercises.

pub mod move_semantics2;
pub mod move_semantics4;
pub mod router;
pub mod session;
