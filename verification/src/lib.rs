//! Verified core of the FogSpace task service: request models, the task
//! registry, the errors answered to clients and the decisions taken while a
//! similar-image search runs.

pub mod errors;
pub mod ext;
pub mod models;
pub mod context;
pub mod handlers;
pub mod routers;
