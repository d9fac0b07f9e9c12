//! Authentication and authorization core of a task-management service:
//! signed bearer tokens, the extraction of an authenticated identity from
//! request headers, role checks, and the error surface they share; and the
//! decisions of the service's user and task operations, freed of storage and
//! transport.

pub mod auth;
pub mod dtos;
pub mod handlers;
pub mod models;
pub mod routes;
pub mod utils;
