//! Request handling for the user and permission service: pagination and search
//! parameters, the plan of the user listing query, input validation, the mapping
//! of failures to problem documents, and the text forms of the records.

pub mod params;
pub mod problem;
pub mod error;
pub mod extract;
pub mod ids;
pub mod models;
pub mod schema;
pub mod service;
pub mod users;
pub mod weights;
