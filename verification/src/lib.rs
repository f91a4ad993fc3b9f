//! Data model of the edge database: the query objects that travel between
//! the web front end and the database service, their rendering as URL query
//! strings, and the plain records (users, roles, alarms, devices, versions)
//! exchanged with it.

pub mod text;
pub mod query;
pub mod readback;
pub mod model;
pub mod query_laws;
