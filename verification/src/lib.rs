//! Decision logic of the Marreq requirements-management web front end:
//! route tables, redirect targets, page contexts, pagination, traceability
//! matrices, membership rules and the text handling they rest on.
pub mod external;
pub mod text;
pub mod route_info;
pub mod selection;
pub mod routes;
pub mod models;
pub mod ordering;
