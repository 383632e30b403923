//! Client library for a Confluence-style wiki REST API: authenticated
//! request construction, response classification and the protocol that
//! follows paginated listings to their end.

pub mod models;
pub mod session;
pub mod text;
pub mod walk;
