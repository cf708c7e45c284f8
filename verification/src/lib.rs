//! Access-control and confidentiality core for a document-sharing backend.
//!
//! A client user creates confidential documents ("processes") whose bodies are
//! sealed with authenticated encryption; sharing a document with a supplier is
//! recorded as an explicit grant, and every successful read is appended to an
//! auditable access log. The storage model, the cipher rules and the
//! orchestration of an access request are all verified.

pub mod crypto;
pub mod database;
pub mod errors;
pub mod handlers;
pub mod models;
pub mod stellar;
pub mod stellar_real;

