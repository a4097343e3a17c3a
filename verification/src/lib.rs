//! A small image and video host, as a verified core: naming uploads,
//! assembling the two parts of an upload form, keeping the record of an
//! upload, and deciding what each route answers.

pub mod ident;
pub mod media;
pub mod form;
pub mod record;
pub mod store;
pub mod routes;
pub mod laws;
