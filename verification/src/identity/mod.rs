//! The identity provider, as far as it computes: the records it keeps, the
//! claims it puts into a token, and the answer it gives to each request once
//! the database, the password check and the signing have had their say.

pub mod handlers;
pub mod jwt;
pub mod key_handlers;
pub mod models;
