//! What holds of the library as a whole: laws that relate several functions, each
//! proved for all inputs.
pub mod calls;
pub mod json;
pub mod models;
pub mod requests;
pub mod results;
pub mod routes;
pub mod stream;
pub mod text;
pub mod urls;
