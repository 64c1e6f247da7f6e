//! Request construction and response decoding for looking up user records
//! by identifier.
pub mod params;
pub mod query;
pub mod request;
pub mod response;
