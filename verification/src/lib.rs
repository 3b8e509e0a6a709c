//! Room booking service core: calendar values, availability of rooms over
//! ranges of dates, the password and registration rules, and the decisions
//! taken while serving each request, as flows that ask for one database
//! call at a time.

pub mod auth;
pub mod availability;
pub mod bookings;
pub mod calendar;
pub mod credentials;
pub mod errors;
pub mod models;
pub mod password;
pub mod rooms;
pub mod store;
pub mod text;
