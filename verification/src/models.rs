//! The values that requests carry in and responses carry out.

use crate::calendar::{CalendarDate, Timestamp};
use vstd::prelude::*;

verus! {

/// Where a booking stands.
#[derive(Clone, Copy, Debug, PartialEq, Eq, Structural)]
pub enum BookingState {
    Pending,
    Confirmed,
    Cancelled,
}

/// A request to book `room_id` from `start_time` until `end_time`.
#[derive(Clone, Copy, Debug)]
pub struct CreateBookingRequest {
    pub room_id: i32,
    pub start_time: Timestamp,
    pub end_time: Timestamp,
}

/// A booking as the service reports it.
#[derive(Clone, Copy, Debug)]
pub struct BookingRecord {
    pub booking_id: i32,
    pub user_id: i32,
    pub room_id: i32,
    pub start_time: Timestamp,
    pub end_time: Timestamp,
    pub state: BookingState,
}

/// One stored booking as the bookings table returns it.
#[derive(Clone, Debug)]
pub struct BookingRow {
    pub booking_id: i64,
    pub user_id: i64,
    pub room_id: i64,
    pub start_time: Timestamp,
    pub end_time: Timestamp,
    pub status: String,
}

/// What an access token says: whose it is and when it expires (seconds
/// since the UNIX epoch).
#[derive(Clone, Copy, Debug, PartialEq, Eq, Structural)]
pub struct Claims {
    pub user_id: i32,
    pub exp: usize,
}

#[derive(Clone, Debug)]
pub struct LoginRequest {
    pub username: String,
    pub password: String,
}

#[derive(Clone, Debug)]
pub struct RegisterRequest {
    pub username: String,
    pub password: String,
}

#[derive(Clone, Debug)]
pub struct RegisterResponse {
    pub message: String,
}

#[derive(Clone, Debug)]
pub struct AuthResponse {
    pub token: String,
}

/// A user's id and stored password hash.
#[derive(Clone, Debug)]
pub struct UserRow {
    pub id: i32,
    pub password_hash: String,
}

/// A query for the rooms free from `date_from` until `date_to`.
#[derive(Clone, Copy, Debug)]
pub struct GetRoom {
    pub date_from: CalendarDate,
    pub date_to: CalendarDate,
}

/// Whether one room is free over the queried range.
#[derive(Clone, Debug)]
pub struct RoomAvailability {
    pub room_id: i64,
    pub status: String,
}

/// What the service reads of a failed database call: its description,
/// the database's own message where the database itself refused the
/// statement, and whether that refusal was a unique-key violation.
#[derive(Clone, Debug)]
pub struct DbError {
    pub description: String,
    pub database_message: Option<String>,
    pub unique_violation: bool,
}

/// The marker that the database's overlap guard puts in its message.
pub const DB_ERR_OVERLAP: &'static str = "ERR_OVERLAP";

} // verus!
