use booking_api::calendar::{CalendarDate, Timestamp};
use booking_api::errors::AppError;
use booking_api::models::{DbError, GetRoom};
use booking_api::rooms::{
    check_room_query, room_query_failure, room_status, stays_of,
    RoomQueryAction, RoomQueryEvent, RoomQueryFlow,
};

fn d(y: i32, m: u32, day: u32) -> CalendarDate {
    CalendarDate::from_ymd(y, m, day).unwrap()
}

/// Noon UTC of the given date.
fn noon(y: i32, m: u32, day: u32) -> Timestamp {
    let days = d(y, m, day).days_from_ce() as i64 - 719_163;
    Timestamp::from_unix(days * 86_400 + 43_200, 0).unwrap()
}

fn query(from: CalendarDate, to: CalendarDate) -> GetRoom {
    GetRoom { date_from: from, date_to: to }
}

#[test]
fn room_query_dates_checked() {
    let today = d(2026, 3, 2);
    assert!(check_room_query(&query(d(2026, 3, 2), d(2026, 3, 3)), today).is_ok());
    match check_room_query(&query(d(2026, 3, 1), d(2026, 3, 3)), today) {
        Err(AppError::BadRequest(m)) => assert_eq!(m, "date_from must be today"),
        other => panic!("unexpected {:?}", other),
    }
    match check_room_query(&query(d(2026, 3, 3), d(2026, 3, 3)), today) {
        Err(AppError::BadRequest(m)) => assert_eq!(m, "date_to must be after date_from"),
        other => panic!("unexpected {:?}", other),
    }
    // The start is checked first.
    match check_room_query(&query(d(2026, 3, 1), d(2026, 2, 1)), today) {
        Err(AppError::BadRequest(m)) => assert_eq!(m, "date_from must be today"),
        other => panic!("unexpected {:?}", other),
    }
}

#[test]
fn room_stays_are_utc_dates() {
    let stays = stays_of(&[(noon(2026, 3, 1), noon(2026, 3, 3))]);
    assert_eq!(stays, vec![(d(2026, 3, 1), d(2026, 3, 3))]);
}

#[test]
fn room_status_texts() {
    let q = query(d(2026, 3, 3), d(2026, 3, 5));
    assert_eq!(room_status(1, &[(noon(2026, 3, 1), noon(2026, 3, 3))], &q).status, "available");
    assert_eq!(room_status(1, &[(noon(2026, 3, 1), noon(2026, 3, 4))], &q).status, "occupied");
    assert_eq!(room_status(8, &[], &q).room_id, 8);
}

#[test]
fn room_query_failure_carries_description() {
    let e = DbError { description: "pool timed out".into(), database_message: None, unique_violation: false };
    match room_query_failure(e) {
        AppError::InternalServerError(m) => assert_eq!(m, "pool timed out"),
        other => panic!("unexpected {:?}", other),
    }
}

#[test]
fn room_query_flow_lists_each_room() {
    let mut flow = RoomQueryFlow::new(query(d(2026, 3, 3), d(2026, 3, 5)));
    assert!(matches!(flow.step(RoomQueryEvent::Started { today: d(2026, 3, 1) }), RoomQueryAction::ListRooms));
    match flow.step(RoomQueryEvent::RoomsListed(Ok(vec![1, 2]))) {
        RoomQueryAction::ListBookings { room_id } => assert_eq!(room_id, 1),
        other => panic!("unexpected {:?}", other),
    }
    match flow.step(RoomQueryEvent::BookingsListed(Ok(vec![(noon(2026, 3, 2), noon(2026, 3, 4))]))) {
        RoomQueryAction::ListBookings { room_id } => assert_eq!(room_id, 2),
        other => panic!("unexpected {:?}", other),
    }
    match flow.step(RoomQueryEvent::BookingsListed(Ok(vec![]))) {
        RoomQueryAction::Respond(Ok(list)) => {
            assert_eq!(list.len(), 2);
            assert_eq!((list[0].room_id, list[0].status.as_str()), (1, "occupied"));
            assert_eq!((list[1].room_id, list[1].status.as_str()), (2, "available"));
        }
        other => panic!("unexpected {:?}", other),
    }
}

#[test]
fn room_query_flow_no_rooms() {
    let mut flow = RoomQueryFlow::new(query(d(2026, 3, 3), d(2026, 3, 5)));
    flow.step(RoomQueryEvent::Started { today: d(2026, 3, 1) });
    match flow.step(RoomQueryEvent::RoomsListed(Ok(vec![]))) {
        RoomQueryAction::Respond(Ok(list)) => assert!(list.is_empty()),
        other => panic!("unexpected {:?}", other),
    }
}

#[test]
fn room_query_flow_refuses_past_start() {
    let mut flow = RoomQueryFlow::new(query(d(2026, 3, 3), d(2026, 3, 5)));
    match flow.step(RoomQueryEvent::Started { today: d(2026, 3, 4) }) {
        RoomQueryAction::Respond(Err(e)) => assert_eq!(e.into_response().status, 400),
        other => panic!("unexpected {:?}", other),
    }
}
