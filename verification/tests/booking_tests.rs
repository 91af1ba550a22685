use hotel_mgmt::models::{Room, User};
use hotel_mgmt::room_api::{
    book_room, cancel_booking, create_room, get_all_rooms, get_room, get_room_using_number,
    BookingData,
};
use hotel_mgmt::room_repo::RoomRepo;
use hotel_mgmt::user_api::{get_user, user_signup};
use hotel_mgmt::user_repo::UserRepo;

fn new_room(number: u32) -> Room {
    Room {
        id: None,
        room_number: number,
        description: "sea view".to_string(),
        room_type: "double".to_string(),
        capacity: 2,
        price: 120,
        booked_by: None,
        is_booked: false,
    }
}

fn new_user(email: &str) -> User {
    User {
        id: None,
        username: "guest".to_string(),
        email: email.to_string(),
        password: "hunter2".to_string(),
        total_booked_rooms: vec![],
        is_admin: false,
    }
}

fn booking(user_id: &str, room_number: u32) -> BookingData {
    BookingData { booked_by: user_id.to_string(), room_number }
}

#[test]
fn create_room_assigns_id_and_starts_unbooked() {
    let mut rooms = RoomRepo::new();
    let res = create_room(&mut rooms, new_room(101)).unwrap();
    assert!(res.success);
    assert_eq!(res.data.unwrap().inserted_id, 0);
    let fetched = get_room_using_number(&rooms, 101).unwrap().data.unwrap();
    assert_eq!(fetched.id, Some(0));
    assert!(!fetched.is_booked);
    assert_eq!(fetched.booked_by, None);
}

#[test]
fn create_room_duplicate_number_reports_existing() {
    let mut rooms = RoomRepo::new();
    create_room(&mut rooms, new_room(101)).unwrap();
    let second = create_room(&mut rooms, new_room(101)).unwrap_err();
    assert!(!second.success);
    assert_eq!(second.message, "Room with this number already exists");
    assert_eq!(get_all_rooms(&rooms).unwrap().data.unwrap().len(), 1);
}

#[test]
fn booking_marks_room_and_adds_it_to_the_user_once() {
    let mut rooms = RoomRepo::new();
    let mut users = UserRepo::new();
    create_room(&mut rooms, new_room(101)).unwrap();
    user_signup(&mut users, new_user("a@b.com")).unwrap();

    let res = book_room(&mut rooms, &mut users, booking("0", 101)).unwrap();
    assert!(res.success);
    assert_eq!(res.message, "Room booked successfully");
    let receipt = res.data.unwrap();
    assert!(receipt.updated_room_details.is_booked);
    assert_eq!(receipt.updated_room_details.booked_by, Some(0));
    assert_eq!(receipt.booked_by.total_booked_rooms, vec![0]);
    assert_eq!(receipt.update_result.0.matched_count, 1);
    assert_eq!(receipt.update_result.1.matched_count, 1);

    let user = get_user(&users, "0".to_string()).unwrap().data.unwrap();
    assert_eq!(user.total_booked_rooms, vec![0]);
}

#[test]
fn booking_a_booked_room_fails_and_changes_nothing() {
    let mut rooms = RoomRepo::new();
    let mut users = UserRepo::new();
    create_room(&mut rooms, new_room(101)).unwrap();
    user_signup(&mut users, new_user("a@b.com")).unwrap();
    user_signup(&mut users, new_user("c@d.com")).unwrap();
    book_room(&mut rooms, &mut users, booking("0", 101)).unwrap();

    let rooms_before = get_all_rooms(&rooms).unwrap().data.unwrap();
    let res = book_room(&mut rooms, &mut users, booking("1", 101)).unwrap_err();
    assert!(!res.success);
    assert_eq!(res.message, "Room is already booked");
    let reported = res.data.unwrap();
    assert!(reported.is_booked);
    assert_eq!(reported.booked_by, Some(0));

    let rooms_after = get_all_rooms(&rooms).unwrap().data.unwrap();
    assert_eq!(rooms_before.len(), rooms_after.len());
    assert_eq!(rooms_after[0].booked_by, Some(0));
    let other = get_user(&users, "1".to_string()).unwrap().data.unwrap();
    assert!(other.total_booked_rooms.is_empty());
}

#[test]
fn rebooking_after_cancel_keeps_the_room_listed_once() {
    let mut rooms = RoomRepo::new();
    let mut users = UserRepo::new();
    create_room(&mut rooms, new_room(101)).unwrap();
    user_signup(&mut users, new_user("a@b.com")).unwrap();

    book_room(&mut rooms, &mut users, booking("0", 101)).unwrap();
    cancel_booking(&mut rooms, &mut users, booking("0", 101)).unwrap();
    book_room(&mut rooms, &mut users, booking("0", 101)).unwrap();

    let user = get_user(&users, "0".to_string()).unwrap().data.unwrap();
    assert_eq!(user.total_booked_rooms, vec![0]);
}

#[test]
fn cancelling_unbooks_room_and_clears_the_user_entry() {
    let mut rooms = RoomRepo::new();
    let mut users = UserRepo::new();
    create_room(&mut rooms, new_room(101)).unwrap();
    user_signup(&mut users, new_user("a@b.com")).unwrap();
    book_room(&mut rooms, &mut users, booking("0", 101)).unwrap();

    let res = cancel_booking(&mut rooms, &mut users, booking("0", 101)).unwrap();
    assert!(res.success);
    assert_eq!(res.message, "Room booking cancelled successfully");
    let receipt = res.data.unwrap();
    assert!(!receipt.updated_room_details.is_booked);
    assert_eq!(receipt.updated_room_details.booked_by, None);
    assert!(receipt.canceled_by.total_booked_rooms.is_empty());

    let user = get_user(&users, "0".to_string()).unwrap().data.unwrap();
    assert!(user.total_booked_rooms.is_empty());
}

#[test]
fn cancelling_an_unbooked_room_fails_and_changes_nothing() {
    let mut rooms = RoomRepo::new();
    let mut users = UserRepo::new();
    create_room(&mut rooms, new_room(101)).unwrap();
    user_signup(&mut users, new_user("a@b.com")).unwrap();

    let res = cancel_booking(&mut rooms, &mut users, booking("0", 101)).unwrap_err();
    assert!(!res.success);
    assert_eq!(res.message, "Room is not booked");
    assert_eq!(res.data.unwrap().room_number, 101);
    let room = get_room_using_number(&rooms, 101).unwrap().data.unwrap();
    assert!(!room.is_booked);
    let user = get_user(&users, "0".to_string()).unwrap().data.unwrap();
    assert!(user.total_booked_rooms.is_empty());
}

#[test]
fn booking_reports_unknown_users_and_rooms() {
    let mut rooms = RoomRepo::new();
    let mut users = UserRepo::new();
    create_room(&mut rooms, new_room(101)).unwrap();

    let no_room = book_room(&mut rooms, &mut users, booking("0", 999)).unwrap_err();
    assert_eq!(no_room.error.as_deref().unwrap(), "record not found");

    let no_user = book_room(&mut rooms, &mut users, booking("5", 101)).unwrap_err();
    assert_eq!(no_user.error.as_deref().unwrap(), "User not found");

    let bad_id = book_room(&mut rooms, &mut users, booking("not-an-id", 101)).unwrap_err();
    assert_eq!(bad_id.error.as_deref().unwrap(), "malformed id");

    let room = get_room_using_number(&rooms, 101).unwrap().data.unwrap();
    assert!(!room.is_booked);
}

#[test]
fn duplicate_room_numbers_resolve_to_the_first_record() {
    // Room numbers are kept unique only by the create handler's pre-check;
    // a store can hold duplicates, and lookups resolve to the first record.
    let mut rooms = RoomRepo { rooms: vec![], next_id: 0 };
    create_room(&mut rooms, new_room(101)).unwrap();
    rooms.rooms.push(Room { id: Some(1), ..new_room(101) });
    rooms.next_id = 2;
    let mut users = UserRepo::new();
    user_signup(&mut users, new_user("a@b.com")).unwrap();

    let fetched = get_room_using_number(&rooms, 101).unwrap().data.unwrap();
    assert_eq!(fetched.id, Some(0));

    book_room(&mut rooms, &mut users, booking("0", 101)).unwrap();
    assert!(rooms.rooms[0].is_booked);
    assert!(!rooms.rooms[1].is_booked);
}

#[test]
fn get_room_enriches_a_booked_room_with_its_booker() {
    let mut rooms = RoomRepo::new();
    let mut users = UserRepo::new();
    create_room(&mut rooms, new_room(101)).unwrap();
    user_signup(&mut users, new_user("a@b.com")).unwrap();

    let bare = get_room(&rooms, &users, "0".to_string()).unwrap().data.unwrap();
    assert!(bare.booked_by.is_none());
    assert_eq!(bare.room.room_number, 101);

    book_room(&mut rooms, &mut users, booking("0", 101)).unwrap();
    let detail = get_room(&rooms, &users, "0".to_string()).unwrap().data.unwrap();
    assert!(detail.room.is_booked);
    let booker = detail.booked_by.unwrap();
    assert_eq!(booker.id, Some(0));
    assert_eq!(booker.email, "a@b.com");

    let malformed = get_room(&rooms, &users, "zero".to_string()).unwrap_err();
    assert_eq!(malformed.error.unwrap(), "malformed id");
}
