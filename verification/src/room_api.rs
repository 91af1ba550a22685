use vstd::prelude::*;
use crate::envelope::{error_says, response_fn, Message};
use crate::errors::StoreError;
use crate::ids::{digits_value, valid_id_str};
use crate::models::{Room, User, UserView};
use crate::outcomes::{InsertOneResult, UpdateResult};
use crate::room_repo::{first_room_number_match, with_room, RoomRepo};
use crate::user_repo::UserRepo;

verus! {

/// The body of a booking or cancellation request: the id of the user acting
/// and the number of the room acted on.
#[derive(Debug)]
pub struct BookingData {
    pub booked_by: String,
    pub room_number: u32,
}

/// A room together with the resolved record of the user who booked it, when
/// it is booked.
#[derive(Debug)]
pub struct RoomDetail {
    pub room: Room,
    pub booked_by: Option<User>,
}

/// What a successful booking reports: the booking user's record, the two
/// write outcomes (room first, user second), and the room as it stands after
/// the booking.
#[derive(Debug)]
pub struct BookingReceipt {
    pub booked_by: User,
    pub update_result: (UpdateResult, UpdateResult),
    pub updated_room_details: Room,
}

/// What a successful cancellation reports: the cancelling user's record, the
/// two write outcomes (room first, user second), and the room as it stands
/// after the cancellation.
#[derive(Debug)]
pub struct CancellationReceipt {
    pub canceled_by: User,
    pub update_result: (UpdateResult, UpdateResult),
    pub updated_room_details: Room,
}

/// At most one index is the first match of a room number.
proof fn lemma_first_room_number_match_unique(s: Seq<Room>, room_number: u32, a: int, b: int)
    requires
        first_room_number_match(s, room_number, a),
        first_room_number_match(s, room_number, b),
    ensures
        a == b,
{
    if a < b {
        assert(s[a].room_number != room_number);
    } else if b < a {
        assert(s[b].room_number != room_number);
    }
}

/// Creates a room unless its number is already taken: the handler looks the
/// business key up first and reports the existing record instead of
/// inserting a second one.
pub fn create_room(db: &mut RoomRepo, new_room: Room) -> (r: Result<
    Message<InsertOneResult>,
    Message<Room>,
>)
    requires
        old(db).wf(),
        old(db).next_id < u64::MAX,
    ensures
        final(db).wf(),
        match r {
            Ok(m) => {
                &&& !old(db).has_room_number(new_room.room_number)
                &&& m.success == true
                &&& m.message@ == "Room created successfully"@
                &&& m.data == Some((InsertOneResult { inserted_id: old(db).next_id }))
                &&& m.error is None
                &&& final(db).rooms@ == old(db).rooms@.push(
                    (Room {
                        id: Some(old(db).next_id),
                        room_number: new_room.room_number,
                        description: new_room.description,
                        room_type: new_room.room_type,
                        capacity: new_room.capacity,
                        price: new_room.price,
                        booked_by: None,
                        is_booked: false,
                    }),
                )
                &&& final(db).next_id == old(db).next_id + 1
            },
            Err(m) => {
                &&& old(db).has_room_number(new_room.room_number)
                &&& m.success == false
                &&& m.message@ == "Room with this number already exists"@
                &&& exists|i: int|
                    #[trigger] first_room_number_match(old(db).rooms@, new_room.room_number, i)
                        && m.data == Some(old(db).rooms@[i])
                &&& m.error is None
                &&& final(db).rooms@ == old(db).rooms@
                &&& final(db).next_id == old(db).next_id
            },
        },
{
    match db.get_room_using_room_number(&new_room.room_number) {
        Ok(existing_room) => {
            return Err(
                response_fn(
                    false,
                    "Room with this number already exists".to_owned(),
                    Some(existing_room),
                    String::new(),
                ),
            );
        },
        Err(_) => {},
    }
    match db.create_room(new_room) {
        Ok(insert_result) => Ok(
            response_fn(
                true,
                "Room created successfully".to_owned(),
                Some(insert_result),
                String::new(),
            ),
        ),
        Err(e) => Err(response_fn(false, "Server error".to_owned(), None, e.describe())),
    }
}

/// Fetches one room by its room number (the business key).
pub fn get_room_using_number(db: &RoomRepo, room_number: u32) -> (r: Result<
    Message<Room>,
    Message<Room>,
>)
    ensures
        match r {
            Ok(m) => {
                &&& m.success == true
                &&& m.message@ == "Room fetched successfully"@
                &&& m.data matches Some(room) && exists|i: int|
                    #[trigger] first_room_number_match(db.rooms@, room_number, i) && db.rooms@[i]
                        == room
                &&& m.error is None
            },
            Err(m) => {
                &&& !db.has_room_number(room_number)
                &&& m.success == false
                &&& m.data is None
                &&& m.message@ == "Server error"@
                &&& error_says(m.error, StoreError::NotFound.spec_describe())
            },
        },
{
    match db.get_room_using_room_number(&room_number) {
        Ok(room) => Ok(
            response_fn(true, "Room fetched successfully".to_owned(), Some(room), String::new()),
        ),
        Err(e) => Err(response_fn(false, "Server error".to_owned(), None, e.describe())),
    }
}

/// Lists every room.
pub fn get_all_rooms(db: &RoomRepo) -> (r: Result<Message<Vec<Room>>, Message<Vec<Room>>>)
    ensures
        match r {
            Ok(m) => {
                &&& m.success == true
                &&& m.message@ == "Rooms fetched successfully"@
                &&& m.data matches Some(v) && v@ == db.rooms@
                &&& m.error is None
            },
            Err(_) => false,
        },
{
    match db.get_all_rooms() {
        Ok(rooms) => Ok(
            response_fn(true, "Rooms fetched successfully".to_owned(), Some(rooms), String::new()),
        ),
        Err(e) => Err(response_fn(false, "Server error".to_owned(), None, e.describe())),
    }
}

/// Fetches one room by its identity string, enriched with the record of the
/// booking user when the room is booked. A booked room whose booker no
/// longer resolves — the reference is weak — is reported as a failure
/// fetching the user.
pub fn get_room(db: &RoomRepo, user_repo: &UserRepo, room_id: String) -> (r: Result<
    Message<RoomDetail>,
    Message<Room>,
>)
    requires
        db.wf(),
        user_repo.wf(),
    ensures
        match r {
            Ok(m) => {
                &&& valid_id_str(room_id@)
                &&& m.success == true
                &&& m.message@ == "Room fetched successfully"@
                &&& m.error is None
                &&& m.data matches Some(d) && db.rooms@.contains(d.room) && d.room.id == Some(
                    digits_value(room_id@) as u64,
                ) && (!d.room.is_booked ==> d.booked_by is None) && (d.room.is_booked ==> (
                d.booked_by matches Some(u) && u.id == d.room.booked_by && exists|x: int|
                    0 <= x < user_repo.users@.len() && (#[trigger] user_repo.users@[x])@ == u@))
            },
            Err(m) => {
                &&& m.success == false
                &&& m.data is None
                &&& ((!valid_id_str(room_id@) && m.message@ == "Server error"@ && error_says(
                    m.error,
                    StoreError::MalformedId.spec_describe(),
                )) || (valid_id_str(room_id@) && !db.has_id(digits_value(room_id@) as u64)
                    && m.message@ == "Server error"@ && error_says(
                    m.error,
                    StoreError::NotFound.spec_describe(),
                )) || (valid_id_str(room_id@) && m.message@ == "Error fetching user"@
                    && error_says(m.error, StoreError::UserNotFound.spec_describe()) && exists|
                    i: int,
                |
                    {
                        &&& 0 <= i < db.rooms@.len()
                        &&& (#[trigger] db.rooms@[i]).id == Some(digits_value(room_id@) as u64)
                        &&& db.rooms@[i].is_booked
                        &&& !user_repo.has_id(db.rooms@[i].booked_by.unwrap())
                    }))
            },
        },
{
    let room = match db.get_room(&room_id) {
        Ok(room) => room,
        Err(e) => {
            return Err(response_fn(false, "Server error".to_owned(), None, e.describe()));
        },
    };
    if room.is_booked {
        proof {
            let i = choose|i: int|
                0 <= i < db.rooms@.len() && db.rooms@[i] == room && db.rooms@.contains(
                    db.rooms@[i],
                );
            assert(db.rooms@.contains(room));
            let w = choose|w: int| 0 <= w < db.rooms@.len() && db.rooms@[w] == room;
            assert(db.rooms@[w].is_booked);
        }
        let booker = match room.booked_by {
            Some(b) => b,
            None => {
                proof {
                    let w = choose|w: int| 0 <= w < db.rooms@.len() && db.rooms@[w] == room;
                    assert(db.rooms@[w].booked_by is Some);
                }
                return Err(
                    response_fn(
                        false,
                        "Error fetching user".to_owned(),
                        None,
                        StoreError::UserNotFound.describe(),
                    ),
                );
            },
        };
        match user_repo.find_by_id(booker) {
            Some(x) => {
                let user = user_repo.users[x].clone();
                let detail = RoomDetail { room, booked_by: Some(user) };
                return Ok(
                    response_fn(
                        true,
                        "Room fetched successfully".to_owned(),
                        Some(detail),
                        String::new(),
                    ),
                );
            },
            None => {
                proof {
                    let w = choose|w: int| 0 <= w < db.rooms@.len() && db.rooms@[w] == room;
                    assert(db.rooms@[w].id == room.id);
                }
                return Err(
                    response_fn(
                        false,
                        "Error fetching user".to_owned(),
                        None,
                        StoreError::UserNotFound.describe(),
                    ),
                );
            },
        }
    }
    let detail = RoomDetail { room, booked_by: None };
    Ok(response_fn(true, "Room fetched successfully".to_owned(), Some(detail), String::new()))
}

/// Books a room for a user. The room is found by number and must not be
/// booked already; the user must exist before either record is touched. On
/// success the room id is united into the user's booked-room list — it ends
/// up there exactly once, never twice — and the room is marked booked by
/// that user; every failure leaves both stores exactly as they were.
pub fn book_room(db: &mut RoomRepo, user_repo: &mut UserRepo, booking_data: BookingData) -> (r:
    Result<Message<BookingReceipt>, Message<Room>>)
    requires
        old(db).wf(),
        old(user_repo).wf(),
    ensures
        final(db).wf(),
        final(user_repo).wf(),
        final(db).next_id == old(db).next_id,
        final(user_repo).next_id == old(user_repo).next_id,
        match r {
            Ok(m) => {
                let uid = digits_value(booking_data.booked_by@) as u64;
                &&& valid_id_str(booking_data.booked_by@)
                &&& m.success == true
                &&& m.message@ == "Room booked successfully"@
                &&& m.error is None
                &&& exists|i: int|
                    {
                        let rid = old(db).rooms@[i].id.unwrap();
                        &&& #[trigger] first_room_number_match(
                            old(db).rooms@,
                            booking_data.room_number,
                            i,
                        )
                        &&& !old(db).rooms@[i].is_booked
                        &&& final(db).rooms@ == old(db).rooms@.update(
                            i,
                            (Room {
                                id: old(db).rooms@[i].id,
                                room_number: old(db).rooms@[i].room_number,
                                description: old(db).rooms@[i].description,
                                room_type: old(db).rooms@[i].room_type,
                                capacity: old(db).rooms@[i].capacity,
                                price: old(db).rooms@[i].price,
                                booked_by: Some(uid),
                                is_booked: true,
                            }),
                        )
                        &&& exists|j: int|
                            {
                                &&& 0 <= j < old(user_repo).users@.len()
                                &&& (#[trigger] old(user_repo).users@[j]).id == Some(uid)
                                &&& final(user_repo).users@.len() == old(user_repo).users@.len()
                                &&& final(user_repo).users@[j]@ == (UserView {
                                    total_booked_rooms: with_room(
                                        old(user_repo).users@[j].total_booked_rooms@,
                                        rid,
                                    ),
                                    ..old(user_repo).users@[j]@
                                })
                                &&& final(user_repo).users@[j].total_booked_rooms@.to_multiset().count(rid) == 1
                                &&& (forall|x: int|
                                    0 <= x < old(user_repo).users@.len() && x != j ==> final(user_repo).users@[x] == (#[trigger] old(user_repo).users@[x]))
                                &&& (m.data matches Some(rec) && rec.updated_room_details == final(db).rooms@[i] && rec.booked_by@ == final(user_repo).users@[j]@)
                            }
                    }
            },
            Err(m) => {
                &&& final(db).rooms@ == old(db).rooms@
                &&& final(user_repo).users@ == old(user_repo).users@
                &&& m.success == false
                &&& (!old(db).has_room_number(booking_data.room_number) ==> m.message@
                    == "Server error"@ && error_says(m.error, StoreError::NotFound.spec_describe())
                    && m.data is None)
                &&& (forall|i: int|
                    #[trigger] first_room_number_match(old(db).rooms@, booking_data.room_number, i)
                        && old(db).rooms@[i].is_booked ==> m.message@ == "Room is already booked"@
                        && m.data == Some(old(db).rooms@[i]) && m.error is None)
                &&& ((exists|i: int|
                    #[trigger] first_room_number_match(old(db).rooms@, booking_data.room_number, i)
                        && !old(db).rooms@[i].is_booked) ==> m.message@ == "Server error"@
                    && m.data is None && ((!valid_id_str(booking_data.booked_by@) && error_says(
                    m.error,
                    StoreError::MalformedId.spec_describe(),
                )) || (valid_id_str(booking_data.booked_by@) && !old(user_repo).has_id(
                    digits_value(booking_data.booked_by@) as u64,
                ) && error_says(m.error, StoreError::UserNotFound.spec_describe()))))
            },
        },
{
    let user_id = booking_data.booked_by;
    let room_number = booking_data.room_number;
    let room = match db.get_room_using_room_number(&room_number) {
        Ok(room) => room,
        Err(e) => {
            return Err(response_fn(false, "Server error".to_owned(), None, e.describe()));
        },
    };
    let ghost i0 = choose|i: int|
        first_room_number_match(old(db).rooms@, room_number, i) && old(db).rooms@[i] == room;
    if room.is_booked {
        proof {
            assert forall|i: int|
                #[trigger] first_room_number_match(old(db).rooms@, room_number, i) && old(db).rooms@[i].is_booked implies i == i0 by {
                lemma_first_room_number_match_unique(old(db).rooms@, room_number, i, i0);
            }
        }
        return Err(
            response_fn(false, "Room is already booked".to_owned(), Some(room), String::new()),
        );
    }
    proof {
        assert forall|i: int|
            #[trigger] first_room_number_match(old(db).rooms@, room_number, i) implies i == i0 by {
            lemma_first_room_number_match_unique(old(db).rooms@, room_number, i, i0);
        }
        assert(old(db).rooms@[i0].id is Some);
    }
    let rid = match room.id {
        Some(x) => x,
        None => {
            proof {
                assert(false);
            }
            return Err(response_fn(false, "Server error".to_owned(), None, String::new()));
        },
    };
    let update_result = match db.book_room(user_repo, rid, user_id.clone()) {
        Ok(u) => u,
        Err(e) => {
            return Err(response_fn(false, "Server error".to_owned(), None, e.describe()));
        },
    };
    let ghost uid = digits_value(user_id@) as u64;
    let ghost i2 = choose|i: int|
        0 <= i < old(db).rooms@.len() && (#[trigger] old(db).rooms@[i]).id == Some(rid) && final(db).rooms@ == old(db).rooms@.update(
            i,
            (Room {
                id: old(db).rooms@[i].id,
                room_number: old(db).rooms@[i].room_number,
                description: old(db).rooms@[i].description,
                room_type: old(db).rooms@[i].room_type,
                capacity: old(db).rooms@[i].capacity,
                price: old(db).rooms@[i].price,
                booked_by: Some(uid),
                is_booked: true,
            }),
        );
    let ghost j = choose|j: int|
        {
            &&& 0 <= j < old(user_repo).users@.len()
            &&& (#[trigger] old(user_repo).users@[j]).id == Some(uid)
            &&& final(user_repo).users@.len() == old(user_repo).users@.len()
            &&& final(user_repo).users@[j]@ == (UserView {
                total_booked_rooms: with_room(old(user_repo).users@[j].total_booked_rooms@, rid),
                ..old(user_repo).users@[j]@
            })
            &&& (forall|x: int|
                0 <= x < old(user_repo).users@.len() && x != j ==> final(user_repo).users@[x] == (
                #[trigger] old(user_repo).users@[x]))
        };
    proof {
        // The record book_room updated carries the id of the room found by
        // number, so it is the same record.
        assert(old(db).has_id(rid));
        if i2 != i0 {
            assert(old(db).rooms@[i2].id != old(db).rooms@[i0].id);
        }
        assert(i2 == i0);
        // The user record keeps its id, so it still resolves.
        assert(final(user_repo).users@[j].id == Some(uid));
        assert(final(user_repo).has_id(uid));
    }
    let user = match user_repo.get_user(&user_id) {
        Ok(user) => user,
        Err(e) => {
            proof {
                assert(false);
            }
            return Err(response_fn(false, "Server error".to_owned(), None, e.describe()));
        },
    };
    proof {
        // The fetched record is the updated one: ids are unique.
        let x = choose|x: int|
            0 <= x < final(user_repo).users@.len() && (#[trigger] final(user_repo).users@[x])@
                == user@ && user.id == Some(uid);
        assert(final(user_repo).users@[x].id == Some(uid));
        if x != j {
            assert(final(user_repo).users@[x].id != final(user_repo).users@[j].id);
        }
        assert(user@ == final(user_repo).users@[j]@);
        // The updated room is still the first match of its number.
        assert(final(db).rooms@[i0].room_number == room_number);
        assert(first_room_number_match(final(db).rooms@, room_number, i0));
    }
    let updated_room_details = match db.get_room_using_room_number(&room_number) {
        Ok(r2) => r2,
        Err(e) => {
            proof {
                assert(false);
            }
            return Err(response_fn(false, "Server error".to_owned(), None, e.describe()));
        },
    };
    proof {
        let i3 = choose|i: int|
            #[trigger] first_room_number_match(final(db).rooms@, room_number, i) && final(db).rooms@[i] == updated_room_details;
        lemma_first_room_number_match_unique(final(db).rooms@, room_number, i3, i0);
        assert(updated_room_details == final(db).rooms@[i0]);
        // The room id sits in the user's list exactly once.
        let l = final(user_repo).users@[j].total_booked_rooms@;
        assert(l == with_room(old(user_repo).users@[j].total_booked_rooms@, rid));
        assert(l.contains(rid)) by {
            if !old(user_repo).users@[j].total_booked_rooms@.contains(rid) {
                assert(l.last() == rid);
            }
        }
        assert(l.no_duplicates());
        l.lemma_multiset_has_no_duplicates();
        broadcast use vstd::seq_lib::group_to_multiset_ensures;

        assert(l.to_multiset().count(rid) == 1);
    }
    let receipt = BookingReceipt { booked_by: user, update_result, updated_room_details };
    Ok(response_fn(true, "Room booked successfully".to_owned(), Some(receipt), String::new()))
}

/// Cancels a room's booking for a user. The room is found by number and must
/// be booked; the user must exist before either record is touched. On
/// success the room id is removed from the user's booked-room list — it is
/// not in the list afterwards — and the room is marked unbooked with no
/// booker; every failure leaves both stores exactly as they were.
pub fn cancel_booking(db: &mut RoomRepo, user_repo: &mut UserRepo, booking_data: BookingData) -> (r:
    Result<Message<CancellationReceipt>, Message<Room>>)
    requires
        old(db).wf(),
        old(user_repo).wf(),
    ensures
        final(db).wf(),
        final(user_repo).wf(),
        final(db).next_id == old(db).next_id,
        final(user_repo).next_id == old(user_repo).next_id,
        match r {
            Ok(m) => {
                let uid = digits_value(booking_data.booked_by@) as u64;
                &&& valid_id_str(booking_data.booked_by@)
                &&& m.success == true
                &&& m.message@ == "Room booking cancelled successfully"@
                &&& m.error is None
                &&& exists|i: int|
                    {
                        let rid = old(db).rooms@[i].id.unwrap();
                        &&& #[trigger] first_room_number_match(
                            old(db).rooms@,
                            booking_data.room_number,
                            i,
                        )
                        &&& old(db).rooms@[i].is_booked
                        &&& final(db).rooms@ == old(db).rooms@.update(
                            i,
                            (Room {
                                id: old(db).rooms@[i].id,
                                room_number: old(db).rooms@[i].room_number,
                                description: old(db).rooms@[i].description,
                                room_type: old(db).rooms@[i].room_type,
                                capacity: old(db).rooms@[i].capacity,
                                price: old(db).rooms@[i].price,
                                booked_by: None,
                                is_booked: false,
                            }),
                        )
                        &&& exists|j: int|
                            {
                                &&& 0 <= j < old(user_repo).users@.len()
                                &&& (#[trigger] old(user_repo).users@[j]).id == Some(uid)
                                &&& final(user_repo).users@.len() == old(user_repo).users@.len()
                                &&& !final(user_repo).users@[j].total_booked_rooms@.contains(rid)
                                &&& (old(user_repo).users@[j].total_booked_rooms@.contains(rid)
                                    ==> exists|a: int|
                                    {
                                        &&& 0 <= a < old(user_repo).users@[j].total_booked_rooms@.len()
                                        &&& old(user_repo).users@[j].total_booked_rooms@[a] == rid
                                        &&& final(user_repo).users@[j]@ == (UserView {
                                            total_booked_rooms: old(user_repo).users@[j].total_booked_rooms@.remove(a),
                                            ..old(user_repo).users@[j]@
                                        })
                                    })
                                &&& (!old(user_repo).users@[j].total_booked_rooms@.contains(rid)
                                    ==> final(user_repo).users@[j]@ == old(user_repo).users@[j]@)
                                &&& (forall|x: int|
                                    0 <= x < old(user_repo).users@.len() && x != j ==> final(user_repo).users@[x] == (#[trigger] old(user_repo).users@[x]))
                                &&& (m.data matches Some(rec) && rec.updated_room_details == final(db).rooms@[i] && rec.canceled_by@ == final(user_repo).users@[j]@)
                            }
                    }
            },
            Err(m) => {
                &&& final(db).rooms@ == old(db).rooms@
                &&& final(user_repo).users@ == old(user_repo).users@
                &&& m.success == false
                &&& (!old(db).has_room_number(booking_data.room_number) ==> m.message@
                    == "Server error"@ && error_says(m.error, StoreError::NotFound.spec_describe())
                    && m.data is None)
                &&& (forall|i: int|
                    #[trigger] first_room_number_match(old(db).rooms@, booking_data.room_number, i)
                        && !old(db).rooms@[i].is_booked ==> m.message@ == "Room is not booked"@
                        && m.data == Some(old(db).rooms@[i]) && m.error is None)
                &&& ((exists|i: int|
                    #[trigger] first_room_number_match(old(db).rooms@, booking_data.room_number, i)
                        && old(db).rooms@[i].is_booked) ==> m.message@ == "Server error"@
                    && m.data is None && ((!valid_id_str(booking_data.booked_by@) && error_says(
                    m.error,
                    StoreError::MalformedId.spec_describe(),
                )) || (valid_id_str(booking_data.booked_by@) && !old(user_repo).has_id(
                    digits_value(booking_data.booked_by@) as u64,
                ) && error_says(m.error, StoreError::UserNotFound.spec_describe()))))
            },
        },
{
    let user_id = booking_data.booked_by;
    let room_number = booking_data.room_number;
    let room = match db.get_room_using_room_number(&room_number) {
        Ok(room) => room,
        Err(e) => {
            return Err(response_fn(false, "Server error".to_owned(), None, e.describe()));
        },
    };
    let ghost i0 = choose|i: int|
        first_room_number_match(old(db).rooms@, room_number, i) && old(db).rooms@[i] == room;
    if !room.is_booked {
        proof {
            assert forall|i: int|
                #[trigger] first_room_number_match(old(db).rooms@, room_number, i) && !old(db).rooms@[i].is_booked implies i == i0 by {
                lemma_first_room_number_match_unique(old(db).rooms@, room_number, i, i0);
            }
        }
        return Err(
            response_fn(false, "Room is not booked".to_owned(), Some(room), String::new()),
        );
    }
    proof {
        assert forall|i: int|
            #[trigger] first_room_number_match(old(db).rooms@, room_number, i) implies i == i0 by {
            lemma_first_room_number_match_unique(old(db).rooms@, room_number, i, i0);
        }
        assert(old(db).rooms@[i0].id is Some);
    }
    let rid = match room.id {
        Some(x) => x,
        None => {
            proof {
                assert(false);
            }
            return Err(response_fn(false, "Server error".to_owned(), None, String::new()));
        },
    };
    let update_result = match db.cancel_booking(user_repo, rid, user_id.clone()) {
        Ok(u) => u,
        Err(e) => {
            return Err(response_fn(false, "Server error".to_owned(), None, e.describe()));
        },
    };
    let ghost uid = digits_value(user_id@) as u64;
    let ghost i2 = choose|i: int|
        0 <= i < old(db).rooms@.len() && (#[trigger] old(db).rooms@[i]).id == Some(rid) && final(db).rooms@ == old(db).rooms@.update(
            i,
            (Room {
                id: old(db).rooms@[i].id,
                room_number: old(db).rooms@[i].room_number,
                description: old(db).rooms@[i].description,
                room_type: old(db).rooms@[i].room_type,
                capacity: old(db).rooms@[i].capacity,
                price: old(db).rooms@[i].price,
                booked_by: None,
                is_booked: false,
            }),
        );
    let ghost j = choose|j: int|
        {
            &&& 0 <= j < old(user_repo).users@.len()
            &&& (#[trigger] old(user_repo).users@[j]).id == Some(uid)
            &&& final(user_repo).users@.len() == old(user_repo).users@.len()
            &&& !final(user_repo).users@[j].total_booked_rooms@.contains(rid)
            &&& (old(user_repo).users@[j].total_booked_rooms@.contains(rid) ==> exists|a: int|
                {
                    &&& 0 <= a < old(user_repo).users@[j].total_booked_rooms@.len()
                    &&& old(user_repo).users@[j].total_booked_rooms@[a] == rid
                    &&& final(user_repo).users@[j]@ == (UserView {
                        total_booked_rooms: old(user_repo).users@[j].total_booked_rooms@.remove(a),
                        ..old(user_repo).users@[j]@
                    })
                })
            &&& (!old(user_repo).users@[j].total_booked_rooms@.contains(rid) ==> final(user_repo).users@[j]@ == old(user_repo).users@[j]@)
            &&& (forall|x: int|
                0 <= x < old(user_repo).users@.len() && x != j ==> final(user_repo).users@[x] == (
                #[trigger] old(user_repo).users@[x]))
        };
    proof {
        // The record cancel_booking updated carries the id of the room found
        // by number, so it is the same record.
        assert(old(db).has_id(rid));
        if i2 != i0 {
            assert(old(db).rooms@[i2].id != old(db).rooms@[i0].id);
        }
        assert(i2 == i0);
        // The user record keeps its id, so it still resolves.
        assert(final(user_repo).users@[j].id == Some(uid));
        assert(final(user_repo).has_id(uid));
    }
    let user = match user_repo.get_user(&user_id) {
        Ok(user) => user,
        Err(e) => {
            proof {
                assert(false);
            }
            return Err(response_fn(false, "Server error".to_owned(), None, e.describe()));
        },
    };
    proof {
        // The fetched record is the updated one: ids are unique.
        let x = choose|x: int|
            0 <= x < final(user_repo).users@.len() && (#[trigger] final(user_repo).users@[x])@
                == user@ && user.id == Some(uid);
        assert(final(user_repo).users@[x].id == Some(uid));
        if x != j {
            assert(final(user_repo).users@[x].id != final(user_repo).users@[j].id);
        }
        assert(user@ == final(user_repo).users@[j]@);
        // The updated room is still the first match of its number.
        assert(final(db).rooms@[i0].room_number == room_number);
        assert(first_room_number_match(final(db).rooms@, room_number, i0));
    }
    let updated_room_details = match db.get_room_using_room_number(&room_number) {
        Ok(r2) => r2,
        Err(e) => {
            proof {
                assert(false);
            }
            return Err(response_fn(false, "Server error".to_owned(), None, e.describe()));
        },
    };
    proof {
        let i3 = choose|i: int|
            #[trigger] first_room_number_match(final(db).rooms@, room_number, i) && final(db).rooms@[i] == updated_room_details;
        lemma_first_room_number_match_unique(final(db).rooms@, room_number, i3, i0);
        assert(updated_room_details == final(db).rooms@[i0]);
    }
    let receipt = CancellationReceipt { canceled_by: user, update_result, updated_room_details };
    Ok(
        response_fn(
            true,
            "Room booking cancelled successfully".to_owned(),
            Some(receipt),
            String::new(),
        ),
    )
}

} // verus!
