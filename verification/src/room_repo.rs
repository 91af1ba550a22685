use vstd::prelude::*;
use crate::errors::StoreError;
use crate::ids::{digits_value, parse_id, valid_id_str};
use crate::models::{Room, UserView};
use crate::outcomes::{InsertOneResult, UpdateResult};
use crate::user_repo::{contains_u64, remove_u64, UserRepo};

verus! {

/// The record at `i` is the first one in `s` carrying `room_number`.
pub open spec fn first_room_number_match(s: Seq<Room>, room_number: u32, i: int) -> bool {
    &&& 0 <= i < s.len()
    &&& s[i].room_number == room_number
    &&& forall|j: int| 0 <= j < i ==> (#[trigger] s[j]).room_number != room_number
}

/// The booked-room list of `u` with `room_id` added, unless it is already
/// there: the booking workflow unions, it never appends twice.
pub open spec fn with_room(rooms: Seq<u64>, room_id: u64) -> Seq<u64> {
    if rooms.contains(room_id) {
        rooms
    } else {
        rooms.push(room_id)
    }
}

/// The room store. It owns the collection of room records and assigns each
/// new record the next free id. The booking workflow lives here: it is the
/// one place that coordinates this store with the user store, and on this
/// in-memory store its two writes happen in one exclusive borrow, so a
/// caller never observes one write without the other.
pub struct RoomRepo {
    pub rooms: Vec<Room>,
    pub next_id: u64,
}

impl RoomRepo {
    /// Well-formed store: every record carries an id, ids are unique and
    /// below the next one to be assigned, and `booked_by` is `Some` exactly
    /// when `is_booked` holds.
    pub open spec fn wf(&self) -> bool {
        &&& forall|i: int|
            0 <= i < self.rooms@.len() ==> (#[trigger] self.rooms@[i]).id is Some
                && self.rooms@[i].id.unwrap() < self.next_id
        &&& forall|i: int, j: int|
            0 <= i < j < self.rooms@.len() ==> (#[trigger] self.rooms@[i]).id != (
            #[trigger] self.rooms@[j]).id
        &&& forall|i: int|
            0 <= i < self.rooms@.len() ==> ((#[trigger] self.rooms@[i]).is_booked <==> self.rooms@[i].booked_by is Some)
    }

    /// True when some record carries the id.
    pub open spec fn has_id(&self, id: u64) -> bool {
        exists|i: int| 0 <= i < self.rooms@.len() && (#[trigger] self.rooms@[i]).id == Some(id)
    }

    /// True when some record carries the room number.
    pub open spec fn has_room_number(&self, room_number: u32) -> bool {
        exists|i: int|
            0 <= i < self.rooms@.len() && (#[trigger] self.rooms@[i]).room_number == room_number
    }

    /// Creates an empty room store.
    pub fn new() -> (r: Self)
        ensures
            r.wf(),
            r.rooms@.len() == 0,
            r.next_id == 0,
    {
        RoomRepo { rooms: Vec::new(), next_id: 0 }
    }

    /// Stores a new room record. The store assigns the id, and the record
    /// starts unbooked with no booker — a booking can only arise from the
    /// booking workflow, which keeps `booked_by` paired with `is_booked`.
    pub fn create_room(&mut self, new_room: Room) -> (r: Result<InsertOneResult, StoreError>)
        requires
            old(self).wf(),
            old(self).next_id < u64::MAX,
        ensures
            final(self).wf(),
            final(self).next_id == old(self).next_id + 1,
            final(self).rooms@ == old(self).rooms@.push(
                (Room {
                    id: Some(old(self).next_id),
                    room_number: new_room.room_number,
                    description: new_room.description,
                    room_type: new_room.room_type,
                    capacity: new_room.capacity,
                    price: new_room.price,
                    booked_by: None,
                    is_booked: false,
                }),
            ),
            r == Ok::<InsertOneResult, StoreError>(
                (InsertOneResult { inserted_id: old(self).next_id }),
            ),
    {
        let id = self.next_id;
        let new_doc = Room {
            id: Some(id),
            room_number: new_room.room_number,
            description: new_room.description,
            room_type: new_room.room_type,
            capacity: new_room.capacity,
            price: new_room.price,
            booked_by: None,
            is_booked: false,
        };
        self.rooms.push(new_doc);
        self.next_id = self.next_id + 1;
        Ok(InsertOneResult { inserted_id: id })
    }

    /// Yields every room record, in store order.
    pub fn get_all_rooms(&self) -> (r: Result<Vec<Room>, StoreError>)
        ensures
            match r {
                Ok(v) => v@ == self.rooms@,
                Err(_) => false,
            },
    {
        let v = self.rooms.clone();
        proof {
            assert forall|i: int| 0 <= i < self.rooms@.len() implies v@[i] == self.rooms@[i] by {
                assert(vstd::pervasive::cloned::<Room>(self.rooms@[i], v@[i]));
            }
            assert(v@ =~= self.rooms@);
        }
        Ok(v)
    }

    /// The index of the record carrying `id`, if any.
    pub(crate) fn find_by_id(&self, id: u64) -> (r: Option<usize>)
        ensures
            match r {
                Some(i) => i < self.rooms@.len() && self.rooms@[i as int].id == Some(id),
                None => !self.has_id(id),
            },
    {
        let mut k: usize = 0;
        let n = self.rooms.len();
        while k < n
            invariant
                k <= n,
                n == self.rooms@.len(),
                forall|i: int| 0 <= i < k ==> (#[trigger] self.rooms@[i]).id != Some(id),
            decreases n - k,
        {
            if let Some(found) = self.rooms[k].id {
                if found == id {
                    return Some(k);
                }
            }
            k = k + 1;
        }
        None
    }

    /// Looks a room up by the identity string. Yields the record whose id
    /// the string names; `MalformedId` when the string is not a valid id,
    /// and `NotFound` when no record carries it.
    pub fn get_room(&self, id: &String) -> (r: Result<Room, StoreError>)
        requires
            self.wf(),
        ensures
            match r {
                Ok(room) => valid_id_str(id@) && self.rooms@.contains(room) && room.id == Some(
                    digits_value(id@) as u64,
                ),
                Err(e) => (e == StoreError::MalformedId && !valid_id_str(id@)) || (e
                    == StoreError::NotFound && valid_id_str(id@) && !self.has_id(
                    digits_value(id@) as u64,
                )),
            },
    {
        let idv = match parse_id(id) {
            Ok(v) => v,
            Err(e) => {
                return Err(e);
            },
        };
        match self.find_by_id(idv) {
            Some(i) => {
                let room = self.rooms[i].clone();
                proof {
                    assert(self.rooms@.contains(self.rooms@[i as int]));
                }
                Ok(room)
            },
            None => Err(StoreError::NotFound),
        }
    }

    /// Looks a room up by its room number (the business key). Yields the
    /// first record with that number; `NotFound` when there is none.
    pub fn get_room_using_room_number(&self, room_number: &u32) -> (r: Result<Room, StoreError>)
        ensures
            match r {
                Ok(room) => exists|i: int|
                    #[trigger] first_room_number_match(self.rooms@, *room_number, i)
                        && self.rooms@[i] == room,
                Err(e) => e == StoreError::NotFound && !self.has_room_number(*room_number),
            },
    {
        let mut k: usize = 0;
        let n = self.rooms.len();
        while k < n
            invariant
                k <= n,
                n == self.rooms@.len(),
                forall|j: int| 0 <= j < k ==> (#[trigger] self.rooms@[j]).room_number
                    != *room_number,
            decreases n - k,
        {
            if self.rooms[k].room_number == *room_number {
                let room = self.rooms[k].clone();
                proof {
                    assert(first_room_number_match(self.rooms@, *room_number, k as int));
                }
                return Ok(room);
            }
            k = k + 1;
        }
        Err(StoreError::NotFound)
    }

    /// Books the room with id `room_id` for the user the identity string
    /// names: the room id is united into the user's booked-room list — never
    /// appended twice — and the room is marked booked by that user. The user
    /// is validated before either record is touched; `MalformedId` or
    /// `UserNotFound` leaves both stores unchanged. A `room_id` no record
    /// carries matches nothing: the user keeps the united list and the first
    /// result reports zero matched records, as the underlying update would.
    pub fn book_room(&mut self, users: &mut UserRepo, room_id: u64, user_id: String) -> (r: Result<
        (UpdateResult, UpdateResult),
        StoreError,
    >)
        requires
            old(self).wf(),
            old(users).wf(),
        ensures
            final(self).wf(),
            final(users).wf(),
            final(self).next_id == old(self).next_id,
            final(users).next_id == old(users).next_id,
            match r {
                Ok(res) => {
                    let uid = digits_value(user_id@) as u64;
                    &&& valid_id_str(user_id@)
                    &&& exists|j: int|
                        {
                            &&& 0 <= j < old(users).users@.len()
                            &&& (#[trigger] old(users).users@[j]).id == Some(uid)
                            &&& final(users).users@.len() == old(users).users@.len()
                            &&& final(users).users@[j]@ == (UserView {
                                total_booked_rooms: with_room(
                                    old(users).users@[j].total_booked_rooms@,
                                    room_id,
                                ),
                                ..old(users).users@[j]@
                            })
                            &&& (forall|x: int|
                                0 <= x < old(users).users@.len() && x != j ==> final(users).users@[x] == (#[trigger] old(users).users@[x]))
                            &&& res.1 == (UpdateResult {
                                matched_count: 1,
                                modified_count: if old(users).users@[j].total_booked_rooms@.contains(
                                    room_id,
                                ) {
                                    0
                                } else {
                                    1
                                },
                            })
                        }
                    &&& (old(self).has_id(room_id) ==> exists|i: int|
                        {
                            &&& 0 <= i < old(self).rooms@.len()
                            &&& (#[trigger] old(self).rooms@[i]).id == Some(room_id)
                            &&& final(self).rooms@ == old(self).rooms@.update(
                                i,
                                (Room {
                                    id: old(self).rooms@[i].id,
                                    room_number: old(self).rooms@[i].room_number,
                                    description: old(self).rooms@[i].description,
                                    room_type: old(self).rooms@[i].room_type,
                                    capacity: old(self).rooms@[i].capacity,
                                    price: old(self).rooms@[i].price,
                                    booked_by: Some(uid),
                                    is_booked: true,
                                }),
                            )
                            &&& res.0 == (UpdateResult {
                                matched_count: 1,
                                modified_count: if old(self).rooms@[i].is_booked && old(self).rooms@[i].booked_by == Some(uid) {
                                    0
                                } else {
                                    1
                                },
                            })
                        })
                    &&& (!old(self).has_id(room_id) ==> final(self).rooms@ == old(self).rooms@
                        && res.0 == (UpdateResult { matched_count: 0, modified_count: 0 }))
                },
                Err(e) => {
                    &&& final(self).rooms@ == old(self).rooms@
                    &&& final(users).users@ == old(users).users@
                    &&& ((e == StoreError::MalformedId && !valid_id_str(user_id@)) || (e
                        == StoreError::UserNotFound && valid_id_str(user_id@) && !old(users).has_id(digits_value(user_id@) as u64)))
                },
            },
    {
        let uid = match parse_id(&user_id) {
            Ok(v) => v,
            Err(e) => {
                return Err(e);
            },
        };
        let j = match users.find_by_id(uid) {
            Some(j) => j,
            None => {
                return Err(StoreError::UserNotFound);
            },
        };
        // Unite the room id into the user's booked-room list.
        let mut user = users.users.remove(j);
        let already = contains_u64(&user.total_booked_rooms, room_id);
        if !already {
            user.total_booked_rooms.push(room_id);
        }
        users.users.insert(j, user);
        proof {
            assert(users.users@ =~= old(users).users@.update(j as int, users.users@[j as int]));
        }
        let user_res = UpdateResult {
            matched_count: 1,
            modified_count: if already {
                0
            } else {
                1
            },
        };
        // Mark the room booked by this user.
        let room_res = match self.find_by_id(room_id) {
            Some(i) => {
                let mut room = self.rooms.remove(i);
                let unchanged = room.is_booked && match room.booked_by {
                    Some(b) => b == uid,
                    None => false,
                };
                room.booked_by = Some(uid);
                room.is_booked = true;
                self.rooms.insert(i, room);
                proof {
                    assert(self.rooms@ =~= old(self).rooms@.update(
                        i as int,
                        self.rooms@[i as int],
                    ));
                }
                UpdateResult {
                    matched_count: 1,
                    modified_count: if unchanged {
                        0
                    } else {
                        1
                    },
                }
            },
            None => UpdateResult { matched_count: 0, modified_count: 0 },
        };
        Ok((room_res, user_res))
    }

    /// Cancels the booking of the room with id `room_id` for the user the
    /// identity string names: the room id is removed from the user's
    /// booked-room list (by exact match) and the room is marked unbooked
    /// with no booker. The user is validated before either record is
    /// touched; `MalformedId` or `UserNotFound` leaves both stores
    /// unchanged. A `room_id` no record carries matches nothing, and the
    /// first result reports zero matched records.
    pub fn cancel_booking(&mut self, users: &mut UserRepo, room_id: u64, user_id: String) -> (r:
        Result<(UpdateResult, UpdateResult), StoreError>)
        requires
            old(self).wf(),
            old(users).wf(),
        ensures
            final(self).wf(),
            final(users).wf(),
            final(self).next_id == old(self).next_id,
            final(users).next_id == old(users).next_id,
            match r {
                Ok(res) => {
                    let uid = digits_value(user_id@) as u64;
                    &&& valid_id_str(user_id@)
                    &&& exists|j: int|
                        {
                            &&& 0 <= j < old(users).users@.len()
                            &&& (#[trigger] old(users).users@[j]).id == Some(uid)
                            &&& final(users).users@.len() == old(users).users@.len()
                            &&& !final(users).users@[j].total_booked_rooms@.contains(room_id)
                            &&& (old(users).users@[j].total_booked_rooms@.contains(room_id)
                                ==> exists|a: int|
                                {
                                    &&& 0 <= a < old(users).users@[j].total_booked_rooms@.len()
                                    &&& old(users).users@[j].total_booked_rooms@[a] == room_id
                                    &&& final(users).users@[j]@ == (UserView {
                                        total_booked_rooms: old(users).users@[j].total_booked_rooms@.remove(a),
                                        ..old(users).users@[j]@
                                    })
                                })
                            &&& (!old(users).users@[j].total_booked_rooms@.contains(room_id)
                                ==> final(users).users@[j]@ == old(users).users@[j]@)
                            &&& (forall|x: int|
                                0 <= x < old(users).users@.len() && x != j ==> final(users).users@[x] == (#[trigger] old(users).users@[x]))
                            &&& res.1 == (UpdateResult {
                                matched_count: 1,
                                modified_count: if old(users).users@[j].total_booked_rooms@.contains(
                                    room_id,
                                ) {
                                    1
                                } else {
                                    0
                                },
                            })
                        }
                    &&& (old(self).has_id(room_id) ==> exists|i: int|
                        {
                            &&& 0 <= i < old(self).rooms@.len()
                            &&& (#[trigger] old(self).rooms@[i]).id == Some(room_id)
                            &&& final(self).rooms@ == old(self).rooms@.update(
                                i,
                                (Room {
                                    id: old(self).rooms@[i].id,
                                    room_number: old(self).rooms@[i].room_number,
                                    description: old(self).rooms@[i].description,
                                    room_type: old(self).rooms@[i].room_type,
                                    capacity: old(self).rooms@[i].capacity,
                                    price: old(self).rooms@[i].price,
                                    booked_by: None,
                                    is_booked: false,
                                }),
                            )
                            &&& res.0 == (UpdateResult {
                                matched_count: 1,
                                modified_count: if old(self).rooms@[i].is_booked {
                                    1
                                } else {
                                    0
                                },
                            })
                        })
                    &&& (!old(self).has_id(room_id) ==> final(self).rooms@ == old(self).rooms@
                        && res.0 == (UpdateResult { matched_count: 0, modified_count: 0 }))
                },
                Err(e) => {
                    &&& final(self).rooms@ == old(self).rooms@
                    &&& final(users).users@ == old(users).users@
                    &&& ((e == StoreError::MalformedId && !valid_id_str(user_id@)) || (e
                        == StoreError::UserNotFound && valid_id_str(user_id@) && !old(users).has_id(digits_value(user_id@) as u64)))
                },
            },
    {
        let uid = match parse_id(&user_id) {
            Ok(v) => v,
            Err(e) => {
                return Err(e);
            },
        };
        let j = match users.find_by_id(uid) {
            Some(j) => j,
            None => {
                return Err(StoreError::UserNotFound);
            },
        };
        // Remove the room id from the user's booked-room list.
        let mut user = users.users.remove(j);
        let had = contains_u64(&user.total_booked_rooms, room_id);
        remove_u64(&mut user.total_booked_rooms, room_id);
        users.users.insert(j, user);
        proof {
            assert(users.users@ =~= old(users).users@.update(j as int, users.users@[j as int]));
        }
        let user_res = UpdateResult {
            matched_count: 1,
            modified_count: if had {
                1
            } else {
                0
            },
        };
        // Mark the room unbooked.
        let room_res = match self.find_by_id(room_id) {
            Some(i) => {
                let mut room = self.rooms.remove(i);
                let was_booked = room.is_booked;
                room.booked_by = None;
                room.is_booked = false;
                self.rooms.insert(i, room);
                proof {
                    assert(self.rooms@ =~= old(self).rooms@.update(
                        i as int,
                        self.rooms@[i as int],
                    ));
                }
                UpdateResult {
                    matched_count: 1,
                    modified_count: if was_booked {
                        1
                    } else {
                        0
                    },
                }
            },
            None => UpdateResult { matched_count: 0, modified_count: 0 },
        };
        Ok((room_res, user_res))
    }
}

} // verus!
