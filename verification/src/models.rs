use vstd::prelude::*;

verus! {

/// Default price for an item when the request gives none.
pub fn default_price() -> (r: u32)
    ensures
        r == 0,
{
    0
}

/// Default booking flag for a freshly created room.
pub fn default_booked() -> (r: bool)
    ensures
        r == false,
{
    false
}

/// Default role flag for a freshly created user.
pub fn default_role() -> (r: bool)
    ensures
        r == false,
{
    false
}

/// Default username for a user record that gives none.
pub fn default_username() -> (r: String)
    ensures
        r@ == "user"@,
{
    "user".to_owned()
}

/// A menu item. `name` is the business key; `id` is assigned by the store.
#[derive(Debug)]
pub struct Item {
    pub id: Option<u64>,
    pub name: String,
    pub description: String,
    pub price: u32,
}

/// Mathematical model of an `Item`.
pub struct ItemView {
    pub id: Option<u64>,
    pub name: Seq<char>,
    pub description: Seq<char>,
    pub price: u32,
}

impl View for Item {
    type V = ItemView;

    open spec fn view(&self) -> ItemView {
        ItemView {
            id: self.id,
            name: self.name@,
            description: self.description@,
            price: self.price,
        }
    }
}

impl Clone for Item {
    fn clone(&self) -> (r: Self)
        ensures
            r == *self,
    {
        Item {
            id: self.id,
            name: self.name.clone(),
            description: self.description.clone(),
            price: self.price,
        }
    }
}

/// A hotel room. `room_number` is the business key; `id` is assigned by the
/// store. `booked_by` is a weak reference to a user's id and is `Some` exactly
/// when `is_booked` is true.
#[derive(Debug)]
pub struct Room {
    pub id: Option<u64>,
    pub room_number: u32,
    pub description: String,
    pub room_type: String,
    pub capacity: u8,
    pub price: u32,
    pub booked_by: Option<u64>,
    pub is_booked: bool,
}

/// Mathematical model of a `Room`.
pub struct RoomView {
    pub id: Option<u64>,
    pub room_number: u32,
    pub description: Seq<char>,
    pub room_type: Seq<char>,
    pub capacity: u8,
    pub price: u32,
    pub booked_by: Option<u64>,
    pub is_booked: bool,
}

impl View for Room {
    type V = RoomView;

    open spec fn view(&self) -> RoomView {
        RoomView {
            id: self.id,
            room_number: self.room_number,
            description: self.description@,
            room_type: self.room_type@,
            capacity: self.capacity,
            price: self.price,
            booked_by: self.booked_by,
            is_booked: self.is_booked,
        }
    }
}

impl Clone for Room {
    fn clone(&self) -> (r: Self)
        ensures
            r == *self,
    {
        Room {
            id: self.id,
            room_number: self.room_number,
            description: self.description.clone(),
            room_type: self.room_type.clone(),
            capacity: self.capacity,
            price: self.price,
            booked_by: self.booked_by,
            is_booked: self.is_booked,
        }
    }
}

/// A user. `email` is the business key; `id` is assigned by the store.
/// `password` holds a one-way hash after signup, never the plaintext.
/// `total_booked_rooms` holds the ids of the rooms booked by this user.
#[derive(Debug)]
pub struct User {
    pub id: Option<u64>,
    pub username: String,
    pub email: String,
    pub password: String,
    pub total_booked_rooms: Vec<u64>,
    pub is_admin: bool,
}

/// Mathematical model of a `User`.
pub struct UserView {
    pub id: Option<u64>,
    pub username: Seq<char>,
    pub email: Seq<char>,
    pub password: Seq<char>,
    pub total_booked_rooms: Seq<u64>,
    pub is_admin: bool,
}

impl View for User {
    type V = UserView;

    open spec fn view(&self) -> UserView {
        UserView {
            id: self.id,
            username: self.username@,
            email: self.email@,
            password: self.password@,
            total_booked_rooms: self.total_booked_rooms@,
            is_admin: self.is_admin,
        }
    }
}

impl Clone for User {
    fn clone(&self) -> (r: Self)
        ensures
            r@ == self@,
    {
        User {
            id: self.id,
            username: self.username.clone(),
            email: self.email.clone(),
            password: self.password.clone(),
            total_booked_rooms: self.total_booked_rooms.clone(),
            is_admin: self.is_admin,
        }
    }
}

} // verus!
