//! The two stores that a directory is built on. The directory asks them
//! for what it holds at the start, and hands them what is to be kept; how
//! they keep it is theirs to decide, and nothing is assumed of what they
//! answer. Where the directory says what it asked of a store and what
//! came of it, it says so over what the store's own method ensures of
//! that call.

use crate::room::Room;
use crate::user::User;
use uuid::Uuid;
use vstd::prelude::*;

verus! {

/// A store of users.
pub trait UserDataInterface {
    /// Every user on record.
    fn provide_user_data(&mut self) -> Vec<User>;

    /// The identifier of every user on record.
    fn provide_user_id_list(&mut self) -> Vec<Uuid>;

    /// The user on record under `user_id`, if there is one.
    fn provide_user(&mut self, user_id: &Uuid) -> Option<User>;

    /// Puts a new user on record.
    fn store_user(&mut self, user: User);

    /// Replaces the record of a user.
    fn update_user(&mut self, user: User);
}

/// A store of rooms.
pub trait RoomDataInterface {
    /// Every room on record.
    fn provide_room_data(&mut self) -> Vec<Room>;

    /// The room on record under `room_id`, if there is one.
    fn provide_room(&mut self, room_id: &Uuid) -> Option<Room>;

    /// Puts a new room on record.
    fn store_room(&mut self, room: Room);

    /// Replaces the record of a room.
    fn update_room(&mut self, room: Room);
}

} // verus!
