//! What a directory holds, and what each operation makes of it.

use crate::ids::occurrences;
use crate::room::RoomView;
use uuid::Uuid;
use vstd::prelude::*;

verus! {

/// The identifiers of `rooms`, in their order.
pub open spec fn room_ids(rooms: Seq<RoomView>) -> Seq<Uuid> {
    rooms.map_values(|room: RoomView| room.id)
}

/// Where the first room with identifier `id` stands in `rooms`.
pub open spec fn room_index(rooms: Seq<RoomView>, id: Uuid) -> Option<int> {
    room_ids(rooms).index_of_first(id)
}

/// `room_index` gives the first room with the identifier, and none only
/// where no room has it.
pub proof fn lemma_room_index(rooms: Seq<RoomView>, id: Uuid)
    ensures
        match room_index(rooms, id) {
            Some(i) => {
                &&& 0 <= i < rooms.len()
                &&& rooms[i].id == id
                &&& forall|j: int| 0 <= j < i ==> rooms[j].id != id
            },
            None => forall|j: int| 0 <= j < rooms.len() ==> rooms[j].id != id,
        },
{
    let ids = room_ids(rooms);
    ids.index_of_first_ensures(id);
    match ids.index_of_first(id) {
        Some(i) => {
            assert forall|j: int| 0 <= j < i implies rooms[j].id != id by {
                assert(ids[j] == rooms[j].id);
            }
        },
        None => {
            assert forall|j: int| 0 <= j < rooms.len() implies rooms[j].id != id by {
                assert(ids[j] == rooms[j].id);
            }
        },
    }
}

/// What a `Controller` holds in memory: the identifiers of the users it
/// knows, and its rooms in two lists. No identifier is kept from standing
/// twice in a list, and a room stays in the list it was put in.
pub struct ControllerView {
    pub users: Seq<Uuid>,
    pub public_rooms: Seq<RoomView>,
    pub private_rooms: Seq<RoomView>,
}

impl ControllerView {
    /// The place of the room that `id` resolves to: the first public room
    /// with that identifier, else the first private one. The flag says
    /// whether the place is in the public list.
    pub open spec fn find_room_match(self, id: Uuid) -> Option<(int, bool)> {
        match room_index(self.public_rooms, id) {
            Some(i) => Some((i, true)),
            None => match room_index(self.private_rooms, id) {
                Some(i) => Some((i, false)),
                None => None,
            },
        }
    }

    /// The room that `id` resolves to.
    pub open spec fn find_room(self, id: Uuid) -> Option<RoomView> {
        match self.find_room_match(id) {
            Some((i, public)) => Some(
                if public {
                    self.public_rooms[i]
                } else {
                    self.private_rooms[i]
                },
            ),
            None => None,
        }
    }

    /// The directory with `room` in the place of the room that `id`
    /// resolves to; unchanged where `id` resolves to none.
    pub open spec fn with_room(self, id: Uuid, room: RoomView) -> ControllerView {
        match self.find_room_match(id) {
            Some((i, public)) => if public {
                ControllerView { public_rooms: self.public_rooms.update(i, room), ..self }
            } else {
                ControllerView { private_rooms: self.private_rooms.update(i, room), ..self }
            },
            None => self,
        }
    }

    /// Whether `id` is among the known users.
    pub open spec fn is_user(self, id: Uuid) -> bool {
        self.users.contains(id)
    }

    /// `id` is put at the end of the known users, also when already there.
    pub open spec fn add_user(self, id: Uuid) -> ControllerView {
        ControllerView { users: self.users.push(id), ..self }
    }

    /// The first entry of `id` among the known users goes.
    pub open spec fn remove_user(self, id: Uuid) -> ControllerView {
        ControllerView { users: self.users.remove_value(id), ..self }
    }

    /// Whether a room with identifier `id` stands in either list.
    pub open spec fn has_room(self, id: Uuid) -> bool {
        room_ids(self.public_rooms).contains(id) || room_ids(self.private_rooms).contains(id)
    }

    /// How many rooms with identifier `id` stand in the two lists.
    pub open spec fn rooms_with_id(self, id: Uuid) -> nat {
        occurrences(room_ids(self.public_rooms), id) + occurrences(room_ids(self.private_rooms), id)
    }

    /// Whether each room stands in the list that its privacy flag names.
    pub open spec fn sorted_by_privacy(self) -> bool {
        &&& forall|i: int|
            0 <= i < self.public_rooms.len() ==> !(#[trigger] self.public_rooms[i]).private
        &&& forall|i: int|
            0 <= i < self.private_rooms.len() ==> (#[trigger] self.private_rooms[i]).private
    }

    /// Whether the two directories have, place by place, rooms with the
    /// same identifier and the same privacy flag.
    pub open spec fn same_places(self, other: ControllerView) -> bool {
        &&& room_ids(self.public_rooms) == room_ids(other.public_rooms)
        &&& room_ids(self.private_rooms) == room_ids(other.private_rooms)
        &&& forall|i: int|
            0 <= i < self.public_rooms.len() ==> (#[trigger] self.public_rooms[i]).private
                == other.public_rooms[i].private
        &&& forall|i: int|
            0 <= i < self.private_rooms.len() ==> (#[trigger] self.private_rooms[i]).private
                == other.private_rooms[i].private
    }

    /// Whether no two rooms have one identifier.
    pub open spec fn distinct_rooms(self) -> bool {
        forall|id: Uuid| #[trigger] self.rooms_with_id(id) <= 1
    }

    /// Whether a room with the identifier of `room` stands in either list.
    pub open spec fn contains_room(self, room: RoomView) -> bool {
        self.has_room(room.id)
    }

    /// `room` is put at the end of the list that its privacy flag names,
    /// also when a room with its identifier is there already.
    pub open spec fn add_room(self, room: RoomView) -> ControllerView {
        if room.private {
            ControllerView { private_rooms: self.private_rooms.push(room), ..self }
        } else {
            ControllerView { public_rooms: self.public_rooms.push(room), ..self }
        }
    }

    /// Each of `rooms` is put, in order, at the end of the list that its
    /// privacy flag names.
    pub open spec fn take_rooms(self, rooms: Seq<RoomView>) -> ControllerView {
        ControllerView {
            public_rooms: self.public_rooms + rooms.filter(|room: RoomView| !room.private),
            private_rooms: self.private_rooms + rooms.filter(|room: RoomView| room.private),
            ..self
        }
    }

    /// The room that `id` resolves to leaves its list.
    pub open spec fn remove_room(self, id: Uuid) -> ControllerView {
        match self.find_room_match(id) {
            Some((i, public)) => if public {
                ControllerView { public_rooms: self.public_rooms.remove(i), ..self }
            } else {
                ControllerView { private_rooms: self.private_rooms.remove(i), ..self }
            },
            None => self,
        }
    }

    /// Whether `user_id` gets into the room that `room_id` resolves to:
    /// into a public room always, into a private one as a member of it or
    /// as an administrator, which `admin` says.
    pub open spec fn admits(self, room_id: Uuid, user_id: Uuid, admin: bool) -> bool {
        self.find_room(room_id) matches Some(room) && room.admits(user_id, admin)
    }

    /// `user_id` is put at the end of those present in the room, if the
    /// room lets the user in.
    pub open spec fn admit_to_room(self, room_id: Uuid, user_id: Uuid, admin: bool) -> ControllerView {
        match self.find_room(room_id) {
            Some(room) => if room.admits(user_id, admin) {
                self.with_room(room_id, room.add_online_member(user_id))
            } else {
                self
            },
            None => self,
        }
    }

    /// `user_id` loses one entry among those present in the room.
    pub open spec fn leave_room(self, room_id: Uuid, user_id: Uuid) -> ControllerView {
        match self.find_room(room_id) {
            Some(room) => self.with_room(room_id, room.remove_online_member(user_id)),
            None => self,
        }
    }

    /// `user_id` becomes a member of the room that `room_id` resolves to.
    pub open spec fn add_member_to_room(self, room_id: Uuid, user_id: Uuid) -> ControllerView {
        match self.find_room(room_id) {
            Some(room) => self.with_room(room_id, room.add_member(user_id)),
            None => self,
        }
    }

    /// `user_id` loses one entry among the members of the room.
    pub open spec fn remove_member_from_room(self, room_id: Uuid, user_id: Uuid) -> ControllerView {
        match self.find_room(room_id) {
            Some(room) => self.with_room(room_id, room.remove_member(user_id)),
            None => self,
        }
    }

    /// `user_id` becomes a moderator of the room, and a member of it
    /// unless already one.
    pub open spec fn add_moderator_to_room(self, room_id: Uuid, user_id: Uuid) -> ControllerView {
        match self.find_room(room_id) {
            Some(room) => self.with_room(
                room_id,
                if room.has_member(user_id) {
                    room.add_moderator(user_id)
                } else {
                    room.add_moderator(user_id).add_member(user_id)
                },
            ),
            None => self,
        }
    }

    /// `user_id` loses one entry among the moderators of the room, and
    /// stays a member.
    pub open spec fn remove_moderator_from_room(self, room_id: Uuid, user_id: Uuid) -> ControllerView {
        match self.find_room(room_id) {
            Some(room) => self.with_room(room_id, room.remove_moderator(user_id)),
            None => self,
        }
    }

    /// `user_id` is put on the banned list of the room and loses up to two
    /// entries among its members and up to two among its moderators.
    pub open spec fn ban_member(self, room_id: Uuid, user_id: Uuid) -> ControllerView {
        match self.find_room(room_id) {
            Some(room) => self.with_room(
                room_id,
                room.bann_member(user_id).remove_member(user_id).remove_moderator(user_id),
            ),
            None => self,
        }
    }

    /// A `user_id` banned from the room loses one entry on its banned
    /// list and becomes a member again.
    pub open spec fn unban_member(self, room_id: Uuid, user_id: Uuid) -> ControllerView {
        match self.find_room(room_id) {
            Some(room) => self.with_room(room_id, room.unbann_member(user_id)),
            None => self,
        }
    }

    /// `user_id` is put on the muted list of the room, member or not.
    pub open spec fn mute_member(self, room_id: Uuid, user_id: Uuid) -> ControllerView {
        match self.find_room(room_id) {
            Some(room) => self.with_room(room_id, room.mute_member(user_id)),
            None => self,
        }
    }

    /// `user_id` loses one entry on the muted list of the room.
    pub open spec fn unmute_member(self, room_id: Uuid, user_id: Uuid) -> ControllerView {
        match self.find_room(room_id) {
            Some(room) => self.with_room(room_id, room.unmute_member(user_id)),
            None => self,
        }
    }
}

/// Putting a room back in its own place changes nothing.
pub proof fn lemma_with_same_room(directory: ControllerView, id: Uuid)
    ensures
        directory.find_room(id) matches Some(room) ==> directory.with_room(id, room) == directory,
{
    lemma_room_index(directory.public_rooms, id);
    lemma_room_index(directory.private_rooms, id);
    match directory.find_room_match(id) {
        Some((i, public)) => {
            if public {
                assert(directory.public_rooms.update(i, directory.public_rooms[i])
                    =~= directory.public_rooms);
            } else {
                assert(directory.private_rooms.update(i, directory.private_rooms[i])
                    =~= directory.private_rooms);
            }
        },
        None => {},
    }
}

} // verus!
