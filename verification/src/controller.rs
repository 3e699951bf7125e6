//! The directory itself: the users it knows and its rooms, public and
//! private.

use crate::directory::lemma_room_index;
use crate::directory::lemma_with_same_room;
use crate::directory::room_ids;
use crate::directory::room_index;
use crate::directory::ControllerView;
use crate::external_data_source::RoomDataInterface;
use crate::external_data_source::UserDataInterface;
use crate::ids::holds_id;
use crate::ids::remove_ref;
use crate::room::Room;
use crate::room::RoomView;
use crate::role::Role;
use crate::time::Timestamp;
use crate::token::invite_token;
use crate::token::token_of;
use crate::user::State;
use crate::user::User;
use uuid::Uuid;
use vstd::prelude::*;

verus! {

/// What each of `rooms` stands for.
pub open spec fn room_views(rooms: Seq<Room>) -> Seq<RoomView> {
    rooms.map_values(|room: Room| room@)
}

/// The directory of users and rooms, on top of a store of users and a
/// store of rooms.
#[derive(Debug)]
pub struct Controller<U, R> where U: UserDataInterface, R: RoomDataInterface {
    user_list: Vec<Uuid>,
    public_rooms: Vec<Room>,
    private_rooms: Vec<Room>,
    user_data_interface: U,
    room_data_interface: R,
}

impl<U, R> View for Controller<U, R> where U: UserDataInterface, R: RoomDataInterface {
    type V = ControllerView;

    closed spec fn view(&self) -> ControllerView {
        ControllerView {
            users: self.user_list@,
            public_rooms: room_views(self.public_rooms@),
            private_rooms: room_views(self.private_rooms@),
        }
    }
}

/// Whether what a store of users answered is a user who holds the
/// administrator role. No user, no administrator.
pub open spec fn is_admin(found: Option<User>) -> bool {
    found matches Some(user) && user@.has_role(Role::Admin)
}

/// Whether the user that a store of users gave for an identifier holds
/// the administrator role. No user, no administrator.
pub fn holds_admin(found: &Option<User>) -> (admin: bool)
    ensures
        admin == is_admin(*found),
{
    match found {
        Some(value) => value.has_role(&Role::generate_admin()),
        None => false,
    }
}

/// Where the first room with identifier `id` stands in `rooms`.
fn room_position(rooms: &Vec<Room>, id: &Uuid) -> (found: Option<usize>)
    ensures
        match found {
            Some(i) => i < rooms.len() && room_index(room_views(rooms@), *id) == Some(i as int),
            None => room_index(room_views(rooms@), *id) is None,
        },
{
    let mut counter: usize = 0;
    while counter < rooms.len()
        invariant
            counter <= rooms.len(),
            forall|j: int| 0 <= j < counter ==> rooms@[j]@.id != *id,
        decreases rooms.len() - counter,
    {
        if rooms[counter].eq_by_uuid(id) {
            proof {
                let views = room_views(rooms@);
                lemma_room_index(views, *id);
                assert(views[counter as int] == rooms@[counter as int]@);
            }
            return Some(counter);
        }
        counter += 1;
    }
    proof {
        let views = room_views(rooms@);
        lemma_room_index(views, *id);
    }
    None
}

impl<U, R> Controller<U, R> where U: UserDataInterface, R: RoomDataInterface {
    /// The store of users.
    pub closed spec fn user_source(&self) -> U {
        self.user_data_interface
    }

    /// The store of rooms.
    pub closed spec fn room_source(&self) -> R {
        self.room_data_interface
    }

    /// The two stores.
    pub open spec fn sources(&self) -> (U, R) {
        (self.user_source(), self.room_source())
    }

    /// A directory on top of the two stores, holding what they have on
    /// record. The known users are the identifiers that the store of
    /// users gives when asked by `provide_user_id_list`, in its order.
    /// The rooms are those that the store of rooms gives when asked by
    /// `provide_room_data`, each in the list that its privacy flag names
    /// and in the store's order. Each store is asked once and held as
    /// that call leaves it.
    pub fn new(user_interface: U, room_interface: R) -> (controller: Controller<U, R>)
        ensures
            exists|store: &mut U, ids: Vec<Uuid>|
                *store == user_interface && *final(store) == controller.user_source()
                    && #[trigger] call_ensures(U::provide_user_id_list, (store,), ids) && controller@.users
                    == ids@,
            (exists|store: &mut R, rooms: Vec<Room>|
                *store == room_interface && *final(store) == controller.room_source()
                    && #[trigger] call_ensures(R::provide_room_data, (store,), rooms) && controller@ == (
                ControllerView {
                    users: controller@.users,
                    public_rooms: Seq::empty(),
                    private_rooms: Seq::empty(),
                }).take_rooms(room_views(rooms@))),
            controller@.sorted_by_privacy(),
    {
        let mut controller = Controller {
            user_list: Vec::new(),
            public_rooms: Vec::new(),
            private_rooms: Vec::new(),
            user_data_interface: user_interface,
            room_data_interface: room_interface,
        };
        assert(controller@.public_rooms =~= Seq::<RoomView>::empty());
        assert(controller@.private_rooms =~= Seq::<RoomView>::empty());
        controller.fetch_user_data();
        controller.fetch_room_data();
        controller
    }

    /// Takes the known users from the store of users: they are the
    /// identifiers that the store's `provide_user_id_list` gives, in its
    /// order, and the store is left as that call leaves it. The rooms
    /// and the store of rooms stay as they are.
    fn fetch_user_data(&mut self)
        ensures
            exists|store: &mut U, ids: Vec<Uuid>|
                *store == old(self).user_source() && *final(store) == final(self).user_source()
                    && #[trigger] call_ensures(U::provide_user_id_list, (store,), ids)
                    && final(self)@.users == ids@,
            final(self)@.public_rooms == old(self)@.public_rooms,
            final(self)@.private_rooms == old(self)@.private_rooms,
            final(self).room_source() == old(self).room_source(),
    {
        self.user_list = self.user_data_interface.provide_user_id_list();
    }

    /// Takes the rooms from the store of rooms: the rooms that the
    /// store's `provide_room_data` gives are put, in its order, at the
    /// end of the list that their privacy flag names, and the store is
    /// left as that call leaves it. The known users and the store of
    /// users stay as they are.
    fn fetch_room_data(&mut self)
        ensures
            exists|store: &mut R, rooms: Vec<Room>|
                *store == old(self).room_source() && *final(store) == final(self).room_source()
                    && #[trigger] call_ensures(R::provide_room_data, (store,), rooms) && final(self)@
                    == old(self)@.take_rooms(room_views(rooms@)),
            final(self).user_source() == old(self).user_source(),
    {
        let room_data = self.room_data_interface.provide_room_data();
        self.take_rooms(room_data);
    }

    /// Puts each of `rooms`, in order, at the end of the list that its
    /// privacy flag names. Neither store is told.
    pub fn take_rooms(&mut self, rooms: Vec<Room>)
        ensures
            final(self)@ == old(self)@.take_rooms(room_views(rooms@)),
            final(self).sources() == old(self).sources(),
    {
        let ghost all = room_views(rooms@);
        for room in iter: rooms
            invariant
                iter.seq() == rooms@,
                all == room_views(rooms@),
                self@ == old(self)@.take_rooms(all.take(iter.index() as int)),
                self.sources() == old(self).sources(),
        {
            proof {
                let done = iter.index() as int;
                assert(all.take(done + 1) =~= all.take(done).push(room@));
                all.take(done).lemma_filter_push(room@, |room: RoomView| !room.private);
                all.take(done).lemma_filter_push(room@, |room: RoomView| room.private);
            }
            let ghost before = self@;
            if room.is_private() {
                self.private_rooms.push(room);
                assert(self@.private_rooms =~= before.private_rooms.push(room@));
            } else {
                self.public_rooms.push(room);
                assert(self@.public_rooms =~= before.public_rooms.push(room@));
            }
        }
        assert(all.take(all.len() as int) =~= all);
    }

    /// Puts the user's identifier at the end of the known users, also when
    /// it is there already, and hands the user to the store of users by
    /// `store_user`. The store is left as that call leaves it.
    pub fn add_user(&mut self, user: User)
        ensures
            final(self)@ == old(self)@.add_user(user@.id),
            exists|store: &mut U|
                *store == old(self).user_source() && *final(store) == final(self).user_source()
                    && #[trigger] call_ensures(U::store_user, (store, user), ()),
            final(self).room_source() == old(self).room_source(),
    {
        self.user_list.push(user.copy_id());
        self.user_data_interface.store_user(user);
    }

    /// Takes the first entry of the identifier out of the known users and
    /// says whether there was one. The store of users is not told and
    /// keeps its record.
    pub fn remove_user(&mut self, user_id: &Uuid) -> (removed: bool)
        ensures
            removed == old(self)@.is_user(*user_id),
            final(self)@ == old(self)@.remove_user(*user_id),
            final(self).sources() == old(self).sources(),
    {
        if remove_ref(&mut self.user_list, user_id) {
            return true;
        }
        false
    }

    /// Whether the identifier is among the known users.
    pub fn is_user(&self, user_id: &Uuid) -> (known: bool)
        ensures
            known == self@.is_user(*user_id),
    {
        holds_id(&self.user_list, user_id)
    }

    /// What the store of users answers when asked for `user_id`: the
    /// result is an answer of the store's `provide_user` to `user_id` on
    /// the store as it was, and the store is left as that call leaves it.
    /// The known users are not consulted, and nothing is kept of the
    /// answer.
    pub fn find_user(&mut self, user_id: &Uuid) -> (found: Option<User>)
        ensures
            exists|store: &mut U|
                *store == old(self).user_source() && *final(store) == final(self).user_source()
                    && #[trigger] call_ensures(U::provide_user, (store, user_id), found),
            final(self)@ == old(self)@,
            final(self).room_source() == old(self).room_source(),
    {
        self.user_data_interface.provide_user(user_id)
    }

    /// Has the store of users replace the user's record by one with
    /// `role` granted: the store is asked for `user_id` by `provide_user`
    /// and, where it answers with a user, told by `update_user` to put
    /// that user with `role` granted in the record's place. Where it
    /// answers with none it is told nothing. What the store makes of the
    /// two calls is the store's to say.
    pub fn grant_role(&mut self, user_id: &Uuid, role: &Role)
        ensures
            (exists|asked: &mut U, found: Option<User>|
                *asked == old(self).user_source() && #[trigger] call_ensures(
                    U::provide_user,
                    (asked, user_id),
                    found,
                ) && match found {
                    Some(user) => exists|told: &mut U, changed: User|
                        *told == *final(asked) && *final(told) == final(self).user_source()
                            && changed@ == user@.grant_role(*role) && #[trigger] call_ensures(
                            U::update_user,
                            (told, changed),
                            (),
                        ),
                    None => final(self).user_source() == *final(asked),
                }),
            final(self)@ == old(self)@,
            final(self).room_source() == old(self).room_source(),
    {
        match self.find_user(user_id) {
            Some(mut user) => {
                user.grant_role(role);
                self.user_data_interface.update_user(user);
            },
            None => (),
        }
    }

    /// Has the store of users replace the user's record by one with
    /// `role` taken away: the store is asked for `user_id` by
    /// `provide_user` and, where it answers with a user, told by
    /// `update_user` to put that user without `role` in the record's
    /// place. Where it answers with none it is told nothing.
    pub fn revoke_role(&mut self, user_id: &Uuid, role: &Role)
        ensures
            (exists|asked: &mut U, found: Option<User>|
                *asked == old(self).user_source() && #[trigger] call_ensures(
                    U::provide_user,
                    (asked, user_id),
                    found,
                ) && match found {
                    Some(user) => exists|told: &mut U, changed: User|
                        *told == *final(asked) && *final(told) == final(self).user_source()
                            && changed@ == user@.revoke_role(*role) && #[trigger] call_ensures(
                            U::update_user,
                            (told, changed),
                            (),
                        ),
                    None => final(self).user_source() == *final(asked),
                }),
            final(self)@ == old(self)@,
            final(self).room_source() == old(self).room_source(),
    {
        match self.find_user(user_id) {
            Some(mut user) => {
                user.revoke_role(role);
                self.user_data_interface.update_user(user);
            },
            None => (),
        }
    }

    /// Has the store of users replace the user's record by one in the
    /// given state: the store is asked for `user_id` by `provide_user`
    /// and, where it answers with a user, told by `update_user` to put
    /// that user in the given state in the record's place. Where it
    /// answers with none it is told nothing.
    pub fn update_state(&mut self, user_id: &Uuid, state: State)
        ensures
            (exists|asked: &mut U, found: Option<User>|
                *asked == old(self).user_source() && #[trigger] call_ensures(
                    U::provide_user,
                    (asked, user_id),
                    found,
                ) && match found {
                    Some(user) => exists|told: &mut U, changed: User|
                        *told == *final(asked) && *final(told) == final(self).user_source()
                            && changed@ == user@.update_state(state) && #[trigger] call_ensures(
                            U::update_user,
                            (told, changed),
                            (),
                        ),
                    None => final(self).user_source() == *final(asked),
                }),
            final(self)@ == old(self)@,
            final(self).room_source() == old(self).room_source(),
    {
        match self.find_user(user_id) {
            Some(mut user) => {
                user.update_state(state);
                self.user_data_interface.update_user(user);
            },
            None => (),
        }
    }

    /// Opens a room for `owner` under a fresh random identifier and adds
    /// it as `add_room` does: a private room, with the owner as its only
    /// member, of which the store of rooms is handed a copy by
    /// `store_room`.
    pub fn generate_room(&mut self, name: String, owner: Uuid)
        ensures
            final(self)@.private_rooms.len() == old(self)@.private_rooms.len() + 1,
            final(self)@ == old(self)@.add_room(final(self)@.private_rooms.last()),
            ({
                let room = final(self)@.private_rooms.last();
                &&& room == RoomView::opened(room.id, name@, owner, room.created_at)
                &&& room.has_member(owner)
                &&& !room.has_moderator(owner)
            }),
            exists|store: &mut R, copy: Room|
                *store == old(self).room_source() && *final(store) == final(self).room_source()
                    && copy@ == final(self)@.private_rooms.last() && #[trigger] call_ensures(
                    R::store_room,
                    (store, copy),
                    (),
                ),
            final(self).user_source() == old(self).user_source(),
    {
        let room = Room::new(name, owner);
        self.add_room(room);
    }

    /// Hands a copy of `room`, one that holds the same, to the store of
    /// rooms by `store_room`, and puts the room at the end of the list
    /// that its privacy flag names, also when a room with its identifier
    /// is there already. The store is left as that call leaves it.
    pub fn add_room(&mut self, room: Room)
        ensures
            final(self)@ == old(self)@.add_room(room@),
            exists|store: &mut R, copy: Room|
                *store == old(self).room_source() && *final(store) == final(self).room_source()
                    && copy@ == room@ && #[trigger] call_ensures(R::store_room, (store, copy), ()),
            final(self).user_source() == old(self).user_source(),
    {
        self.room_data_interface.store_room(room.clone());
        if room.is_private() {
            self.private_rooms.push(room);
            assert(room_views(self.private_rooms@) =~= room_views(old(self).private_rooms@).push(room@));
        } else {
            self.public_rooms.push(room);
            assert(room_views(self.public_rooms@) =~= room_views(old(self).public_rooms@).push(room@));
        }
    }

    /// Takes the room that the identifier resolves to out of its list and
    /// says whether there was one. The store of rooms is not told.
    pub fn remove_room(&mut self, room: &Uuid) -> (removed: bool)
        ensures
            removed == old(self)@.find_room(*room) is Some,
            final(self)@ == old(self)@.remove_room(*room),
            old(self)@.find_room(*room) is None ==> !removed && final(self)@ == old(self)@,
            final(self).sources() == old(self).sources(),
    {
        if Controller::<U, R>::remove_room_from_vec(&mut self.public_rooms, room) {
            return true;
        }
        if Controller::<U, R>::remove_room_from_vec(&mut self.private_rooms, room) {
            return true;
        }
        false
    }

    /// Whether a room with the identifier of `room` stands in either
    /// list.
    pub fn contains_room(&self, room: &Room) -> (found: bool)
        ensures
            found == self@.contains_room(room@),
    {
        let mut i: usize = 0;
        while i < self.public_rooms.len()
            invariant
                i <= self.public_rooms.len(),
                forall|j: int| 0 <= j < i ==> self.public_rooms@[j]@.id != room@.id,
            decreases self.public_rooms.len() - i,
        {
            if self.public_rooms[i].eq(room) {
                proof {
                    assert(room_ids(self@.public_rooms)[i as int] == room@.id);
                }
                return true;
            }
            i += 1;
        }
        let mut k: usize = 0;
        while k < self.private_rooms.len()
            invariant
                k <= self.private_rooms.len(),
                forall|j: int| 0 <= j < k ==> self.private_rooms@[j]@.id != room@.id,
            decreases self.private_rooms.len() - k,
        {
            if self.private_rooms[k].eq(room) {
                proof {
                    assert(room_ids(self@.private_rooms)[k as int] == room@.id);
                }
                return true;
            }
            k += 1;
        }
        false
    }

    /// `user_id` becomes a member of the room, also when one already.
    pub fn add_member_to_room(&mut self, room_id: &Uuid, user_id: Uuid)
        ensures
            final(self)@ == old(self)@.add_member_to_room(*room_id, user_id),
            old(self)@.find_room(*room_id) is None ==> final(self)@ == old(self)@,
            final(self).sources() == old(self).sources(),
    {
        match self.find_mut_room(room_id) {
            Some(t) => t.add_member(user_id),
            None => (),
        }
    }

    /// `user_id` loses one entry among the members of the room. The
    /// result says whether there was one.
    pub fn remove_member_from_room(&mut self, room_id: &Uuid, user_id: &Uuid) -> (removed: bool)
        ensures
            removed == (old(self)@.find_room(*room_id) matches Some(room) && room.has_member(*user_id)),
            final(self)@ == old(self)@.remove_member_from_room(*room_id, *user_id),
            old(self)@.find_room(*room_id) is None ==> !removed && final(self)@ == old(self)@,
            final(self).sources() == old(self).sources(),
    {
        match self.find_mut_room(room_id) {
            Some(t) => t.remove_member(user_id),
            None => false,
        }
    }

    /// `user_id` becomes a moderator of the room, and a member of it
    /// unless one already.
    pub fn add_moderator_to_room(&mut self, room_id: &Uuid, user_id: Uuid)
        ensures
            final(self)@ == old(self)@.add_moderator_to_room(*room_id, user_id),
            old(self)@.find_room(*room_id) is None ==> final(self)@ == old(self)@,
            final(self).sources() == old(self).sources(),
    {
        match self.find_mut_room(room_id) {
            Some(t) => {
                t.add_moderator(user_id);
                if !t.has_member(&user_id) {
                    t.add_member(user_id);
                }
            },
            None => (),
        };
    }

    /// `user_id` loses one entry among the moderators of the room and
    /// stays a member. The result says whether there was one.
    pub fn remove_moderator_from_room(&mut self, room_id: &Uuid, user_id: &Uuid) -> (removed: bool)
        ensures
            removed == (old(self)@.find_room(*room_id) matches Some(room) && room.has_moderator(*user_id)),
            final(self)@ == old(self)@.remove_moderator_from_room(*room_id, *user_id),
            old(self)@.find_room(*room_id) is None ==> !removed && final(self)@ == old(self)@,
            final(self).sources() == old(self).sources(),
    {
        match self.find_mut_room(room_id) {
            Some(t) => t.remove_moderator(user_id),
            None => false,
        }
    }

    /// `user_id` is put on the banned list of the room, and loses up to
    /// two entries among its members and up to two among its moderators.
    pub fn ban_member(&mut self, room_id: &Uuid, user_id: Uuid)
        ensures
            final(self)@ == old(self)@.ban_member(*room_id, user_id),
            old(self)@.find_room(*room_id) is None ==> final(self)@ == old(self)@,
            final(self).sources() == old(self).sources(),
    {
        match self.find_mut_room(room_id) {
            Some(t) => {
                t.bann_member(user_id);
                t.remove_member(&user_id);
                t.remove_moderator(&user_id);
            },
            None => (),
        }
    }

    /// A `user_id` banned from the room loses one entry on its banned
    /// list and becomes a member again. The result says whether the user
    /// was banned; where not, nothing changes.
    pub fn unban_member(&mut self, room_id: &Uuid, user_id: Uuid) -> (unbanned: bool)
        ensures
            unbanned == (old(self)@.find_room(*room_id) matches Some(room) && room.is_member_banned(user_id)),
            final(self)@ == old(self)@.unban_member(*room_id, user_id),
            old(self)@.find_room(*room_id) is None ==> !unbanned && final(self)@ == old(self)@,
            final(self).sources() == old(self).sources(),
    {
        match self.find_mut_room(room_id) {
            Some(t) => t.unbann_member(user_id),
            None => false,
        }
    }

    /// `user_id` is put on the muted list of the room, member or not.
    pub fn mute_member(&mut self, room_id: &Uuid, user_id: Uuid)
        ensures
            final(self)@ == old(self)@.mute_member(*room_id, user_id),
            old(self)@.find_room(*room_id) is None ==> final(self)@ == old(self)@,
            final(self).sources() == old(self).sources(),
    {
        match self.find_mut_room(room_id) {
            Some(t) => t.mute_member(user_id),
            None => (),
        }
    }

    /// `user_id` loses one entry on the muted list of the room. The
    /// result says whether there was one.
    pub fn unmute_member(&mut self, room_id: &Uuid, user_id: &Uuid) -> (unmuted: bool)
        ensures
            unmuted == (old(self)@.find_room(*room_id) matches Some(room) && room.is_member_muted(*user_id)),
            final(self)@ == old(self)@.unmute_member(*room_id, *user_id),
            old(self)@.find_room(*room_id) is None ==> !unmuted && final(self)@ == old(self)@,
            final(self).sources() == old(self).sources(),
    {
        match self.find_mut_room(room_id) {
            Some(t) => t.unmute_member(user_id),
            None => false,
        }
    }

    /// The room that the identifier resolves to: the first public room
    /// with it, else the first private one.
    pub fn find_room(&self, id: &Uuid) -> (found: Option<&Room>)
        ensures
            match found {
                Some(room) => self@.find_room(*id) == Some(room@),
                None => self@.find_room(*id) is None,
            },
    {
        match self.find_room_match(id) {
            Some((counter, public_room)) => {
                proof {
                    lemma_room_index(self@.public_rooms, *id);
                    lemma_room_index(self@.private_rooms, *id);
                }
                if public_room {
                    Some(&self.public_rooms[counter])
                } else {
                    Some(&self.private_rooms[counter])
                }
            },
            None => None,
        }
    }

    /// The room that the identifier resolves to, open to change. What the
    /// caller makes of the room stands in its place afterwards; the room
    /// stays in its list, whatever becomes of its privacy flag.
    pub fn find_mut_room(&mut self, id: &Uuid) -> (found: Option<&mut Room>)
        ensures
            match found {
                Some(room) => {
                    &&& old(self)@.find_room(*id) == Some(room@)
                    &&& final(self)@ == old(self)@.with_room(*id, final(room)@)
                },
                None => old(self)@.find_room(*id) is None && final(self)@ == old(self)@,
            },
            final(self).sources() == old(self).sources(),
    {
        match self.find_room_match(id) {
            Some((counter, public_room)) => {
                proof {
                    lemma_room_index(self@.public_rooms, *id);
                    lemma_room_index(self@.private_rooms, *id);
                    let at = counter as int;
                    let before = if public_room {
                        self.public_rooms@
                    } else {
                        self.private_rooms@
                    };
                    assert forall|after: Seq<Room>| after == before.update(at, after[at]) implies #[trigger] room_views(
                        after,
                    ) == room_views(before).update(at, after[at]@) by {}
                }
                if public_room {
                    Some(&mut self.public_rooms[counter])
                } else {
                    Some(&mut self.private_rooms[counter])
                }
            },
            None => None,
        }
    }

    /// Where the room that the identifier resolves to stands, and whether
    /// that is in the public list.
    fn find_room_match(&self, id: &Uuid) -> (found: Option<(usize, bool)>)
        ensures
            match found {
                Some((counter, public)) => self@.find_room_match(*id) == Some((counter as int, public)),
                None => self@.find_room_match(*id) is None,
            },
    {
        match room_position(&self.public_rooms, id) {
            Some(counter) => Some((counter, true)),
            None => match room_position(&self.private_rooms, id) {
                Some(counter) => Some((counter, false)),
                None => None,
            },
        }
    }

    /// Asks the store of users for `user_id` by `provide_user`, and then
    /// lets the user into the room or not, as `admit_to_room` does with
    /// the flag set exactly when the store answered with a user who
    /// holds the administrator role. The store is asked first, whatever
    /// the room, and left as that call leaves it. Into a public room,
    /// and into a private room of which the user is a member, the user
    /// gets whatever the store says.
    pub fn join_room(&mut self, room_id: &Uuid, user_id: &Uuid) -> (joined: bool)
        ensures
            exists|store: &mut U, found: Option<User>|
                *store == old(self).user_source() && *final(store) == final(self).user_source()
                    && #[trigger] call_ensures(U::provide_user, (store, user_id), found) && joined
                    == old(self)@.admits(*room_id, *user_id, is_admin(found)) && final(self)@
                    == old(self)@.admit_to_room(*room_id, *user_id, is_admin(found)),
            old(self)@.admits(*room_id, *user_id, false) ==> joined && final(self)@ == old(self)@.admit_to_room(
                *room_id,
                *user_id,
                false,
            ),
            old(self)@.find_room(*room_id) is None ==> !joined && final(self)@ == old(self)@,
            final(self).room_source() == old(self).room_source(),
    {
        let admin_flag = self.verify_admin(user_id);
        self.admit_to_room(room_id, user_id, admin_flag)
    }

    /// Lets `user_id` into the room if the room is public, or the user a
    /// member of it, or `admin_flag` set. A user who gets in is put at
    /// the end of those present, also when there already. The result
    /// says whether the user got in.
    pub fn admit_to_room(&mut self, room_id: &Uuid, user_id: &Uuid, admin_flag: bool) -> (joined: bool)
        ensures
            joined == old(self)@.admits(*room_id, *user_id, admin_flag),
            final(self)@ == old(self)@.admit_to_room(*room_id, *user_id, admin_flag),
            old(self)@.find_room(*room_id) is None ==> !joined && final(self)@ == old(self)@,
            final(self).sources() == old(self).sources(),
    {
        proof {
            lemma_with_same_room(self@, *room_id);
        }
        match self.find_mut_room(room_id) {
            Some(room) => {
                if room.is_private() {
                    if room.has_member(user_id) {
                        room.add_online_member(user_id);
                        return true;
                    } else if admin_flag {
                        room.add_online_member(user_id);
                        return true;
                    }
                } else {
                    room.add_online_member(user_id);
                    return true;
                }
                return false;
            },
            None => false,
        }
    }

    /// `user_id` loses one entry among those present in the room, if
    /// there is one.
    pub fn leave_room(&mut self, room_id: &Uuid, user_id: &Uuid)
        ensures
            final(self)@ == old(self)@.leave_room(*room_id, *user_id),
            old(self)@.find_room(*room_id) is None ==> final(self)@ == old(self)@,
            final(self).sources() == old(self).sources(),
    {
        match self.find_mut_room(room_id) {
            Some(room) => room.remove_online_member(user_id),
            None => (),
        }
    }

    /// Takes the first room with the identifier out of `list` and says
    /// whether there was one.
    fn remove_room_from_vec(list: &mut Vec<Room>, reference: &Uuid) -> (removed: bool)
        ensures
            removed == room_index(room_views(old(list)@), *reference) is Some,
            room_views(final(list)@) == match room_index(room_views(old(list)@), *reference) {
                Some(i) => room_views(old(list)@).remove(i),
                None => room_views(old(list)@),
            },
    {
        match room_position(list, reference) {
            Some(e) => {
                list.remove(e);
                true
            },
            None => false,
        }
    }

    /// An invite token for an administrator, and none for anybody else:
    /// the store of users is asked for `admin_id` by `provide_user`, and
    /// a token comes exactly when it answers with a user who holds the
    /// administrator role. The token is then the token of `admin_id` at
    /// some point in time, the current one, as `invite_token` makes it.
    pub fn generate_invite_token(&mut self, admin_id: &Uuid) -> (token: Option<u64>)
        ensures
            exists|store: &mut U, found: Option<User>|
                *store == old(self).user_source() && *final(store) == final(self).user_source()
                    && #[trigger] call_ensures(U::provide_user, (store, admin_id), found) && (token is Some
                    <==> is_admin(found)),
            token is Some ==> exists|at: Timestamp| token == Some(#[trigger] token_of(*admin_id, at)),
            final(self)@ == old(self)@,
            final(self).room_source() == old(self).room_source(),
    {
        let admin = self.verify_admin(admin_id);
        invite_token(admin, admin_id)
    }

    /// Whether the store of users has `admin_id` on record with the
    /// administrator role: the store is asked for `admin_id` by
    /// `provide_user`, each time anew, and the result says whether it
    /// answered with a user who holds the role.
    pub fn verify_admin(&mut self, admin_id: &Uuid) -> (admin: bool)
        ensures
            exists|store: &mut U, found: Option<User>|
                *store == old(self).user_source() && *final(store) == final(self).user_source()
                    && #[trigger] call_ensures(U::provide_user, (store, admin_id), found) && admin
                    == is_admin(found),
            final(self)@ == old(self)@,
            final(self).room_source() == old(self).room_source(),
    {
        let found = self.find_user(admin_id);
        holds_admin(&found)
    }
}

} // verus!
