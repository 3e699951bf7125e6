//! What holds of rooms and of the directory in every state.

use crate::directory::lemma_room_index;
use crate::directory::lemma_with_same_room;
use crate::directory::room_ids;
use crate::directory::room_index;
use crate::directory::ControllerView;
use crate::ids::lemma_occurs;
use crate::ids::lemma_push_occurrences;
use crate::ids::lemma_push_then_remove_value;
use crate::ids::lemma_remove_value_occurrences;
use crate::ids::occurrences;
use crate::room::RoomView;
use crate::time::Timestamp;
use uuid::Uuid;
use vstd::prelude::*;

verus! {

/// The owner of a room just opened is a member of it and no moderator.
pub proof fn law_owner_is_member(id: Uuid, name: Seq<char>, owner: Uuid, created_at: Timestamp)
    ensures
        RoomView::opened(id, name, owner, created_at).has_member(owner),
        !RoomView::opened(id, name, owner, created_at).has_moderator(owner),
{
    assert(seq![owner][0] == owner);
}

/// A ban puts the user on the banned list and takes one entry of the user
/// from the members and one from the moderators: a user who stood there
/// once at most is neither afterwards, a user who stood there more often
/// still is.
pub proof fn law_room_ban(room: RoomView, user: Uuid)
    ensures
        room.bann_member(user).is_member_banned(user),
        room.bann_member(user).has_member(user) <==> occurrences(room.members, user) > 1,
        room.bann_member(user).has_moderator(user) <==> occurrences(room.moderators, user) > 1,
{
    lemma_push_occurrences(room.banned_users, user, user);
    lemma_remove_value_occurrences(room.members, user, user);
    lemma_remove_value_occurrences(room.moderators, user, user);
}

/// Lifting a ban makes the user a member again, and no moderator who was
/// none. The user is off the banned list afterwards unless banned more
/// than once. For a user who is not banned nothing changes.
pub proof fn law_room_unban(room: RoomView, user: Uuid)
    ensures
        room.is_member_banned(user) ==> room.unbann_member(user).has_member(user),
        room.unbann_member(user).is_member_banned(user) <==> occurrences(room.banned_users, user) > 1,
        room.unbann_member(user).moderators == room.moderators,
        !room.is_member_banned(user) ==> room.unbann_member(user) == room,
{
    lemma_remove_value_occurrences(room.banned_users, user, user);
    lemma_push_occurrences(room.members, user, user);
}

/// A ban that is then lifted leaves the user a member and as banned as
/// before the ban: not at all, unless the user was banned already.
pub proof fn law_room_ban_then_unban(room: RoomView, user: Uuid)
    ensures
        room.bann_member(user).unbann_member(user).has_member(user),
        room.bann_member(user).unbann_member(user).is_member_banned(user)
            <==> room.is_member_banned(user),
        !room.is_member_banned(user) ==> room.bann_member(user).unbann_member(user).banned_users
            == room.banned_users,
{
    let banned = room.bann_member(user);
    lemma_push_occurrences(room.banned_users, user, user);
    lemma_occurs(room.banned_users, user);
    law_room_unban(banned, user);
    if !room.is_member_banned(user) {
        lemma_push_then_remove_value(room.banned_users, user);
    }
}

/// A muted user is muted. Muting and then unmuting leaves the user as
/// muted as before, and the room as it was where the user was not muted
/// before. Unmuting a user who is not muted changes nothing.
pub proof fn law_room_mute(room: RoomView, user: Uuid)
    ensures
        room.mute_member(user).is_member_muted(user),
        room.mute_member(user).unmute_member(user).is_member_muted(user) <==> room.is_member_muted(
            user,
        ),
        !room.is_member_muted(user) ==> room.mute_member(user).unmute_member(user) == room,
        !room.is_member_muted(user) ==> room.unmute_member(user) == room,
{
    let muted = room.mute_member(user);
    lemma_push_occurrences(room.muted_users, user, user);
    lemma_remove_value_occurrences(muted.muted_users, user, user);
    lemma_remove_value_occurrences(room.muted_users, user, user);
    if !room.is_member_muted(user) {
        lemma_push_then_remove_value(room.muted_users, user);
    }
}

/// A room is found under an identifier exactly when a room with that
/// identifier stands in one of the two lists, and the room found has the
/// identifier.
pub proof fn law_find_room(directory: ControllerView, id: Uuid)
    ensures
        directory.find_room(id) is Some <==> directory.has_room(id),
        directory.find_room(id) is Some <==> directory.rooms_with_id(id) > 0,
        directory.find_room(id) matches Some(room) ==> room.id == id,
{
    lemma_room_index(directory.public_rooms, id);
    lemma_room_index(directory.private_rooms, id);
    lemma_occurs(room_ids(directory.public_rooms), id);
    lemma_occurs(room_ids(directory.private_rooms), id);
    let public_ids = room_ids(directory.public_rooms);
    let private_ids = room_ids(directory.private_rooms);
    match room_index(directory.public_rooms, id) {
        Some(i) => {
            assert(public_ids[i] == id);
        },
        None => {
            match room_index(directory.private_rooms, id) {
                Some(i) => {
                    assert(private_ids[i] == id);
                },
                None => {},
            }
        },
    }
}

/// Under an identifier that no room has, no room is found, nobody gets
/// in, and every change to a room leaves the directory as it was.
pub proof fn law_unknown_room(directory: ControllerView, room_id: Uuid, user_id: Uuid, admin: bool)
    requires
        !directory.has_room(room_id),
    ensures
        directory.find_room(room_id) is None,
        directory.add_member_to_room(room_id, user_id) == directory,
        directory.remove_member_from_room(room_id, user_id) == directory,
        directory.add_moderator_to_room(room_id, user_id) == directory,
        directory.remove_moderator_from_room(room_id, user_id) == directory,
        directory.ban_member(room_id, user_id) == directory,
        directory.unban_member(room_id, user_id) == directory,
        directory.mute_member(room_id, user_id) == directory,
        directory.unmute_member(room_id, user_id) == directory,
        !directory.admits(room_id, user_id, admin),
        directory.admit_to_room(room_id, user_id, admin) == directory,
        directory.leave_room(room_id, user_id) == directory,
        directory.remove_room(room_id) == directory,
{
    law_find_room(directory, room_id);
}

/// A room put in the place of the room found under its identifier is
/// the room found there afterwards, in the same place.
pub proof fn law_changed_room_is_found(directory: ControllerView, id: Uuid, room: RoomView)
    requires
        directory.find_room(id) is Some,
        room.id == id,
    ensures
        directory.with_room(id, room).find_room_match(id) == directory.find_room_match(id),
        directory.with_room(id, room).find_room(id) == Some(room),
{
    lemma_room_index(directory.public_rooms, id);
    lemma_room_index(directory.private_rooms, id);
    match directory.find_room_match(id) {
        Some((i, public)) => {
            if public {
                assert(room_ids(directory.public_rooms.update(i, room)) =~= room_ids(
                    directory.public_rooms,
                ));
            } else {
                assert(room_ids(directory.private_rooms.update(i, room)) =~= room_ids(
                    directory.private_rooms,
                ));
            }
        },
        None => {},
    }
}

/// After a ban the room has the user on its banned list. The ban takes up
/// to two entries of the user from the members and up to two from the
/// moderators: a user who stood there twice at most is neither
/// afterwards, also one who was a moderator; a user who stood there more
/// often still is.
pub proof fn law_ban_member(directory: ControllerView, room_id: Uuid, user_id: Uuid)
    requires
        directory.find_room(room_id) is Some,
    ensures
        ({
            let before = directory.find_room(room_id).unwrap();
            &&& directory.ban_member(room_id, user_id).find_room(room_id) matches Some(after)
            &&& after.is_member_banned(user_id)
            &&& occurrences(before.members, user_id) <= 2 ==> !after.has_member(user_id)
            &&& occurrences(before.members, user_id) > 2 ==> after.has_member(user_id)
            &&& occurrences(before.moderators, user_id) <= 2 ==> !after.has_moderator(user_id)
            &&& occurrences(before.moderators, user_id) > 2 ==> after.has_moderator(user_id)
        }),
{
    law_find_room(directory, room_id);
    let before = directory.find_room(room_id).unwrap();
    let banned = before.bann_member(user_id);
    let after = banned.remove_member(user_id).remove_moderator(user_id);
    law_changed_room_is_found(directory, room_id, after);
    lemma_push_occurrences(before.banned_users, user_id, user_id);
    lemma_remove_value_occurrences(before.members, user_id, user_id);
    lemma_remove_value_occurrences(before.moderators, user_id, user_id);
    lemma_remove_value_occurrences(banned.members, user_id, user_id);
    lemma_remove_value_occurrences(banned.moderators, user_id, user_id);
}

/// A ban that is then lifted leaves the user a member of the room, and
/// off its banned list unless the user was on it before the ban. Lifting
/// the ban of a user who is not banned changes nothing.
pub proof fn law_unban_member(directory: ControllerView, room_id: Uuid, user_id: Uuid)
    requires
        directory.find_room(room_id) is Some,
    ensures
        ({
            let before = directory.find_room(room_id).unwrap();
            &&& directory.ban_member(room_id, user_id).unban_member(room_id, user_id).find_room(
                room_id,
            ) matches Some(after)
            &&& after.has_member(user_id)
            &&& after.is_member_banned(user_id) <==> before.is_member_banned(user_id)
        }),
        !directory.find_room(room_id).unwrap().is_member_banned(user_id) ==> directory.unban_member(
            room_id,
            user_id,
        ) == directory,
{
    law_find_room(directory, room_id);
    let before = directory.find_room(room_id).unwrap();
    let banned = before.bann_member(user_id).remove_member(user_id).remove_moderator(user_id);
    law_changed_room_is_found(directory, room_id, banned);
    let banning = directory.ban_member(room_id, user_id);
    law_changed_room_is_found(banning, room_id, banned.unbann_member(user_id));
    lemma_push_occurrences(before.banned_users, user_id, user_id);
    lemma_occurs(before.banned_users, user_id);
    law_room_unban(banned, user_id);
    lemma_with_same_room(directory, room_id);
}

/// A user made moderator of a room is a moderator and a member of it
/// afterwards, whether a member before or not.
pub proof fn law_add_moderator(directory: ControllerView, room_id: Uuid, user_id: Uuid)
    requires
        directory.find_room(room_id) is Some,
    ensures
        directory.add_moderator_to_room(room_id, user_id).find_room(room_id) matches Some(after)
            && after.has_moderator(user_id) && after.has_member(user_id),
{
    law_find_room(directory, room_id);
    let before = directory.find_room(room_id).unwrap();
    let after = if before.has_member(user_id) {
        before.add_moderator(user_id)
    } else {
        before.add_moderator(user_id).add_member(user_id)
    };
    law_changed_room_is_found(directory, room_id, after);
    lemma_push_occurrences(before.moderators, user_id, user_id);
    lemma_push_occurrences(before.members, user_id, user_id);
}

/// After muting, the room has the user on its muted list. Muting and then
/// unmuting leaves the user off the list unless the user was on it
/// before, and the directory as it was where the user was not. Unmuting
/// a user who is not muted changes nothing.
pub proof fn law_mute_member(directory: ControllerView, room_id: Uuid, user_id: Uuid)
    requires
        directory.find_room(room_id) is Some,
    ensures
        ({
            let before = directory.find_room(room_id).unwrap();
            &&& directory.mute_member(room_id, user_id).find_room(room_id) matches Some(muted)
            &&& muted.is_member_muted(user_id)
            &&& directory.mute_member(room_id, user_id).unmute_member(room_id, user_id).find_room(
                room_id,
            ) matches Some(after)
            &&& after.is_member_muted(user_id) <==> before.is_member_muted(user_id)
            &&& !before.is_member_muted(user_id) ==> directory.mute_member(
                room_id,
                user_id,
            ).unmute_member(room_id, user_id) == directory
            &&& !before.is_member_muted(user_id) ==> directory.unmute_member(room_id, user_id)
                == directory
        }),
{
    law_find_room(directory, room_id);
    let before = directory.find_room(room_id).unwrap();
    let muted = before.mute_member(user_id);
    law_changed_room_is_found(directory, room_id, muted);
    let muting = directory.mute_member(room_id, user_id);
    law_changed_room_is_found(muting, room_id, muted.unmute_member(user_id));
    law_room_mute(before, user_id);
    lemma_with_same_room(directory, room_id);
    if !before.is_member_muted(user_id) {
        lemma_room_index(directory.public_rooms, room_id);
        lemma_room_index(directory.private_rooms, room_id);
        match directory.find_room_match(room_id) {
            Some((i, public)) => {
                if public {
                    assert(directory.public_rooms.update(i, muted).update(i, before)
                        =~= directory.public_rooms);
                } else {
                    assert(directory.private_rooms.update(i, muted).update(i, before)
                        =~= directory.private_rooms);
                }
            },
            None => {},
        }
    }
}

/// Into a public room everybody gets, member or not, and is among those
/// present afterwards. Into a private room get its members and
/// administrators, and nobody else.
pub proof fn law_join_room(directory: ControllerView, room_id: Uuid, user_id: Uuid, admin: bool)
    requires
        directory.find_room(room_id) is Some,
    ensures
        ({
            let before = directory.find_room(room_id).unwrap();
            &&& !before.private ==> directory.admits(room_id, user_id, admin)
            &&& before.private ==> (directory.admits(room_id, user_id, admin) <==> before.has_member(
                user_id,
            ) || admin)
            &&& directory.admits(room_id, user_id, admin) ==> (directory.admit_to_room(
                room_id,
                user_id,
                admin,
            ).find_room(room_id) matches Some(after) && after.is_online(user_id))
            &&& !directory.admits(room_id, user_id, admin) ==> directory.admit_to_room(
                room_id,
                user_id,
                admin,
            ) == directory
        }),
{
    law_find_room(directory, room_id);
    let before = directory.find_room(room_id).unwrap();
    law_changed_room_is_found(directory, room_id, before.add_online_member(user_id));
    lemma_push_occurrences(before.online_members, user_id, user_id);
}

/// Removing a room takes one room with the identifier out of the
/// directory: none is found afterwards where there was one at most, and
/// one still is where there were more.
pub proof fn law_remove_room(directory: ControllerView, id: Uuid)
    ensures
        directory.rooms_with_id(id) <= 1 ==> directory.remove_room(id).find_room(id) is None,
        directory.rooms_with_id(id) > 1 ==> directory.remove_room(id).find_room(id) is Some,
{
    lemma_room_index(directory.public_rooms, id);
    lemma_room_index(directory.private_rooms, id);
    let after = directory.remove_room(id);
    law_find_room(after, id);
    let public_ids = room_ids(directory.public_rooms);
    let private_ids = room_ids(directory.private_rooms);
    lemma_remove_value_occurrences(public_ids, id, id);
    lemma_remove_value_occurrences(private_ids, id, id);
    match directory.find_room_match(id) {
        Some((i, public)) => {
            if public {
                assert(room_ids(directory.public_rooms.remove(i)) =~= public_ids.remove(i));
            } else {
                assert(room_ids(directory.private_rooms.remove(i)) =~= private_ids.remove(i));
            }
        },
        None => {},
    }
}

/// A room added under an identifier that no room of the directory has is
/// found under it, and removing it again leaves the directory as it was:
/// no room is found under the identifier any more.
pub proof fn law_add_then_remove_room(directory: ControllerView, room: RoomView)
    requires
        !directory.has_room(room.id),
    ensures
        directory.add_room(room).find_room(room.id) == Some(room),
        directory.add_room(room).remove_room(room.id) == directory,
        directory.add_room(room).remove_room(room.id).find_room(room.id) is None,
{
    let id = room.id;
    let added = directory.add_room(room);
    law_find_room(directory, id);
    lemma_room_index(directory.public_rooms, id);
    lemma_room_index(directory.private_rooms, id);
    lemma_room_index(added.public_rooms, id);
    lemma_room_index(added.private_rooms, id);
    if room.private {
        let last = directory.private_rooms.len() as int;
        assert(added.private_rooms[last] == room);
        assert(added.private_rooms.remove(last) =~= directory.private_rooms);
    } else {
        let last = directory.public_rooms.len() as int;
        assert(added.public_rooms[last] == room);
        assert(added.public_rooms.remove(last) =~= directory.public_rooms);
    }
}

/// Rooms that are taken in go to the list that their privacy flag names:
/// a directory in which each room stands in its list is one afterwards.
/// Taking in a list of one room is adding that room.
pub proof fn law_take_rooms(directory: ControllerView, rooms: Seq<RoomView>)
    requires
        directory.sorted_by_privacy(),
    ensures
        directory.take_rooms(rooms).sorted_by_privacy(),
        rooms.len() == 1 ==> directory.take_rooms(rooms) == directory.add_room(rooms[0]),
{
    let open = |room: RoomView| !room.private;
    let closed = |room: RoomView| room.private;
    let after = directory.take_rooms(rooms);
    if rooms.len() == 1 {
        let one = directory.add_room(rooms[0]);
        assert(rooms =~= Seq::<RoomView>::empty().push(rooms[0]));
        Seq::<RoomView>::empty().lemma_filter_push(rooms[0], open);
        Seq::<RoomView>::empty().lemma_filter_push(rooms[0], closed);
        assert(after.public_rooms =~= one.public_rooms);
        assert(after.private_rooms =~= one.private_rooms);
    }
}

/// Two directories that have, place by place, rooms with the same
/// identifier and privacy flag resolve every identifier to the same
/// place, and each has its rooms in the right lists, or its rooms
/// distinct, exactly when the other has.
pub proof fn law_same_places(one: ControllerView, other: ControllerView)
    requires
        one.same_places(other),
    ensures
        forall|id: Uuid| #[trigger] one.find_room_match(id) == other.find_room_match(id),
        one.sorted_by_privacy() == other.sorted_by_privacy(),
        one.distinct_rooms() == other.distinct_rooms(),
{
    assert(one.public_rooms.len() == room_ids(one.public_rooms).len());
    assert(one.private_rooms.len() == room_ids(one.private_rooms).len());
    if one.sorted_by_privacy() {
        assert forall|i: int| 0 <= i < other.public_rooms.len() implies !(#[trigger] other.public_rooms[i]).private by {
            assert(one.public_rooms[i].private == other.public_rooms[i].private);
        }
        assert forall|i: int| 0 <= i < other.private_rooms.len() implies (#[trigger] other.private_rooms[i]).private by {
            assert(one.private_rooms[i].private == other.private_rooms[i].private);
        }
    }
    assert forall|id: Uuid| #[trigger] one.rooms_with_id(id) == other.rooms_with_id(id) by {}
    if one.distinct_rooms() {
        assert forall|id: Uuid| #[trigger] other.rooms_with_id(id) <= 1 by {
            assert(one.rooms_with_id(id) <= 1);
        }
    }
}

/// A room put in the place of the room found under its identifier, with
/// the privacy flag of that room, leaves every room in its place.
pub proof fn law_changed_room_keeps_places(directory: ControllerView, id: Uuid, room: RoomView)
    requires
        directory.find_room(id) matches Some(before) && before.private == room.private,
        room.id == id,
    ensures
        directory.same_places(directory.with_room(id, room)),
{
    lemma_room_index(directory.public_rooms, id);
    lemma_room_index(directory.private_rooms, id);
    let after = directory.with_room(id, room);
    assert(room_ids(directory.public_rooms) =~= room_ids(after.public_rooms));
    assert(room_ids(directory.private_rooms) =~= room_ids(after.private_rooms));
}

/// Who belongs to a room, moderates it, is banned from it, muted in it
/// or present in it has no bearing on where the room stands: whatever
/// changes there leaves every room in its place, with its identifier
/// and its privacy flag.
pub proof fn law_changes_keep_places(directory: ControllerView, room_id: Uuid, user_id: Uuid, admin: bool)
    ensures
        directory.same_places(directory.add_member_to_room(room_id, user_id)),
        directory.same_places(directory.remove_member_from_room(room_id, user_id)),
        directory.same_places(directory.add_moderator_to_room(room_id, user_id)),
        directory.same_places(directory.remove_moderator_from_room(room_id, user_id)),
        directory.same_places(directory.ban_member(room_id, user_id)),
        directory.same_places(directory.unban_member(room_id, user_id)),
        directory.same_places(directory.mute_member(room_id, user_id)),
        directory.same_places(directory.unmute_member(room_id, user_id)),
        directory.same_places(directory.admit_to_room(room_id, user_id, admin)),
        directory.same_places(directory.leave_room(room_id, user_id)),
{
    law_find_room(directory, room_id);
    match directory.find_room(room_id) {
        Some(room) => {
            law_changed_room_keeps_places(directory, room_id, room.add_member(user_id));
            law_changed_room_keeps_places(directory, room_id, room.remove_member(user_id));
            law_changed_room_keeps_places(directory, room_id, room.add_moderator(user_id));
            law_changed_room_keeps_places(
                directory,
                room_id,
                room.add_moderator(user_id).add_member(user_id),
            );
            law_changed_room_keeps_places(directory, room_id, room.remove_moderator(user_id));
            law_changed_room_keeps_places(
                directory,
                room_id,
                room.bann_member(user_id).remove_member(user_id).remove_moderator(user_id),
            );
            law_changed_room_keeps_places(directory, room_id, room.unbann_member(user_id));
            law_changed_room_keeps_places(directory, room_id, room.mute_member(user_id));
            law_changed_room_keeps_places(directory, room_id, room.unmute_member(user_id));
            law_changed_room_keeps_places(directory, room_id, room.add_online_member(user_id));
            law_changed_room_keeps_places(directory, room_id, room.remove_online_member(user_id));
        },
        None => {},
    }
}

/// An added room keeps every room in the right list. It keeps the rooms
/// distinct exactly when no room had its identifier.
pub proof fn law_add_room_keeps_lists(directory: ControllerView, room: RoomView)
    ensures
        directory.sorted_by_privacy() ==> directory.add_room(room).sorted_by_privacy(),
        directory.distinct_rooms() ==> (directory.add_room(room).distinct_rooms() <==> !directory.has_room(
            room.id,
        )),
{
    let after = directory.add_room(room);
    let public_ids = room_ids(directory.public_rooms);
    let private_ids = room_ids(directory.private_rooms);
    if room.private {
        assert(room_ids(after.private_rooms) =~= private_ids.push(room.id));
    } else {
        assert(room_ids(after.public_rooms) =~= public_ids.push(room.id));
    }
    lemma_occurs(public_ids, room.id);
    lemma_occurs(private_ids, room.id);
    if directory.distinct_rooms() {
        if !directory.has_room(room.id) {
            assert forall|id: Uuid| #[trigger] after.rooms_with_id(id) <= 1 by {
                assert(directory.rooms_with_id(id) <= 1);
                lemma_push_occurrences(public_ids, room.id, id);
                lemma_push_occurrences(private_ids, room.id, id);
            }
        } else {
            lemma_push_occurrences(public_ids, room.id, room.id);
            lemma_push_occurrences(private_ids, room.id, room.id);
            assert(after.rooms_with_id(room.id) > 1);
        }
    }
}

/// A removed room leaves the others in the right lists, and distinct
/// where they were.
pub proof fn law_remove_room_keeps_lists(directory: ControllerView, id: Uuid)
    ensures
        directory.sorted_by_privacy() ==> directory.remove_room(id).sorted_by_privacy(),
        directory.distinct_rooms() ==> directory.remove_room(id).distinct_rooms(),
{
    lemma_room_index(directory.public_rooms, id);
    lemma_room_index(directory.private_rooms, id);
    let after = directory.remove_room(id);
    let public_ids = room_ids(directory.public_rooms);
    let private_ids = room_ids(directory.private_rooms);
    match directory.find_room_match(id) {
        Some((i, public)) => {
            if public {
                assert(room_ids(after.public_rooms) =~= public_ids.remove_value(id));
            } else {
                assert(room_ids(after.private_rooms) =~= private_ids.remove_value(id));
            }
            if directory.distinct_rooms() {
                assert forall|other: Uuid| #[trigger] after.rooms_with_id(other) <= 1 by {
                    assert(directory.rooms_with_id(other) <= 1);
                    lemma_remove_value_occurrences(public_ids, id, other);
                    lemma_remove_value_occurrences(private_ids, id, other);
                }
            }
        },
        None => {},
    }
}

} // verus!
