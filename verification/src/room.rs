//! A room: who belongs to it, who moderates it, who is banned from it or
//! muted in it, and who is present.

use crate::ids::holds_id;
use crate::ids::remove_ref;
use crate::ids::same_id;
use crate::time::Timestamp;
use uuid::Uuid;
use vstd::prelude::*;
use vstd::std_specs::cmp::PartialEqSpecImpl;

verus! {

/// A chat room. The lists of users are lists, not sets: a user who is
/// added twice stands in the list twice, and one removal takes one entry
/// out.
#[derive(Debug)]
pub struct Room {
    id: Uuid,
    name: String,
    owner: Uuid,
    members: Vec<Uuid>,
    online_members: Vec<Uuid>,
    topic: String,
    private: bool,
    hidden: bool,
    moderators: Vec<Uuid>,
    created_at: Timestamp,
    updated_at: Option<Timestamp>,
    last_message_at: Option<Timestamp>,
    messages: Vec<String>,
    banned_users: Vec<Uuid>,
    muted_users: Vec<Uuid>,
}

/// What a `Room` stands for.
pub struct RoomView {
    pub id: Uuid,
    pub name: Seq<char>,
    pub owner: Uuid,
    pub members: Seq<Uuid>,
    pub online_members: Seq<Uuid>,
    pub topic: Seq<char>,
    pub private: bool,
    pub hidden: bool,
    pub moderators: Seq<Uuid>,
    pub created_at: Timestamp,
    pub updated_at: Option<Timestamp>,
    pub last_message_at: Option<Timestamp>,
    pub messages: Seq<Seq<char>>,
    pub banned_users: Seq<Uuid>,
    pub muted_users: Seq<Uuid>,
}

impl RoomView {
    /// The room that `owner` has just opened under `name`: private, not
    /// hidden, with the owner as its only member and nothing else in it.
    pub open spec fn opened(id: Uuid, name: Seq<char>, owner: Uuid, created_at: Timestamp) -> RoomView {
        RoomView {
            id,
            name,
            owner,
            members: seq![owner],
            online_members: Seq::empty(),
            topic: Seq::empty(),
            private: true,
            hidden: false,
            moderators: Seq::empty(),
            created_at,
            updated_at: None,
            last_message_at: None,
            messages: Seq::empty(),
            banned_users: Seq::empty(),
            muted_users: Seq::empty(),
        }
    }

    /// Whether `user` stands among the members.
    pub open spec fn has_member(self, user: Uuid) -> bool {
        self.members.contains(user)
    }

    /// Whether `user` stands among the moderators.
    pub open spec fn has_moderator(self, user: Uuid) -> bool {
        self.moderators.contains(user)
    }

    /// Whether `user` stands on the muted list.
    pub open spec fn is_member_muted(self, user: Uuid) -> bool {
        self.muted_users.contains(user)
    }

    /// Whether `user` stands on the banned list.
    pub open spec fn is_member_banned(self, user: Uuid) -> bool {
        self.banned_users.contains(user)
    }

    /// Whether `user` stands among those present.
    pub open spec fn is_online(self, user: Uuid) -> bool {
        self.online_members.contains(user)
    }

    /// Whether the room lets `user` in: a public room lets everybody in,
    /// a private one its members and, as `admin` says, administrators.
    pub open spec fn admits(self, user: Uuid, admin: bool) -> bool {
        !self.private || self.has_member(user) || admin
    }

    /// The room with its privacy flag set to `flag`.
    pub open spec fn set_private(self, flag: bool) -> RoomView {
        RoomView { private: flag, ..self }
    }

    /// The room with its hidden flag set to `flag`.
    pub open spec fn set_hidden(self, flag: bool) -> RoomView {
        RoomView { hidden: flag, ..self }
    }

    /// `user` is put at the end of the members, also when already there.
    pub open spec fn add_member(self, user: Uuid) -> RoomView {
        RoomView { members: self.members.push(user), ..self }
    }

    /// The first entry of `user` among the members goes.
    pub open spec fn remove_member(self, user: Uuid) -> RoomView {
        RoomView { members: self.members.remove_value(user), ..self }
    }

    /// `user` is put at the end of the moderators, also when already
    /// there. The members stay as they are.
    pub open spec fn add_moderator(self, user: Uuid) -> RoomView {
        RoomView { moderators: self.moderators.push(user), ..self }
    }

    /// The first entry of `user` among the moderators goes. The members
    /// stay as they are.
    pub open spec fn remove_moderator(self, user: Uuid) -> RoomView {
        RoomView { moderators: self.moderators.remove_value(user), ..self }
    }

    /// `user` is put at the end of the muted list, member or not.
    pub open spec fn mute_member(self, user: Uuid) -> RoomView {
        RoomView { muted_users: self.muted_users.push(user), ..self }
    }

    /// The first entry of `user` on the muted list goes.
    pub open spec fn unmute_member(self, user: Uuid) -> RoomView {
        RoomView { muted_users: self.muted_users.remove_value(user), ..self }
    }

    /// `user` is put on the banned list and loses one entry among the
    /// members and one among the moderators.
    pub open spec fn bann_member(self, user: Uuid) -> RoomView {
        RoomView {
            banned_users: self.banned_users.push(user),
            members: self.members.remove_value(user),
            moderators: self.moderators.remove_value(user),
            ..self
        }
    }

    /// A banned `user` loses one entry on the banned list and becomes a
    /// member again, not a moderator. For any other user nothing changes.
    pub open spec fn unbann_member(self, user: Uuid) -> RoomView {
        if self.is_member_banned(user) {
            RoomView {
                banned_users: self.banned_users.remove_value(user),
                members: self.members.push(user),
                ..self
            }
        } else {
            self
        }
    }

    /// `user` is put at the end of those present, member or not, and
    /// also when already there.
    pub open spec fn add_online_member(self, user: Uuid) -> RoomView {
        RoomView { online_members: self.online_members.push(user), ..self }
    }

    /// The first entry of `user` among those present goes.
    pub open spec fn remove_online_member(self, user: Uuid) -> RoomView {
        RoomView { online_members: self.online_members.remove_value(user), ..self }
    }
}

/// Everything a room holds, field by field: what a store of rooms writes
/// down, and what a room is put together from again.
#[derive(Debug)]
pub struct RoomRecord {
    pub id: Uuid,
    pub name: String,
    pub owner: Uuid,
    pub members: Vec<Uuid>,
    pub online_members: Vec<Uuid>,
    pub topic: String,
    pub private: bool,
    pub hidden: bool,
    pub moderators: Vec<Uuid>,
    pub created_at: Timestamp,
    pub updated_at: Option<Timestamp>,
    pub last_message_at: Option<Timestamp>,
    pub messages: Vec<String>,
    pub banned_users: Vec<Uuid>,
    pub muted_users: Vec<Uuid>,
}

impl View for RoomRecord {
    type V = RoomView;

    open spec fn view(&self) -> RoomView {
        RoomView {
            id: self.id,
            name: self.name@,
            owner: self.owner,
            members: self.members@,
            online_members: self.online_members@,
            topic: self.topic@,
            private: self.private,
            hidden: self.hidden,
            moderators: self.moderators@,
            created_at: self.created_at,
            updated_at: self.updated_at,
            last_message_at: self.last_message_at,
            messages: self.messages.deep_view(),
            banned_users: self.banned_users@,
            muted_users: self.muted_users@,
        }
    }
}

impl View for Room {
    type V = RoomView;

    closed spec fn view(&self) -> RoomView {
        RoomView {
            id: self.id,
            name: self.name@,
            owner: self.owner,
            members: self.members@,
            online_members: self.online_members@,
            topic: self.topic@,
            private: self.private,
            hidden: self.hidden,
            moderators: self.moderators@,
            created_at: self.created_at,
            updated_at: self.updated_at,
            last_message_at: self.last_message_at,
            messages: self.messages.deep_view(),
            banned_users: self.banned_users@,
            muted_users: self.muted_users@,
        }
    }
}

impl Room {
    /// Opens a room under a fresh random identifier, at the current time.
    pub fn new(name: String, owner: Uuid) -> (room: Room)
        ensures
            room@ == RoomView::opened(room@.id, name@, owner, room@.created_at),
            room@.has_member(owner),
            !room@.has_moderator(owner),
    {
        let mut members: Vec<Uuid> = Vec::new();
        members.push(owner);
        let room = Room {
            id: Uuid::new_v4(),
            name,
            owner,
            members,
            online_members: Vec::new(),
            topic: String::new(),
            private: true,
            hidden: false,
            moderators: Vec::new(),
            created_at: Timestamp::now(),
            updated_at: None,
            last_message_at: None,
            messages: Vec::new(),
            banned_users: Vec::new(),
            muted_users: Vec::new(),
        };
        proof {
            assert(room.messages.deep_view() =~= Seq::<Seq<char>>::empty());
            assert(room.members@[0] == owner);
        }
        room
    }

    /// The room that `record` describes.
    pub fn from_record(record: RoomRecord) -> (room: Room)
        ensures
            room@ == record@,
    {
        Room {
            id: record.id,
            name: record.name,
            owner: record.owner,
            members: record.members,
            online_members: record.online_members,
            topic: record.topic,
            private: record.private,
            hidden: record.hidden,
            moderators: record.moderators,
            created_at: record.created_at,
            updated_at: record.updated_at,
            last_message_at: record.last_message_at,
            messages: record.messages,
            banned_users: record.banned_users,
            muted_users: record.muted_users,
        }
    }

    /// The room, field by field.
    pub fn into_record(self) -> (record: RoomRecord)
        ensures
            record@ == self@,
    {
        RoomRecord {
            id: self.id,
            name: self.name,
            owner: self.owner,
            members: self.members,
            online_members: self.online_members,
            topic: self.topic,
            private: self.private,
            hidden: self.hidden,
            moderators: self.moderators,
            created_at: self.created_at,
            updated_at: self.updated_at,
            last_message_at: self.last_message_at,
            messages: self.messages,
            banned_users: self.banned_users,
            muted_users: self.muted_users,
        }
    }

    /// Whether the room is private: open to its members and to
    /// administrators only.
    pub fn is_private(&self) -> (flag: bool)
        ensures
            flag == self@.private,
    {
        self.private
    }

    /// Makes the room private or public.
    pub fn set_private(&mut self, flag: bool)
        ensures
            final(self)@ == old(self)@.set_private(flag),
    {
        self.private = flag;
    }

    /// Whether the room is hidden.
    pub fn is_hidden(&self) -> (flag: bool)
        ensures
            flag == self@.hidden,
    {
        self.hidden
    }

    /// Hides the room or shows it.
    pub fn set_hidden(&mut self, flag: bool)
        ensures
            final(self)@ == old(self)@.set_hidden(flag),
    {
        self.hidden = flag;
    }

    /// When the room was opened, when it was last changed, and when the
    /// last message came.
    pub fn generate_time_tupel(&self) -> (times: (Timestamp, Option<Timestamp>, Option<Timestamp>))
        ensures
            times == (self@.created_at, self@.updated_at, self@.last_message_at),
    {
        (self.created_at, self.updated_at, self.last_message_at)
    }

    /// Puts the user at the end of the members, also when already there.
    pub fn add_member(&mut self, member_id: Uuid)
        ensures
            final(self)@ == old(self)@.add_member(member_id),
    {
        self.members.push(member_id);
    }

    /// Takes the first entry of the user out of the members and says
    /// whether there was one.
    pub fn remove_member(&mut self, member_id: &Uuid) -> (removed: bool)
        ensures
            removed == old(self)@.has_member(*member_id),
            final(self)@ == old(self)@.remove_member(*member_id),
    {
        remove_ref(&mut self.members, member_id)
    }

    /// Puts the user at the end of the moderators, also when already
    /// there. The members stay as they are.
    pub fn add_moderator(&mut self, member_id: Uuid)
        ensures
            final(self)@ == old(self)@.add_moderator(member_id),
    {
        self.moderators.push(member_id);
    }

    /// Takes the first entry of the user out of the moderators and says
    /// whether there was one.
    pub fn remove_moderator(&mut self, member_id: &Uuid) -> (removed: bool)
        ensures
            removed == old(self)@.has_moderator(*member_id),
            final(self)@ == old(self)@.remove_moderator(*member_id),
    {
        remove_ref(&mut self.moderators, member_id)
    }

    /// Puts the user at the end of the muted list, member or not.
    pub fn mute_member(&mut self, member_id: Uuid)
        ensures
            final(self)@ == old(self)@.mute_member(member_id),
    {
        self.muted_users.push(member_id);
    }

    /// Takes the first entry of the user off the muted list and says
    /// whether there was one.
    pub fn unmute_member(&mut self, member_id: &Uuid) -> (removed: bool)
        ensures
            removed == old(self)@.is_member_muted(*member_id),
            final(self)@ == old(self)@.unmute_member(*member_id),
    {
        remove_ref(&mut self.muted_users, member_id)
    }

    /// Puts the user on the banned list and takes one entry of the user
    /// out of the members and one out of the moderators.
    pub fn bann_member(&mut self, member_id: Uuid)
        ensures
            final(self)@ == old(self)@.bann_member(member_id),
    {
        self.banned_users.push(member_id);
        self.remove_member(&member_id);
        self.remove_moderator(&member_id);
    }

    /// Takes the first entry of a banned user off the banned list and
    /// makes the user a member again, not a moderator. The result says
    /// whether the user was banned; where not, nothing changes.
    pub fn unbann_member(&mut self, member_id: Uuid) -> (unbanned: bool)
        ensures
            unbanned == old(self)@.is_member_banned(member_id),
            final(self)@ == old(self)@.unbann_member(member_id),
    {
        if remove_ref(&mut self.banned_users, &member_id) {
            self.add_member(member_id);
            return true;
        }
        false
    }

    /// The room's messages, open to change.
    pub fn provide_messages(&mut self) -> (messages: &mut Vec<String>)
        ensures
            messages.deep_view() == old(self)@.messages,
            final(self)@ == (RoomView { messages: final(messages).deep_view(), ..old(self)@ }),
    {
        &mut self.messages
    }

    /// Whether the user stands among the members.
    pub fn has_member(&self, user: &Uuid) -> (found: bool)
        ensures
            found == self@.has_member(*user),
    {
        holds_id(&self.members, user)
    }

    /// Whether the user stands among the moderators.
    pub fn has_moderator(&self, user: &Uuid) -> (found: bool)
        ensures
            found == self@.has_moderator(*user),
    {
        holds_id(&self.moderators, user)
    }

    /// Whether the user stands on the muted list.
    pub fn is_member_muted(&self, user: &Uuid) -> (found: bool)
        ensures
            found == self@.is_member_muted(*user),
    {
        holds_id(&self.muted_users, user)
    }

    /// Whether the user stands on the banned list.
    pub fn is_member_banned(&self, user: &Uuid) -> (found: bool)
        ensures
            found == self@.is_member_banned(*user),
    {
        holds_id(&self.banned_users, user)
    }

    /// How many entries the members have.
    pub fn count_member(&self) -> (count: usize)
        ensures
            count == self@.members.len(),
    {
        self.members.len()
    }

    /// Whether the room has this identifier.
    pub fn eq_by_uuid(&self, uuid: &Uuid) -> (same: bool)
        ensures
            same == (self@.id == *uuid),
    {
        same_id(&self.id, uuid)
    }

    /// A copy of the room's identifier.
    pub fn copy_id(&self) -> (id: Uuid)
        ensures
            id == self@.id,
    {
        self.id
    }

    /// The room's identifier.
    pub fn get_id(&self) -> (id: &Uuid)
        ensures
            *id == self@.id,
    {
        &self.id
    }

    /// Puts the user at the end of those present, member or not, and
    /// also when already there.
    pub fn add_online_member(&mut self, user_id: &Uuid)
        ensures
            final(self)@ == old(self)@.add_online_member(*user_id),
    {
        self.online_members.push(*user_id);
    }

    /// Takes the first entry of the user out of those present, if there
    /// is one.
    pub fn remove_online_member(&mut self, user_id: &Uuid)
        ensures
            final(self)@ == old(self)@.remove_online_member(*user_id),
    {
        remove_ref(&mut self.online_members, user_id);
    }

    /// Those present, in the order in which they came.
    pub fn get_online_members(&self) -> (online: &Vec<Uuid>)
        ensures
            online@ == self@.online_members,
    {
        &self.online_members
    }
}

impl Clone for Room {
    /// A room that holds the same.
    fn clone(&self) -> (copy: Room)
        ensures
            copy@ == self@,
    {
        Room {
            id: self.id,
            name: self.name.clone(),
            owner: self.owner,
            members: self.members.clone(),
            online_members: self.online_members.clone(),
            topic: self.topic.clone(),
            private: self.private,
            hidden: self.hidden,
            moderators: self.moderators.clone(),
            created_at: self.created_at,
            updated_at: self.updated_at,
            last_message_at: self.last_message_at,
            messages: self.messages.clone(),
            banned_users: self.banned_users.clone(),
            muted_users: self.muted_users.clone(),
        }
    }
}

/// Two rooms are equal when they have the same identifier, whatever else
/// they hold.
impl PartialEq for Room {
    fn eq(&self, other: &Self) -> (same: bool) {
        same_id(&self.id, &other.id)
    }
}

impl PartialEqSpecImpl for Room {
    open spec fn obeys_eq_spec() -> bool {
        true
    }

    open spec fn eq_spec(&self, other: &Self) -> bool {
        self@.id == other@.id
    }
}

} // verus!
