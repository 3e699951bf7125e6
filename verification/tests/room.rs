use chat_directory::room::Room;
use chat_directory::time::Timestamp;
use chat_directory::user::User;
use uuid::Uuid;

#[test]
fn test_room_serialize() {
    let user = User::new(
        "user@example.com".to_string(),
        "user1".to_string(),
        "username1".to_string(),
        "password1".to_string(),
    );
    let room = Room::new("Testroom".to_string(), user.copy_id());
    let record = room.into_record();
    let mut fields = serde_json::Map::new();
    fields.insert("id".to_string(), serde_json::Value::String(record.id.to_string()));
    fields.insert("name".to_string(), serde_json::Value::String(record.name));
    fields.insert("owner".to_string(), serde_json::Value::String(record.owner.to_string()));
    fields.insert(
        "members".to_string(),
        serde_json::Value::Array(
            record.members.iter().map(|id| serde_json::Value::String(id.to_string())).collect(),
        ),
    );
    fields.insert("private".to_string(), serde_json::Value::Bool(record.private));
    fields.insert("hidden".to_string(), serde_json::Value::Bool(record.hidden));
    println!("{:?}", serde_json::ser::to_string(&serde_json::Value::Object(fields)));

    assert!(true);
}

#[test]
fn test_online_member() {
    let user = User::new(
        "user@example.com".to_string(),
        "user1".to_string(),
        "username1".to_string(),
        "password1".to_string(),
    );
    let mut room = Room::new("Testroom".to_string(), user.copy_id());

    room.add_online_member(user.get_id());

    assert!(room.get_online_members().contains(user.get_id()));
}

#[test]
fn new_room_is_private_and_holds_only_its_owner() {
    let owner = Uuid::new_v4();
    let mut room = Room::new("Testroom".to_string(), owner);
    assert!(room.is_private());
    assert!(!room.is_hidden());
    assert!(room.has_member(&owner));
    assert!(!room.has_moderator(&owner));
    assert!(!room.is_member_banned(&owner));
    assert!(!room.is_member_muted(&owner));
    assert_eq!(room.count_member(), 1);
    assert!(room.get_online_members().is_empty());
    assert!(room.provide_messages().is_empty());
    let (_, updated, last_message) = room.generate_time_tupel();
    assert!(updated.is_none());
    assert!(last_message.is_none());
    let record = room.into_record();
    assert_eq!(record.name, "Testroom");
    assert_eq!(record.owner, owner);
    assert_eq!(record.members, vec![owner]);
    assert_eq!(record.topic, "");
    assert!(record.moderators.is_empty());
    assert!(record.banned_users.is_empty());
    assert!(record.muted_users.is_empty());
}

#[test]
fn new_rooms_get_different_identifiers() {
    let owner = Uuid::new_v4();
    let one = Room::new("Testroom".to_string(), owner);
    let other = Room::new("Testroom".to_string(), owner);
    assert_ne!(one.copy_id(), other.copy_id());
    assert!(one != other);
    assert!(!one.eq_by_uuid(other.get_id()));
    assert!(one.eq_by_uuid(&one.copy_id()));
}

#[test]
fn rooms_are_equal_by_identifier_alone() {
    let room = Room::new("Testroom".to_string(), Uuid::new_v4());
    let mut changed = room.clone();
    changed.add_member(Uuid::new_v4());
    changed.set_hidden(true);
    assert!(room == changed);
    assert_eq!(room.get_id(), changed.get_id());
}

#[test]
fn flags_are_set_as_told() {
    let mut room = Room::new("Testroom".to_string(), Uuid::new_v4());
    room.set_private(false);
    assert!(!room.is_private());
    assert!(!room.is_hidden());
    room.set_hidden(true);
    assert!(room.is_hidden());
    assert!(!room.is_private());
    room.set_private(true);
    room.set_hidden(false);
    assert!(room.is_private());
    assert!(!room.is_hidden());
}

#[test]
fn members_come_and_go_in_order() {
    let owner = Uuid::new_v4();
    let first = Uuid::new_v4();
    let second = Uuid::new_v4();
    let mut room = Room::new("Testroom".to_string(), owner);
    room.add_member(first);
    room.add_member(second);
    room.add_member(first);
    assert_eq!(room.count_member(), 4);
    assert!(room.remove_member(&first));
    assert_eq!(room.clone().into_record().members, vec![owner, second, first]);
    assert!(room.remove_member(&first));
    assert!(!room.remove_member(&first));
    assert_eq!(room.into_record().members, vec![owner, second]);
}

#[test]
fn moderators_come_and_go_without_touching_members() {
    let owner = Uuid::new_v4();
    let user = Uuid::new_v4();
    let mut room = Room::new("Testroom".to_string(), owner);
    room.add_moderator(user);
    assert!(room.has_moderator(&user));
    assert!(!room.has_member(&user));
    assert!(room.remove_moderator(&user));
    assert!(!room.has_moderator(&user));
    assert!(!room.remove_moderator(&user));
    assert_eq!(room.count_member(), 1);
}

#[test]
fn ban_in_a_room_takes_one_entry_from_members_and_moderators() {
    let owner = Uuid::new_v4();
    let user = Uuid::new_v4();
    let mut room = Room::new("Testroom".to_string(), owner);
    room.add_member(user);
    room.add_moderator(user);
    room.bann_member(user);
    assert!(room.is_member_banned(&user));
    assert!(!room.has_member(&user));
    assert!(!room.has_moderator(&user));
    room.add_member(user);
    room.add_member(user);
    room.bann_member(user);
    assert!(room.has_member(&user));
    let record = room.into_record();
    assert_eq!(record.members, vec![owner, user]);
    assert_eq!(record.banned_users, vec![user, user]);
}

#[test]
fn unban_in_a_room_gives_membership_back() {
    let owner = Uuid::new_v4();
    let user = Uuid::new_v4();
    let mut room = Room::new("Testroom".to_string(), owner);
    assert!(!room.unbann_member(user));
    assert!(!room.has_member(&user));
    room.add_moderator(user);
    room.bann_member(user);
    assert!(room.unbann_member(user));
    assert!(!room.is_member_banned(&user));
    assert!(room.has_member(&user));
    assert!(!room.has_moderator(&user));
    assert!(!room.unbann_member(user));
    assert_eq!(room.count_member(), 2);
}

#[test]
fn mute_and_unmute_in_a_room() {
    let user = Uuid::new_v4();
    let mut room = Room::new("Testroom".to_string(), Uuid::new_v4());
    assert!(!room.unmute_member(&user));
    room.mute_member(user);
    assert!(room.is_member_muted(&user));
    assert!(room.unmute_member(&user));
    assert!(!room.is_member_muted(&user));
    assert!(!room.unmute_member(&user));
}

#[test]
fn online_members_leave_one_entry_at_a_time() {
    let user = Uuid::new_v4();
    let other = Uuid::new_v4();
    let mut room = Room::new("Testroom".to_string(), Uuid::new_v4());
    room.remove_online_member(&user);
    room.add_online_member(&user);
    room.add_online_member(&other);
    room.add_online_member(&user);
    room.remove_online_member(&user);
    assert_eq!(*room.get_online_members(), vec![other, user]);
    room.remove_online_member(&user);
    room.remove_online_member(&user);
    assert_eq!(*room.get_online_members(), vec![other]);
}

#[test]
fn messages_are_kept_in_order() {
    let mut room = Room::new("Testroom".to_string(), Uuid::new_v4());
    room.provide_messages().push("one".to_string());
    room.provide_messages().push("two".to_string());
    assert_eq!(*room.provide_messages(), vec!["one".to_string(), "two".to_string()]);
    assert_eq!(room.into_record().messages, vec!["one".to_string(), "two".to_string()]);
}

#[test]
fn record_and_room_hold_the_same() {
    let owner = Uuid::new_v4();
    let user = Uuid::new_v4();
    let mut room = Room::new("Testroom".to_string(), owner);
    room.add_moderator(user);
    room.mute_member(user);
    room.add_online_member(&owner);
    room.set_hidden(true);
    let mut record = room.clone().into_record();
    assert_eq!(record.id, room.copy_id());
    record.topic = "weather".to_string();
    record.updated_at = Some(Timestamp::now());
    record.banned_users.push(user);
    let mut back = Room::from_record(record);
    assert!(back == room);
    assert!(back.has_moderator(&user));
    assert!(back.is_member_muted(&user));
    assert!(back.is_member_banned(&user));
    assert!(back.is_hidden());
    assert!(back.is_private());
    assert_eq!(*back.get_online_members(), vec![owner]);
    let (created, updated, last_message) = back.generate_time_tupel();
    assert_eq!(created.utc(), room.generate_time_tupel().0.utc());
    assert!(updated.is_some());
    assert!(last_message.is_none());
    assert!(back.provide_messages().is_empty());
    assert_eq!(back.into_record().topic, "weather");
}

#[test]
fn clone_is_the_same_room() {
    let owner = Uuid::new_v4();
    let user = Uuid::new_v4();
    let mut room = Room::new("Testroom".to_string(), owner);
    room.add_moderator(user);
    room.mute_member(user);
    room.add_online_member(&user);
    room.provide_messages().push("hello".to_string());
    let copy = room.clone();
    let record = copy.into_record();
    assert_eq!(record.id, room.copy_id());
    assert_eq!(record.name, "Testroom");
    assert_eq!(record.owner, owner);
    assert_eq!(record.members, vec![owner]);
    assert_eq!(record.moderators, vec![user]);
    assert_eq!(record.muted_users, vec![user]);
    assert_eq!(record.online_members, vec![user]);
    assert_eq!(record.messages, vec!["hello".to_string()]);
    assert!(record.private);
    assert_eq!(record.created_at.utc(), room.generate_time_tupel().0.utc());
}
