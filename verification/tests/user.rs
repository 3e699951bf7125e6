use chat_directory::role::Role;
use chat_directory::user::State;
use chat_directory::user::User;
use chat_directory::user::UserRecord;
use uuid::Uuid;

fn sample() -> User {
    User::new(
        "user@example.com".to_string(),
        "user1".to_string(),
        "username1".to_string(),
        "password1".to_string(),
    )
}

#[test]
fn new_user_has_no_role_and_is_offline() {
    let user = sample();
    assert!(!user.has_role(&Role::Admin));
    assert!(!user.has_role(&Role::Moderator));
    assert!(!user.has_role(&Role::Member));
    assert_eq!(user.get_state(), State::Offline);
    assert_eq!(user.copy_id(), *user.get_id());
}

#[test]
fn new_users_get_different_identifiers() {
    assert_ne!(sample().copy_id(), sample().copy_id());
    assert_ne!(sample(), sample());
}

#[test]
fn granted_role_is_held_and_no_other() {
    let mut user = sample();
    user.grant_role(&Role::Moderator);
    assert!(user.has_role(&Role::Moderator));
    assert!(!user.has_role(&Role::Admin));
    assert!(!user.has_role(&Role::Member));
    user.grant_role(&Role::Admin);
    assert!(user.has_role(&Role::Moderator));
    assert!(user.has_role(&Role::Admin));
}

#[test]
fn role_granted_twice_goes_with_one_revoke() {
    let mut user = sample();
    user.grant_role(&Role::Admin);
    user.grant_role(&Role::Admin);
    user.revoke_role(&Role::Admin);
    assert!(!user.has_role(&Role::Admin));
}

#[test]
fn revoke_leaves_the_other_roles() {
    let mut user = sample();
    user.grant_role(&Role::Admin);
    user.grant_role(&Role::Member);
    user.revoke_role(&Role::Moderator);
    assert!(user.has_role(&Role::Admin));
    assert!(user.has_role(&Role::Member));
    user.revoke_role(&Role::Admin);
    assert!(!user.has_role(&Role::Admin));
    assert!(user.has_role(&Role::Member));
}

#[test]
fn state_is_what_was_set_last() {
    let mut user = sample();
    user.update_state(State::Online);
    assert_eq!(user.get_state(), State::Online);
    user.update_state(State::Away);
    assert_eq!(user.get_state(), State::Away);
    user.update_state(State::Offline);
    assert_eq!(user.get_state(), State::Offline);
}

#[test]
fn changes_keep_the_identifier() {
    let mut user = sample();
    let id = user.copy_id();
    user.grant_role(&Role::Admin);
    user.update_state(State::Online);
    user.revoke_role(&Role::Admin);
    assert_eq!(user.copy_id(), id);
}

#[test]
fn generate_admin_is_the_administrator_role() {
    assert_eq!(Role::generate_admin(), Role::Admin);
    assert_ne!(Role::generate_admin(), Role::Moderator);
    assert_ne!(Role::generate_admin(), Role::Member);
}

#[test]
fn clone_is_the_same_user() {
    let mut user = sample();
    user.grant_role(&Role::Moderator);
    user.update_state(State::Away);
    let copy = user.clone();
    assert_eq!(copy, user);
    assert_eq!(copy.copy_id(), user.copy_id());
    assert!(copy.has_role(&Role::Moderator));
    assert_eq!(copy.get_state(), State::Away);
}

#[test]
fn record_of_a_user_holds_the_same() {
    let mut user = sample();
    user.grant_role(&Role::Admin);
    let id = user.copy_id();
    let record = user.into_record();
    assert_eq!(record.id, id);
    assert_eq!(record.email, "user@example.com");
    assert_eq!(record.name, "user1");
    assert_eq!(record.username, "username1");
    assert_eq!(record.password, "password1");
    assert_eq!(record.roles, vec![Role::Admin]);
    assert_eq!(record.state, State::Offline);
}

#[test]
fn user_from_a_record_holds_the_same() {
    let id = Uuid::from_u128(7);
    let user = User::from_record(UserRecord {
        id,
        email: "seven@example.com".to_string(),
        name: "Seven".to_string(),
        username: "seven".to_string(),
        password: "7777777".to_string(),
        roles: vec![Role::Member, Role::Admin, Role::Member],
        state: State::Online,
    });
    assert_eq!(user.copy_id(), id);
    assert!(user.has_role(&Role::Member));
    assert!(user.has_role(&Role::Admin));
    assert!(!user.has_role(&Role::Moderator));
    assert_eq!(user.get_state(), State::Online);
    let mut changed = user.clone();
    changed.revoke_role(&Role::Member);
    assert!(!changed.has_role(&Role::Member));
    assert!(changed.has_role(&Role::Admin));
}
