//! Users: who they are, which roles they hold, and whether they are there.

use crate::role::Role;
use uuid::Uuid;
use vstd::prelude::*;

verus! {

/// Whether a user is there.
#[derive(Clone, Copy, Debug, PartialEq, Eq, Structural)]
pub enum State {
    /// There and attending.
    Online,
    /// There, but not attending.
    Away,
    /// Not there.
    Offline,
}

/// A user of the service.
#[derive(Debug, PartialEq, Eq)]
pub struct User {
    id: Uuid,
    email: String,
    name: String,
    username: String,
    password: String,
    roles: Vec<Role>,
    state: State,
}

/// What a `User` stands for. The roles form a set: neither the order in
/// which they were granted nor a repeated grant shows.
pub struct UserView {
    pub id: Uuid,
    pub email: Seq<char>,
    pub name: Seq<char>,
    pub username: Seq<char>,
    pub password: Seq<char>,
    pub roles: Set<Role>,
    pub state: State,
}

impl UserView {
    /// The user with `role` among the roles.
    pub open spec fn grant_role(self, role: Role) -> UserView {
        UserView { roles: self.roles.insert(role), ..self }
    }

    /// The user without `role` among the roles.
    pub open spec fn revoke_role(self, role: Role) -> UserView {
        UserView { roles: self.roles.remove(role), ..self }
    }

    /// The user in the given state.
    pub open spec fn update_state(self, state: State) -> UserView {
        UserView { state, ..self }
    }

    /// Whether the user holds `role`.
    pub open spec fn has_role(self, role: Role) -> bool {
        self.roles.contains(role)
    }
}

impl View for User {
    type V = UserView;

    closed spec fn view(&self) -> UserView {
        UserView {
            id: self.id,
            email: self.email@,
            name: self.name@,
            username: self.username@,
            password: self.password@,
            roles: self.roles@.to_set(),
            state: self.state,
        }
    }
}

/// Everything a user holds, field by field: what a store of users writes
/// down, and what a user is put together from again.
#[derive(Debug)]
pub struct UserRecord {
    pub id: Uuid,
    pub email: String,
    pub name: String,
    pub username: String,
    pub password: String,
    pub roles: Vec<Role>,
    pub state: State,
}

impl View for UserRecord {
    type V = UserView;

    open spec fn view(&self) -> UserView {
        UserView {
            id: self.id,
            email: self.email@,
            name: self.name@,
            username: self.username@,
            password: self.password@,
            roles: self.roles@.to_set(),
            state: self.state,
        }
    }
}

/// Which roles are not `role`.
pub open spec fn other_than(role: Role) -> spec_fn(Role) -> bool {
    |held: Role| held != role
}

/// The roles of a list that are not `role` are, as a set, the roles of
/// the list without `role`.
proof fn lemma_other_roles(roles: Seq<Role>, role: Role)
    ensures
        roles.filter(other_than(role)).to_set() == roles.to_set().remove(role),
{
    let others = roles.filter(other_than(role));
    assert forall|held: Role| others.contains(held) implies roles.contains(held) && held != role by {
        roles.lemma_filter_contains_rev(other_than(role), held);
        let k = choose|k: int| 0 <= k < others.len() && others[k] == held;
        roles.lemma_filter_pred(other_than(role), k);
    }
    assert forall|held: Role| roles.contains(held) && held != role implies others.contains(held) by {
        let k = choose|k: int| 0 <= k < roles.len() && roles[k] == held;
        roles.lemma_filter_contains(other_than(role), k);
    }
    assert(others.to_set() =~= roles.to_set().remove(role));
}

impl Clone for User {
    /// A user who is the same in everything.
    fn clone(&self) -> (copy: User)
        ensures
            copy@ == self@,
    {
        User {
            id: self.id,
            email: self.email.clone(),
            name: self.name.clone(),
            username: self.username.clone(),
            password: self.password.clone(),
            roles: self.roles.clone(),
            state: self.state,
        }
    }
}

impl User {
    /// A new user under a fresh random identifier, without roles and
    /// offline.
    pub fn new(email: String, name: String, username: String, password: String) -> (user: User)
        ensures
            user@.email == email@,
            user@.name == name@,
            user@.username == username@,
            user@.password == password@,
            user@.roles == Set::<Role>::empty(),
            user@.state == State::Offline,
    {
        User {
            id: Uuid::new_v4(),
            email,
            name,
            username,
            password,
            roles: Vec::new(),
            state: State::Offline,
        }
    }

    /// The user that `record` describes.
    pub fn from_record(record: UserRecord) -> (user: User)
        ensures
            user@ == record@,
    {
        User {
            id: record.id,
            email: record.email,
            name: record.name,
            username: record.username,
            password: record.password,
            roles: record.roles,
            state: record.state,
        }
    }

    /// The user, field by field.
    pub fn into_record(self) -> (record: UserRecord)
        ensures
            record@ == self@,
    {
        UserRecord {
            id: self.id,
            email: self.email,
            name: self.name,
            username: self.username,
            password: self.password,
            roles: self.roles,
            state: self.state,
        }
    }

    /// A copy of the user's identifier.
    pub fn copy_id(&self) -> (id: Uuid)
        ensures
            id == self@.id,
    {
        self.id
    }

    /// The user's identifier.
    pub fn get_id(&self) -> (id: &Uuid)
        ensures
            *id == self@.id,
    {
        &self.id
    }

    /// Whether the user is there.
    pub fn get_state(&self) -> (state: State)
        ensures
            state == self@.state,
    {
        self.state
    }

    /// Whether the user holds `role`.
    pub fn has_role(&self, role: &Role) -> (held: bool)
        ensures
            held == self@.has_role(*role),
    {
        let mut i: usize = 0;
        while i < self.roles.len()
            invariant
                i <= self.roles.len(),
                forall|j: int| 0 <= j < i ==> self.roles@[j] != *role,
            decreases self.roles.len() - i,
        {
            if self.roles[i] == *role {
                return true;
            }
            i += 1;
        }
        false
    }

    /// Gives the user `role`. Nothing changes for a user who holds it.
    pub fn grant_role(&mut self, role: &Role)
        ensures
            final(self)@ == old(self)@.grant_role(*role),
    {
        if !self.has_role(role) {
            self.roles.push(*role);
            proof {
                old(self).roles@.lemma_push_to_set_commute(*role);
            }
        } else {
            assert(old(self)@.roles.insert(*role) =~= old(self)@.roles);
        }
    }

    /// Takes `role` from the user. Nothing changes for a user who does
    /// not hold it.
    pub fn revoke_role(&mut self, role: &Role)
        ensures
            final(self)@ == old(self)@.revoke_role(*role),
    {
        let mut kept: Vec<Role> = Vec::new();
        let mut i: usize = 0;
        while i < self.roles.len()
            invariant
                i <= self.roles.len(),
                kept@ == self.roles@.take(i as int).filter(other_than(*role)),
            decreases self.roles.len() - i,
        {
            let held = self.roles[i];
            proof {
                assert(self.roles@.take(i + 1) =~= self.roles@.take(i as int).push(held));
                self.roles@.take(i as int).lemma_filter_push(held, other_than(*role));
            }
            if held != *role {
                kept.push(held);
            }
            i += 1;
        }
        proof {
            assert(self.roles@.take(i as int) =~= self.roles@);
            lemma_other_roles(self.roles@, *role);
        }
        self.roles = kept;
    }

    /// Records whether the user is there.
    pub fn update_state(&mut self, state: State)
        ensures
            final(self)@ == old(self)@.update_state(state),
    {
        self.state = state;
    }
}

} // verus!
