use vstd::prelude::*;

use crate::error::{Error, ErrorKind};

verus! {

/// An action that a requester may or may not be allowed to perform.
pub enum UserAction {
    /// Seeing an instance (listing it, reading its info), by uuid.
    ViewInstance(String),
    /// Creating a new instance.
    CreateInstance,
    /// Deleting an instance.
    DeleteInstance,
}

/// An authenticated identity with the capability data that decides what it may do.
pub struct Requester {
    pub uid: String,
    pub username: String,
    /// The owner may do everything.
    pub is_owner: bool,
    /// An admin may do everything.
    pub is_admin: bool,
    pub can_create_instance: bool,
    pub can_delete_instance: bool,
    /// The uuids of the instances this requester may view.
    pub viewable_instances: Vec<String>,
}

/// Whether `uuid` is among the viewable uuids `v`.
pub open spec fn seq_has(v: Seq<String>, uuid: Seq<char>) -> bool {
    exists|i: int| 0 <= i < v.len() && (#[trigger] v[i])@ == uuid
}

impl Requester {
    /// What the capability data allows.
    pub open spec fn permits(&self, action: UserAction) -> bool {
        self.is_owner || self.is_admin || match action {
            UserAction::ViewInstance(uuid) => seq_has(self.viewable_instances@, uuid@),
            UserAction::CreateInstance => self.can_create_instance,
            UserAction::DeleteInstance => self.can_delete_instance,
        }
    }

    /// Whether this requester may view the instance with `uuid`.
    pub fn can_view_instance(&self, uuid: &String) -> (r: bool)
        ensures
            r == self.permits(UserAction::ViewInstance(*uuid)),
    {
        if self.is_owner || self.is_admin {
            return true;
        }
        let mut i: usize = 0;
        while i < self.viewable_instances.len()
            invariant
                0 <= i <= self.viewable_instances@.len(),
                forall|j: int| 0 <= j < i ==> (#[trigger] self.viewable_instances@[j])@ != uuid@,
            decreases self.viewable_instances@.len() - i,
        {
            if self.viewable_instances[i] == *uuid {
                return true;
            }
            i = i + 1;
        }
        false
    }

    /// Evaluates the permission predicate on `action`.
    pub fn can_perform_action(&self, action: &UserAction) -> (r: bool)
        ensures
            r == self.permits(*action),
    {
        match action {
            UserAction::ViewInstance(uuid) => self.can_view_instance(uuid),
            UserAction::CreateInstance => {
                self.is_owner || self.is_admin || self.can_create_instance
            },
            UserAction::DeleteInstance => {
                self.is_owner || self.is_admin || self.can_delete_instance
            },
        }
    }
}

/// A credential together with the requester it stands for.
pub struct UserEntry {
    pub token: String,
    pub requester: Requester,
}

/// The credential table that bearer tokens are resolved against.
pub struct UsersManager {
    pub users: Vec<UserEntry>,
}

/// The index of the first entry of `users` whose token is `token`, if any.
pub open spec fn token_index(users: Seq<UserEntry>, token: Seq<char>) -> Option<int>
    decreases users.len(),
{
    if users.len() == 0 {
        None
    } else {
        match token_index(users.drop_last(), token) {
            Some(i) => Some(i),
            None => if users.last().token@ == token {
                Some(users.len() - 1)
            } else {
                None
            },
        }
    }
}

proof fn lemma_token_index_absent(users: Seq<UserEntry>, token: Seq<char>, n: int)
    requires
        0 <= n <= users.len(),
        forall|j: int| 0 <= j < n ==> (#[trigger] users[j]).token@ != token,
    ensures
        token_index(users.subrange(0, n), token) is None,
    decreases n,
{
    if n > 0 {
        assert(users.subrange(0, n).drop_last() =~= users.subrange(0, n - 1));
        lemma_token_index_absent(users, token, n - 1);
    }
}

proof fn lemma_token_index_prefix(users: Seq<UserEntry>, token: Seq<char>, n: int)
    requires
        0 <= n <= users.len(),
        token_index(users.subrange(0, n), token) is Some,
    ensures
        token_index(users, token) == token_index(users.subrange(0, n), token),
    decreases users.len() - n,
{
    if n < users.len() {
        assert(users.subrange(0, n + 1).drop_last() =~= users.subrange(0, n));
        lemma_token_index_prefix(users, token, n + 1);
    } else {
        assert(users.subrange(0, n) =~= users);
    }
}

impl UsersManager {
    pub fn new() -> (r: UsersManager)
        ensures
            r.users@.len() == 0,
    {
        UsersManager { users: Vec::new() }
    }

    /// Registers `requester` under the credential `token`.
    pub fn add_user(&mut self, token: String, requester: Requester)
        ensures
            final(self).users@ == old(self).users@.push(UserEntry { token, requester }),
    {
        self.users.push(UserEntry { token, requester });
    }

    /// The requester that `token` resolves to: the first entry holding it.
    pub open spec fn resolve(&self, token: Seq<char>) -> Option<Requester> {
        match token_index(self.users@, token) {
            Some(i) => Some(self.users@[i].requester),
            None => None,
        }
    }

    /// Resolves a bearer credential, if it is known.
    pub fn try_auth(&self, token: &String) -> (r: Option<&Requester>)
        ensures
            match self.resolve(token@) {
                Some(req) => r == Some(&req),
                None => r is None,
            },
    {
        let mut i: usize = 0;
        while i < self.users.len()
            invariant
                0 <= i <= self.users@.len(),
                forall|j: int| 0 <= j < i ==> (#[trigger] self.users@[j]).token@ != token@,
            decreases self.users@.len() - i,
        {
            if self.users[i].token == *token {
                proof {
                    lemma_token_index_absent(self.users@, token@, i as int);
                    assert(self.users@.subrange(0, i + 1).drop_last() =~= self.users@.subrange(0, i as int));
                    lemma_token_index_prefix(self.users@, token@, i + 1);
                }
                return Some(&self.users[i].requester);
            }
            i = i + 1;
        }
        proof {
            lemma_token_index_absent(self.users@, token@, i as int);
            assert(self.users@.subrange(0, i as int) =~= self.users@);
        }
        None
    }

    /// Resolves a bearer credential or fails with `Unauthorized`.
    pub fn authenticate(&self, token: &String) -> (r: Result<&Requester, Error>)
        ensures
            match self.resolve(token@) {
                Some(req) => r == Ok::<&Requester, Error>(&req),
                None => r is Err && r->Err_0.kind == ErrorKind::Unauthorized,
            },
    {
        match self.try_auth(token) {
            Some(req) => Ok(req),
            None => Err(Error::new(ErrorKind::Unauthorized, "Token error")),
        }
    }
}

} // verus!
