//! Account resource service over an in-memory store: a monotonic id counter
//! plus a vector of records with pairwise-distinct ids. Unique-key lookups
//! are full scans; plaintext passwords are hashed before any record is
//! written, so the store never holds one.

use crate::apperr::ServiceError;
use crate::model::{User, UserStatus};
use crate::password::{encrypt_password, is_hash_of};
use crate::strutil::str_eq;
use vstd::prelude::*;

verus! {

/// Input for creating an account; the password arrives in plaintext.
pub struct CreateUserRequest {
    pub username: String,
    pub password: String,
    pub status: UserStatus,
}

/// Input for replacing an account's caller-owned fields; the password
/// arrives in plaintext.
pub struct UpdateUserRequest {
    pub id: i64,
    pub username: String,
    pub password: String,
    pub status: UserStatus,
}

/// Whether some record in `users` carries the id.
pub open spec fn contains_user_id(users: Seq<User>, id: i64) -> bool {
    exists|i: int| 0 <= i < users.len() && #[trigger] users[i].id == id
}

/// The record a full scan finds first for a username, if any.
pub open spec fn first_with_username(users: Seq<User>, name: Seq<char>) -> Option<User>
    decreases users.len(),
{
    if users.len() == 0 {
        None
    } else if users[0].username@ == name {
        Some(users[0])
    } else {
        first_with_username(users.skip(1), name)
    }
}

/// Well-formedness of a store: ids are positive, never ahead of the counter,
/// and pairwise distinct.
pub open spec fn user_store_inv(counter: i64, users: Seq<User>) -> bool {
    &&& 0 <= counter
    &&& forall|i: int| 0 <= i < users.len() ==> 0 < (#[trigger] users[i].id) <= counter
    &&& forall|i: int, j: int|
        0 <= i < j < users.len() ==> (#[trigger] users[i].id) != (#[trigger] users[j].id)
}

/// The map-plus-counter pair behind the in-memory account service.
pub struct InmemoryUserStore {
    pub counter: i64,
    pub items: Vec<User>,
}

/// Account service bound to the in-memory store. Callers that share one
/// instance across tasks serialize access around it; no operation here
/// blocks or suspends.
pub struct InMemoryUserService {
    pub data: InmemoryUserStore,
}

/// The capability surface of an account store, shared by every backend.
pub trait UserService: Sized {
    /// The records currently held, in insertion order.
    spec fn users(&self) -> Seq<User>;

    /// The id allocation counter: ids never exceed it and it never moves
    /// backwards.
    spec fn counter(&self) -> i64;

    /// The backend's internal invariant.
    spec fn inv(&self) -> bool;

    fn get_all_users(&self) -> (r: Vec<User>)
        requires
            self.inv(),
        ensures
            r@ == self.users(),
    ;

    fn get_user_by_id(&self, id: i64) -> (r: Option<User>)
        requires
            self.inv(),
        ensures
            match r {
                Some(u) => u.id == id && self.users().contains(u),
                None => !contains_user_id(self.users(), id),
            },
    ;

    fn get_user_by_username(&self, username: &str) -> (r: Option<User>)
        requires
            self.inv(),
        ensures
            r == first_with_username(self.users(), username@),
    ;

    /// Creates an account: hashes the password, allocates the next id, and
    /// appends the record with both timestamps set to `now` and no recorded
    /// login. Fails only if the hashing primitive does, leaving the store
    /// unchanged.
    fn create_user(&mut self, request: CreateUserRequest, now: i64) -> (r: Result<
        User,
        ServiceError,
    >)
        requires
            old(self).inv(),
            old(self).counter() < i64::MAX,
        ensures
            final(self).inv(),
            match r {
                Ok(u) => {
                    &&& final(self).counter() == old(self).counter() + 1
                    &&& u.id == final(self).counter()
                    &&& u.username@ == request.username@
                    &&& is_hash_of(u.password@, request.password@)
                    &&& u.password@.len() > 0 && u.password@[0] == '$'
                    &&& u.status == request.status
                    &&& u.created == now
                    &&& u.updated == now
                    &&& u.last_login is None
                    &&& final(self).users() == old(self).users().push(u)
                    &&& forall|i: int|
                        0 <= i < old(self).users().len() ==> (#[trigger] old(
                            self,
                        ).users()[i].id) < u.id
                },
                Err(e) => e == ServiceError::Encoding && *final(self) == *old(self),
            },
    ;

    /// Replaces username, credential and status of the record with the id,
    /// hashing the password first; refreshes `updated`, preserves `created`
    /// and the recorded last login. `NotFound` exactly when the id is
    /// absent; on any failure the store is unchanged.
    fn update_user(&mut self, id: i64, request: UpdateUserRequest, now: i64) -> (r: Result<
        User,
        ServiceError,
    >)
        requires
            old(self).inv(),
        ensures
            final(self).inv(),
            final(self).counter() == old(self).counter(),
            match r {
                Ok(u) => exists|i: int|
                    {
                        &&& 0 <= i < old(self).users().len()
                        &&& (#[trigger] old(self).users()[i]).id == id
                        &&& u.id == id
                        &&& u.username@ == request.username@
                        &&& is_hash_of(u.password@, request.password@)
                        &&& u.password@.len() > 0 && u.password@[0] == '$'
                        &&& u.status == request.status
                        &&& u.created == old(self).users()[i].created
                        &&& u.updated == now
                        &&& u.last_login == old(self).users()[i].last_login
                        &&& final(self).users() == old(self).users().update(i, u)
                    },
                Err(e) => {
                    &&& *final(self) == *old(self)
                    &&& (e == ServiceError::NotFound || e == ServiceError::Encoding)
                    &&& (e == ServiceError::NotFound <==> !contains_user_id(
                        old(self).users(),
                        id,
                    ))
                },
            },
    ;

    /// Removes the record with the id. Succeeds exactly when the id is
    /// present; afterwards the id is gone either way, so a second call with
    /// the same id reports `NotFound`.
    fn delete_user(&mut self, id: i64) -> (r: Result<(), ServiceError>)
        requires
            old(self).inv(),
        ensures
            final(self).inv(),
            final(self).counter() == old(self).counter(),
            r is Ok <==> contains_user_id(old(self).users(), id),
            !contains_user_id(final(self).users(), id),
            match r {
                Ok(_) => exists|i: int|
                    {
                        &&& 0 <= i < old(self).users().len()
                        &&& (#[trigger] old(self).users()[i]).id == id
                        &&& final(self).users() == old(self).users().remove(i)
                    },
                Err(e) => e == ServiceError::NotFound && *final(self) == *old(self),
            },
    ;
}

/// Index of the record with the id, by linear scan.
fn find_user_index(items: &Vec<User>, id: i64) -> (r: Option<usize>)
    ensures
        match r {
            Some(i) => i < items@.len() && items@[i as int].id == id,
            None => !contains_user_id(items@, id),
        },
{
    let n = items.len();
    let mut idx: usize = 0;
    while idx < n
        invariant
            n == items@.len(),
            0 <= idx <= n,
            forall|j: int| 0 <= j < idx ==> (#[trigger] items@[j].id) != id,
        decreases n - idx,
    {
        if items[idx].id == id {
            return Some(idx);
        }
        idx += 1;
    }
    None
}

/// Skipping past a non-matching head leaves the first username match
/// unchanged.
proof fn lemma_first_with_username_step(users: Seq<User>, name: Seq<char>, i: int)
    requires
        0 <= i < users.len(),
        users[i].username@ != name,
        first_with_username(users, name) == first_with_username(users.skip(i), name),
    ensures
        first_with_username(users, name) == first_with_username(users.skip(i + 1), name),
{
    assert(users.skip(i).len() > 0);
    assert(users.skip(i)[0] == users[i]);
    assert(users.skip(i).skip(1) =~= users.skip(i + 1));
}

impl Default for InMemoryUserService {
    /// An empty store with the counter at zero.
    fn default() -> (s: Self)
        ensures
            s.inv(),
            s.users() == Seq::<User>::empty(),
            s.counter() == 0,
    {
        InMemoryUserService { data: InmemoryUserStore { counter: 0, items: Vec::new() } }
    }
}

impl InMemoryUserService {
    /// Appends an account record around an already-hashed credential; the
    /// caller owns the hashing. Allocates the next id, so the new id is
    /// strictly above every id already in the store.
    pub fn insert_user(
        &mut self,
        username: String,
        credential: String,
        status: UserStatus,
        now: i64,
    ) -> (u: User)
        requires
            old(self).inv(),
            old(self).counter() < i64::MAX,
        ensures
            final(self).inv(),
            final(self).counter() == old(self).counter() + 1,
            u.id == final(self).counter(),
            u.username@ == username@,
            u.password@ == credential@,
            u.status == status,
            u.created == now,
            u.updated == now,
            u.last_login is None,
            final(self).users() == old(self).users().push(u),
            forall|i: int|
                0 <= i < old(self).users().len() ==> (#[trigger] old(self).users()[i].id) < u.id,
    {
        self.data.counter = self.data.counter + 1;
        let user = User {
            id: self.data.counter,
            username,
            password: credential,
            status,
            created: now,
            updated: now,
            last_login: None,
        };
        let result = user.clone();
        self.data.items.push(user);
        result
    }

    /// Replaces the caller-owned fields of the record with the id by an
    /// already-hashed credential; the caller owns the hashing. `created` and
    /// the recorded last login survive, `updated` becomes `now`.
    pub fn replace_user(
        &mut self,
        id: i64,
        username: String,
        credential: String,
        status: UserStatus,
        now: i64,
    ) -> (r: Result<User, ServiceError>)
        requires
            old(self).inv(),
        ensures
            final(self).inv(),
            final(self).counter() == old(self).counter(),
            r is Ok <==> contains_user_id(old(self).users(), id),
            match r {
                Ok(u) => exists|i: int|
                    {
                        &&& 0 <= i < old(self).users().len()
                        &&& (#[trigger] old(self).users()[i]).id == id
                        &&& u.id == id
                        &&& u.username@ == username@
                        &&& u.password@ == credential@
                        &&& u.status == status
                        &&& u.created == old(self).users()[i].created
                        &&& u.updated == now
                        &&& u.last_login == old(self).users()[i].last_login
                        &&& final(self).users() == old(self).users().update(i, u)
                    },
                Err(e) => e == ServiceError::NotFound && *final(self) == *old(self),
            },
    {
        let idx = match find_user_index(&self.data.items, id) {
            Some(idx) => idx,
            None => {
                return Err(ServiceError::NotFound);
            },
        };
        let user = User {
            id,
            username,
            password: credential,
            status,
            created: self.data.items[idx].created,
            updated: now,
            last_login: self.data.items[idx].last_login,
        };
        let result = user.clone();
        self.data.items[idx] = user;
        Ok(result)
    }
}

impl UserService for InMemoryUserService {
    open spec fn users(&self) -> Seq<User> {
        self.data.items@
    }

    open spec fn counter(&self) -> i64 {
        self.data.counter
    }

    open spec fn inv(&self) -> bool {
        user_store_inv(self.data.counter, self.data.items@)
    }

    fn get_all_users(&self) -> (r: Vec<User>) {
        let r = self.data.items.clone();
        proof {
            assert(r@ =~= self.data.items@);
        }
        r
    }

    fn get_user_by_id(&self, id: i64) -> (r: Option<User>) {
        match find_user_index(&self.data.items, id) {
            Some(idx) => Some(self.data.items[idx].clone()),
            None => None,
        }
    }

    fn get_user_by_username(&self, username: &str) -> (r: Option<User>) {
        let n = self.data.items.len();
        let mut idx: usize = 0;
        proof {
            assert(self.users().skip(0) =~= self.users());
        }
        while idx < n
            invariant
                n == self.data.items@.len(),
                0 <= idx <= n,
                first_with_username(self.data.items@, username@) == first_with_username(
                    self.data.items@.skip(idx as int),
                    username@,
                ),
            decreases n - idx,
        {
            if str_eq(self.data.items[idx].username.as_str(), username) {
                proof {
                    assert(self.data.items@.skip(idx as int)[0] == self.data.items@[idx as int]);
                }
                return Some(self.data.items[idx].clone());
            }
            proof {
                lemma_first_with_username_step(self.data.items@, username@, idx as int);
            }
            idx += 1;
        }
        proof {
            assert(self.data.items@.skip(n as int) =~= Seq::<User>::empty());
        }
        None
    }

    fn create_user(&mut self, request: CreateUserRequest, now: i64) -> (r: Result<
        User,
        ServiceError,
    >) {
        let credential = match encrypt_password(request.password.as_str()) {
            Ok(c) => c,
            Err(_) => {
                return Err(ServiceError::Encoding);
            },
        };
        Ok(self.insert_user(request.username, credential, request.status, now))
    }

    fn update_user(&mut self, id: i64, request: UpdateUserRequest, now: i64) -> (r: Result<
        User,
        ServiceError,
    >) {
        if find_user_index(&self.data.items, id).is_none() {
            return Err(ServiceError::NotFound);
        }
        let credential = match encrypt_password(request.password.as_str()) {
            Ok(c) => c,
            Err(_) => {
                return Err(ServiceError::Encoding);
            },
        };
        self.replace_user(id, request.username, credential, request.status, now)
    }

    fn delete_user(&mut self, id: i64) -> (r: Result<(), ServiceError>) {
        let idx = match find_user_index(&self.data.items, id) {
            Some(idx) => idx,
            None => {
                return Err(ServiceError::NotFound);
            },
        };
        self.data.items.remove(idx);
        proof {
            old(self).users().remove_ensures(idx as int);
        }
        Ok(())
    }
}

} // verus!
