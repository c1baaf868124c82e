//! User repository: the relational store modeled as an owned, verified
//! value.
//!
//! The store is the single source of truth for user records, roles and
//! role assignments. Its well-formedness invariant carries the schema's
//! constraints: record ids are their positions (so ids are unique and
//! lookups by id are total on the id range), usernames and emails are
//! unique across records, role ids are their positions, and every role
//! assignment references an existing user and role. Every operation
//! preserves the invariant; conflicting writes are rejected with the
//! conflict they would cause, which is the store-level defense beneath the
//! service-level existence checks.

use vstd::prelude::*;
use crate::errors::ServiceError;
use crate::policy::opt_view;

verus! {

broadcast use vstd::string::to_string_from_display_ensures_for_str;

/// A stored user record.
#[derive(Debug)]
pub struct User {
    pub id: u128,
    pub username: String,
    pub first_name: String,
    pub last_name: String,
    pub email: String,
    pub password_hash: String,
    pub token_version: i32,
    pub locked_until: Option<i64>,
    pub last_login_at: Option<i64>,
    pub deleted_at: Option<i64>,
    pub created_at: i64,
    pub updated_at: i64,
}

/// Spec-level image of a user record.
#[verifier::ext_equal]
pub struct UserV {
    pub id: u128,
    pub username: Seq<char>,
    pub first_name: Seq<char>,
    pub last_name: Seq<char>,
    pub email: Seq<char>,
    pub password_hash: Seq<char>,
    pub token_version: i32,
    pub locked_until: Option<i64>,
    pub last_login_at: Option<i64>,
    pub deleted_at: Option<i64>,
    pub created_at: i64,
    pub updated_at: i64,
}

impl View for User {
    type V = UserV;

    open spec fn view(&self) -> UserV {
        UserV {
            id: self.id,
            username: self.username@,
            first_name: self.first_name@,
            last_name: self.last_name@,
            email: self.email@,
            password_hash: self.password_hash@,
            token_version: self.token_version,
            locked_until: self.locked_until,
            last_login_at: self.last_login_at,
            deleted_at: self.deleted_at,
            created_at: self.created_at,
            updated_at: self.updated_at,
        }
    }
}

impl Clone for User {
    fn clone(&self) -> (r: Self)
        ensures
            r@ == self@,
    {
        User {
            id: self.id,
            username: self.username.clone(),
            first_name: self.first_name.clone(),
            last_name: self.last_name.clone(),
            email: self.email.clone(),
            password_hash: self.password_hash.clone(),
            token_version: self.token_version,
            locked_until: self.locked_until,
            last_login_at: self.last_login_at,
            deleted_at: self.deleted_at,
            created_at: self.created_at,
            updated_at: self.updated_at,
        }
    }
}

/// The fields a registration supplies for a new record; id and timestamps
/// are the store's to assign.
pub struct NewUser {
    pub first_name: String,
    pub last_name: String,
    pub username: String,
    pub email: String,
    pub password_hash: String,
    pub token_version: i32,
}

/// A named role.
pub struct Role {
    pub id: i32,
    pub name: String,
}

/// Spec-level image of a role.
#[verifier::ext_equal]
pub struct RoleV {
    pub id: i32,
    pub name: Seq<char>,
}

impl View for Role {
    type V = RoleV;

    open spec fn view(&self) -> RoleV {
        RoleV { id: self.id, name: self.name@ }
    }
}

/// One user-to-role assignment row.
pub struct RoleAssignment {
    pub user_id: u128,
    pub role_id: i32,
}

impl View for RoleAssignment {
    type V = (u128, i32);

    open spec fn view(&self) -> (u128, i32) {
        (self.user_id, self.role_id)
    }
}

/// Spec-level image of the whole store.
#[verifier::ext_equal]
pub struct StoreV {
    pub users: Seq<UserV>,
    pub roles: Seq<RoleV>,
    pub assignments: Seq<(u128, i32)>,
}

/// The user store: user records with their roles and assignments.
pub struct UserStore {
    users: Vec<User>,
    roles: Vec<Role>,
    assignments: Vec<RoleAssignment>,
}

impl View for UserStore {
    type V = StoreV;

    closed spec fn view(&self) -> StoreV {
        StoreV {
            users: self.users@.map_values(|u: User| u@),
            roles: self.roles@.map_values(|r: Role| r@),
            assignments: self.assignments@.map_values(|a: RoleAssignment| a@),
        }
    }
}

/// Some record carries this username.
pub open spec fn username_taken(users: Seq<UserV>, name: Seq<char>) -> bool {
    exists|i: int| 0 <= i < users.len() && users[i].username == name
}

/// Some record carries this email.
pub open spec fn email_taken(users: Seq<UserV>, email: Seq<char>) -> bool {
    exists|i: int| 0 <= i < users.len() && users[i].email == email
}

/// Some record other than the one at `keep` carries this username.
pub open spec fn username_taken_by_other(users: Seq<UserV>, name: Seq<char>, keep: int) -> bool {
    exists|i: int| 0 <= i < users.len() && i != keep && users[i].username == name
}

/// Some record other than the one at `keep` carries this email.
pub open spec fn email_taken_by_other(users: Seq<UserV>, email: Seq<char>, keep: int) -> bool {
    exists|i: int| 0 <= i < users.len() && i != keep && users[i].email == email
}

/// The record matches a sign-in identifier: its username or email equals it.
pub open spec fn matches_ident(u: UserV, value: Seq<char>) -> bool {
    u.username == value || u.email == value
}

/// No record matches the identifier.
pub open spec fn no_ident_match(users: Seq<UserV>, value: Seq<char>) -> bool {
    forall|i: int| 0 <= i < users.len() ==> !matches_ident(users[i], value)
}

/// The record at `i` is the first to match the identifier.
pub open spec fn first_ident_match_at(users: Seq<UserV>, value: Seq<char>, i: int) -> bool {
    &&& 0 <= i < users.len()
    &&& matches_ident(users[i], value)
    &&& forall|j: int| 0 <= j < i ==> !matches_ident(users[j], value)
}

/// User records are well formed: each record's id is its position, and
/// usernames and emails are unique across records.
pub open spec fn users_wf(users: Seq<UserV>) -> bool {
    &&& forall|i: int| 0 <= i < users.len() ==> (#[trigger] users[i].id) == i as u128
    &&& forall|i: int, j: int|
        0 <= i < users.len() && 0 <= j < users.len() && i != j ==> #[trigger] users[i].username
            != #[trigger] users[j].username
    &&& forall|i: int, j: int|
        0 <= i < users.len() && 0 <= j < users.len() && i != j ==> #[trigger] users[i].email
            != #[trigger] users[j].email
}

/// Roles are well formed: each role's id is its position.
pub open spec fn roles_wf(roles: Seq<RoleV>) -> bool {
    forall|i: int| 0 <= i < roles.len() ==> (#[trigger] roles[i].id) == i as i32
}

/// Assignments are well formed: each references an existing user and role,
/// and no pair occurs twice.
pub open spec fn assignments_wf(s: StoreV) -> bool {
    &&& forall|i: int|
        0 <= i < s.assignments.len() ==> (#[trigger] s.assignments[i]).0 < s.users.len()
            && 0 <= s.assignments[i].1 < s.roles.len()
    &&& forall|i: int, j: int|
        0 <= i < s.assignments.len() && 0 <= j < s.assignments.len() && i != j
            ==> #[trigger] s.assignments[i] != #[trigger] s.assignments[j]
}

/// The value a partial update leaves in a field: the new value when one
/// is provided, the stored one otherwise.
pub open spec fn chosen(new: Option<Seq<char>>, old: Seq<char>) -> Seq<char> {
    match new {
        Some(s) => s,
        None => old,
    }
}

/// The record a partial profile update turns `u` into: only the provided
/// subset of the four identity fields changes.
pub open spec fn profile_updated(
    u: UserV,
    username: Option<Seq<char>>,
    email: Option<Seq<char>>,
    first_name: Option<Seq<char>>,
    last_name: Option<Seq<char>>,
) -> UserV {
    UserV {
        id: u.id,
        username: chosen(username, u.username),
        first_name: chosen(first_name, u.first_name),
        last_name: chosen(last_name, u.last_name),
        email: chosen(email, u.email),
        password_hash: u.password_hash,
        token_version: u.token_version,
        locked_until: u.locked_until,
        last_login_at: u.last_login_at,
        deleted_at: u.deleted_at,
        created_at: u.created_at,
        updated_at: u.updated_at,
    }
}

/// The record `u` with another token version.
pub open spec fn with_token_version(u: UserV, v: i32) -> UserV {
    UserV {
        id: u.id,
        username: u.username,
        first_name: u.first_name,
        last_name: u.last_name,
        email: u.email,
        password_hash: u.password_hash,
        token_version: v,
        locked_until: u.locked_until,
        last_login_at: u.last_login_at,
        deleted_at: u.deleted_at,
        created_at: u.created_at,
        updated_at: u.updated_at,
    }
}

/// The record `u` with another password hash and token version, changed
/// together.
pub open spec fn with_password(u: UserV, hash: Seq<char>, v: i32) -> UserV {
    UserV {
        id: u.id,
        username: u.username,
        first_name: u.first_name,
        last_name: u.last_name,
        email: u.email,
        password_hash: hash,
        token_version: v,
        locked_until: u.locked_until,
        last_login_at: u.last_login_at,
        deleted_at: u.deleted_at,
        created_at: u.created_at,
        updated_at: u.updated_at,
    }
}

/// The name of the role with this id, the empty sequence when absent.
/// Under `roles_wf` a role's id is its position.
pub open spec fn role_name(roles: Seq<RoleV>, rid: i32) -> Seq<char> {
    if 0 <= rid < roles.len() {
        roles[rid as int].name
    } else {
        Seq::empty()
    }
}

/// The names of the roles assigned to the user, in assignment order.
pub open spec fn assigned_names(
    assignments: Seq<(u128, i32)>,
    roles: Seq<RoleV>,
    uid: u128,
) -> Seq<Seq<char>>
    decreases assignments.len(),
{
    if assignments.len() == 0 {
        Seq::empty()
    } else {
        let front = assigned_names(assignments.drop_last(), roles, uid);
        if assignments.last().0 == uid {
            front.push(role_name(roles, assignments.last().1))
        } else {
            front
        }
    }
}

/// One row of the user listing: identity fields joined with role names.
#[derive(Debug)]
pub struct UserBasic {
    pub username: String,
    pub email: String,
    pub first_name: String,
    pub last_name: String,
    pub roles: Vec<String>,
}

/// Spec-level image of a listing row.
#[verifier::ext_equal]
pub struct UserBasicV {
    pub username: Seq<char>,
    pub email: Seq<char>,
    pub first_name: Seq<char>,
    pub last_name: Seq<char>,
    pub roles: Seq<Seq<char>>,
}

impl View for UserBasic {
    type V = UserBasicV;

    open spec fn view(&self) -> UserBasicV {
        UserBasicV {
            username: self.username@,
            email: self.email@,
            first_name: self.first_name@,
            last_name: self.last_name@,
            roles: self.roles@.map_values(|s: String| s@),
        }
    }
}

/// The role names reported for a user: the assigned names in assignment
/// order, or the synthetic `"default"` placeholder when none are assigned.
pub open spec fn roles_reported(s: StoreV, uid: u128) -> Seq<Seq<char>> {
    let names = assigned_names(s.assignments, s.roles, uid);
    if names.len() == 0 {
        seq!["default"@]
    } else {
        names
    }
}

/// The listing row for the user at position `i`.
pub open spec fn user_basic_of(s: StoreV, i: int) -> UserBasicV {
    UserBasicV {
        username: s.users[i].username,
        email: s.users[i].email,
        first_name: s.users[i].first_name,
        last_name: s.users[i].last_name,
        roles: roles_reported(s, s.users[i].id),
    }
}

/// One record per email: under the invariant, two positions carrying the
/// same email are one position, so however a record came to be inserted
/// the store holds exactly one row for its email.
pub proof fn lemma_one_record_per_email(users: Seq<UserV>, i: int, j: int)
    requires
        users_wf(users),
        0 <= i < users.len(),
        0 <= j < users.len(),
        users[i].email == users[j].email,
    ensures
        i == j,
{
}

/// One record per username, by the same argument.
pub proof fn lemma_one_record_per_username(users: Seq<UserV>, i: int, j: int)
    requires
        users_wf(users),
        0 <= i < users.len(),
        0 <= j < users.len(),
        users[i].username == users[j].username,
    ensures
        i == j,
{
}

impl UserStore {
    /// The store's invariant; every operation requires and preserves it.
    /// The record count is bounded by the address space, so a record's
    /// position always round-trips through its `u128` id.
    pub open spec fn wf(&self) -> bool {
        &&& users_wf(self@.users)
        &&& roles_wf(self@.roles)
        &&& assignments_wf(self@)
        &&& self@.users.len() <= usize::MAX
    }

    /// An empty store.
    pub fn new() -> (r: Self)
        ensures
            r.wf(),
            r@.users =~= Seq::<UserV>::empty(),
            r@.roles =~= Seq::<RoleV>::empty(),
            r@.assignments =~= Seq::<(u128, i32)>::empty(),
    {
        UserStore { users: Vec::new(), roles: Vec::new(), assignments: Vec::new() }
    }

    /// Case-sensitive lookup: does any record carry this username?
    pub fn username_exists(&self, name: &str) -> (r: bool)
        ensures
            r == username_taken(self@.users, name@),
    {
        let needle = name.to_owned();
        let n = self.users.len();
        let mut i: usize = 0;
        while i < n
            invariant
                n == self.users.len(),
                needle@ == name@,
                i <= n,
                forall|j: int| 0 <= j < i ==> self@.users[j].username != name@,
            decreases n - i,
        {
            if self.users[i].username == needle {
                assert(self@.users[i as int].username == name@);
                return true;
            }
            i += 1;
        }
        false
    }

    /// Case-sensitive lookup: does any record carry this email?
    pub fn email_exists(&self, email: &str) -> (r: bool)
        ensures
            r == email_taken(self@.users, email@),
    {
        let needle = email.to_owned();
        let n = self.users.len();
        let mut i: usize = 0;
        while i < n
            invariant
                n == self.users.len(),
                needle@ == email@,
                i <= n,
                forall|j: int| 0 <= j < i ==> self@.users[j].email != email@,
            decreases n - i,
        {
            if self.users[i].email == needle {
                assert(self@.users[i as int].email == email@);
                return true;
            }
            i += 1;
        }
        false
    }

    /// The spec-level record a successful insert appends.
    pub open spec fn inserted_user(self, new_user: NewUser, now: i64) -> UserV {
        UserV {
            id: self@.users.len() as u128,
            username: new_user.username@,
            first_name: new_user.first_name@,
            last_name: new_user.last_name@,
            email: new_user.email@,
            password_hash: new_user.password_hash@,
            token_version: new_user.token_version,
            locked_until: None,
            last_login_at: None,
            deleted_at: None,
            created_at: now,
            updated_at: now,
        }
    }

    /// Appends a new record, assigning it the next id and the given
    /// creation instant. Rejects a duplicate email or username with the
    /// conflict it would cause and leaves the store unchanged; this is the
    /// store-level uniqueness constraint, authoritative beneath any
    /// service-level pre-check.
    pub fn insert(&mut self, new_user: NewUser, now: i64) -> (r: Result<User, ServiceError>)
        requires
            old(self).wf(),
        ensures
            final(self).wf(),
            final(self)@.roles == old(self)@.roles,
            final(self)@.assignments == old(self)@.assignments,
            email_taken(old(self)@.users, new_user.email@) ==> (r matches Err(
                ServiceError::Conflict(m),
            ) && m@ == "Email already in use"@ && final(self)@ == old(self)@),
            !email_taken(old(self)@.users, new_user.email@) && username_taken(
                old(self)@.users,
                new_user.username@,
            ) ==> (r matches Err(ServiceError::Conflict(m)) && m@ == "Username already in use"@
                && final(self)@ == old(self)@),
            !email_taken(old(self)@.users, new_user.email@) && !username_taken(
                old(self)@.users,
                new_user.username@,
            ) ==> (r matches Ok(u) && u@ == old(self).inserted_user(new_user, now)
                && final(self)@.users == old(self)@.users.push(u@)),
    {
        if self.email_exists(new_user.email.as_str()) {
            return Err(ServiceError::Conflict("Email already in use".to_string()));
        }
        if self.username_exists(new_user.username.as_str()) {
            return Err(ServiceError::Conflict("Username already in use".to_string()));
        }
        let user = User {
            id: self.users.len() as u128,
            username: new_user.username,
            first_name: new_user.first_name,
            last_name: new_user.last_name,
            email: new_user.email,
            password_hash: new_user.password_hash,
            token_version: new_user.token_version,
            locked_until: None,
            last_login_at: None,
            deleted_at: None,
            created_at: now,
            updated_at: now,
        };
        let copy = user.clone();
        self.users.push(user);
        let ghost n_now: usize = self.users.len();
        proof {
            assert(n_now == self@.users.len());
            assert(self@.users =~= old(self)@.users.push(copy@));
            assert(self@.roles =~= old(self)@.roles);
            assert(self@.assignments =~= old(self)@.assignments);
            assert forall|i: int|
                0 <= i < self@.users.len() implies (#[trigger] self@.users[i].id)
                == i as u128 by {}
            assert(self.wf());
        }
        Ok(copy)
    }

    /// Lookup by id; under the invariant an id names the record at that
    /// position.
    pub fn find_by_id(&self, id: u128) -> (r: Option<User>)
        requires
            self.wf(),
        ensures
            match r {
                Some(u) => id < self@.users.len() && u@ == self@.users[id as int],
                None => id >= self@.users.len(),
            },
    {
        if id < self.users.len() as u128 {
            let idx = id as usize;
            Some(self.users[idx].clone())
        } else {
            None
        }
    }

    /// Lookup by sign-in identifier: the first record whose username or
    /// email equals the value.
    pub fn find_by_username_or_email(&self, value: &str) -> (r: Option<User>)
        ensures
            match r {
                Some(u) => exists|i: int|
                    first_ident_match_at(self@.users, value@, i) && u@ == self@.users[i],
                None => no_ident_match(self@.users, value@),
            },
    {
        let needle = value.to_owned();
        let n = self.users.len();
        let mut i: usize = 0;
        while i < n
            invariant
                n == self.users.len(),
                needle@ == value@,
                i <= n,
                forall|j: int| 0 <= j < i ==> !matches_ident(self@.users[j], value@),
            decreases n - i,
        {
            if self.users[i].username == needle || self.users[i].email == needle {
                let u = self.users[i].clone();
                proof {
                    assert(first_ident_match_at(self@.users, value@, i as int));
                }
                return Some(u);
            }
            i += 1;
        }
        None
    }

    /// Does a record other than the one at `keep` carry this username?
    pub(crate) fn username_exists_excluding(&self, name: &str, keep: usize) -> (r: bool)
        ensures
            r == username_taken_by_other(self@.users, name@, keep as int),
    {
        let needle = name.to_owned();
        let n = self.users.len();
        let mut i: usize = 0;
        while i < n
            invariant
                n == self.users.len(),
                needle@ == name@,
                i <= n,
                forall|j: int| 0 <= j < i && j != keep ==> self@.users[j].username != name@,
            decreases n - i,
        {
            if i != keep && self.users[i].username == needle {
                assert(self@.users[i as int].username == name@);
                return true;
            }
            i += 1;
        }
        false
    }

    /// Does a record other than the one at `keep` carry this email?
    pub(crate) fn email_exists_excluding(&self, email: &str, keep: usize) -> (r: bool)
        ensures
            r == email_taken_by_other(self@.users, email@, keep as int),
    {
        let needle = email.to_owned();
        let n = self.users.len();
        let mut i: usize = 0;
        while i < n
            invariant
                n == self.users.len(),
                needle@ == email@,
                i <= n,
                forall|j: int| 0 <= j < i && j != keep ==> self@.users[j].email != email@,
            decreases n - i,
        {
            if i != keep && self.users[i].email == needle {
                assert(self@.users[i as int].email == email@);
                return true;
            }
            i += 1;
        }
        false
    }

    /// Applies a partial update to the provided subset of the identity
    /// fields of the record with this id. A username or email already
    /// carried by another record is rejected with the conflict, the
    /// store's own uniqueness constraint; an absent id with `NotFound`.
    pub fn update_profile_fields(
        &mut self,
        id: u128,
        username: Option<&str>,
        email: Option<&str>,
        first_name: Option<&str>,
        last_name: Option<&str>,
    ) -> (r: Result<User, ServiceError>)
        requires
            old(self).wf(),
        ensures
            final(self).wf(),
            final(self)@.roles == old(self)@.roles,
            final(self)@.assignments == old(self)@.assignments,
            id >= old(self)@.users.len() ==> (r matches Err(ServiceError::NotFound) && final(self)@ == old(self)@),
            id < old(self)@.users.len() ==> {
                let k = id as int;
                let users = old(self)@.users;
                if username matches Some(s) && username_taken_by_other(users, s@, k) {
                    &&& r matches Err(ServiceError::Conflict(m)) && m@
                        == "Username already taken"@
                    &&& final(self)@ == old(self)@
                } else if email matches Some(s) && email_taken_by_other(users, s@, k) {
                    &&& r matches Err(ServiceError::Conflict(m)) && m@ == "Email already in use"@
                    &&& final(self)@ == old(self)@
                } else {
                    &&& r matches Ok(u) && u@ == profile_updated(
                        users[k],
                        opt_view(username),
                        opt_view(email),
                        opt_view(first_name),
                        opt_view(last_name),
                    )
                    &&& final(self)@.users == users.update(
                        k,
                        profile_updated(
                            users[k],
                            opt_view(username),
                            opt_view(email),
                            opt_view(first_name),
                            opt_view(last_name),
                        ),
                    )
                }
            },
    {
        if id >= self.users.len() as u128 {
            return Err(ServiceError::NotFound);
        }
        let idx = id as usize;
        if let Some(s) = username {
            if self.username_exists_excluding(s, idx) {
                return Err(ServiceError::Conflict("Username already taken".to_string()));
            }
        }
        if let Some(s) = email {
            if self.email_exists_excluding(s, idx) {
                return Err(ServiceError::Conflict("Email already in use".to_string()));
            }
        }
        let mut rec = self.users[idx].clone();
        if let Some(s) = username {
            rec.username = s.to_owned();
        }
        if let Some(s) = email {
            rec.email = s.to_owned();
        }
        if let Some(s) = first_name {
            rec.first_name = s.to_owned();
        }
        if let Some(s) = last_name {
            rec.last_name = s.to_owned();
        }
        let out = rec.clone();
        self.users[idx] = rec;
        proof {
            let k = id as int;
            let ous = old(self)@.users;
            let us = self@.users;
            assert(out@ =~= profile_updated(
                ous[k],
                opt_view(username),
                opt_view(email),
                opt_view(first_name),
                opt_view(last_name),
            ));
            assert(us =~= ous.update(k, out@));
            assert(self@.roles =~= old(self)@.roles);
            assert(self@.assignments =~= old(self)@.assignments);
            assert forall|i: int, j: int|
                0 <= i < us.len() && 0 <= j < us.len() && i != j implies #[trigger] us[i].username
                != #[trigger] us[j].username by {
                if i != k && j != k {
                    assert(ous[i].username != ous[j].username);
                }
            }
            assert forall|i: int, j: int|
                0 <= i < us.len() && 0 <= j < us.len() && i != j implies #[trigger] us[i].email
                != #[trigger] us[j].email by {
                if i != k && j != k {
                    assert(ous[i].email != ous[j].email);
                }
            }
        }
        Ok(out)
    }

    /// Atomically sets the token version of the record with this id; the
    /// revocation write shared by sign-in and password change.
    pub fn bump_token_version(&mut self, id: u128, new_version: i32) -> (r: Result<
        User,
        ServiceError,
    >)
        requires
            old(self).wf(),
        ensures
            final(self).wf(),
            final(self)@.roles == old(self)@.roles,
            final(self)@.assignments == old(self)@.assignments,
            id >= old(self)@.users.len() ==> (r matches Err(ServiceError::NotFound) && final(self)@ == old(self)@),
            id < old(self)@.users.len() ==> {
                let k = id as int;
                &&& r matches Ok(u) && u@ == with_token_version(old(self)@.users[k], new_version)
                &&& final(self)@.users == old(self)@.users.update(
                    k,
                    with_token_version(old(self)@.users[k], new_version),
                )
            },
    {
        if id >= self.users.len() as u128 {
            return Err(ServiceError::NotFound);
        }
        let idx = id as usize;
        let mut rec = self.users[idx].clone();
        rec.token_version = new_version;
        let out = rec.clone();
        self.users[idx] = rec;
        proof {
            let k = id as int;
            let ous = old(self)@.users;
            let us = self@.users;
            assert(out@ =~= with_token_version(ous[k], new_version));
            assert(us =~= ous.update(k, out@));
            assert(self@.roles =~= old(self)@.roles);
            assert(self@.assignments =~= old(self)@.assignments);
            assert forall|i: int| 0 <= i < us.len() implies (#[trigger] us[i].id)
                == i as u128 by {}
            assert forall|i: int, j: int|
                0 <= i < us.len() && 0 <= j < us.len() && i != j implies #[trigger] us[i].username
                != #[trigger] us[j].username by {
                assert(ous[i].username != ous[j].username);
                assert(us[i].username == ous[i].username);
                assert(us[j].username == ous[j].username);
            }
            assert forall|i: int, j: int|
                0 <= i < us.len() && 0 <= j < us.len() && i != j implies #[trigger] us[i].email
                != #[trigger] us[j].email by {
                assert(ous[i].email != ous[j].email);
                assert(us[i].email == ous[i].email);
                assert(us[j].email == ous[j].email);
            }
        }
        Ok(out)
    }

    /// Atomically sets the password hash and the token version of the
    /// record with this id in one write, so no state ever carries the new
    /// hash under the old version.
    pub fn update_password(&mut self, id: u128, new_hash: &str, new_version: i32) -> (r: Result<
        (),
        ServiceError,
    >)
        requires
            old(self).wf(),
        ensures
            final(self).wf(),
            final(self)@.roles == old(self)@.roles,
            final(self)@.assignments == old(self)@.assignments,
            id >= old(self)@.users.len() ==> (r matches Err(ServiceError::NotFound) && final(self)@ == old(self)@),
            id < old(self)@.users.len() ==> {
                let k = id as int;
                &&& r is Ok
                &&& final(self)@.users == old(self)@.users.update(
                    k,
                    with_password(old(self)@.users[k], new_hash@, new_version),
                )
            },
    {
        if id >= self.users.len() as u128 {
            return Err(ServiceError::NotFound);
        }
        let idx = id as usize;
        let mut rec = self.users[idx].clone();
        rec.password_hash = new_hash.to_owned();
        rec.token_version = new_version;
        self.users[idx] = rec;
        proof {
            let k = id as int;
            let ous = old(self)@.users;
            let us = self@.users;
            assert(us[k] =~= with_password(ous[k], new_hash@, new_version));
            assert(us =~= ous.update(k, with_password(ous[k], new_hash@, new_version)));
            assert(self@.roles =~= old(self)@.roles);
            assert(self@.assignments =~= old(self)@.assignments);
            assert forall|i: int, j: int|
                0 <= i < us.len() && 0 <= j < us.len() && i != j implies #[trigger] us[i].username
                != #[trigger] us[j].username by {
                assert(ous[i].username != ous[j].username);
                assert(us[i].username == ous[i].username);
                assert(us[j].username == ous[j].username);
            }
            assert forall|i: int, j: int|
                0 <= i < us.len() && 0 <= j < us.len() && i != j implies #[trigger] us[i].email
                != #[trigger] us[j].email by {
                assert(ous[i].email != ous[j].email);
                assert(us[i].email == ous[i].email);
                assert(us[j].email == ous[j].email);
            }
        }
        Ok(())
    }

    /// Adds a role under the next role id and returns the id; rejects
    /// only a full id space.
    pub fn add_role(&mut self, name: &str) -> (r: Result<i32, ServiceError>)
        requires
            old(self).wf(),
        ensures
            final(self).wf(),
            final(self)@.users == old(self)@.users,
            final(self)@.assignments == old(self)@.assignments,
            old(self)@.roles.len() < i32::MAX ==> (r matches Ok(rid) && rid == old(self)@.roles.len() && final(self)@.roles == old(self)@.roles.push(
                RoleV { id: rid, name: name@ },
            )),
            old(self)@.roles.len() >= i32::MAX ==> r is Err && final(self)@ == old(self)@,
    {
        if self.roles.len() >= i32::MAX as usize {
            return Err(ServiceError::Conflict("Role table is full".to_string()));
        }
        let rid = self.roles.len() as i32;
        self.roles.push(Role { id: rid, name: name.to_owned() });
        proof {
            assert(self@.roles =~= old(self)@.roles.push(RoleV { id: rid, name: name@ }));
            assert(self@.users =~= old(self)@.users);
            assert(self@.assignments =~= old(self)@.assignments);
        }
        Ok(rid)
    }

    /// Assigns a role to a user; rejects an absent user or role with
    /// `NotFound` and a duplicate assignment with the conflict.
    pub fn assign_role(&mut self, user_id: u128, role_id: i32) -> (r: Result<(), ServiceError>)
        requires
            old(self).wf(),
        ensures
            final(self).wf(),
            final(self)@.users == old(self)@.users,
            final(self)@.roles == old(self)@.roles,
            user_id >= old(self)@.users.len() || role_id < 0 || role_id >= old(self)@.roles.len() ==> (r matches Err(ServiceError::NotFound) && final(self)@ == old(self)@),
            user_id < old(self)@.users.len() && 0 <= role_id < old(self)@.roles.len() ==> {
                if old(self)@.assignments.contains((user_id, role_id)) {
                    r matches Err(ServiceError::Conflict(m)) && m@ == "Role already assigned"@
                        && final(self)@ == old(self)@
                } else {
                    r is Ok && final(self)@.assignments == old(self)@.assignments.push(
                        (user_id, role_id),
                    )
                }
            },
    {
        if user_id >= self.users.len() as u128 || role_id < 0 || (role_id as usize)
            >= self.roles.len() {
            return Err(ServiceError::NotFound);
        }
        let n = self.assignments.len();
        let mut i: usize = 0;
        while i < n
            invariant
                *self == *old(self),
                self.wf(),
                user_id < self@.users.len(),
                0 <= role_id < self@.roles.len(),
                n == self.assignments.len(),
                i <= n,
                forall|j: int| 0 <= j < i ==> self@.assignments[j] != (user_id, role_id),
            decreases n - i,
        {
            if self.assignments[i].user_id == user_id && self.assignments[i].role_id == role_id {
                assert(self@.assignments[i as int] == (user_id, role_id));
                return Err(ServiceError::Conflict("Role already assigned".to_string()));
            }
            i += 1;
        }
        assert(!old(self)@.assignments.contains((user_id, role_id)));
        self.assignments.push(RoleAssignment { user_id, role_id });
        proof {
            assert(self@.assignments =~= old(self)@.assignments.push((user_id, role_id)));
            assert(self@.users =~= old(self)@.users);
            assert(self@.roles =~= old(self)@.roles);
            assert forall|i2: int, j2: int|
                0 <= i2 < self@.assignments.len() && 0 <= j2 < self@.assignments.len() && i2
                    != j2 implies #[trigger] self@.assignments[i2]
                != #[trigger] self@.assignments[j2] by {
                let a = self@.assignments;
                let oa = old(self)@.assignments;
                if i2 < oa.len() && j2 < oa.len() {
                    assert(oa[i2] != oa[j2]);
                } else if i2 < oa.len() {
                    assert(a[j2] == (user_id, role_id));
                    assert(!oa.contains(a[j2]));
                    assert(oa[i2] != a[j2]);
                } else {
                    assert(a[i2] == (user_id, role_id));
                    assert(!oa.contains(a[i2]));
                    assert(oa[j2] != a[i2]);
                }
            }
        }
        Ok(())
    }

    /// The role names assigned to the user with this id, in assignment
    /// order.
    fn roles_of_user(&self, uid: u128) -> (r: Vec<String>)
        requires
            self.wf(),
        ensures
            r@.map_values(|s: String| s@) == assigned_names(self@.assignments, self@.roles, uid),
    {
        let mut names: Vec<String> = Vec::new();
        let n = self.assignments.len();
        let mut k: usize = 0;
        while k < n
            invariant
                self.wf(),
                n == self@.assignments.len(),
                k <= n,
                names@.map_values(|s: String| s@) =~= assigned_names(
                    self@.assignments.take(k as int),
                    self@.roles,
                    uid,
                ),
            decreases n - k,
        {
            let ghost prev = names@.map_values(|s: String| s@);
            if self.assignments[k].user_id == uid {
                let rid = self.assignments[k].role_id;
                proof {
                    assert(self@.assignments[k as int] == (uid, rid));
                    assert(0 <= rid < self@.roles.len());
                }
                let name = self.roles[rid as usize].name.clone();
                assert(name@ == role_name(self@.roles, rid));
                        names.push(name);
                proof {
                    assert(names@.map_values(|s: String| s@) =~~= prev.push(
                        role_name(self@.roles, rid),
                    ));
                }
            }
            proof {
                let a = self@.assignments;
                assert(a.take(k + 1).drop_last() =~= a.take(k as int));
                assert(a.take(k + 1).last() == a[k as int]);
                assert(names@.map_values(|s: String| s@) =~~= assigned_names(
                    a.take(k + 1),
                    self@.roles,
                    uid,
                ));
            }
            k += 1;
        }
        proof {
            assert(self@.assignments.take(n as int) =~= self@.assignments);
        }
        names
    }

    /// Lists every user joined with the names of its roles, in store
    /// order; a user with no role rows is reported with the synthetic
    /// `"default"` placeholder. One pass over the assignment rows per
    /// user, never a lookup per role.
    pub fn list_with_roles(&self) -> (r: Vec<UserBasic>)
        requires
            self.wf(),
        ensures
            r@.len() == self@.users.len(),
            forall|i: int| 0 <= i < r@.len() ==> (#[trigger] r@[i])@ == user_basic_of(self@, i),
    {
        let mut out: Vec<UserBasic> = Vec::new();
        let n = self.users.len();
        let mut i: usize = 0;
        while i < n
            invariant
                self.wf(),
                n == self@.users.len(),
                i <= n,
                out@.len() == i,
                forall|t: int| 0 <= t < i ==> (#[trigger] out@[t])@ == user_basic_of(self@, t),
            decreases n - i,
        {
            let u = &self.users[i];
            let mut names = self.roles_of_user(u.id);
            if names.len() == 0 {
                names.push("default".to_string());
                proof {
                    assert(names@.map_values(|s: String| s@) =~~= seq!["default"@]);
                }
            }
            let row = UserBasic {
                username: u.username.clone(),
                email: u.email.clone(),
                first_name: u.first_name.clone(),
                last_name: u.last_name.clone(),
                roles: names,
            };
            proof {
                assert(row@ =~= user_basic_of(self@, i as int));
            }
            out.push(row);
            i += 1;
        }
        out
    }
}

} // verus!
