//! The in-memory model of the persistence collaborator: a transactional
//! key/value-by-primary-key service holding user, attendance and token rows.
//!
//! The core's logic runs against this model and is verified against it; the
//! surrounding process maps it onto whatever engine actually persists the
//! rows. The store assigns every row identifier, so identifier freshness is
//! an invariant here rather than a property of an external sequence.

use vstd::prelude::*;

use crate::errors::ApiError;
use crate::errors::IdentityError;
use crate::errors::IdentityHint;
use crate::tables::Attendance;
use crate::tables::Token;
use crate::tables::User;
use crate::tables::UserView;

verus! {

/// The rows and identifier counters of the store.
pub struct Store {
    pub users: Vec<User>,
    pub attendance: Vec<Attendance>,
    pub tokens: Vec<Token>,
    /// The identifier the next attendance row will receive.
    pub next_attendance_id: i32,
    /// The serial from which the next user or token row identifier is made.
    pub next_serial: u64,
}

/// The mathematical contents of the store.
#[verifier::ext_equal]
pub struct StoreView {
    pub users: Seq<UserView>,
    pub attendance: Seq<Attendance>,
    pub tokens: Seq<crate::tables::TokenView>,
    pub next_attendance_id: i32,
    pub next_serial: u64,
}

impl View for Store {
    type V = StoreView;

    open spec fn view(&self) -> StoreView {
        StoreView {
            users: self.users.deep_view(),
            attendance: self.attendance@,
            tokens: self.tokens.deep_view(),
            next_attendance_id: self.next_attendance_id,
            next_serial: self.next_serial,
        }
    }
}

impl StoreView {
    /// Well-formedness: all row identifiers are distinct and below the
    /// counter that will assign the next one.
    pub open spec fn wf(self) -> bool {
        &&& 0 <= self.next_attendance_id
        &&& forall|i: int, j: int|
            #![trigger self.users[i], self.users[j]]
            0 <= i < j < self.users.len() ==> self.users[i].uuid != self.users[j].uuid
        &&& forall|i: int|
            0 <= i < self.users.len() ==> (#[trigger] self.users[i].uuid) < self.next_serial as u128
        &&& forall|i: int, j: int|
            #![trigger self.tokens[i], self.tokens[j]]
            0 <= i < j < self.tokens.len() ==> self.tokens[i].uuid != self.tokens[j].uuid
        &&& forall|i: int|
            0 <= i < self.tokens.len() ==> (#[trigger] self.tokens[i].uuid)
                < self.next_serial as u128
        &&& forall|i: int, j: int|
            #![trigger self.attendance[i], self.attendance[j]]
            0 <= i < j < self.attendance.len() ==> self.attendance[i].id != self.attendance[j].id
        &&& forall|i: int|
            0 <= i < self.attendance.len() ==> 0 <= (#[trigger] self.attendance[i].id)
                < self.next_attendance_id
    }
}

/// The full effect of a user creation on the store: one row is appended,
/// carrying the supplied fields, the store-assigned identifier and the
/// creation time; nothing else changes, and the created row is returned.
pub open spec fn create_user_post(
    pre: StoreView,
    post: StoreView,
    r: User,
    full_name: Seq<char>,
    email: Seq<char>,
    phone_number: Option<Seq<char>>,
    alt_id_fields: Option<Seq<(Seq<char>, Seq<char>)>>,
    now: i64,
) -> bool {
    &&& r@ == (UserView {
        uuid: pre.next_serial as u128,
        full_name: full_name,
        email: email,
        phone_number: phone_number,
        create_time: now,
        update_time: None,
        alt_id_fields: alt_id_fields,
    })
    &&& post.users == pre.users.push(r@)
    &&& post.attendance == pre.attendance
    &&& post.tokens == pre.tokens
    &&& post.next_attendance_id == pre.next_attendance_id
    &&& post.next_serial == pre.next_serial + 1
}

impl Store {
    /// A freshly initialized store: no rows at all.
    pub fn new() -> (r: Store)
        ensures
            r@.users == Seq::<UserView>::empty(),
            r@.attendance == Seq::<Attendance>::empty(),
            r@.tokens == Seq::<crate::tables::TokenView>::empty(),
            r@.next_attendance_id == 0,
            r@.next_serial == 1,
            r@.wf(),
    {
        let r = Store {
            users: Vec::new(),
            attendance: Vec::new(),
            tokens: Vec::new(),
            next_attendance_id: 0,
            next_serial: 1,
        };
        assert(r@.users =~~= Seq::<UserView>::empty());
        assert(r@.tokens =~~= Seq::<crate::tables::TokenView>::empty());
        r
    }

    /// The count of ever-issued token records, as the bootstrap check reads
    /// it.
    pub fn token_count(&self) -> (r: u64)
        ensures
            r == self@.tokens.len(),
    {
        self.tokens.len() as u64
    }

    /// Create a user row. The store assigns the primary identifier and the
    /// row is appended; the created row is returned.
    pub fn create_user(
        &mut self,
        full_name: String,
        email: String,
        phone_number: Option<String>,
        alt_id_fields: Option<Vec<(String, String)>>,
        now: i64,
    ) -> (r: User)
        requires
            old(self)@.wf(),
            old(self)@.next_serial < u64::MAX,
        ensures
            final(self)@.wf(),
            create_user_post(
                old(self)@,
                final(self)@,
                r,
                full_name@,
                email@,
                phone_number.deep_view(),
                alt_id_fields.deep_view(),
                now,
            ),
    {
        let uuid = self.next_serial as u128;
        self.next_serial = self.next_serial + 1;
        let user = User {
            uuid,
            full_name,
            email,
            phone_number,
            create_time: now,
            update_time: None,
            alt_id_fields,
        };
        let r = user.duplicate();
        self.users.push(user);
        proof {
            assert(final(self)@.users =~~= old(self)@.users.push(r@));
            assert(final(self)@.tokens =~~= old(self)@.tokens);
        }
        r
    }

    /// Append a token row with a store-assigned identifier; the created row
    /// is returned.
    pub fn insert_token(
        &mut self,
        description: String,
        capability: crate::tables::TokenCapability,
        initial_valid_time: Option<i64>,
        expiration_time: i64,
        now: i64,
    ) -> (r: Token)
        requires
            old(self)@.wf(),
            old(self)@.next_serial < u64::MAX,
        ensures
            final(self)@.wf(),
            r@ == (crate::tables::TokenView {
                uuid: old(self)@.next_serial as u128,
                description: description@,
                initial_valid_time: initial_valid_time,
                expiration_time: expiration_time,
                create_time: now,
                capability: capability,
            }),
            final(self)@.tokens == old(self)@.tokens.push(r@),
            final(self)@.users == old(self)@.users,
            final(self)@.attendance == old(self)@.attendance,
            final(self)@.next_attendance_id == old(self)@.next_attendance_id,
            final(self)@.next_serial == old(self)@.next_serial + 1,
    {
        let uuid = self.next_serial as u128;
        self.next_serial = self.next_serial + 1;
        let token = Token {
            uuid,
            description,
            initial_valid_time,
            expiration_time,
            create_time: now,
            capability,
        };
        let r = token.duplicate();
        self.tokens.push(token);
        proof {
            assert(final(self)@.tokens =~~= old(self)@.tokens.push(r@));
            assert(final(self)@.users =~~= old(self)@.users);
        }
        r
    }
}

/// The index of the first user row carrying this primary identifier.
pub open spec fn find_uuid_spec(users: Seq<UserView>, uuid: u128) -> Option<int>
    decreases users.len(),
{
    if users.len() == 0 {
        None
    } else if users[0].uuid == uuid {
        Some(0)
    } else {
        match find_uuid_spec(users.drop_first(), uuid) {
            None => None,
            Some(i) => Some(i + 1),
        }
    }
}

/// The index of the first user row with this email, as the exact-match
/// lookup finds it.
pub open spec fn find_email_spec(users: Seq<UserView>, email: Seq<char>) -> Option<int>
    decreases users.len(),
{
    if users.len() == 0 {
        None
    } else if users[0].email == email {
        Some(0)
    } else {
        match find_email_spec(users.drop_first(), email) {
            None => None,
            Some(i) => Some(i + 1),
        }
    }
}

/// Whether a user's alternate-id mapping holds this value under this field
/// name.
pub open spec fn has_alt_pair(u: UserView, field: Seq<char>, value: Seq<char>) -> bool {
    u.alt_id_fields matches Some(m) && exists|k: int|
        0 <= k < m.len() && m[k].0 == field && m[k].1 == value
}

/// The index of the first user row whose alternate-id mapping holds this
/// pair.
pub open spec fn find_alt_spec(users: Seq<UserView>, field: Seq<char>, value: Seq<char>) -> Option<
    int,
>
    decreases users.len(),
{
    if users.len() == 0 {
        None
    } else if has_alt_pair(users[0], field, value) {
        Some(0)
    } else {
        match find_alt_spec(users.drop_first(), field, value) {
            None => None,
            Some(i) => Some(i + 1),
        }
    }
}

/// What a first-index lookup by identifier returns: a valid index of a
/// matching row before which nothing matches, or `None` when nothing
/// matches at all.
pub proof fn lemma_find_uuid(users: Seq<UserView>, uuid: u128)
    ensures
        match find_uuid_spec(users, uuid) {
            Some(i) => 0 <= i < users.len() && users[i].uuid == uuid && (forall|j: int|
                0 <= j < i ==> (#[trigger] users[j].uuid) != uuid),
            None => forall|j: int|
                0 <= j < users.len() ==> (#[trigger] users[j].uuid) != uuid,
        },
    decreases users.len(),
{
    if users.len() > 0 {
        let rest = users.drop_first();
        lemma_find_uuid(rest, uuid);
        assert(forall|j: int| 0 <= j < rest.len() ==> #[trigger] rest[j] == users[j + 1]);
        if users[0].uuid != uuid {
            match find_uuid_spec(rest, uuid) {
                Some(i) => {
                    assert forall|j: int| 0 <= j < i + 1 implies (#[trigger] users[j].uuid) != uuid by {
                        if j > 0 {
                            assert(rest[j - 1].uuid != uuid);
                        }
                    }
                },
                None => {
                    assert forall|j: int| 0 <= j < users.len() implies (#[trigger] users[j].uuid)
                        != uuid by {
                        if j > 0 {
                            assert(rest[j - 1].uuid != uuid);
                        }
                    }
                },
            }
        }
    }
}

/// What the exact-match email lookup returns, in the same shape.
pub proof fn lemma_find_email(users: Seq<UserView>, email: Seq<char>)
    ensures
        match find_email_spec(users, email) {
            Some(i) => 0 <= i < users.len() && users[i].email == email && (forall|j: int|
                0 <= j < i ==> (#[trigger] users[j].email) != email),
            None => forall|j: int|
                0 <= j < users.len() ==> (#[trigger] users[j].email) != email,
        },
    decreases users.len(),
{
    if users.len() > 0 {
        let rest = users.drop_first();
        lemma_find_email(rest, email);
        assert(forall|j: int| 0 <= j < rest.len() ==> #[trigger] rest[j] == users[j + 1]);
        if users[0].email != email {
            match find_email_spec(rest, email) {
                Some(i) => {
                    assert forall|j: int| 0 <= j < i + 1 implies (#[trigger] users[j].email)
                        != email by {
                        if j > 0 {
                            assert(rest[j - 1].email != email);
                        }
                    }
                },
                None => {
                    assert forall|j: int| 0 <= j < users.len() implies (#[trigger] users[j].email)
                        != email by {
                        if j > 0 {
                            assert(rest[j - 1].email != email);
                        }
                    }
                },
            }
        }
    }
}

/// What the alternate-id lookup returns, in the same shape.
pub proof fn lemma_find_alt(users: Seq<UserView>, field: Seq<char>, value: Seq<char>)
    ensures
        match find_alt_spec(users, field, value) {
            Some(i) => 0 <= i < users.len() && has_alt_pair(users[i], field, value) && (forall|
                j: int,
            | 0 <= j < i ==> !has_alt_pair(#[trigger] users[j], field, value)),
            None => forall|j: int|
                0 <= j < users.len() ==> !has_alt_pair(#[trigger] users[j], field, value),
        },
    decreases users.len(),
{
    if users.len() > 0 {
        let rest = users.drop_first();
        lemma_find_alt(rest, field, value);
        assert(forall|j: int| 0 <= j < rest.len() ==> #[trigger] rest[j] == users[j + 1]);
        if !has_alt_pair(users[0], field, value) {
            match find_alt_spec(rest, field, value) {
                Some(i) => {
                    assert forall|j: int| 0 <= j < i + 1 implies !has_alt_pair(
                        #[trigger] users[j],
                        field,
                        value,
                    ) by {
                        if j > 0 {
                            assert(!has_alt_pair(rest[j - 1], field, value));
                        }
                    }
                },
                None => {
                    assert forall|j: int| 0 <= j < users.len() implies !has_alt_pair(
                        #[trigger] users[j],
                        field,
                        value,
                    ) by {
                        if j > 0 {
                            assert(!has_alt_pair(rest[j - 1], field, value));
                        }
                    }
                },
            }
        }
    }
}

/// A first-index lookup is pinned by its characterization: any index of a
/// matching row before which nothing matches is the result.
pub proof fn lemma_find_uuid_complete(users: Seq<UserView>, uuid: u128, i: int)
    requires
        0 <= i < users.len(),
        users[i].uuid == uuid,
        forall|j: int| 0 <= j < i ==> (#[trigger] users[j].uuid) != uuid,
    ensures
        find_uuid_spec(users, uuid) == Some(i),
{
    lemma_find_uuid(users, uuid);
    match find_uuid_spec(users, uuid) {
        Some(k) => {
            if k < i {
                assert(users[k].uuid != uuid);
            } else if i < k {
                assert(users[i].uuid != uuid);
            }
        },
        None => {
            assert(users[i].uuid != uuid);
        },
    }
}

/// The email lookup is pinned by its characterization in the same way.
pub proof fn lemma_find_email_complete(users: Seq<UserView>, email: Seq<char>, i: int)
    requires
        0 <= i < users.len(),
        users[i].email == email,
        forall|j: int| 0 <= j < i ==> (#[trigger] users[j].email) != email,
    ensures
        find_email_spec(users, email) == Some(i),
{
    lemma_find_email(users, email);
    match find_email_spec(users, email) {
        Some(k) => {
            if k < i {
                assert(users[k].email != email);
            } else if i < k {
                assert(users[i].email != email);
            }
        },
        None => {
            assert(users[i].email != email);
        },
    }
}

/// The alternate-id lookup is pinned by its characterization in the same
/// way.
pub proof fn lemma_find_alt_complete(users: Seq<UserView>, field: Seq<char>, value: Seq<char>, i: int)
    requires
        0 <= i < users.len(),
        has_alt_pair(users[i], field, value),
        forall|j: int| 0 <= j < i ==> !has_alt_pair(#[trigger] users[j], field, value),
    ensures
        find_alt_spec(users, field, value) == Some(i),
{
    lemma_find_alt(users, field, value);
    match find_alt_spec(users, field, value) {
        Some(k) => {
            if k < i {
                assert(!has_alt_pair(users[k], field, value));
            } else if i < k {
                assert(!has_alt_pair(users[i], field, value));
            }
        },
        None => {
            assert(!has_alt_pair(users[i], field, value));
        },
    }
}

impl Store {
    /// The index of the first user row with this primary identifier.
    pub fn user_index_by_uuid(&self, uuid: u128) -> (r: Option<usize>)
        ensures
            (match r {
                Some(i) => find_uuid_spec(self@.users, uuid) == Some(i as int),
                None => find_uuid_spec(self@.users, uuid) is None,
            }),
    {
        let mut i: usize = 0;
        while i < self.users.len()
            invariant
                0 <= i <= self@.users.len(),
                forall|j: int| 0 <= j < i ==> (#[trigger] self@.users[j].uuid) != uuid,
            decreases self@.users.len() - i,
        {
            if self.users[i].uuid == uuid {
                proof {
                    lemma_find_uuid_complete(self@.users, uuid, i as int);
                }
                return Some(i);
            }
            i += 1;
        }
        proof {
            lemma_find_uuid(self@.users, uuid);
            if let Some(k) = find_uuid_spec(self@.users, uuid) {
                assert(self@.users[k].uuid != uuid);
            }
        }
        None
    }

    /// The index of the first user row with this email.
    pub fn user_index_by_email(&self, email: &String) -> (r: Option<usize>)
        ensures
            (match r {
                Some(i) => find_email_spec(self@.users, email@) == Some(i as int),
                None => find_email_spec(self@.users, email@) is None,
            }),
    {
        let mut i: usize = 0;
        while i < self.users.len()
            invariant
                0 <= i <= self@.users.len(),
                forall|j: int| 0 <= j < i ==> (#[trigger] self@.users[j].email) != email@,
            decreases self@.users.len() - i,
        {
            if self.users[i].email == *email {
                proof {
                    lemma_find_email_complete(self@.users, email@, i as int);
                }
                return Some(i);
            }
            i += 1;
        }
        proof {
            lemma_find_email(self@.users, email@);
            if let Some(k) = find_email_spec(self@.users, email@) {
                assert(self@.users[k].email != email@);
            }
        }
        None
    }

    /// The index of the first user row whose alternate-id mapping holds the
    /// pair.
    pub fn user_index_by_alt(&self, field: &String, value: &String) -> (r: Option<usize>)
        ensures
            (match r {
                Some(i) => find_alt_spec(self@.users, field@, value@) == Some(i as int),
                None => find_alt_spec(self@.users, field@, value@) is None,
            }),
    {
        let mut i: usize = 0;
        while i < self.users.len()
            invariant
                0 <= i <= self@.users.len(),
                forall|j: int| 0 <= j < i ==> !has_alt_pair(#[trigger] self@.users[j], field@, value@),
            decreases self@.users.len() - i,
        {
            if user_has_alt_pair(&self.users[i], field, value) {
                proof {
                    lemma_find_alt_complete(self@.users, field@, value@, i as int);
                }
                return Some(i);
            }
            i += 1;
        }
        proof {
            lemma_find_alt(self@.users, field@, value@);
            if let Some(k) = find_alt_spec(self@.users, field@, value@) {
                assert(!has_alt_pair(self@.users[k], field@, value@));
            }
        }
        None
    }
}

/// Whether this user's alternate-id mapping holds `value` under `field`.
fn user_has_alt_pair(u: &User, field: &String, value: &String) -> (r: bool)
    ensures
        r == has_alt_pair(u@, field@, value@),
{
    match &u.alt_id_fields {
        None => false,
        Some(m) => {
            let mut k: usize = 0;
            while k < m.len()
                invariant
                    0 <= k <= m@.len(),
                    u.alt_id_fields matches Some(mm) && mm@ == m@,
                    forall|j: int|
                        0 <= j < k ==> !((#[trigger] m.deep_view()[j]).0 == field@
                            && m.deep_view()[j].1 == value@),
                decreases m@.len() - k,
            {
                if m[k].0 == *field && m[k].1 == *value {
                    assert(m.deep_view()[k as int].0 == field@ && m.deep_view()[k as int].1
                        == value@);
                    assert(u@.alt_id_fields matches Some(mv) && mv == m.deep_view());
                    return true;
                }
                k += 1;
            }
            assert(u@.alt_id_fields matches Some(mv) && mv == m.deep_view());
            false
        },
    }
}

/// The merge-patch of a partial update into a user row: only supplied
/// fields change; unsupplied fields are left untouched. The identifier and
/// the creation time never change.
pub open spec fn merge_user(
    u: UserView,
    full_name: Option<Seq<char>>,
    email: Option<Seq<char>>,
    phone_number: Option<Seq<char>>,
    alt_id_fields: Option<Seq<(Seq<char>, Seq<char>)>>,
) -> UserView {
    UserView {
        uuid: u.uuid,
        full_name: match full_name {
            Some(f) => f,
            None => u.full_name,
        },
        email: match email {
            Some(e) => e,
            None => u.email,
        },
        phone_number: match phone_number {
            Some(p) => Some(p),
            None => u.phone_number,
        },
        create_time: u.create_time,
        update_time: u.update_time,
        alt_id_fields: match alt_id_fields {
            Some(m) => Some(m),
            None => u.alt_id_fields,
        },
    }
}

/// A merge-patch that supplies one field changes that field alone: every
/// unsupplied field keeps its prior value.
pub proof fn lemma_merge_patch_partial(u: UserView, full_name: Seq<char>)
    ensures
        merge_user(u, Some(full_name), None, None, None) == (UserView {
            full_name: full_name,
            ..u
        }),
        merge_user(u, Some(full_name), None, None, None).email == u.email,
        merge_user(u, Some(full_name), None, None, None).phone_number == u.phone_number,
        merge_user(u, Some(full_name), None, None, None).alt_id_fields == u.alt_id_fields,
        merge_user(u, None, None, None, None) == u,
{
    assert(merge_user(u, Some(full_name), None, None, None) =~= (UserView {
        full_name: full_name,
        ..u
    }));
    assert(merge_user(u, None, None, None, None) =~= u);
}

/// The full effect of a partial user update on the store: a malformed
/// identifier or an unknown user fails and touches nothing; otherwise the
/// named row is replaced by its merge-patch, nothing else changes, and the
/// row as it now stands is returned.
pub open spec fn update_user_post(
    pre: StoreView,
    post: StoreView,
    r: Result<User, ApiError>,
    uuid: Seq<char>,
    full_name: Option<Seq<char>>,
    email: Option<Seq<char>>,
    phone_number: Option<Seq<char>>,
    alt_id_fields: Option<Seq<(Seq<char>, Seq<char>)>>,
) -> bool {
    match crate::ids::parse_uuid_spec(uuid) {
        None => r == Err::<User, ApiError>(
            ApiError::IdentityResolutionFailed(IdentityError::MalformedIdentifier),
        ) && post == pre,
        Some(uid) => match find_uuid_spec(pre.users, uid) {
            None => r == Err::<User, ApiError>(
                ApiError::IdentityResolutionFailed(IdentityError::NotFound(IdentityHint::PrimaryId)),
            ) && post == pre,
            Some(i) => {
                let merged = merge_user(pre.users[i], full_name, email, phone_number, alt_id_fields);
                &&& r matches Ok(u) && u@ == merged
                &&& post.users == pre.users.update(i, merged)
                &&& post.attendance == pre.attendance
                &&& post.tokens == pre.tokens
                &&& post.next_attendance_id == pre.next_attendance_id
                &&& post.next_serial == pre.next_serial
            },
        },
    }
}

impl Store {
    /// Apply a merge-patch to the user named by `uuid` (in text form):
    /// only the supplied fields change. Fails when the identifier is
    /// malformed or names no user; the store is then untouched. Returns the
    /// row as it stands after the update.
    pub fn update_user(
        &mut self,
        uuid: &String,
        full_name: Option<String>,
        email: Option<String>,
        phone_number: Option<String>,
        alt_id_fields: Option<Vec<(String, String)>>,
    ) -> (r: Result<User, ApiError>)
        requires
            old(self)@.wf(),
        ensures
            final(self)@.wf(),
            update_user_post(
                old(self)@,
                final(self)@,
                r,
                uuid@,
                full_name.deep_view(),
                email.deep_view(),
                phone_number.deep_view(),
                alt_id_fields.deep_view(),
            ),
    {
        let uid = match crate::ids::parse_uuid(uuid.as_str()) {
            None => {
                return Err(ApiError::IdentityResolutionFailed(IdentityError::MalformedIdentifier));
            },
            Some(u) => u,
        };
        let idx = match self.user_index_by_uuid(uid) {
            None => {
                return Err(ApiError::IdentityResolutionFailed(IdentityError::NotFound(IdentityHint::PrimaryId)));
            },
            Some(i) => i,
        };
        proof {
            lemma_find_uuid(self@.users, uid);
        }
        let ghost merged = merge_user(
            self@.users[idx as int],
            full_name.deep_view(),
            email.deep_view(),
            phone_number.deep_view(),
            alt_id_fields.deep_view(),
        );
        let slot = &mut self.users[idx];
        if let Some(f) = full_name {
            slot.full_name = f;
        }
        if let Some(e) = email {
            slot.email = e;
        }
        if let Some(p) = phone_number {
            slot.phone_number = Some(p);
        }
        if let Some(m) = alt_id_fields {
            slot.alt_id_fields = Some(m);
        }
        let r = slot.duplicate();
        proof {
            assert(r@ =~~= merged);
            assert(final(self)@.users =~~= old(self)@.users.update(idx as int, merged));
            assert(final(self)@.attendance =~~= old(self)@.attendance);
            assert(final(self)@.tokens =~~= old(self)@.tokens);
            lemma_find_uuid(old(self)@.users, uid);
        }
        Ok(r)
    }
}

} // verus!
