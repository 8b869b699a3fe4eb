//! The user store: rows with unique ids and e-mails, kept in order of
//! creation, and the permission grants that join users to named permissions.

use vstd::prelude::*;
use crate::platform::{fresh_id, now_micros, MIN_HASH_COST, MAX_HASH_COST};
use crate::user::User;

verus! {

/// A stored row: the user and, when password login is enabled, the hash.
pub struct StoredUser {
    pub user: User,
    pub password_hash: Option<String>,
}

/// A grant of the named permission to a user.
pub struct Grant {
    pub user_id: String,
    pub permission: String,
    pub granted_at: i64,
}

/// How a store operation fails.
#[derive(Debug, Clone, Copy, PartialEq, Eq, Structural)]
pub enum StoreError {
    /// A uniqueness rule would be broken (a taken e-mail or id).
    Conflict,
    /// The operation cannot be carried out (an unusable id or timestamp).
    Internal,
}

/// The bcrypt cost that new stores hash with.
pub const DEFAULT_HASH_COST: u32 = 12;

/// The in-memory store of users and grants.
pub struct Database {
    users: Vec<StoredUser>,
    grants: Vec<Grant>,
    hash_cost: u32,
}

pub open spec fn has_email(rows: Seq<StoredUser>, email: Seq<char>) -> bool {
    exists|i: int| 0 <= i < rows.len() && #[trigger] rows[i].user.email@ == email
}

pub open spec fn has_id(rows: Seq<StoredUser>, id: Seq<char>) -> bool {
    exists|i: int| 0 <= i < rows.len() && #[trigger] rows[i].user.id@ == id
}

/// Ids and e-mails are unique, ids are non-empty, every row was created no
/// later than it was last updated, and rows stand in order of creation time.
pub open spec fn rows_wf(rows: Seq<StoredUser>) -> bool {
    &&& forall|i: int, j: int|
        0 <= i < j < rows.len() ==> {
            &&& #[trigger] rows[i].user.id@ != #[trigger] rows[j].user.id@
            &&& rows[i].user.email@ != rows[j].user.email@
            &&& rows[i].user.created_at <= rows[j].user.created_at
        }
    &&& forall|i: int|
        0 <= i < rows.len() ==> {
            &&& #[trigger] rows[i].user.id@.len() > 0
            &&& rows[i].user.created_at <= rows[i].user.updated_at
        }
}

/// Whether the user with this id holds the named permission.
pub open spec fn holds(grants: Seq<Grant>, user_id: Seq<char>, permission: Seq<char>) -> bool {
    exists|i: int|
        0 <= i < grants.len() && #[trigger] grants[i].user_id@ == user_id
            && grants[i].permission@ == permission
}

/// No user holds the same permission twice.
pub open spec fn grants_unique(grants: Seq<Grant>) -> bool {
    forall|i: int, j: int|
        0 <= i < j < grants.len() ==> !(#[trigger] grants[i].user_id@ == #[trigger] grants[j].user_id@
            && grants[i].permission@ == grants[j].permission@)
}

/// The creation time of a new row: the clock's reading, held back from
/// running behind the newest row so that creation order is kept.
pub open spec fn creation_stamp(rows: Seq<StoredUser>, now: i64) -> i64 {
    if rows.len() == 0 || now >= rows.last().user.created_at {
        now
    } else {
        rows.last().user.created_at
    }
}

/// The new update time of a row last updated at `prev`: strictly later than
/// `prev`, the clock's reading where that is later; none where no later
/// time can be represented.
pub open spec fn next_stamp(prev: i64, now: i64) -> Option<i64> {
    if now > prev {
        Some(now)
    } else if prev < i64::MAX {
        Some((prev + 1) as i64)
    } else {
        None
    }
}

/// Whether a row read back from storage may follow `rows`: a non-empty id,
/// created no later than updated, and no earlier than the newest row.
pub open spec fn restorable(rows: Seq<StoredUser>, row: StoredUser) -> bool {
    &&& row.user.id@.len() > 0
    &&& row.user.created_at <= row.user.updated_at
    &&& rows.len() > 0 ==> rows.last().user.created_at <= row.user.created_at
}

/// A new user as creation makes it: active, created and updated at `stamp`.
pub open spec fn new_user(
    id: String,
    email: String,
    first_name: Option<String>,
    last_name: Option<String>,
    stamp: i64,
) -> User {
    User {
        id,
        email,
        first_name,
        last_name,
        is_active: true,
        created_at: stamp,
        updated_at: stamp,
    }
}

/// `u` with the supplied names replaced, the others kept, updated at `stamp`.
pub open spec fn patched(
    u: User,
    first_name: Option<String>,
    last_name: Option<String>,
    stamp: i64,
) -> User {
    User {
        id: u.id,
        email: u.email,
        first_name: if first_name is Some { first_name } else { u.first_name },
        last_name: if last_name is Some { last_name } else { u.last_name },
        is_active: u.is_active,
        created_at: u.created_at,
        updated_at: stamp,
    }
}

/// Appending a row with a fresh id and e-mail, created no earlier than the
/// newest row, keeps the rows well formed.
proof fn lemma_push_wf(rows: Seq<StoredUser>, row: StoredUser)
    requires
        rows_wf(rows),
        !has_email(rows, row.user.email@),
        !has_id(rows, row.user.id@),
        row.user.id@.len() > 0,
        row.user.created_at <= row.user.updated_at,
        rows.len() > 0 ==> rows.last().user.created_at <= row.user.created_at,
    ensures
        rows_wf(rows.push(row)),
{
    let s = rows.push(row);
    assert forall|i: int, j: int| 0 <= i < j < s.len() implies {
        &&& #[trigger] s[i].user.id@ != #[trigger] s[j].user.id@
        &&& s[i].user.email@ != s[j].user.email@
        &&& s[i].user.created_at <= s[j].user.created_at
    } by {
        assert(s[i] == rows[i]);
        if j == rows.len() {
            assert(rows[i].user.id@ != row.user.id@);
            assert(rows[i].user.email@ != row.user.email@);
            let last = rows.len() - 1;
            if i < last {
                assert(rows[i].user.id@ != rows[last].user.id@);
            }
        } else {
            assert(s[j] == rows[j]);
            assert(rows[i].user.id@ != rows[j].user.id@);
        }
    }
    assert forall|i: int| 0 <= i < s.len() implies {
        &&& #[trigger] s[i].user.id@.len() > 0
        &&& s[i].user.created_at <= s[i].user.updated_at
    } by {
        if i < rows.len() {
            assert(s[i] == rows[i]);
        }
    }
}

impl Database {
    /// The rows, in order of creation.
    pub closed spec fn rows(&self) -> Seq<StoredUser> {
        self.users@
    }

    /// The permission grants.
    pub closed spec fn grants(&self) -> Seq<Grant> {
        self.grants@
    }

    /// The bcrypt cost that passwords are hashed with.
    pub closed spec fn cost(&self) -> u32 {
        self.hash_cost
    }

    pub closed spec fn wf(&self) -> bool {
        &&& rows_wf(self.users@)
        &&& grants_unique(self.grants@)
        &&& MIN_HASH_COST <= self.hash_cost <= MAX_HASH_COST
    }

    /// No two users share an e-mail.
    pub proof fn lemma_email_unique(&self, i: int, k: int)
        requires
            self.wf(),
            0 <= i < self.rows().len(),
            0 <= k < self.rows().len(),
            self.rows()[i].user.email@ == self.rows()[k].user.email@,
        ensures
            i == k,
    {
        if i < k {
            assert(self.rows()[i].user.id@ != self.rows()[k].user.id@);
        } else if k < i {
            assert(self.rows()[k].user.id@ != self.rows()[i].user.id@);
        }
    }

    /// No two users share an id, and no id is empty.
    pub proof fn lemma_id_unique(&self, i: int, k: int)
        requires
            self.wf(),
            0 <= i < self.rows().len(),
            0 <= k < self.rows().len(),
        ensures
            self.rows()[i].user.id@.len() > 0,
            self.rows()[i].user.id@ == self.rows()[k].user.id@ ==> i == k,
    {
        if i < k {
            assert(self.rows()[i].user.id@ != self.rows()[k].user.id@);
        } else if k < i {
            assert(self.rows()[k].user.id@ != self.rows()[i].user.id@);
        }
    }

    /// An empty store that hashes at the default cost.
    pub fn new() -> (r: Database)
        ensures
            r.wf(),
            r.rows().len() == 0,
            r.grants().len() == 0,
            r.cost() == DEFAULT_HASH_COST,
    {
        Database { users: Vec::new(), grants: Vec::new(), hash_cost: DEFAULT_HASH_COST }
    }

    /// The same store, hashing new passwords at `cost`.
    pub fn with_hash_cost(self, cost: u32) -> (r: Database)
        requires
            self.wf(),
            MIN_HASH_COST <= cost <= MAX_HASH_COST,
        ensures
            r.wf(),
            r.rows() == self.rows(),
            r.grants() == self.grants(),
            r.cost() == cost,
    {
        Database { users: self.users, grants: self.grants, hash_cost: cost }
    }

    pub fn hash_cost(&self) -> (r: u32)
        requires
            self.wf(),
        ensures
            r == self.cost(),
            MIN_HASH_COST <= r <= MAX_HASH_COST,
    {
        self.hash_cost
    }

    /// The position of the row with this id.
    pub fn index_of_id(&self, id: &String) -> (r: Option<usize>)
        ensures
            match r {
                Some(i) => i < self.rows().len() && self.rows()[i as int].user.id@ == id@,
                None => !has_id(self.rows(), id@),
            },
    {
        let mut i: usize = 0;
        while i < self.users.len()
            invariant
                i <= self.users@.len(),
                forall|k: int| 0 <= k < i ==> self.users@[k].user.id@ != id@,
            decreases self.users@.len() - i,
        {
            if self.users[i].user.id == *id {
                return Some(i);
            }
            i = i + 1;
        }
        None
    }

    /// The position of the row with this e-mail.
    pub fn index_of_email(&self, email: &String) -> (r: Option<usize>)
        ensures
            match r {
                Some(i) => i < self.rows().len() && self.rows()[i as int].user.email@ == email@,
                None => !has_email(self.rows(), email@),
            },
    {
        let mut i: usize = 0;
        while i < self.users.len()
            invariant
                i <= self.users@.len(),
                forall|k: int| 0 <= k < i ==> self.users@[k].user.email@ != email@,
            decreases self.users@.len() - i,
        {
            if self.users[i].user.email == *email {
                return Some(i);
            }
            i = i + 1;
        }
        None
    }

    /// The number of users.
    pub fn user_count(&self) -> (r: usize)
        ensures
            r == self.rows().len(),
    {
        self.users.len()
    }

    /// The number of grants.
    pub fn grant_count(&self) -> (r: usize)
        ensures
            r == self.grants().len(),
    {
        self.grants.len()
    }

    /// The grant at position `i`.
    pub fn grant(&self, i: usize) -> (r: &Grant)
        requires
            i < self.grants().len(),
        ensures
            *r == self.grants()[i as int],
    {
        &self.grants[i]
    }

    /// The row at position `i`.
    pub fn row(&self, i: usize) -> (r: &StoredUser)
        requires
            i < self.rows().len(),
        ensures
            *r == self.rows()[i as int],
    {
        &self.users[i]
    }

    /// Adds a user with the given id, e-mail and password hash, created at the
    /// clock reading `now` (held back from running behind the newest row).
    pub fn insert_user(
        &mut self,
        id: String,
        email: String,
        password_hash: String,
        first_name: Option<String>,
        last_name: Option<String>,
        now: i64,
    ) -> (r: Result<User, StoreError>)
        requires
            old(self).wf(),
        ensures
            final(self).wf(),
            final(self).grants() == old(self).grants(),
            final(self).cost() == old(self).cost(),
            (r == Err::<User, StoreError>(StoreError::Conflict)) <==> (has_email(old(self).rows(), email@)
                || has_id(old(self).rows(), id@)),
            (r == Err::<User, StoreError>(StoreError::Internal)) <==> (!has_email(old(self).rows(), email@)
                && !has_id(old(self).rows(), id@) && id@.len() == 0),
            r is Err ==> final(self).rows() == old(self).rows(),
            r matches Ok(u) ==> {
                &&& u == new_user(id, email, first_name, last_name, creation_stamp(old(self).rows(), now))
                &&& final(self).rows() == old(self).rows().push(
                    StoredUser { user: u, password_hash: Some(password_hash) },
                )
            },
    {
        if self.index_of_email(&email).is_some() || self.index_of_id(&id).is_some() {
            return Err(StoreError::Conflict);
        }
        if id.as_str().unicode_len() == 0 {
            return Err(StoreError::Internal);
        }
        let n = self.users.len();
        let stamp = if n == 0 || now >= self.users[n - 1].user.created_at {
            now
        } else {
            self.users[n - 1].user.created_at
        };
        let user = User {
            id,
            email,
            first_name,
            last_name,
            is_active: true,
            created_at: stamp,
            updated_at: stamp,
        };
        let r = user.duplicate();
        proof {
            lemma_push_wf(self.users@, StoredUser { user: r, password_hash: Some(password_hash) });
        }
        self.users.push(StoredUser { user, password_hash: Some(password_hash) });
        Ok(r)
    }

    /// Appends a row read back from persistent storage, in order of creation.
    /// A taken id or e-mail is `Conflict`; an empty id, an update time before
    /// the creation time, or a creation time before the newest row's is
    /// `Internal`. On failure nothing changes.
    pub fn restore_user(&mut self, row: StoredUser) -> (r: Result<(), StoreError>)
        requires
            old(self).wf(),
        ensures
            final(self).wf(),
            final(self).grants() == old(self).grants(),
            final(self).cost() == old(self).cost(),
            (r == Err::<(), StoreError>(StoreError::Conflict)) <==> (has_email(old(self).rows(), row.user.email@)
                || has_id(old(self).rows(), row.user.id@)),
            (r == Err::<(), StoreError>(StoreError::Internal)) <==> (!has_email(old(self).rows(), row.user.email@)
                && !has_id(old(self).rows(), row.user.id@) && !restorable(old(self).rows(), row)),
            r is Err ==> final(self).rows() == old(self).rows(),
            r is Ok ==> final(self).rows() == old(self).rows().push(row),
    {
        if self.index_of_email(&row.user.email).is_some() || self.index_of_id(&row.user.id).is_some() {
            return Err(StoreError::Conflict);
        }
        let n = self.users.len();
        if row.user.id.as_str().unicode_len() == 0 || row.user.created_at > row.user.updated_at || (n > 0
            && row.user.created_at < self.users[n - 1].user.created_at) {
            return Err(StoreError::Internal);
        }
        proof {
            lemma_push_wf(self.users@, row);
        }
        self.users.push(row);
        Ok(())
    }

    /// The user with this id, if any.
    pub fn find_user(&self, id: &String) -> (r: Option<User>)
        requires
            self.wf(),
        ensures
            r is None <==> !has_id(self.rows(), id@),
            r matches Some(u) ==> forall|i: int|
                0 <= i < self.rows().len() && #[trigger] self.rows()[i].user.id@ == id@
                    ==> u == self.rows()[i].user,
    {
        match self.index_of_id(id) {
            Some(i) => {
                proof {
                    assert forall|k: int|
                        0 <= k < self.rows().len() && #[trigger] self.rows()[k].user.id@ == id@
                            implies k == i by {
                        if k != i {
                            assert(self.rows()[k].user.id@ != self.rows()[i as int].user.id@);
                        }
                    }
                }
                Some(self.users[i].user.duplicate())
            },
            None => None,
        }
    }

    /// Every user, newest first: the rows in reverse order of creation.
    pub fn all_users(&self) -> (r: Vec<User>)
        ensures
            r@.len() == self.rows().len(),
            forall|i: int|
                0 <= i < r@.len() ==> #[trigger] r@[i] == self.rows()[self.rows().len() - 1 - i].user,
    {
        let n = self.users.len();
        let mut out: Vec<User> = Vec::new();
        let mut k: usize = n;
        while k > 0
            invariant
                n == self.users@.len(),
                k <= n,
                out@.len() == n - k,
                forall|i: int| 0 <= i < out@.len() ==> #[trigger] out@[i] == self.users@[n - 1 - i].user,
            decreases k,
        {
            k = k - 1;
            out.push(self.users[k].user.duplicate());
        }
        out
    }

    /// Replaces the supplied names of the user with this id and stamps the row
    /// with a strictly later update time, the clock reading `now` where that is
    /// later. `Ok(None)` where no user has the id.
    pub fn update_user(
        &mut self,
        id: &String,
        first_name: Option<String>,
        last_name: Option<String>,
        now: i64,
    ) -> (r: Result<Option<User>, StoreError>)
        requires
            old(self).wf(),
        ensures
            final(self).wf(),
            final(self).grants() == old(self).grants(),
            final(self).cost() == old(self).cost(),
            r == Ok::<Option<User>, StoreError>(None) <==> !has_id(old(self).rows(), id@),
            !(r matches Ok(Some(_))) ==> final(self).rows() == old(self).rows(),
            forall|i: int|
                0 <= i < old(self).rows().len() && #[trigger] old(self).rows()[i].user.id@ == id@ ==> {
                    let row = old(self).rows()[i];
                    match next_stamp(row.user.updated_at, now) {
                        None => r == Err::<Option<User>, StoreError>(StoreError::Internal),
                        Some(stamp) => {
                            let u = patched(row.user, first_name, last_name, stamp);
                            &&& r == Ok::<Option<User>, StoreError>(Some(u))
                            &&& final(self).rows() == old(self).rows().update(
                                i,
                                StoredUser { user: u, password_hash: row.password_hash },
                            )
                        },
                    }
                },
    {
        let i = match self.index_of_id(id) {
            Some(i) => i,
            None => return Ok(None),
        };
        proof {
            assert forall|k: int|
                0 <= k < self.rows().len() && #[trigger] self.rows()[k].user.id@ == id@
                    implies k == i by {
                if k != i {
                    assert(self.rows()[k].user.id@ != self.rows()[i as int].user.id@);
                }
            }
        }
        let prev = self.users[i].user.updated_at;
        let stamp = if now > prev {
            now
        } else if prev < i64::MAX {
            prev + 1
        } else {
            return Err(StoreError::Internal);
        };
        let ghost before = self.users@;
        let old_row = self.users.remove(i);
        let StoredUser { user, password_hash } = old_row;
        let User { id: uid, email, first_name: f0, last_name: l0, is_active, created_at, updated_at: _ } = user;
        let first = match first_name {
            Some(f) => Some(f),
            None => f0,
        };
        let last = match last_name {
            Some(l) => Some(l),
            None => l0,
        };
        let u = User {
            id: uid,
            email,
            first_name: first,
            last_name: last,
            is_active,
            created_at,
            updated_at: stamp,
        };
        let r = u.duplicate();
        self.users.insert(i, StoredUser { user: u, password_hash });
        proof {
            assert(self.users@ =~= before.update(i as int, self.users@[i as int]));
            let s = self.users@;
            assert forall|a: int, b: int| 0 <= a < b < s.len() implies {
                &&& #[trigger] s[a].user.id@ != #[trigger] s[b].user.id@
                &&& s[a].user.email@ != s[b].user.email@
                &&& s[a].user.created_at <= s[b].user.created_at
            } by {
                assert(before[a].user.id@ != before[b].user.id@);
            }
            assert forall|a: int| 0 <= a < s.len() implies {
                &&& #[trigger] s[a].user.id@.len() > 0
                &&& s[a].user.created_at <= s[a].user.updated_at
            } by {
                assert(before[a].user.id@.len() > 0);
            }
        }
        Ok(Some(r))
    }

    /// Whether the user with this id holds the named permission.
    pub fn has_permission(&self, user_id: &String, permission: &String) -> (r: bool)
        ensures
            r == holds(self.grants(), user_id@, permission@),
    {
        let mut i: usize = 0;
        while i < self.grants.len()
            invariant
                i <= self.grants@.len(),
                forall|k: int|
                    0 <= k < i ==> !(#[trigger] self.grants@[k].user_id@ == user_id@
                        && self.grants@[k].permission@ == permission@),
            decreases self.grants@.len() - i,
        {
            if self.grants[i].user_id == *user_id && self.grants[i].permission == *permission {
                return true;
            }
            i = i + 1;
        }
        false
    }

    /// Grants the named permission to a user, at `now`. Granting one that is
    /// already held changes nothing; the result says whether a grant was added.
    pub fn grant_permission(&mut self, user_id: &String, permission: &String, now: i64) -> (r: bool)
        requires
            old(self).wf(),
        ensures
            final(self).wf(),
            final(self).rows() == old(self).rows(),
            final(self).cost() == old(self).cost(),
            r == !holds(old(self).grants(), user_id@, permission@),
            holds(final(self).grants(), user_id@, permission@),
            !r ==> final(self).grants() == old(self).grants(),
            r ==> final(self).grants() == old(self).grants().push(
                Grant { user_id: *user_id, permission: *permission, granted_at: now },
            ),
    {
        if self.has_permission(user_id, permission) {
            return false;
        }
        let g = Grant { user_id: user_id.clone(), permission: permission.clone(), granted_at: now };
        let ghost before = self.grants@;
        self.grants.push(g);
        proof {
            let s = self.grants@;
            assert(s[s.len() - 1].user_id@ == user_id@);
            assert forall|a: int, b: int| 0 <= a < b < s.len() implies !(#[trigger] s[a].user_id@
                == #[trigger] s[b].user_id@ && s[a].permission@ == s[b].permission@) by {
                assert(s[a] == before[a]);
                if b < before.len() {
                    assert(s[b] == before[b]);
                    assert(!(before[a].user_id@ == before[b].user_id@ && before[a].permission@ == before[b].permission@));
                } else {
                    assert(!(before[a].user_id@ == user_id@ && before[a].permission@ == permission@));
                }
            }
        }
        true
    }
}

/// The text of an optional string.
pub open spec fn opt_view(o: Option<String>) -> Option<Seq<char>> {
    match o {
        Some(s) => Some(s@),
        None => None,
    }
}

pub open spec fn opt_str_view(o: Option<&str>) -> Option<Seq<char>> {
    match o {
        Some(s) => Some(s@),
        None => None,
    }
}

pub fn to_owned_opt(o: Option<&str>) -> (r: Option<String>)
    ensures
        opt_view(r) == opt_str_view(o),
{
    match o {
        Some(s) => Some(s.to_owned()),
        None => None,
    }
}

/// The positions of the rows with this e-mail.
pub open spec fn rows_with_email(rows: Seq<StoredUser>, email: Seq<char>) -> Set<int> {
    Set::new(|i: int| 0 <= i < rows.len() && rows[i].user.email@ == email)
}

/// The positions of the grants of this permission to this user.
pub open spec fn grants_of(grants: Seq<Grant>, user_id: Seq<char>, permission: Seq<char>) -> Set<int> {
    Set::new(
        |i: int| 0 <= i < grants.len() && grants[i].user_id@ == user_id && grants[i].permission@ == permission,
    )
}

/// An e-mail that is in the store belongs to exactly one row, so a second
/// creation with it is refused.
pub proof fn law_one_row_per_email(db: Database, email: Seq<char>)
    requires
        db.wf(),
        has_email(db.rows(), email),
    ensures
        rows_with_email(db.rows(), email).len() == 1,
{
    let rows = db.rows();
    let i = choose|i: int| 0 <= i < rows.len() && #[trigger] rows[i].user.email@ == email;
    assert forall|k: int| #[trigger] rows_with_email(rows, email).contains(k) implies k == i by {
        db.lemma_email_unique(k, i);
    }
    assert(rows_with_email(rows, email) =~= set![i]);
}

/// A permission that a user holds is held through exactly one grant: granting
/// it again adds nothing.
pub proof fn law_one_grant_per_permission(db: Database, user_id: Seq<char>, permission: Seq<char>)
    requires
        db.wf(),
        holds(db.grants(), user_id, permission),
    ensures
        grants_of(db.grants(), user_id, permission).len() == 1,
{
    let g = db.grants();
    let i = choose|i: int|
        0 <= i < g.len() && #[trigger] g[i].user_id@ == user_id && g[i].permission@ == permission;
    assert forall|k: int| #[trigger] grants_of(g, user_id, permission).contains(k) implies k == i by {
        if k < i {
            assert(!(g[k].user_id@ == g[i].user_id@ && g[k].permission@ == g[i].permission@));
        } else if i < k {
            assert(!(g[i].user_id@ == g[k].user_id@ && g[i].permission@ == g[k].permission@));
        }
    }
    assert(grants_of(g, user_id, permission) =~= set![i]);
}

/// Listed newest first (the rows in reverse), users come in order of
/// creation time, latest first.
pub proof fn law_listing_newest_first(db: Database)
    requires
        db.wf(),
    ensures
        forall|i: int, j: int|
            0 <= i < j < db.rows().len() ==> #[trigger] db.rows()[db.rows().len() - 1 - i].user.created_at
                >= #[trigger] db.rows()[db.rows().len() - 1 - j].user.created_at,
{
    let rows = db.rows();
    assert forall|i: int, j: int| 0 <= i < j < rows.len() implies #[trigger] rows[rows.len() - 1 - i].user.created_at
        >= #[trigger] rows[rows.len() - 1 - j].user.created_at by {
        let a = rows.len() - 1 - j;
        let b = rows.len() - 1 - i;
        assert(rows[a].user.id@ != rows[b].user.id@);
    }
}

/// The newest row was created no earlier than any other, so a user just
/// created is listed first.
pub proof fn law_created_user_listed_first(db: Database, u: User)
    requires
        db.wf(),
        db.rows().len() > 0,
        db.rows().last().user == u,
    ensures
        forall|i: int| 0 <= i < db.rows().len() ==> #[trigger] db.rows()[i].user.created_at <= u.created_at,
{
    let rows = db.rows();
    assert forall|i: int| 0 <= i < rows.len() implies #[trigger] rows[i].user.created_at <= u.created_at by {
        if i < rows.len() - 1 {
            assert(rows[i].user.id@ != rows[rows.len() - 1].user.id@);
        }
    }
}

/// Every stored row was created no later than it was last updated.
pub proof fn law_created_before_updated(db: Database, i: int)
    requires
        db.wf(),
        0 <= i < db.rows().len(),
    ensures
        db.rows()[i].user.created_at <= db.rows()[i].user.updated_at,
{
    assert(db.rows()[i].user.id@.len() > 0);
}

impl User {
    /// Creates an active user under a fresh random id, created and updated at
    /// the current time. A taken e-mail is a conflict, and so would be the
    /// (improbable) reuse of an id; a failed creation changes nothing.
    pub fn create(
        db: &mut Database,
        email: &str,
        password_hash: &str,
        first_name: Option<&str>,
        last_name: Option<&str>,
    ) -> (r: Result<User, StoreError>)
        requires
            old(db).wf(),
        ensures
            final(db).wf(),
            final(db).grants() == old(db).grants(),
            final(db).cost() == old(db).cost(),
            has_email(old(db).rows(), email@) ==> r == Err::<User, StoreError>(StoreError::Conflict),
            r != Err::<User, StoreError>(StoreError::Internal),
            r is Err ==> final(db).rows() == old(db).rows(),
            r is Err ==> has_email(old(db).rows(), email@) || exists|i: int|
                0 <= i < old(db).rows().len() && #[trigger] old(db).rows()[i].user.id@.len() == 36,
            r matches Ok(u) ==> {
                &&& u.id@.len() == 36
                &&& !has_id(old(db).rows(), u.id@)
                &&& u.email@ == email@
                &&& opt_view(u.first_name) == opt_str_view(first_name)
                &&& opt_view(u.last_name) == opt_str_view(last_name)
                &&& u.is_active
                &&& u.created_at == u.updated_at
                &&& final(db).rows() == old(db).rows().push(final(db).rows().last())
                &&& final(db).rows().last().user == u
                &&& final(db).rows().last().password_hash matches Some(h) && h@ == password_hash@
            },
    {
        let id = fresh_id();
        let now = now_micros();
        let ghost rows0 = db.rows();
        let ghost id0 = id@;
        let r = db.insert_user(
            id,
            email.to_owned(),
            password_hash.to_owned(),
            to_owned_opt(first_name),
            to_owned_opt(last_name),
            now,
        );
        proof {
            if r is Err && !has_email(rows0, email@) {
                assert(r != Err::<User, StoreError>(StoreError::Internal));
                match r {
                    Err(StoreError::Conflict) => {},
                    Err(StoreError::Internal) => {},
                    Ok(_) => {},
                }
                assert(has_id(rows0, id0));
                let i = choose|i: int| 0 <= i < rows0.len() && #[trigger] rows0[i].user.id@ == id0;
                assert(rows0[i].user.id@.len() == 36);
            }
        }
        r
    }

    /// The user with this id, if any.
    pub fn find_by_id(db: &Database, user_id: &str) -> (r: Option<User>)
        requires
            db.wf(),
        ensures
            r is None <==> !has_id(db.rows(), user_id@),
            r matches Some(u) ==> forall|i: int|
                0 <= i < db.rows().len() && #[trigger] db.rows()[i].user.id@ == user_id@
                    ==> u == db.rows()[i].user,
    {
        db.find_user(&user_id.to_owned())
    }

    /// Every user, newest first.
    pub fn find_all(db: &Database) -> (r: Vec<User>)
        ensures
            r@.len() == db.rows().len(),
            forall|i: int|
                0 <= i < r@.len() ==> #[trigger] r@[i] == db.rows()[db.rows().len() - 1 - i].user,
    {
        db.all_users()
    }

    /// Replaces the supplied names of the user with this id and moves its
    /// update time strictly forward. `Ok(None)`, with nothing changed, where
    /// no user has the id.
    pub fn update(
        db: &mut Database,
        user_id: &str,
        first_name: Option<&str>,
        last_name: Option<&str>,
    ) -> (r: Result<Option<User>, StoreError>)
        requires
            old(db).wf(),
        ensures
            final(db).wf(),
            final(db).grants() == old(db).grants(),
            final(db).cost() == old(db).cost(),
            r == Ok::<Option<User>, StoreError>(None) <==> !has_id(old(db).rows(), user_id@),
            !(r matches Ok(Some(_))) ==> final(db).rows() == old(db).rows(),
            r is Err ==> exists|i: int|
                0 <= i < old(db).rows().len() && #[trigger] old(db).rows()[i].user.id@ == user_id@
                    && old(db).rows()[i].user.updated_at == i64::MAX,
            forall|i: int|
                0 <= i < old(db).rows().len() && #[trigger] old(db).rows()[i].user.id@ == user_id@
                    ==> {
                    let row = old(db).rows()[i];
                    r matches Ok(Some(u)) ==> {
                        &&& u.id == row.user.id
                        &&& u.email == row.user.email
                        &&& u.is_active == row.user.is_active
                        &&& u.created_at == row.user.created_at
                        &&& u.updated_at > row.user.updated_at
                        &&& opt_view(u.first_name) == (if first_name is Some {
                            opt_str_view(first_name)
                        } else {
                            opt_view(row.user.first_name)
                        })
                        &&& opt_view(u.last_name) == (if last_name is Some {
                            opt_str_view(last_name)
                        } else {
                            opt_view(row.user.last_name)
                        })
                        &&& final(db).rows() == old(db).rows().update(
                            i,
                            StoredUser { user: u, password_hash: row.password_hash },
                        )
                    }
                },
    {
        let now = now_micros();
        db.update_user(&user_id.to_owned(), to_owned_opt(first_name), to_owned_opt(last_name), now)
    }
}

} // verus!
