//! The user operations as callers see them: request bodies in, public
//! projections or an `ApiError` out.

use vstd::prelude::*;
use crate::auth::{admin_permission, ApiError};
use crate::platform::{hash_password, now_micros, password_matches};
use crate::store::{has_email, has_id, holds, opt_str_view, opt_view, Database, StoreError};
use crate::user::{project, CreateUserRequest, UpdateUserRequest, User, UserResponse};

verus! {

pub fn opt_as_str(o: &Option<String>) -> (r: Option<&str>)
    ensures
        opt_str_view(r) == opt_view(*o),
{
    match o {
        Some(s) => Some(s.as_str()),
        None => None,
    }
}

/// Hashes the password and stores a new active user. A taken e-mail is
/// `Conflict`; a failure to hash is `Internal`. On failure nothing changes.
pub fn create_user(db: &mut Database, user_data: &CreateUserRequest) -> (r: Result<UserResponse, ApiError>)
    requires
        old(db).wf(),
    ensures
        final(db).wf(),
        final(db).grants() == old(db).grants(),
        final(db).cost() == old(db).cost(),
        r is Err ==> final(db).rows() == old(db).rows(),
        r is Err ==> r == Err::<UserResponse, ApiError>(ApiError::Conflict) || r == Err::<
            UserResponse,
            ApiError,
        >(ApiError::Internal),
        has_email(old(db).rows(), user_data.email@) ==> r is Err,
        r == Err::<UserResponse, ApiError>(ApiError::Conflict) ==> has_email(old(db).rows(), user_data.email@)
            || exists|i: int|
            0 <= i < old(db).rows().len() && #[trigger] old(db).rows()[i].user.id@.len() == 36,
        r matches Ok(resp) ==> {
            let row = final(db).rows().last();
            &&& resp == project(row.user)
            &&& resp.id@.len() == 36
            &&& !has_id(old(db).rows(), resp.id@)
            &&& resp.email@ == user_data.email@
            &&& opt_view(resp.first_name) == opt_view(user_data.first_name)
            &&& opt_view(resp.last_name) == opt_view(user_data.last_name)
            &&& resp.is_active
            &&& resp.created_at == resp.updated_at
            &&& final(db).rows() == old(db).rows().push(row)
            &&& row.password_hash matches Some(h) && h@.len() == 60 && password_matches(
                user_data.password@,
                h@,
            )
        },
{
    let password_hash = match hash_password(user_data.password.as_str(), db.hash_cost()) {
        Some(h) => h,
        None => return Err(ApiError::Internal),
    };
    match User::create(
        db,
        user_data.email.as_str(),
        password_hash.as_str(),
        opt_as_str(&user_data.first_name),
        opt_as_str(&user_data.last_name),
    ) {
        Ok(user) => Ok(UserResponse::from(user)),
        Err(StoreError::Conflict) => Err(ApiError::Conflict),
        Err(StoreError::Internal) => Err(ApiError::Internal),
    }
}

/// The user with this id, or `NotFound`.
pub fn get_user(db: &Database, user_id: &str) -> (r: Result<UserResponse, ApiError>)
    requires
        db.wf(),
    ensures
        r == Err::<UserResponse, ApiError>(ApiError::NotFound) <==> !has_id(db.rows(), user_id@),
        r is Err ==> r == Err::<UserResponse, ApiError>(ApiError::NotFound),
        r matches Ok(resp) ==> forall|i: int|
            0 <= i < db.rows().len() && #[trigger] db.rows()[i].user.id@ == user_id@
                ==> resp == project(db.rows()[i].user),
{
    match User::find_by_id(db, user_id) {
        Some(user) => Ok(UserResponse::from(user)),
        None => Err(ApiError::NotFound),
    }
}

/// Replaces the supplied names of the user with this id, moving its update
/// time strictly forward; `NotFound`, with nothing changed, for an unknown id.
pub fn update_user(db: &mut Database, user_id: &str, user_data: &UpdateUserRequest) -> (r: Result<
    UserResponse,
    ApiError,
>)
    requires
        old(db).wf(),
    ensures
        final(db).wf(),
        final(db).grants() == old(db).grants(),
        final(db).cost() == old(db).cost(),
        r == Err::<UserResponse, ApiError>(ApiError::NotFound) <==> !has_id(old(db).rows(), user_id@),
        r == Err::<UserResponse, ApiError>(ApiError::Internal) ==> exists|i: int|
            0 <= i < old(db).rows().len() && #[trigger] old(db).rows()[i].user.id@ == user_id@
                && old(db).rows()[i].user.updated_at == i64::MAX,
        r is Err ==> final(db).rows() == old(db).rows(),
        r is Err ==> r == Err::<UserResponse, ApiError>(ApiError::NotFound) || r == Err::<
            UserResponse,
            ApiError,
        >(ApiError::Internal),
        forall|i: int|
            0 <= i < old(db).rows().len() && #[trigger] old(db).rows()[i].user.id@ == user_id@ ==> {
                let row = old(db).rows()[i];
                r matches Ok(resp) ==> {
                    &&& resp.id == row.user.id
                    &&& resp.email == row.user.email
                    &&& resp.is_active == row.user.is_active
                    &&& resp.created_at == row.user.created_at
                    &&& resp.updated_at > row.user.updated_at
                    &&& opt_view(resp.first_name) == (if user_data.first_name is Some {
                        opt_view(user_data.first_name)
                    } else {
                        opt_view(row.user.first_name)
                    })
                    &&& opt_view(resp.last_name) == (if user_data.last_name is Some {
                        opt_view(user_data.last_name)
                    } else {
                        opt_view(row.user.last_name)
                    })
                    &&& project(final(db).rows()[i].user) == resp
                    &&& final(db).rows()[i].password_hash == row.password_hash
                    &&& final(db).rows() == old(db).rows().update(i, final(db).rows()[i])
                }
            },
{
    match User::update(db, user_id, opt_as_str(&user_data.first_name), opt_as_str(&user_data.last_name)) {
        Ok(Some(user)) => Ok(UserResponse::from(user)),
        Ok(None) => Err(ApiError::NotFound),
        Err(_) => Err(ApiError::Internal),
    }
}

/// Every user, newest first.
pub fn list_users(db: &Database) -> (r: Vec<UserResponse>)
    ensures
        r@.len() == db.rows().len(),
        forall|i: int|
            0 <= i < r@.len() ==> #[trigger] r@[i] == project(db.rows()[db.rows().len() - 1 - i].user),
{
    let users = User::find_all(db);
    let mut out: Vec<UserResponse> = Vec::new();
    let mut i: usize = 0;
    while i < users.len()
        invariant
            i <= users@.len(),
            out@.len() == i,
            forall|k: int| 0 <= k < i ==> #[trigger] out@[k] == project(users@[k]),
        decreases users@.len() - i,
    {
        out.push(UserResponse::from(users[i].duplicate()));
        i = i + 1;
    }
    out
}

/// Grants the admin permission to the user with this e-mail: `NotFound` for
/// an unknown e-mail. Granting it again succeeds and changes nothing; the
/// result says whether a grant was added.
pub fn set_superadmin(db: &mut Database, email: &str) -> (r: Result<bool, ApiError>)
    requires
        old(db).wf(),
    ensures
        final(db).wf(),
        final(db).rows() == old(db).rows(),
        final(db).cost() == old(db).cost(),
        r == Err::<bool, ApiError>(ApiError::NotFound) <==> !has_email(old(db).rows(), email@),
        r is Err ==> final(db).grants() == old(db).grants(),
        r is Err ==> r == Err::<bool, ApiError>(ApiError::NotFound),
        forall|i: int|
            0 <= i < old(db).rows().len() && #[trigger] old(db).rows()[i].user.email@ == email@ ==> {
                let uid = old(db).rows()[i].user.id@;
                &&& r == Ok::<bool, ApiError>(!holds(old(db).grants(), uid, admin_permission()))
                &&& holds(final(db).grants(), uid, admin_permission())
                &&& holds(old(db).grants(), uid, admin_permission()) ==> final(db).grants() == old(db).grants()
                &&& !holds(old(db).grants(), uid, admin_permission()) ==> {
                    &&& final(db).grants() == old(db).grants().push(final(db).grants().last())
                    &&& final(db).grants().last().user_id@ == uid
                    &&& final(db).grants().last().permission@ == admin_permission()
                }
                &&& final(db).grants().len() == old(db).grants().len() + (if holds(
                    old(db).grants(),
                    uid,
                    admin_permission(),
                ) {
                    0int
                } else {
                    1int
                })
            },
{
    let i = match db.index_of_email(&email.to_owned()) {
        Some(i) => i,
        None => return Err(ApiError::NotFound),
    };
    proof {
        assert forall|k: int|
            0 <= k < db.rows().len() && #[trigger] db.rows()[k].user.email@ == email@
                implies k == i by {
            db.lemma_email_unique(k, i as int);
        }
    }
    let user_id = db.row(i).user.id.clone();
    let admin = crate::auth::admin_name();
    let now = now_micros();
    Ok(db.grant_permission(&user_id, &admin, now))
}

} // verus!
