//! The decision kernels of the user service: input validation, the
//! authorization gates in front of mutations, and the pure parts of the
//! directory flows (what a lookup owes the caller, how a partial update
//! rewrites a record, how a delete outcome is judged). The directory
//! itself — storage and transport — stays outside this crate and hands
//! these functions plain values.

use vstd::prelude::*;
use vstd::string::StringExecFns;
use crate::auth::models::Claims;
use crate::auth::policy::{policy, spec_allowed, AuthDecision, Op};
use crate::error::AppError;
use crate::user::models::{
    role_of, CreateUserRequest, UpdateUserRequest, UpdateUserRequestView, User, UserStatus,
    UserView,
};

verus! {

/// The record a partial update leaves behind: present fields replace,
/// absent fields keep; the id never changes.
pub open spec fn spec_apply_update(user: UserView, req: UpdateUserRequestView) -> UserView {
    UserView {
        id: user.id,
        name: match req.name {
            Some(name) => name,
            None => user.name,
        },
        surname: match req.surname {
            Some(surname) => surname,
            None => user.surname,
        },
        email: match req.email {
            Some(email) => email,
            None => user.email,
        },
        phone: match req.phone {
            Some(phone) => phone,
            None => user.phone,
        },
        role: match req.role {
            Some(role) => role,
            None => user.role,
        },
        status: match req.status {
            Some(status) => status,
            None => user.status,
        },
    }
}

/// Apply a partial update to a record.
pub fn apply_update(user: User, req: UpdateUserRequest) -> (updated: User)
    ensures
        updated@ == spec_apply_update(user@, req@),
{
    let UpdateUserRequest { name, surname, email, phone, role, status } = req;
    let mut updated = user;
    if let Some(name) = name {
        updated.name = name;
    }
    if let Some(surname) = surname {
        updated.surname = surname;
    }
    if let Some(email) = email {
        updated.email = email;
    }
    if let Some(phone) = phone {
        updated.phone = phone;
    }
    if let Some(role) = role {
        updated.role = role;
    }
    if let Some(status) = status {
        updated.status = status;
    }
    updated
}

/// Resolve a lookup that the caller requires to succeed: an absent record
/// is the explicit `NotFound` error, never a silent default.
pub fn require_user(found: Option<User>) -> (result: Result<User, AppError>)
    ensures
        match found {
            Some(user) => result matches Ok(resolved) && resolved@ == user@,
            None => result matches Err(e) && (e matches AppError::NotFound(detail) && detail@
                == "User not found"@),
        },
{
    match found {
        Some(user) => Ok(user),
        None => Err(AppError::NotFound(String::from_str("User not found"))),
    }
}

/// Build the record a create request describes: the directory id is
/// freshly drawn, the status defaults to `Active`, and a request without
/// an email is rejected outright.
pub fn prepare_create(req: CreateUserRequest) -> (result: Result<User, AppError>)
    ensures
        req.email@.len() == 0 ==> (result matches Err(e) && (e matches AppError::BadRequest(
            detail,
        ) && detail@ == "Email is required"@)),
        req.email@.len() > 0 ==> (result matches Ok(user) && {
            &&& user@.id.len() == 36
            &&& user@.name == req.name@
            &&& user@.surname == req.surname@
            &&& user@.email == req.email@
            &&& user@.phone == req.phone@
            &&& user@.role == req.role
            &&& user@.status == UserStatus::Active
        }),
{
    if req.email.as_str().is_empty() {
        return Err(AppError::BadRequest(String::from_str("Email is required")));
    }
    let id = fresh_user_id();
    Ok(
        User {
            id,
            name: req.name,
            surname: req.surname,
            email: req.email,
            phone: req.phone,
            role: req.role,
            status: UserStatus::Active,
        },
    )
}

/// The guard in front of an update: admit exactly the callers the policy
/// allows to update the record owned by `target_id`; everyone else is
/// turned away with `Forbidden`.
pub fn authorize_update(claims: &Claims, target_id: &str) -> (result: Result<(), AppError>)
    ensures
        result is Ok <==> spec_allowed(role_of(claims.role@), claims.sub@ == target_id@, Op::Update),
        result matches Err(e) ==> e is Forbidden,
{
    match policy(claims, target_id, Op::Update) {
        AuthDecision::Allow => Ok(()),
        AuthDecision::Deny => Err(AppError::Forbidden),
    }
}

/// The guard in front of a delete: admit exactly the callers the policy
/// allows to delete the record owned by `target_id`.
pub fn authorize_delete(claims: &Claims, target_id: &str) -> (result: Result<(), AppError>)
    ensures
        result is Ok <==> spec_allowed(role_of(claims.role@), claims.sub@ == target_id@, Op::Delete),
        result matches Err(e) ==> e is Forbidden,
{
    match policy(claims, target_id, Op::Delete) {
        AuthDecision::Allow => Ok(()),
        AuthDecision::Deny => Err(AppError::Forbidden),
    }
}

/// The update flow once the caller is authorized: an absent record is
/// `NotFound`, a present one gets the partial update applied and is
/// handed back for the directory to persist.
pub fn plan_update(found: Option<User>, req: UpdateUserRequest) -> (result: Result<User, AppError>)
    ensures
        match found {
            Some(user) => result matches Ok(updated) && updated@ == spec_apply_update(user@, req@),
            None => result matches Err(e) && (e matches AppError::NotFound(detail) && detail@
                == "User not found"@),
        },
{
    match found {
        Some(user) => Ok(apply_update(user, req)),
        None => Err(AppError::NotFound(String::from_str("User not found"))),
    }
}

/// Judge the directory's answer to a delete: a delete that touched no row
/// names a record that was never there.
pub fn delete_outcome(rows_affected: u64) -> (result: Result<(), AppError>)
    ensures
        result is Ok <==> rows_affected > 0,
        result matches Err(e) ==> e matches AppError::NotFound(detail) && detail@
            == "User not found"@,
{
    if rows_affected == 0 {
        Err(AppError::NotFound(String::from_str("User not found")))
    } else {
        Ok(())
    }
}

/// Relies on uuid::Uuid::new_v7 and its hyphenated text form: a fresh
/// unique id, 36 characters long. The timestamp is read with a guard so
/// that a clock sitting before the Unix epoch yields the epoch itself
/// rather than a panic inside the id library.
#[verifier::external_body]
fn fresh_user_id() -> (id: String)
    ensures
        id@.len() == 36,
{
    let (seconds, nanos) = match std::time::UNIX_EPOCH.elapsed() {
        Ok(elapsed) => (elapsed.as_secs(), elapsed.subsec_nanos()),
        Err(_) => (0, 0),
    };
    let ts = uuid::Timestamp::from_unix(uuid::NoContext, seconds, nanos);
    uuid::Uuid::new_v7(ts).to_string()
}

} // verus!
