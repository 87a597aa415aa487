//! User records as the service sees them: the closed role set, the account
//! status, and the request shapes for creating and updating a record.

use vstd::prelude::*;

verus! {

/// Closed set of roles. The policy treats `Admin` as unconditionally
/// privileged and every other role as ordinary unless acting on its own
/// record; `Organizer` may additionally update foreign records.
#[derive(Debug, Clone, Copy, PartialEq, Eq, Structural)]
pub enum UserRole {
    Admin,
    Organizer,
    Staff,
    Volunteer,
}

/// The wire form of a role: how it is stored and how it travels inside
/// token claims.
pub open spec fn spec_role_str(role: UserRole) -> Seq<char> {
    match role {
        UserRole::Admin => "admin"@,
        UserRole::Organizer => "organizer"@,
        UserRole::Staff => "staff"@,
        UserRole::Volunteer => "volunteer"@,
    }
}

/// The role named by a wire-form string, if any. Strings outside the closed
/// set name no role and are treated as ordinary by the policy.
pub open spec fn role_of(s: Seq<char>) -> Option<UserRole> {
    if s == "admin"@ {
        Some(UserRole::Admin)
    } else if s == "organizer"@ {
        Some(UserRole::Organizer)
    } else if s == "staff"@ {
        Some(UserRole::Staff)
    } else if s == "volunteer"@ {
        Some(UserRole::Volunteer)
    } else {
        None
    }
}

/// The human-readable form of a role.
pub open spec fn spec_role_display(role: UserRole) -> Seq<char> {
    match role {
        UserRole::Admin => "Admin"@,
        UserRole::Organizer => "Organizer"@,
        UserRole::Staff => "Staff"@,
        UserRole::Volunteer => "Volunteer"@,
    }
}

impl UserRole {
    pub fn as_str(&self) -> (s: &str)
        ensures
            s@ == spec_role_str(*self),
    {
        match self {
            UserRole::Admin => "admin",
            UserRole::Organizer => "organizer",
            UserRole::Staff => "staff",
            UserRole::Volunteer => "volunteer",
        }
    }

    pub fn display_name(&self) -> (s: &str)
        ensures
            s@ == spec_role_display(*self),
    {
        match self {
            UserRole::Admin => "Admin",
            UserRole::Organizer => "Organizer",
            UserRole::Staff => "Staff",
            UserRole::Volunteer => "Volunteer",
        }
    }
}

/// Parse the wire form of a role back into the closed set.
pub fn parse_role(s: &str) -> (role: Option<UserRole>)
    ensures
        role == role_of(s@),
{
    if crate::text::str_eq(s, "admin") {
        Some(UserRole::Admin)
    } else if crate::text::str_eq(s, "organizer") {
        Some(UserRole::Organizer)
    } else if crate::text::str_eq(s, "staff") {
        Some(UserRole::Staff)
    } else if crate::text::str_eq(s, "volunteer") {
        Some(UserRole::Volunteer)
    } else {
        None
    }
}

/// Parsing inverts the wire form: every role round-trips through its string.
pub proof fn lemma_role_str_round_trip(role: UserRole)
    ensures
        role_of(spec_role_str(role)) == Some(role),
{
    reveal_strlit("admin");
    reveal_strlit("organizer");
    reveal_strlit("staff");
    reveal_strlit("volunteer");
    // The four wire forms differ already in their first character.
    assert("admin"@[0] == 'a');
    assert("organizer"@[0] == 'o');
    assert("staff"@[0] == 's');
    assert("volunteer"@[0] == 'v');
}

/// Account status of a user record; new records start `Active`.
#[derive(Debug, Clone, Copy, PartialEq, Eq, Structural)]
pub enum UserStatus {
    Active,
    Inactive,
}

/// The wire form of a status.
pub open spec fn spec_status_str(status: UserStatus) -> Seq<char> {
    match status {
        UserStatus::Active => "active"@,
        UserStatus::Inactive => "inactive"@,
    }
}

/// The human-readable form of a status.
pub open spec fn spec_status_display(status: UserStatus) -> Seq<char> {
    match status {
        UserStatus::Active => "Active"@,
        UserStatus::Inactive => "Inactive"@,
    }
}

impl UserStatus {
    pub fn as_str(&self) -> (s: &str)
        ensures
            s@ == spec_status_str(*self),
    {
        match self {
            UserStatus::Active => "active",
            UserStatus::Inactive => "inactive",
        }
    }

    pub fn display_name(&self) -> (s: &str)
        ensures
            s@ == spec_status_display(*self),
    {
        match self {
            UserStatus::Active => "Active",
            UserStatus::Inactive => "Inactive",
        }
    }
}

/// A user record.
#[derive(Debug, Clone)]
pub struct User {
    pub id: String,
    pub name: String,
    pub surname: String,
    pub email: String,
    pub phone: String,
    pub role: UserRole,
    pub status: UserStatus,
}

/// Mathematical image of a user record: its strings as character sequences.
pub struct UserView {
    pub id: Seq<char>,
    pub name: Seq<char>,
    pub surname: Seq<char>,
    pub email: Seq<char>,
    pub phone: Seq<char>,
    pub role: UserRole,
    pub status: UserStatus,
}

impl View for User {
    type V = UserView;

    open spec fn view(&self) -> UserView {
        UserView {
            id: self.id@,
            name: self.name@,
            surname: self.surname@,
            email: self.email@,
            phone: self.phone@,
            role: self.role,
            status: self.status,
        }
    }
}

/// Fields of a record to create; the directory assigns the id and the
/// status defaults to `Active`.
#[derive(Debug, Clone)]
pub struct CreateUserRequest {
    pub name: String,
    pub surname: String,
    pub email: String,
    pub phone: String,
    pub role: UserRole,
}

/// A partial update: only the fields that are present change.
#[derive(Debug, Clone)]
pub struct UpdateUserRequest {
    pub name: Option<String>,
    pub surname: Option<String>,
    pub email: Option<String>,
    pub phone: Option<String>,
    pub role: Option<UserRole>,
    pub status: Option<UserStatus>,
}

/// Mathematical image of a partial update.
pub struct UpdateUserRequestView {
    pub name: Option<Seq<char>>,
    pub surname: Option<Seq<char>>,
    pub email: Option<Seq<char>>,
    pub phone: Option<Seq<char>>,
    pub role: Option<UserRole>,
    pub status: Option<UserStatus>,
}

impl View for UpdateUserRequest {
    type V = UpdateUserRequestView;

    open spec fn view(&self) -> UpdateUserRequestView {
        UpdateUserRequestView {
            name: match self.name {
                Some(name) => Some(name@),
                None => None,
            },
            surname: match self.surname {
                Some(surname) => Some(surname@),
                None => None,
            },
            email: match self.email {
                Some(email) => Some(email@),
                None => None,
            },
            phone: match self.phone {
                Some(phone) => Some(phone@),
                None => None,
            },
            role: self.role,
            status: self.status,
        }
    }
}

} // verus!
