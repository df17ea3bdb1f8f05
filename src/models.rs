use vstd::prelude::*;

use crate::text::same_text;

verus! {

/// The role carried by an authenticated caller.
#[derive(PartialEq, Eq, Structural, Clone, Copy, Debug)]
pub enum Role {
    Admin,
    User,
}

/// The role a role name stands for, if any.
pub open spec fn role_of(s: Seq<char>) -> Option<Role> {
    if s == "admin"@ {
        Some(Role::Admin)
    } else if s == "user"@ {
        Some(Role::User)
    } else {
        None
    }
}

impl Role {
    /// Parses a role name: exactly `admin` or `user`.
    pub fn from_str(s: &str) -> (r: Option<Role>)
        ensures
            r == role_of(s@),
    {
        if same_text(s, "admin") {
            Some(Role::Admin)
        } else if same_text(s, "user") {
            Some(Role::User)
        } else {
            None
        }
    }

    /// Whether a caller with this role may use administrative routes.
    pub fn is_admin(&self) -> (r: bool)
        ensures
            r == (*self == Role::Admin),
    {
        match self {
            Role::Admin => true,
            Role::User => false,
        }
    }
}

/// The role granted to a caller whose token names `role`: an unknown name
/// counts as `User`.
pub fn role_or_user(role: &str) -> (r: Role)
    ensures
        r == match role_of(role@) {
            Some(x) => x,
            None => Role::User,
        },
{
    match Role::from_str(role) {
        Some(x) => x,
        None => Role::User,
    }
}

/// Whether a request for `path` by a caller with role `role` may pass the
/// role check: paths under `/admin` need an administrator.
pub fn admin_route_allowed(path: &str, role: Role) -> (r: bool)
    ensures
        r == (!(path@.len() >= 6 && path@.subrange(0, 6) == "/admin"@) || role == Role::Admin),
{
    proof {
        reveal_strlit("/admin");
    }
    let n = path.unicode_len();
    if n < 6 {
        return true;
    }
    let head = path.substring_char(0, 6);
    if same_text(head, "/admin") {
        role.is_admin()
    } else {
        true
    }
}

} // verus!
