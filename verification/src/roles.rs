use vstd::prelude::*;
use crate::text::str_equal;

verus! {

/// The roles a user account can carry.
#[derive(Debug, Clone, Copy, PartialEq, Eq)]
pub enum ROLES {
    ADMIN,
    USER,
}

/// The text form of a role: its variant name.
pub open spec fn role_name(role: ROLES) -> Seq<char> {
    match role {
        ROLES::ADMIN => "ADMIN"@,
        ROLES::USER => "USER"@,
    }
}

/// The role whose name is exactly `s`, if there is one.
pub open spec fn role_named(s: Seq<char>) -> Option<ROLES> {
    if s == "ADMIN"@ {
        Some(ROLES::ADMIN)
    } else if s == "USER"@ {
        Some(ROLES::USER)
    } else {
        None
    }
}

/// The error of parsing a text that names no role.
#[derive(Debug, Clone, Copy, PartialEq, Eq)]
pub struct ParseRoleError;

impl ROLES {
    /// The name of the role, as its display form shows it.
    pub fn to_string(&self) -> (res: String)
        ensures
            res@ == role_name(*self),
    {
        match self {
            ROLES::ADMIN => String::from_str("ADMIN"),
            ROLES::USER => String::from_str("USER"),
        }
    }

    /// Parses a role from its exact, case-sensitive variant name.
    pub fn from_str(s: &str) -> (res: Result<ROLES, ParseRoleError>)
        ensures
            match role_named(s@) {
                Some(r) => res == Ok::<ROLES, ParseRoleError>(r),
                None => res is Err,
            },
    {
        if str_equal(s, "ADMIN") {
            Ok(ROLES::ADMIN)
        } else if str_equal(s, "USER") {
            Ok(ROLES::USER)
        } else {
            Err(ParseRoleError)
        }
    }
}

/// Parsing the display form of a role gives that role back.
pub proof fn lemma_role_name_round_trip(role: ROLES)
    ensures
        role_named(role_name(role)) == Some(role),
{
    reveal_strlit("ADMIN");
    reveal_strlit("USER");
    assert("ADMIN"@ != "USER"@) by {
        assert("ADMIN"@.len() != "USER"@.len());
    }
}

} // verus!
