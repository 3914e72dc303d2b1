use vstd::prelude::*;
use vstd::string::StringExecFns;

verus! {

/// What a user is allowed to do. The two roles are unrelated: neither
/// implies the other.
#[derive(Debug, Clone, Copy, PartialEq, Eq, Structural)]
pub enum Role {
    Admin,
    User,
}

impl Role {
    /// The text that stands for this role in tokens and messages.
    pub open spec fn spec_name(self) -> Seq<char> {
        match self {
            Role::Admin => "Admin"@,
            Role::User => "User"@,
        }
    }

    /// The role that a text stands for, if it stands for one.
    pub open spec fn spec_from_name(name: Seq<char>) -> Option<Role> {
        if name == "Admin"@ {
            Some(Role::Admin)
        } else if name == "User"@ {
            Some(Role::User)
        } else {
            None
        }
    }

    /// The text that stands for this role in tokens and messages.
    pub fn name(&self) -> (r: String)
        ensures
            r@ == self.spec_name(),
    {
        match self {
            Role::Admin => String::from_str("Admin"),
            Role::User => String::from_str("User"),
        }
    }

    /// Reads a role from its text. Any other text stands for no role.
    pub fn from_name(name: &str) -> (r: Option<Role>)
        ensures
            r == Role::spec_from_name(name@),
    {
        if *name == *"Admin" {
            Some(Role::Admin)
        } else if *name == *"User" {
            Some(Role::User)
        } else {
            None
        }
    }
}

/// Reading the text of a role gives the role back.
pub proof fn lemma_role_name_round_trip(role: Role)
    ensures
        Role::spec_from_name(role.spec_name()) == Some(role),
{
    reveal_strlit("Admin");
    reveal_strlit("User");
    if role == Role::User {
        assert("User"@.len() == 4);
        assert("Admin"@.len() == 5);
        assert("User"@ != "Admin"@);
    }
}

} // verus!
