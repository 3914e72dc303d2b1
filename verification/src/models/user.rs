use vstd::prelude::*;
use vstd::std_specs::convert::FromSpecImpl;

use crate::dto::auth::UserInfo;
use crate::models::role::Role;
use crate::utils::ident::{uuid_parse, uuid_text, write_uuid};

verus! {

/// A user as the storage holds it. The identifier is the 128-bit number of
/// a UUID; `password` is the hash of the password, never the password.
#[derive(Debug, Clone)]
pub struct User {
    pub _id: u128,
    pub name: String,
    pub email: String,
    pub password: String,
    pub role: Role,
}

impl User {
    /// Whether `info` is what the world may see of this user: the
    /// identifier as a text, from which the identifier can be read back,
    /// the name, the email and the role.
    pub open spec fn spec_shown_as(&self, info: UserInfo) -> bool {
        &&& info.id@ == uuid_text(self._id)
        &&& uuid_parse(info.id@) == Some(self._id)
        &&& info.email@ == self.email@
        &&& info.name@ == self.name@
        &&& info.role == self.role
    }
}

impl User {
    /// What the world may see of this user. The password hash is left
    /// behind.
    pub fn info(&self) -> (info: UserInfo)
        ensures
            self.spec_shown_as(info),
    {
        UserInfo {
            id: write_uuid(self._id),
            email: self.email.clone(),
            name: self.name.clone(),
            role: self.role,
        }
    }
}

impl From<User> for UserInfo {
    /// What the world may see of a user. The password hash is left behind.
    fn from(user: User) -> (info: UserInfo)
        ensures
            user.spec_shown_as(info),
    {
        UserInfo { id: write_uuid(user._id), email: user.email, name: user.name, role: user.role }
    }
}

impl FromSpecImpl<User> for UserInfo {
    /// The two texts are told by their characters, not by a value that
    /// `from` could be said to equal: what it returns is stated by
    /// `spec_shown_as` instead.
    open spec fn obeys_from_spec() -> bool {
        false
    }

    open spec fn from_spec(user: User) -> UserInfo {
        choose|info: UserInfo| user.spec_shown_as(info)
    }
}

} // verus!
