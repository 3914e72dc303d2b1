use vstd::prelude::*;
use vstd::string::StringExecFns;

use crate::errors::{ErrorResponse, HttpError};
use crate::models::role::Role;

verus! {

/// A guard that lets a request through only if it comes with one given
/// role. It asks for that very role: no role stands in for another.
#[derive(Debug, Clone, Copy)]
pub struct PermissionCheck {
    required_role: Role,
}

/// The answer to a request that the guard for `required` turns away.
pub open spec fn spec_is_forbidden(answer: HttpError, required: Role) -> bool {
    &&& answer.status == 403
    &&& answer.body.error@ == "insufficient_permissions"@
    &&& answer.body.message@ == "Necessary role: "@ + required.spec_name()
    &&& answer.body.details is None
}

impl PermissionCheck {
    /// The role that this guard asks for.
    pub closed spec fn spec_required_role(&self) -> Role {
        self.required_role
    }

    pub fn new(required_role: Role) -> (guard: PermissionCheck)
        ensures
            guard.spec_required_role() == required_role,
    {
        PermissionCheck { required_role }
    }

    /// The role that this guard asks for.
    pub fn required_role(&self) -> (role: Role)
        ensures
            role == self.spec_required_role(),
    {
        self.required_role
    }

    /// Decides on a request by the role that came with it, if any. The
    /// request passes exactly if that role is the required one; otherwise
    /// the answer names the required role.
    pub fn check(&self, role: Option<Role>) -> (r: Result<(), HttpError>)
        ensures
            r is Ok <==> role == Some(self.spec_required_role()),
            r matches Err(answer) ==> spec_is_forbidden(answer, self.spec_required_role()),
    {
        let passes = match role {
            Some(role) => role == self.required_role,
            None => false,
        };
        if passes {
            Ok(())
        } else {
            let name = self.required_role.name();
            Err(
                HttpError {
                    status: 403,
                    body: ErrorResponse {
                        error: String::from_str("insufficient_permissions"),
                        message: String::from_str("Necessary role: ").concat(name.as_str()),
                        details: None,
                    },
                },
            )
        }
    }
}

} // verus!
