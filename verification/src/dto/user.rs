use vstd::prelude::*;

use crate::dto::validation::{
    check_email, check_password, check_user_name, spec_broken, spec_check_email,
    spec_check_password, spec_check_user_name, Broken, FieldError,
};

verus! {

/// What a caller sends to change the own account. A field that is absent
/// stays as it is.
#[derive(Debug, Clone)]
pub struct UpdateUserDto {
    pub name: Option<String>,
    pub email: Option<String>,
    pub password: Option<String>,
}

impl UpdateUserDto {
    /// The rules that this request breaks. A field that is absent breaks
    /// none; one that is present is held to the rule of its kind.
    pub open spec fn spec_violations(&self) -> Seq<Broken> {
        (match self.name {
            Some(name) => spec_check_user_name(name@),
            None => Seq::empty(),
        }) + (match self.email {
            Some(email) => spec_check_email(email@),
            None => Seq::empty(),
        }) + (match self.password {
            Some(password) => spec_check_password(password@),
            None => Seq::empty(),
        })
    }

    /// The rules that this request breaks, in the order name, email,
    /// password. An empty list says that the request is in order.
    pub fn validate(&self) -> (errors: Vec<FieldError>)
        ensures
            spec_broken(errors@) == self.spec_violations(),
    {
        let mut errors: Vec<FieldError> = Vec::new();
        assert(spec_broken(errors@) =~= Seq::<Broken>::empty());
        match &self.name {
            Some(name) => check_user_name(&mut errors, name.as_str()),
            None => {},
        }
        match &self.email {
            Some(email) => check_email(&mut errors, email.as_str()),
            None => {},
        }
        match &self.password {
            Some(password) => check_password(&mut errors, password.as_str()),
            None => {},
        }
        assert(spec_broken(errors@) =~= self.spec_violations());
        errors
    }
}

} // verus!
