use vstd::prelude::*;

use crate::dto::validation::{
    check_email, check_password, check_user_name, spec_broken, spec_check_email,
    spec_check_password, spec_check_user_name, Broken, FieldError,
};
use crate::models::role::Role;

verus! {

/// What a caller sends to log in.
#[derive(Debug, Clone)]
pub struct LoginDto {
    pub email: String,
    pub password: String,
}

/// What a caller sends to register.
#[derive(Debug, Clone)]
pub struct RegisterDto {
    pub email: String,
    pub password: String,
    pub name: String,
}

/// What a successful registration or login hands back: the two tokens,
/// which travel in headers, and the user, who is the body.
#[derive(Debug, Clone)]
pub struct AuthResponse {
    pub access_token: String,
    pub refresh_token: String,
    pub user: UserInfo,
}

/// What the world may see of a user. There is no password in it, hashed
/// or not.
#[derive(Debug, Clone)]
pub struct UserInfo {
    pub id: String,
    pub email: String,
    pub name: String,
    pub role: Role,
}

/// What a caller sends to get a new access token.
#[derive(Debug, Clone)]
pub struct RefreshTokenRequest {
    pub refresh_token: String,
}

impl LoginDto {
    /// The rules that this request breaks: the email is an email address,
    /// and the password has at least eight characters.
    pub open spec fn spec_violations(&self) -> Seq<Broken> {
        spec_check_email(self.email@) + spec_check_password(self.password@)
    }

    /// The rules that this request breaks, in the order email, password.
    /// An empty list says that the request is in order.
    pub fn validate(&self) -> (errors: Vec<FieldError>)
        ensures
            spec_broken(errors@) == self.spec_violations(),
    {
        let mut errors: Vec<FieldError> = Vec::new();
        assert(spec_broken(errors@) =~= Seq::<Broken>::empty());
        check_email(&mut errors, self.email.as_str());
        check_password(&mut errors, self.password.as_str());
        assert(spec_broken(errors@) =~= self.spec_violations());
        errors
    }
}

impl RegisterDto {
    /// The rules that this request breaks: the email is an email address,
    /// the password has at least eight characters, and the name has from
    /// two to fifty.
    pub open spec fn spec_violations(&self) -> Seq<Broken> {
        spec_check_email(self.email@) + spec_check_password(self.password@)
            + spec_check_user_name(self.name@)
    }

    /// The rules that this request breaks, in the order email, password,
    /// name. An empty list says that the request is in order.
    pub fn validate(&self) -> (errors: Vec<FieldError>)
        ensures
            spec_broken(errors@) == self.spec_violations(),
    {
        let mut errors: Vec<FieldError> = Vec::new();
        assert(spec_broken(errors@) =~= Seq::<Broken>::empty());
        check_email(&mut errors, self.email.as_str());
        check_password(&mut errors, self.password.as_str());
        check_user_name(&mut errors, self.name.as_str());
        assert(spec_broken(errors@) =~= self.spec_violations());
        errors
    }
}

} // verus!
