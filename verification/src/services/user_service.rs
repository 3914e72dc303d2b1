use vstd::prelude::*;

use crate::dto::auth::UserInfo;
use crate::dto::user::UpdateUserDto;
use crate::errors::hash_error::HashError;
use crate::errors::{AppErrors, StorageError};
use crate::models::user::User;
use crate::services::{changed_or_missing, found_or_missing};
use crate::utils::hash::{hash_password, spec_accepts, spec_hash_with, spec_hashed_with};
use crate::utils::ident::{parse_id, uuid_parse};

verus! {

/// The key under which the storage holds the user with this identifier.
/// A text that is no identifier is refused before the storage is asked.
pub fn user_key(user_id: &str) -> (r: Result<u128, AppErrors>)
    ensures
        match uuid_parse(user_id@) {
            Some(key) => r == Ok::<u128, AppErrors>(key),
            None => r matches Err(AppErrors::InvalidUUID),
        },
{
    parse_id(user_id)
}

/// The caller's own account, from what the storage found under the
/// caller's key.
pub fn me(found: Result<Option<User>, StorageError>) -> (r: Result<UserInfo, AppErrors>)
    ensures
        match found {
            Ok(Some(user)) => r matches Ok(info) && user.spec_shown_as(info),
            Ok(None) => r matches Err(AppErrors::NotFound(name)) && name@ == "User"@,
            Err(cause) => r matches Err(AppErrors::Mongo(e)) && e == cause,
        },
{
    match found_or_missing(found, "User") {
        Ok(user) => Ok(user.info()),
        Err(e) => Err(e),
    }
}

/// `r` is what the storage is told to change for a request to change an
/// account, with a new password hashed under `salt`: the name and the
/// email as sent, and in place of a new password its hash. A request
/// without a new password always has its changes; one with a new password
/// has them exactly where the hasher makes a hash, and the error is
/// `FailedHash` otherwise.
pub open spec fn spec_changes_with(
    data: UpdateUserDto,
    salt: Seq<char>,
    r: Result<UpdateUserDto, AppErrors>,
) -> bool {
    match data.password {
        None => {
            &&& r matches Ok(changes)
            &&& changes.name == data.name
            &&& changes.email == data.email
            &&& changes.password is None
        },
        Some(password) => match spec_hash_with(password@, salt) {
            Some(hash) => {
                &&& r matches Ok(changes)
                &&& changes.name == data.name
                &&& changes.email == data.email
                &&& changes.password matches Some(stored)
                &&& stored@ == hash
                &&& spec_accepts(password@, stored@)
            },
            None => r matches Err(AppErrors::Hash(HashError::FailedHash)),
        },
    }
}

/// What the storage is told to change for a request to change an
/// account: the name and the email as sent, and in place of a new password
/// a hash of it under a fresh salt, against which the password checks. No
/// password reaches the storage. Where the password cannot be hashed
/// nothing is changed, and the error is `FailedHash`.
pub fn account_changes(data: UpdateUserDto) -> (r: Result<UpdateUserDto, AppErrors>)
    ensures
        exists|salt: Seq<char>| #[trigger] spec_changes_with(data, salt, r),
        r matches Ok(changes) ==> {
            &&& changes.name == data.name
            &&& changes.email == data.email
            &&& data.password is None ==> changes.password is None
            &&& data.password matches Some(password) ==> (changes.password matches Some(hash)
                && spec_accepts(password@, hash@))
        },
        r matches Err(e) ==> data.password is Some && e matches AppErrors::Hash(
            HashError::FailedHash,
        ),
{
    let UpdateUserDto { name, email, password } = data;
    match password {
        Some(password) => {
            let hashed = hash_password(password.as_str());
            let ghost hashed_before = hashed;
            let r = match hashed {
                Ok(hash) => Ok(UpdateUserDto { name, email, password: Some(hash) }),
                Err(e) => Err(e),
            };
            proof {
                let salt = choose|salt: Seq<char>| #[trigger]
                    spec_hashed_with(password@, salt, hashed_before);
                assert(spec_changes_with(data, salt, r));
            }
            r
        },
        None => {
            let r = Ok(UpdateUserDto { name, email, password: None });
            assert(spec_changes_with(data, Seq::<char>::empty(), r));
            r
        },
    }
}

/// The answer to a change of an account, from the number of accounts that
/// the storage matched.
pub fn update_user(matched: Result<u64, StorageError>) -> (r: Result<String, AppErrors>)
    ensures
        match matched {
            Ok(count) => if count == 0 {
                r matches Err(AppErrors::NotFound(name)) && name@ == "User"@
            } else {
                r matches Ok(message) && message@ == "User updated successfully"@
            },
            Err(cause) => r matches Err(AppErrors::Mongo(e)) && e == cause,
        },
{
    changed_or_missing(matched, "User", "User updated successfully")
}

/// The answer to the deletion of an account, from the number of accounts
/// that the storage deleted. Deleting an account that is gone already is
/// an error, not a success.
pub fn delete_user(deleted: Result<u64, StorageError>) -> (r: Result<String, AppErrors>)
    ensures
        match deleted {
            Ok(count) => if count == 0 {
                r matches Err(AppErrors::NotFound(name)) && name@ == "User"@
            } else {
                r matches Ok(message) && message@ == "User deleted successfully"@
            },
            Err(cause) => r matches Err(AppErrors::Mongo(e)) && e == cause,
        },
{
    changed_or_missing(deleted, "User", "User deleted successfully")
}

/// What the world may see of all accounts, in the order in which the
/// storage listed them.
pub fn get_all_users(users: &Vec<User>) -> (infos: Vec<UserInfo>)
    ensures
        infos.len() == users.len(),
        forall|i: int| 0 <= i < users.len() ==> (#[trigger] users[i]).spec_shown_as(infos[i]),
{
    let mut infos: Vec<UserInfo> = Vec::new();
    let mut at: usize = 0;
    while at < users.len()
        invariant
            at <= users.len(),
            infos.len() == at,
            forall|i: int| 0 <= i < at ==> (#[trigger] users[i]).spec_shown_as(infos[i]),
        decreases users.len() - at,
    {
        infos.push(users[at].info());
        at += 1;
    }
    infos
}

} // verus!
