pub mod auth_service;
pub mod order_service;
pub mod product_service;
pub mod user_service;

use vstd::prelude::*;
use vstd::string::StringExecFns;

use crate::errors::{AppErrors, StorageError};

verus! {

/// What becomes of a lookup in the storage: the resource where there is
/// one, and otherwise the error that no resource called `resource` was
/// found. A failure of the storage stays a failure of the storage.
pub fn found_or_missing<T>(looked_up: Result<Option<T>, StorageError>, resource: &str) -> (r:
    Result<T, AppErrors>)
    ensures
        match looked_up {
            Ok(Some(value)) => r == Ok::<T, AppErrors>(value),
            Ok(None) => r matches Err(AppErrors::NotFound(name)) && name@ == resource@,
            Err(cause) => r == Err::<T, AppErrors>(AppErrors::Mongo(cause)),
        },
{
    match looked_up {
        Ok(Some(value)) => Ok(value),
        Ok(None) => Err(AppErrors::NotFound(String::from_str(resource))),
        Err(cause) => Err(AppErrors::Mongo(cause)),
    }
}

/// What becomes of a change in the storage that reports how many records
/// it touched: the message `done` where it touched any, and otherwise the
/// error that no resource called `resource` was found. A failure of the
/// storage stays a failure of the storage.
pub fn changed_or_missing(touched: Result<u64, StorageError>, resource: &str, done: &str) -> (r:
    Result<String, AppErrors>)
    ensures
        match touched {
            Ok(count) => if count == 0 {
                r matches Err(AppErrors::NotFound(name)) && name@ == resource@
            } else {
                r matches Ok(message) && message@ == done@
            },
            Err(cause) => r == Err::<String, AppErrors>(AppErrors::Mongo(cause)),
        },
{
    match touched {
        Ok(count) => if count == 0 {
            Err(AppErrors::NotFound(String::from_str(resource)))
        } else {
            Ok(String::from_str(done))
        },
        Err(cause) => Err(AppErrors::Mongo(cause)),
    }
}

/// What becomes of a write to the storage that either happens or fails:
/// the message `done`, or the failure of the storage.
pub fn written(stored: Result<(), StorageError>, done: &str) -> (r: Result<String, AppErrors>)
    ensures
        match stored {
            Ok(()) => r matches Ok(message) && message@ == done@,
            Err(cause) => r == Err::<String, AppErrors>(AppErrors::Mongo(cause)),
        },
{
    match stored {
        Ok(()) => Ok(String::from_str(done)),
        Err(cause) => Err(AppErrors::Mongo(cause)),
    }
}

} // verus!
