//! The account database's failures, and the classes of failure that callers
//! are told about.

use vstd::prelude::*;

verus! {

/// Why the account database refused a password change.
#[derive(Clone, Copy, Debug, PartialEq, Eq, Structural)]
pub enum PasswordChangeError {
    Denied,
    NotFound,
    OldPasswordRejected,
    ConfirmationMismatch,
    PasswordReuse,
    InvalidPassword,
    InvalidPolicy,
    HashFailed,
    InvalidHash,
}

/// Why the storage under the account database failed.
#[derive(Clone, Copy, Debug, PartialEq, Eq, Structural)]
pub enum StorageError {
    Missing,
    Busy,
    Unavailable,
    Corrupt,
    TooLarge,
}

/// The failures that password administration reports.
///
/// The classes are coarse on purpose: a caller cannot tell an unknown account
/// from a forbidden one, nor a wrong old password from either.
#[derive(Clone, Copy, Debug, PartialEq, Eq, Structural)]
pub enum PasswdError {
    PermissionDenied,
    InvalidInput,
    PolicyRejected,
    HashUnavailable,
    StorageUnavailable,
    StorageBusy,
    StorageCorrupt,
}

/// The class of a refused password change: who may ask, what may be asked for,
/// or whether a hash could be made.
pub open spec fn password_error_class(error: PasswordChangeError) -> PasswdError {
    match error {
        PasswordChangeError::Denied => PasswdError::PermissionDenied,
        PasswordChangeError::NotFound => PasswdError::PermissionDenied,
        PasswordChangeError::OldPasswordRejected => PasswdError::PermissionDenied,
        PasswordChangeError::ConfirmationMismatch => PasswdError::PolicyRejected,
        PasswordChangeError::PasswordReuse => PasswdError::PolicyRejected,
        PasswordChangeError::InvalidPassword => PasswdError::PolicyRejected,
        PasswordChangeError::InvalidPolicy => PasswdError::PolicyRejected,
        PasswordChangeError::HashFailed => PasswdError::HashUnavailable,
        PasswordChangeError::InvalidHash => PasswdError::HashUnavailable,
    }
}

/// The class of a storage failure. A storage that is missing, unavailable or
/// too large cannot be used either way, so the three are one class.
pub open spec fn storage_error_class(error: StorageError) -> PasswdError {
    match error {
        StorageError::Busy => PasswdError::StorageBusy,
        StorageError::Corrupt => PasswdError::StorageCorrupt,
        StorageError::Missing => PasswdError::StorageUnavailable,
        StorageError::Unavailable => PasswdError::StorageUnavailable,
        StorageError::TooLarge => PasswdError::StorageUnavailable,
    }
}

/// What a caller sees of the outcome of a password change.
pub open spec fn password_result(outcome: Result<(), PasswordChangeError>) -> Result<
    (),
    PasswdError,
> {
    match outcome {
        Ok(done) => Ok(done),
        Err(error) => Err(password_error_class(error)),
    }
}

/// What a caller sees of the outcome of a storage operation.
pub open spec fn storage_result<T>(outcome: Result<T, StorageError>) -> Result<T, PasswdError> {
    match outcome {
        Ok(value) => Ok(value),
        Err(error) => Err(storage_error_class(error)),
    }
}

/// Classifies a refused password change.
pub fn map_password_error(error: PasswordChangeError) -> (class: PasswdError)
    ensures
        class == password_error_class(error),
{
    match error {
        PasswordChangeError::Denied
        | PasswordChangeError::NotFound
        | PasswordChangeError::OldPasswordRejected => PasswdError::PermissionDenied,
        PasswordChangeError::ConfirmationMismatch
        | PasswordChangeError::PasswordReuse
        | PasswordChangeError::InvalidPassword
        | PasswordChangeError::InvalidPolicy => PasswdError::PolicyRejected,
        PasswordChangeError::HashFailed | PasswordChangeError::InvalidHash => {
            PasswdError::HashUnavailable
        },
    }
}

/// Classifies a storage failure.
pub fn map_storage_error(error: StorageError) -> (class: PasswdError)
    ensures
        class == storage_error_class(error),
{
    match error {
        StorageError::Busy => PasswdError::StorageBusy,
        StorageError::Corrupt => PasswdError::StorageCorrupt,
        StorageError::Missing | StorageError::Unavailable | StorageError::TooLarge => {
            PasswdError::StorageUnavailable
        },
    }
}

/// Classifies the outcome of a storage operation, and hands on what it gave.
pub fn conclude_storage<T>(outcome: Result<T, StorageError>) -> (result: Result<T, PasswdError>)
    ensures
        result == storage_result(outcome),
{
    match outcome {
        Ok(value) => Ok(value),
        Err(error) => Err(map_storage_error(error)),
    }
}

/// A refused password change is never reported as a storage failure, and never
/// as malformed input.
pub proof fn law_password_error_is_not_a_storage_error(error: PasswordChangeError)
    ensures
        ({
            let class = password_error_class(error);
            class is PermissionDenied || class is PolicyRejected || class is HashUnavailable
        }),
{
}

/// A storage failure is always reported as one.
pub proof fn law_storage_error_stays_a_storage_error(error: StorageError)
    ensures
        ({
            let class = storage_error_class(error);
            class is StorageUnavailable || class is StorageBusy || class is StorageCorrupt
        }),
{
}

/// Whether a refusal says something about the actor or the account, rather than
/// about the new password.
pub open spec fn is_denial(error: PasswordChangeError) -> bool {
    error is Denied || error is NotFound || error is OldPasswordRejected
}

/// An account that does not exist, an actor without the right and a wrong old
/// password are indistinguishable to the caller, and nothing else looks like
/// them.
pub proof fn law_denials_are_indistinguishable(
    first: PasswordChangeError,
    second: PasswordChangeError,
)
    requires
        is_denial(first),
    ensures
        is_denial(second) <==> password_error_class(second) == password_error_class(first),
        is_denial(second) <==> second == PasswordChangeError::Denied || second
            == PasswordChangeError::NotFound || second == PasswordChangeError::OldPasswordRejected,
{
}

/// Each class of a refused password change has exactly these reasons.
pub proof fn law_reasons_of_password_classes(error: PasswordChangeError)
    ensures
        password_error_class(error) == PasswdError::PermissionDenied <==> error
            == PasswordChangeError::Denied || error == PasswordChangeError::NotFound || error
            == PasswordChangeError::OldPasswordRejected,
        password_error_class(error) == PasswdError::PolicyRejected <==> error
            == PasswordChangeError::ConfirmationMismatch || error
            == PasswordChangeError::PasswordReuse || error == PasswordChangeError::InvalidPassword
            || error == PasswordChangeError::InvalidPolicy,
        password_error_class(error) == PasswdError::HashUnavailable <==> error
            == PasswordChangeError::HashFailed || error == PasswordChangeError::InvalidHash,
{
}

/// Each class of a storage failure has exactly these reasons.
pub proof fn law_reasons_of_storage_classes(error: StorageError)
    ensures
        storage_error_class(error) == PasswdError::StorageBusy <==> error == StorageError::Busy,
        storage_error_class(error) == PasswdError::StorageCorrupt <==> error
            == StorageError::Corrupt,
        storage_error_class(error) == PasswdError::StorageUnavailable <==> error
            == StorageError::Missing || error == StorageError::Unavailable || error
            == StorageError::TooLarge,
{
}

/// A caller is told of a success exactly if the database reported one, and of a
/// refusal by its class and nothing else.
pub proof fn law_password_result_is_the_outcome(outcome: Result<(), PasswordChangeError>)
    ensures
        password_result(outcome) is Ok <==> outcome is Ok,
        password_result(outcome) == Err::<(), PasswdError>(PasswdError::PermissionDenied)
            <==> outcome == Err::<(), PasswordChangeError>(PasswordChangeError::Denied) || outcome
            == Err::<(), PasswordChangeError>(PasswordChangeError::NotFound) || outcome == Err::<
            (),
            PasswordChangeError,
        >(PasswordChangeError::OldPasswordRejected),
        password_result(outcome) == Err::<(), PasswdError>(PasswdError::HashUnavailable)
            <==> outcome == Err::<(), PasswordChangeError>(PasswordChangeError::HashFailed)
            || outcome == Err::<(), PasswordChangeError>(PasswordChangeError::InvalidHash),
        outcome is Err ==> password_result(outcome) == Err::<(), PasswdError>(
            PasswdError::PermissionDenied,
        ) || password_result(outcome) == Err::<(), PasswdError>(PasswdError::PolicyRejected)
            || password_result(outcome) == Err::<(), PasswdError>(PasswdError::HashUnavailable),
{
}

/// What a storage operation gave is handed on as it is, and a failure is reported
/// by its class.
pub proof fn law_storage_result_is_the_outcome<T>(outcome: Result<T, StorageError>)
    ensures
        outcome matches Ok(value) ==> storage_result(outcome) == Ok::<T, PasswdError>(value),
        outcome == Err::<T, StorageError>(StorageError::Busy) <==> storage_result(outcome)
            == Err::<T, PasswdError>(PasswdError::StorageBusy),
        outcome == Err::<T, StorageError>(StorageError::Corrupt) <==> storage_result(outcome)
            == Err::<T, PasswdError>(PasswdError::StorageCorrupt),
        outcome is Err && outcome != Err::<T, StorageError>(StorageError::Busy) && outcome != Err::<
            T,
            StorageError,
        >(StorageError::Corrupt) <==> storage_result(outcome) == Err::<T, PasswdError>(
            PasswdError::StorageUnavailable,
        ),
{
}

/// What `map_password_error` makes of each reason for a refusal.
pub proof fn law_map_password_error(error: PasswordChangeError, class: PasswdError)
    requires
        call_ensures(map_password_error, (error,), class),
    ensures
        class == PasswdError::PermissionDenied <==> error == PasswordChangeError::Denied || error
            == PasswordChangeError::NotFound || error == PasswordChangeError::OldPasswordRejected,
        class == PasswdError::PolicyRejected <==> error == PasswordChangeError::ConfirmationMismatch
            || error == PasswordChangeError::PasswordReuse || error
            == PasswordChangeError::InvalidPassword || error == PasswordChangeError::InvalidPolicy,
        class == PasswdError::HashUnavailable <==> error == PasswordChangeError::HashFailed || error
            == PasswordChangeError::InvalidHash,
{
}

/// What `map_storage_error` makes of each failure of the storage.
pub proof fn law_map_storage_error(error: StorageError, class: PasswdError)
    requires
        call_ensures(map_storage_error, (error,), class),
    ensures
        class == PasswdError::StorageBusy <==> error == StorageError::Busy,
        class == PasswdError::StorageCorrupt <==> error == StorageError::Corrupt,
        class == PasswdError::StorageUnavailable <==> error == StorageError::Missing || error
            == StorageError::Unavailable || error == StorageError::TooLarge,
{
}

/// `conclude_storage` hands on what an operation gave, and the class of a failure.
pub proof fn law_conclude_storage<T>(
    outcome: Result<T, StorageError>,
    result: Result<T, PasswdError>,
    class: PasswdError,
)
    requires
        call_ensures(conclude_storage::<T>, (outcome,), result),
        outcome is Err ==> call_ensures(map_storage_error, (outcome->Err_0,), class),
    ensures
        result is Ok <==> outcome is Ok,
        outcome is Ok ==> result->Ok_0 == outcome->Ok_0,
        outcome is Err ==> result->Err_0 == class,
{
}

} // verus!
