//! The password administration engine.
//!
//! The engine decides which kind of attempt is being made, hands the attempt to
//! the account database together with its policy, writes down that the attempt
//! took place and how it ended, and reports a failure by its class. What the
//! database does with an attempt is the database's own business: every function
//! that needs it takes the call as an argument.

use vstd::prelude::*;

use crate::error;
use crate::error::{conclude_storage, map_password_error};
use crate::error::{PasswdError, PasswordChangeError, StorageError};
use crate::policy::PasswordPolicy;

verus! {

/// The number of attempts that the audit trail remembers.
pub const MAX_AUDIT_EVENTS: usize = 32;

/// The kinds of attempts that are audited.
#[derive(Clone, Copy, Debug, PartialEq, Eq, Structural)]
pub enum Operation {
    Change,
    Reset,
    Lock,
    Unlock,
}

/// One attempt, as the audit trail shows it. It has no room for a password or
/// a hash.
#[derive(Clone, Copy, Debug, PartialEq, Eq, Structural)]
pub struct AuditEvent {
    pub operation: Operation,
    pub target_uid: u32,
    pub success: bool,
}

/// Whoever makes an attempt: the credentials that the account database judges,
/// and whether they carry the account administration capability.
pub struct Actor<C> {
    pub credentials: C,
    pub account_admin: bool,
}

impl<C> Actor<C> {
    /// Whoever has these credentials. `has_account_admin` is the credentials' own
    /// test for the account administration capability, and it alone decides.
    pub fn new<T: FnOnce(&C) -> bool>(credentials: C, has_account_admin: T) -> (actor: Actor<C>)
        requires
            call_requires(has_account_admin, (&credentials,)),
        ensures
            actor.credentials == credentials,
            call_ensures(has_account_admin, (&credentials,), actor.account_admin),
    {
        let account_admin = has_account_admin(&credentials);
        Actor { credentials, account_admin }
    }
}

impl<C: Copy> Clone for Actor<C> {
    fn clone(&self) -> (actor: Actor<C>)
        ensures
            actor == *self,
    {
        *self
    }
}

impl<C: Copy> Copy for Actor<C> {

}

/// A password change as it is put to the account database.
pub struct ChangeRequest<'a, C> {
    pub actor: C,
    pub target_uid: u32,
    pub old_password: Option<&'a [u8]>,
    pub new_password: &'a [u8],
    pub confirmation: &'a [u8],
    pub policy: PasswordPolicy,
}

/// Locking or unlocking an account, as it is put to the account database.
pub struct LockRequest<C> {
    pub actor: C,
    pub target_uid: u32,
    pub locked: bool,
}

/// What an engine holds: its policy, and the audit trail from the oldest
/// attempt to the newest.
#[verifier::ext_equal]
pub struct EngineView {
    pub policy: PasswordPolicy,
    pub audit: Seq<AuditEvent>,
}

/// The newest events of a history, as many as the audit trail remembers.
pub open spec fn newest(history: Seq<AuditEvent>) -> Seq<AuditEvent> {
    if history.len() <= MAX_AUDIT_EVENTS {
        history
    } else {
        history.skip(history.len() - MAX_AUDIT_EVENTS)
    }
}

/// A password set by an account administrator is a reset, whoever owns it.
pub open spec fn change_operation(account_admin: bool) -> Operation {
    if account_admin {
        Operation::Reset
    } else {
        Operation::Change
    }
}

pub open spec fn lock_operation(locked: bool) -> Operation {
    if locked {
        Operation::Lock
    } else {
        Operation::Unlock
    }
}

/// Every failure to lock or unlock an account is reported as a denial.
pub open spec fn lock_result<E>(outcome: Result<(), E>) -> Result<(), PasswdError> {
    match outcome {
        Ok(done) => Ok(done),
        Err(_) => Err(PasswdError::PermissionDenied),
    }
}

/// A password change as it is put to the account database.
pub open spec fn change_request<'a, C>(
    actor: C,
    target_uid: u32,
    old_password: Option<&'a [u8]>,
    new_password: &'a [u8],
    confirmation: &'a [u8],
    policy: PasswordPolicy,
) -> ChangeRequest<'a, C> {
    ChangeRequest { actor, target_uid, old_password, new_password, confirmation, policy }
}

impl EngineView {
    /// The engine after one more attempt: the same policy, and the attempt as
    /// the newest event of the trail.
    pub open spec fn recorded(
        self,
        operation: Operation,
        target_uid: u32,
        success: bool,
    ) -> EngineView {
        EngineView {
            policy: self.policy,
            audit: newest(self.audit.push(AuditEvent { operation, target_uid, success })),
        }
    }

    /// The engine after a password change with the given outcome.
    pub open spec fn changed<'a, C>(
        self,
        account_admin: bool,
        request: ChangeRequest<'a, C>,
        outcome: Result<(), PasswordChangeError>,
    ) -> EngineView {
        self.recorded(change_operation(account_admin), request.target_uid, outcome is Ok)
    }
}

pub struct PasswdEngine {
    policy: PasswordPolicy,
    audit: Vec<AuditEvent>,
}

impl View for PasswdEngine {
    type V = EngineView;

    closed spec fn view(&self) -> EngineView {
        EngineView { policy: self.policy, audit: self.audit@ }
    }
}

impl PasswdEngine {
    #[verifier::type_invariant]
    spec fn is_bounded(self) -> bool {
        &&& self.policy.is_consistent()
        &&& self.audit@.len() <= MAX_AUDIT_EVENTS
    }

    /// An engine with an empty audit trail, for a database that takes passwords
    /// of at most `max_password_bytes` bytes. Refused if the policy allows an
    /// empty password, no password at all, or one that the database cannot take.
    pub fn new(policy: PasswordPolicy, max_password_bytes: usize) -> (result: Result<
        PasswdEngine,
        PasswdError,
    >)
        ensures
            result is Ok <==> policy.fits(max_password_bytes),
            result is Ok <==> 1 <= policy.min_length && policy.min_length <= policy.max_length
                && policy.max_length <= max_password_bytes,
            result matches Ok(engine) ==> engine@ == (EngineView { policy, audit: Seq::empty() }),
            result matches Err(error) ==> error == PasswdError::PolicyRejected,
    {
        if policy.min_length == 0 || policy.min_length > policy.max_length || policy.max_length
            > max_password_bytes {
            return Err(PasswdError::PolicyRejected);
        }
        Ok(PasswdEngine { policy, audit: Vec::new() })
    }

    /// The policy that the engine was made with.
    pub fn policy(&self) -> (policy: PasswordPolicy)
        ensures
            policy == self@.policy,
            policy.is_consistent(),
            1 <= policy.min_length <= policy.max_length,
    {
        proof {
            use_type_invariant(self);
        }
        self.policy
    }

    /// The audit trail, the oldest event first.
    pub fn audit(&self) -> (events: &[AuditEvent])
        ensures
            events@ == self@.audit,
            events@.len() <= MAX_AUDIT_EVENTS,
            events@.len() <= 32,
    {
        proof {
            use_type_invariant(self);
        }
        self.audit.as_slice()
    }

    /// Writes an attempt down, and forgets the oldest one if the trail is full.
    pub fn record(&mut self, operation: Operation, target_uid: u32, success: bool)
        ensures
            final(self)@ == old(self)@.recorded(operation, target_uid, success),
            old(self)@.audit.len() <= MAX_AUDIT_EVENTS,
            1 <= final(self)@.audit.len() <= MAX_AUDIT_EVENTS,
            final(self)@.policy == old(self)@.policy,
            final(self)@.audit.last().operation == operation,
            final(self)@.audit.last().target_uid == target_uid,
            final(self)@.audit.last().success <==> success,
            old(self)@.audit.len() < 32 ==> final(self)@.audit.drop_last() == old(self)@.audit,
            old(self)@.audit.len() >= 32 ==> old(self)@.audit.len() == 32
                && final(self)@.audit.drop_last() == old(self)@.audit.drop_first(),
    {
        proof {
            use_type_invariant(&*self);
        }
        let mut audit: Vec<AuditEvent> = Vec::new();
        std::mem::swap(&mut audit, &mut self.audit);
        if audit.len() == MAX_AUDIT_EVENTS {
            audit.remove(0);
        }
        audit.push(AuditEvent { operation, target_uid, success });
        self.audit = audit;
    }

    /// Ends a password change: writes the attempt down and classifies the
    /// outcome that the account database gave.
    pub fn conclude_change(
        &mut self,
        account_admin: bool,
        target_uid: u32,
        outcome: Result<(), PasswordChangeError>,
    ) -> (result: Result<(), PasswdError>)
        ensures
            final(self)@ == old(self)@.recorded(
                change_operation(account_admin),
                target_uid,
                outcome is Ok,
            ),
            result == error::password_result(outcome),
            final(self)@.policy == old(self)@.policy,
            final(self)@.audit.last().operation == if account_admin {
                Operation::Reset
            } else {
                Operation::Change
            },
            final(self)@.audit.last().target_uid == target_uid,
            final(self)@.audit.last().success <==> outcome is Ok,
            old(self)@.audit.len() < 32 ==> final(self)@.audit.drop_last() == old(self)@.audit,
            old(self)@.audit.len() >= 32 ==> old(self)@.audit.len() == 32
                && final(self)@.audit.drop_last() == old(self)@.audit.drop_first(),
            final(self)@.audit.len() >= 1,
            result is Ok <==> outcome is Ok,
    {
        let operation = if account_admin {
            Operation::Reset
        } else {
            Operation::Change
        };
        self.record(operation, target_uid, outcome.is_ok());
        match outcome {
            Ok(done) => Ok(done),
            Err(error) => Err(map_password_error(error)),
        }
    }

    /// Changes or resets a password.
    ///
    /// `change` is the account database's own operation. It gets the database and
    /// the attempt as it was made, with the engine's policy, and its outcome alone
    /// decides the result. A caller that wants to know what became of the database
    /// hands it in as `database`, as a mutable reference, rather than capture it in
    /// `change`: it then is what `change` promises of its argument.
    pub fn change_password<'a, D, C, F>(
        &mut self,
        database: D,
        actor: Actor<C>,
        target_uid: u32,
        old_password: Option<&'a [u8]>,
        new_password: &'a [u8],
        confirmation: &'a [u8],
        change: F,
    ) -> (result: Result<(), PasswdError>) where
        F: FnOnce(D, ChangeRequest<'a, C>) -> Result<(), PasswordChangeError>,

        requires
            call_requires(
                change,
                (
                    database,
                    change_request(
                        actor.credentials,
                        target_uid,
                        old_password,
                        new_password,
                        confirmation,
                        old(self)@.policy,
                    ),
                ),
            ),
        ensures
            ({
                let request = change_request(
                    actor.credentials,
                    target_uid,
                    old_password,
                    new_password,
                    confirmation,
                    old(self)@.policy,
                );
                exists|outcome: Result<(), PasswordChangeError>|
                    {
                        &&& #[trigger] call_ensures(change, (database, request), outcome)
                        &&& final(self)@ == old(self)@.changed(
                            actor.account_admin,
                            request,
                            outcome,
                        )
                        &&& result == error::password_result(outcome)
                    }
            }),
            exists|outcome: Result<(), PasswordChangeError>|
                {
                    &&& #[trigger] call_ensures(
                        change,
                        (
                            database,
                            (ChangeRequest {
                                actor: actor.credentials,
                                target_uid: target_uid,
                                old_password: old_password,
                                new_password: new_password,
                                confirmation: confirmation,
                                policy: old(self)@.policy,
                            }),
                        ),
                        outcome,
                    )
                    &&& result is Ok <==> outcome is Ok
                },
            final(self)@.policy == old(self)@.policy,
            final(self)@.audit.last().operation == if actor.account_admin {
                Operation::Reset
            } else {
                Operation::Change
            },
            final(self)@.audit.last().target_uid == target_uid,
            final(self)@.audit.last().success <==> result is Ok,
            old(self)@.audit.len() < 32 ==> final(self)@.audit.drop_last() == old(self)@.audit,
            old(self)@.audit.len() >= 32 ==> old(self)@.audit.len() == 32
                && final(self)@.audit.drop_last() == old(self)@.audit.drop_first(),
            final(self)@.audit.len() >= 1,
    {
        let outcome = change(
            database,
            ChangeRequest {
                actor: actor.credentials,
                target_uid,
                old_password,
                new_password,
                confirmation,
                policy: self.policy,
            },
        );
        self.conclude_change(actor.account_admin, target_uid, outcome)
    }

    /// Ends locking or unlocking an account: writes the attempt down and
    /// reports any failure as a denial.
    pub fn conclude_lock<E>(
        &mut self,
        target_uid: u32,
        locked: bool,
        outcome: Result<(), E>,
    ) -> (result: Result<(), PasswdError>)
        ensures
            final(self)@ == old(self)@.recorded(lock_operation(locked), target_uid, outcome is Ok),
            result == lock_result(outcome),
            final(self)@.policy == old(self)@.policy,
            final(self)@.audit.last().operation == if locked {
                Operation::Lock
            } else {
                Operation::Unlock
            },
            final(self)@.audit.last().target_uid == target_uid,
            final(self)@.audit.last().success <==> outcome is Ok,
            old(self)@.audit.len() < 32 ==> final(self)@.audit.drop_last() == old(self)@.audit,
            old(self)@.audit.len() >= 32 ==> old(self)@.audit.len() == 32
                && final(self)@.audit.drop_last() == old(self)@.audit.drop_first(),
            final(self)@.audit.len() >= 1,
            result == if outcome is Ok {
                Ok::<(), PasswdError>(())
            } else {
                Err::<(), PasswdError>(PasswdError::PermissionDenied)
            },
    {
        let operation = if locked {
            Operation::Lock
        } else {
            Operation::Unlock
        };
        self.record(operation, target_uid, outcome.is_ok());
        match outcome {
            Ok(done) => Ok(done),
            Err(_) => Err(PasswdError::PermissionDenied),
        }
    }

    /// Locks or unlocks an account.
    ///
    /// `set_locked` is the account database's own operation. It gets the database
    /// and the attempt as it was made, and its outcome alone decides the result. A
    /// caller that wants to know what became of the database hands it in as
    /// `database`, as a mutable reference, rather than capture it in `set_locked`:
    /// it then is what `set_locked` promises of its argument.
    pub fn set_locked<D, C, E, F>(
        &mut self,
        database: D,
        actor: Actor<C>,
        target_uid: u32,
        locked: bool,
        set_locked: F,
    ) -> (result: Result<(), PasswdError>) where
        F: FnOnce(D, LockRequest<C>) -> Result<(), E>,

        requires
            call_requires(
                set_locked,
                (database, LockRequest { actor: actor.credentials, target_uid, locked }),
            ),
        ensures
            exists|outcome: Result<(), E>|
                {
                    &&& #[trigger] call_ensures(
                        set_locked,
                        (
                            database,
                            (LockRequest {
                                actor: actor.credentials,
                                target_uid: target_uid,
                                locked: locked,
                            }),
                        ),
                        outcome,
                    )
                    &&& final(self)@ == old(self)@.recorded(
                        lock_operation(locked),
                        target_uid,
                        outcome is Ok,
                    )
                    &&& result == lock_result(outcome)
                    &&& result is Ok <==> outcome is Ok
                },
            final(self)@.policy == old(self)@.policy,
            final(self)@.audit.last().operation == if locked {
                Operation::Lock
            } else {
                Operation::Unlock
            },
            final(self)@.audit.last().target_uid == target_uid,
            final(self)@.audit.last().success <==> result is Ok,
            old(self)@.audit.len() < 32 ==> final(self)@.audit.drop_last() == old(self)@.audit,
            old(self)@.audit.len() >= 32 ==> old(self)@.audit.len() == 32
                && final(self)@.audit.drop_last() == old(self)@.audit.drop_first(),
            final(self)@.audit.len() >= 1,
            result is Ok || result == Err::<(), PasswdError>(PasswdError::PermissionDenied),
    {
        let outcome = set_locked(
            database,
            LockRequest { actor: actor.credentials, target_uid, locked },
        );
        self.conclude_lock(target_uid, locked, outcome)
    }

    /// Makes a database the committed one.
    ///
    /// `replace` is the database's own atomic replacement. It gets the storage,
    /// the committed path, the temporary path and the database, in that order,
    /// and its outcome alone decides the result.
    pub fn commit<'a, S, D, F>(
        &self,
        storage: S,
        committed_path: &'a [u8],
        temp_path: &'a [u8],
        database: D,
        replace: F,
    ) -> (result: Result<(), PasswdError>) where
        F: FnOnce(S, &'a [u8], &'a [u8], D) -> Result<(), StorageError>,

        requires
            call_requires(replace, (storage, committed_path, temp_path, database)),
        ensures
            exists|outcome: Result<(), StorageError>|
                {
                    &&& #[trigger] call_ensures(
                        replace,
                        (storage, committed_path, temp_path, database),
                        outcome,
                    )
                    &&& result == error::storage_result(outcome)
                    &&& result is Ok <==> outcome is Ok
                },
    {
        let outcome = replace(storage, committed_path, temp_path, database);
        conclude_storage(outcome)
    }

    /// Loads the committed database, or what can be recovered of it.
    ///
    /// `load` is the database's own recovery. It gets the storage, the committed
    /// path and the temporary path, in that order. What it recovers is handed
    /// on as it is.
    pub fn recover<'a, S, T, F>(
        &self,
        storage: S,
        committed_path: &'a [u8],
        temp_path: &'a [u8],
        load: F,
    ) -> (result: Result<T, PasswdError>) where
        F: FnOnce(S, &'a [u8], &'a [u8]) -> Result<T, StorageError>,

        requires
            call_requires(load, (storage, committed_path, temp_path)),
        ensures
            exists|outcome: Result<T, StorageError>|
                {
                    &&& #[trigger] call_ensures(load, (storage, committed_path, temp_path), outcome)
                    &&& result == error::storage_result(outcome)
                    &&& result is Ok <==> outcome is Ok
                    &&& result is Ok ==> result->Ok_0 == outcome->Ok_0
                },
    {
        let outcome = load(storage, committed_path, temp_path);
        conclude_storage(outcome)
    }
}

/// The trail after a history of attempts, each written down as it was made.
pub open spec fn replayed(start: EngineView, history: Seq<AuditEvent>) -> EngineView
    decreases history.len(),
{
    if history.len() == 0 {
        start
    } else {
        let event = history.last();
        replayed(start, history.drop_last()).recorded(
            event.operation,
            event.target_uid,
            event.success,
        )
    }
}

/// However many attempts are made, the trail holds exactly the newest of them
/// and of those that it held before, in the order in which they were made and
/// as many as it remembers; the policy stays what it was.
pub proof fn law_trail_is_the_newest_history(start: EngineView, history: Seq<AuditEvent>)
    requires
        start.audit.len() <= 32,
    ensures
        replayed(start, history) == (EngineView {
            policy: start.policy,
            audit: newest(start.audit + history),
        }),
        replayed(start, history).policy == start.policy,
        ({
            let all = start.audit + history;
            let trail = replayed(start, history).audit;
            &&& trail.len() == if all.len() <= 32 {
                all.len()
            } else {
                32
            }
            &&& trail == all.skip(all.len() - trail.len())
        }),
    decreases history.len(),
{
    if history.len() == 0 {
        assert(start.audit + history =~= start.audit);
        assert(start.audit.skip(0) =~= start.audit);
    } else {
        let earlier = start.audit + history.drop_last();
        law_trail_is_the_newest_history(start, history.drop_last());
        assert(start.audit + history =~= earlier.push(history.last()));
        assert(newest(newest(earlier).push(history.last())) =~= newest(
            earlier.push(history.last()),
        ));
        assert((start.audit + history).skip(0) =~= start.audit + history);
    }
}

/// Nothing older survives as many attempts as the trail remembers: two engines
/// that see the same attempts then have the same trail, whatever they held
/// before, and it is the newest of these attempts.
pub proof fn law_nothing_older_survives(
    first: EngineView,
    second: EngineView,
    history: Seq<AuditEvent>,
)
    requires
        first.audit.len() <= 32,
        second.audit.len() <= 32,
        history.len() >= 32,
    ensures
        replayed(first, history).audit == replayed(second, history).audit,
        replayed(first, history).audit == newest(history),
        history.len() == 32 ==> replayed(first, history).audit == history,
{
    law_trail_is_the_newest_history(first, history);
    law_trail_is_the_newest_history(second, history);
    assert(newest(first.audit + history) =~= newest(history));
    assert(newest(second.audit + history) =~= newest(history));
}

/// An attempt, whatever came of it, is the newest event of the trail. The older
/// events stay as they were, but for the oldest of a full trail, and the trail
/// keeps its bound.
pub proof fn law_attempt_is_written_down(
    engine: EngineView,
    operation: Operation,
    target_uid: u32,
    success: bool,
)
    requires
        engine.audit.len() <= 32,
    ensures
        ({
            let after = engine.recorded(operation, target_uid, success);
            &&& 1 <= after.audit.len() <= 32
            &&& after.audit.last() == (AuditEvent { operation, target_uid, success })
            &&& after.audit.drop_last() == if engine.audit.len() == 32 {
                engine.audit.drop_first()
            } else {
                engine.audit
            }
        }),
{
    let after = engine.recorded(operation, target_uid, success);
    if engine.audit.len() == MAX_AUDIT_EVENTS {
        assert(after.audit.drop_last() =~= engine.audit.drop_first());
    } else {
        assert(after.audit.drop_last() =~= engine.audit);
    }
}

/// The trail tells no more of a password change than who it was for, whether an
/// administrator made it, and whether it succeeded: two changes that agree on
/// these leave the same engine behind, whatever passwords and hashes they were
/// made with and whatever the reason for a failure was.
pub proof fn law_trail_is_redacted<'a, C>(
    engine: EngineView,
    account_admin: bool,
    first: ChangeRequest<'a, C>,
    second: ChangeRequest<'a, C>,
    first_outcome: Result<(), PasswordChangeError>,
    second_outcome: Result<(), PasswordChangeError>,
)
    requires
        first.target_uid == second.target_uid,
        first_outcome is Ok == second_outcome is Ok,
    ensures
        engine.changed(account_admin, first, first_outcome) == engine.changed(
            account_admin,
            second,
            second_outcome,
        ),
{
}

/// What the trail shows of a password change is what the caller was told.
pub proof fn law_trail_agrees_with_the_caller_on_changes<'a, C>(
    engine: EngineView,
    account_admin: bool,
    request: ChangeRequest<'a, C>,
    outcome: Result<(), PasswordChangeError>,
)
    ensures
        engine.changed(account_admin, request, outcome).audit.last().success
            <==> error::password_result(outcome) is Ok,
{
}

/// What the trail shows of a lock or an unlock is what the caller was told.
pub proof fn law_trail_agrees_with_the_caller_on_locks<E>(
    engine: EngineView,
    target_uid: u32,
    locked: bool,
    outcome: Result<(), E>,
)
    ensures
        engine.recorded(
            lock_operation(locked),
            target_uid,
            outcome is Ok,
        ).audit.last().success <==> lock_result(outcome) is Ok,
{
}

/// The trail keeps the newest 32 events of a history: all of a shorter one, and
/// of a longer one those that were made last, each in its place.
pub proof fn law_newest_thirty_two(history: Seq<AuditEvent>, i: int)
    requires
        0 <= i < newest(history).len(),
    ensures
        history.len() <= 32 ==> newest(history).len() == history.len(),
        history.len() > 32 ==> newest(history).len() == 32,
        newest(history)[i] == history[history.len() - newest(history).len() + i],
{
}

/// A change is asked for exactly as it was made: the database gets every argument
/// of the attempt unchanged, for every account.
pub proof fn law_request_is_the_attempt<'a, C>(
    actor: C,
    target_uid: u32,
    old_password: Option<&'a [u8]>,
    new_password: &'a [u8],
    confirmation: &'a [u8],
    policy: PasswordPolicy,
)
    ensures
        ({
            let request = change_request(
                actor,
                target_uid,
                old_password,
                new_password,
                confirmation,
                policy,
            );
            &&& request.actor == actor
            &&& request.target_uid == target_uid
            &&& request.old_password == old_password
            &&& request.new_password == new_password
            &&& request.confirmation == confirmation
            &&& request.policy == policy
        }),
{
}

/// After a password change, whatever its outcome, the newest event of the trail
/// names the account that it was for, is a reset exactly if an administrator made
/// it and a change otherwise, and is a success exactly if the database reported
/// one. The older events are those that the trail held before, without the oldest
/// if it was full, and the policy is the same.
pub proof fn law_change_is_written_down_as_it_was<'a, C>(
    engine: EngineView,
    account_admin: bool,
    request: ChangeRequest<'a, C>,
    outcome: Result<(), PasswordChangeError>,
)
    requires
        engine.audit.len() <= 32,
    ensures
        ({
            let after = engine.changed(account_admin, request, outcome);
            &&& after.policy == engine.policy
            &&& after.audit.last().target_uid == request.target_uid
            &&& after.audit.last().operation == Operation::Reset <==> account_admin
            &&& after.audit.last().operation == Operation::Change <==> !account_admin
            &&& after.audit.last().success <==> outcome is Ok
            &&& engine.audit.len() < 32 ==> after.audit.drop_last() == engine.audit
            &&& engine.audit.len() == 32 ==> after.audit.drop_last() == engine.audit.drop_first()
        }),
{
    law_attempt_is_written_down(
        engine,
        change_operation(account_admin),
        request.target_uid,
        outcome is Ok,
    );
}

/// Locking and unlocking are told apart by what was asked for, and reported as a
/// success exactly if the database reported one, else as a denial.
pub proof fn law_lock_is_reported_as_it_was<E>(locked: bool, outcome: Result<(), E>)
    ensures
        lock_operation(locked) == Operation::Lock <==> locked,
        lock_operation(locked) == Operation::Unlock <==> !locked,
        outcome is Ok <==> lock_result(outcome) == Ok::<(), PasswdError>(()),
        outcome is Err <==> lock_result(outcome) == Err::<(), PasswdError>(
            PasswdError::PermissionDenied,
        ),
{
}

/// Two attempts that differ in account, kind or success leave different trails.
pub proof fn law_different_attempts_leave_different_trails(
    engine: EngineView,
    first: AuditEvent,
    second: AuditEvent,
)
    requires
        engine.audit.len() <= 32,
        first != second,
    ensures
        engine.recorded(first.operation, first.target_uid, first.success) != engine.recorded(
            second.operation,
            second.target_uid,
            second.success,
        ),
{
    law_attempt_is_written_down(engine, first.operation, first.target_uid, first.success);
    law_attempt_is_written_down(engine, second.operation, second.target_uid, second.success);
}

/// `PasswdEngine::new` makes an engine if and only if the policy's shortest
/// password has at least one byte, its longest is no shorter, and the database
/// takes it. The engine has that policy and nothing in its trail. Every other
/// policy is rejected.
pub proof fn law_new_engine(
    policy: PasswordPolicy,
    max_password_bytes: usize,
    result: Result<PasswdEngine, PasswdError>,
)
    requires
        call_ensures(PasswdEngine::new, (policy, max_password_bytes), result),
    ensures
        result is Ok <==> 0 < policy.min_length && policy.min_length <= policy.max_length
            && policy.max_length <= max_password_bytes,
        result is Ok ==> result->Ok_0@.policy == policy && result->Ok_0@.audit.len() == 0,
        result is Err ==> result->Err_0 == PasswdError::PolicyRejected,
{
}

/// What an engine shows is what it holds: its policy, which lets some password
/// pass and no empty one, and its trail of at most 32 events.
pub proof fn law_engine_shows_what_it_holds(
    engine: &PasswdEngine,
    policy: PasswordPolicy,
    events: &[AuditEvent],
)
    requires
        call_ensures(PasswdEngine::policy, (engine,), policy),
        call_ensures(PasswdEngine::audit, (engine,), events),
    ensures
        policy == engine@.policy,
        0 < policy.min_length <= policy.max_length,
        events@ == engine@.audit,
        events@.len() <= 32,
{
}

/// `PasswdEngine::record` puts the attempt at the end of the trail and drops the
/// oldest event of a full one. Nothing else changes.
pub proof fn law_record(
    engine: &mut PasswdEngine,
    operation: Operation,
    target_uid: u32,
    success: bool,
)
    requires
        call_ensures(PasswdEngine::record, (engine, operation, target_uid, success), ()),
    ensures
        final(engine)@.policy == old(engine)@.policy,
        1 <= final(engine)@.audit.len(),
        final(engine)@.audit.last() == (AuditEvent { operation, target_uid, success }),
        old(engine)@.audit.len() < 32 ==> final(engine)@.audit.drop_last() == old(engine)@.audit,
        old(engine)@.audit.len() == 32 ==> final(engine)@.audit.drop_last() == old(
            engine,
        )@.audit.drop_first(),
        old(engine)@.audit.len() <= 32,
{
}

/// `PasswdEngine::conclude_change` writes down whom the change was for, a reset if
/// an administrator made it and a change otherwise, and whether the database made
/// it; the caller is told of a success exactly then, and of the class of a failure.
pub proof fn law_conclude_change(
    engine: &mut PasswdEngine,
    account_admin: bool,
    target_uid: u32,
    outcome: Result<(), PasswordChangeError>,
    result: Result<(), PasswdError>,
)
    requires
        call_ensures(
            PasswdEngine::conclude_change,
            (engine, account_admin, target_uid, outcome),
            result,
        ),
    ensures
        final(engine)@.policy == old(engine)@.policy,
        1 <= final(engine)@.audit.len(),
        final(engine)@.audit.last() == (AuditEvent {
            operation: if account_admin {
                Operation::Reset
            } else {
                Operation::Change
            },
            target_uid,
            success: outcome is Ok,
        }),
        old(engine)@.audit.len() < 32 ==> final(engine)@.audit.drop_last() == old(engine)@.audit,
        old(engine)@.audit.len() == 32 ==> final(engine)@.audit.drop_last() == old(
            engine,
        )@.audit.drop_first(),
        old(engine)@.audit.len() <= 32,
        result is Ok <==> outcome is Ok,
        result is Err ==> result->Err_0 == error::password_error_class(outcome->Err_0),
{
}

/// `PasswdEngine::conclude_lock` writes down whom the lock or unlock was for and
/// whether the database made it; the caller is told of a success exactly then, and
/// of a denial otherwise.
pub proof fn law_conclude_lock<E>(
    engine: &mut PasswdEngine,
    target_uid: u32,
    locked: bool,
    outcome: Result<(), E>,
    result: Result<(), PasswdError>,
)
    requires
        call_ensures(
            PasswdEngine::conclude_lock::<E>,
            (engine, target_uid, locked, outcome),
            result,
        ),
    ensures
        final(engine)@.policy == old(engine)@.policy,
        1 <= final(engine)@.audit.len(),
        final(engine)@.audit.last() == (AuditEvent {
            operation: if locked {
                Operation::Lock
            } else {
                Operation::Unlock
            },
            target_uid,
            success: outcome is Ok,
        }),
        old(engine)@.audit.len() < 32 ==> final(engine)@.audit.drop_last() == old(engine)@.audit,
        old(engine)@.audit.len() == 32 ==> final(engine)@.audit.drop_last() == old(
            engine,
        )@.audit.drop_first(),
        old(engine)@.audit.len() <= 32,
        result is Ok <==> outcome is Ok,
        result is Err ==> result->Err_0 == PasswdError::PermissionDenied,
{
}

/// `PasswdEngine::change_password` asks the database once, with every argument as it
/// was given and with the engine's policy. What the database answers is what is
/// written down and what the caller is told, for every account and every outcome.
pub proof fn law_change_password<'a, D, C, F>(
    engine: &mut PasswdEngine,
    database: D,
    actor: Actor<C>,
    target_uid: u32,
    old_password: Option<&'a [u8]>,
    new_password: &'a [u8],
    confirmation: &'a [u8],
    change: F,
    result: Result<(), PasswdError>,
) where
    F: FnOnce(D, ChangeRequest<'a, C>) -> Result<(), PasswordChangeError>,

    requires
        call_ensures(
            PasswdEngine::change_password::<'a, D, C, F>,
            (
                engine,
                database,
                actor,
                target_uid,
                old_password,
                new_password,
                confirmation,
                change,
            ),
            result,
        ),
    ensures
        exists|outcome: Result<(), PasswordChangeError>|
            {
                &&& #[trigger] call_ensures(
                    change,
                    (
                        database,
                        (ChangeRequest {
                            actor: actor.credentials,
                            target_uid: target_uid,
                            old_password: old_password,
                            new_password: new_password,
                            confirmation: confirmation,
                            policy: old(engine)@.policy,
                        }),
                    ),
                    outcome,
                )
                &&& final(engine)@.audit.last() == (AuditEvent {
                    operation: if actor.account_admin {
                        Operation::Reset
                    } else {
                        Operation::Change
                    },
                    target_uid,
                    success: outcome is Ok,
                })
                &&& result is Ok <==> outcome is Ok
                &&& result is Err ==> result->Err_0 == error::password_error_class(outcome->Err_0)
            },
        final(engine)@.policy == old(engine)@.policy,
        1 <= final(engine)@.audit.len(),
        old(engine)@.audit.len() < 32 ==> final(engine)@.audit.drop_last() == old(engine)@.audit,
        old(engine)@.audit.len() == 32 ==> final(engine)@.audit.drop_last() == old(
            engine,
        )@.audit.drop_first(),
        old(engine)@.audit.len() <= 32,
{
}

/// `PasswdEngine::set_locked` asks the database once, with every argument as it was
/// given. What the database answers is what is written down; the caller is told of
/// a success exactly if it is one, and of a denial otherwise.
pub proof fn law_set_locked<D, C, E, F>(
    engine: &mut PasswdEngine,
    database: D,
    actor: Actor<C>,
    target_uid: u32,
    locked: bool,
    set_locked: F,
    result: Result<(), PasswdError>,
) where F: FnOnce(D, LockRequest<C>) -> Result<(), E>
    requires
        call_ensures(
            PasswdEngine::set_locked::<D, C, E, F>,
            (engine, database, actor, target_uid, locked, set_locked),
            result,
        ),
    ensures
        exists|outcome: Result<(), E>|
            {
                &&& #[trigger] call_ensures(
                    set_locked,
                    (
                        database,
                        (LockRequest {
                            actor: actor.credentials,
                            target_uid: target_uid,
                            locked: locked,
                        }),
                    ),
                    outcome,
                )
                &&& final(engine)@.audit.last() == (AuditEvent {
                    operation: if locked {
                        Operation::Lock
                    } else {
                        Operation::Unlock
                    },
                    target_uid,
                    success: outcome is Ok,
                })
                &&& result is Ok <==> outcome is Ok
                &&& result is Err ==> result->Err_0 == PasswdError::PermissionDenied
            },
        final(engine)@.policy == old(engine)@.policy,
        1 <= final(engine)@.audit.len(),
        old(engine)@.audit.len() < 32 ==> final(engine)@.audit.drop_last() == old(engine)@.audit,
        old(engine)@.audit.len() == 32 ==> final(engine)@.audit.drop_last() == old(
            engine,
        )@.audit.drop_first(),
        old(engine)@.audit.len() <= 32,
{
}

/// `PasswdEngine::commit` has the database replaced once, under the paths that it
/// was given and in their order, and tells the caller of a success exactly if that
/// succeeded, and of the class of a failure.
pub proof fn law_commit<'a, S, D, F>(
    engine: &PasswdEngine,
    storage: S,
    committed_path: &'a [u8],
    temp_path: &'a [u8],
    database: D,
    replace: F,
    result: Result<(), PasswdError>,
) where F: FnOnce(S, &'a [u8], &'a [u8], D) -> Result<(), StorageError>
    requires
        call_ensures(
            PasswdEngine::commit::<'a, S, D, F>,
            (engine, storage, committed_path, temp_path, database, replace),
            result,
        ),
    ensures
        exists|outcome: Result<(), StorageError>|
            {
                &&& #[trigger] call_ensures(
                    replace,
                    (storage, committed_path, temp_path, database),
                    outcome,
                )
                &&& result is Ok <==> outcome is Ok
                &&& result is Err ==> result->Err_0 == error::storage_error_class(outcome->Err_0)
            },
{
}

/// `PasswdEngine::recover` has the database loaded once, from the paths that it was
/// given and in their order, and hands on what was loaded, or the class of a
/// failure.
pub proof fn law_recover<'a, S, T, F>(
    engine: &PasswdEngine,
    storage: S,
    committed_path: &'a [u8],
    temp_path: &'a [u8],
    load: F,
    result: Result<T, PasswdError>,
) where F: FnOnce(S, &'a [u8], &'a [u8]) -> Result<T, StorageError>
    requires
        call_ensures(
            PasswdEngine::recover::<'a, S, T, F>,
            (engine, storage, committed_path, temp_path, load),
            result,
        ),
    ensures
        exists|outcome: Result<T, StorageError>|
            {
                &&& #[trigger] call_ensures(load, (storage, committed_path, temp_path), outcome)
                &&& result is Ok <==> outcome is Ok
                &&& result is Ok ==> result->Ok_0 == outcome->Ok_0
                &&& result is Err ==> result->Err_0 == error::storage_error_class(outcome->Err_0)
            },
{
}

/// `Actor::new` keeps the credentials, and takes their own word for whether they
/// carry the account administration capability.
pub proof fn law_new_actor<C, T: FnOnce(&C) -> bool>(
    credentials: C,
    has_account_admin: T,
    actor: Actor<C>,
)
    requires
        call_ensures(Actor::<C>::new::<T>, (credentials, has_account_admin), actor),
    ensures
        actor.credentials == credentials,
        call_ensures(has_account_admin, (&credentials,), actor.account_admin),
{
}

} // verus!
