//! The world of the smoke run, and what its actions do there.
//!
//! What the account database does is its own business: its four operations are
//! arguments of every function that needs them. Each takes the database or the
//! storage as a value and gives it back, as it then is.

use vstd::prelude::*;
use vstd::slice::slice_to_vec;
use vstd::string::StringSliceAdditionalSpecFns;

use crate::engine;
use crate::engine::{Actor, ChangeRequest, LockRequest, Operation, PasswdEngine};
use crate::error;
use crate::error::{PasswdError, PasswordChangeError, StorageError};
use crate::smoke::run;
use crate::smoke::run::Acts;
use crate::smoke::script;
use crate::smoke::script::{Action, Observation, Recovery, SmokeUser, Step, TARGET_UID};
use crate::smoke::storage::{MemoryStorage, StorageView};

verus! {

/// An engine, the accounts that it administers, the storage under them, and the
/// two who make attempts.
pub struct World<D, C> {
    pub engine: PasswdEngine,
    pub database: D,
    pub storage: MemoryStorage,
    pub alice: Actor<C>,
    pub root: Actor<C>,
}

impl<D, C> World<D, C> {
    /// Who makes the attempts of a user.
    pub open spec fn actor_of(self, user: SmokeUser) -> Actor<C> {
        match user {
            SmokeUser::Alice => self.alice,
            SmokeUser::Root => self.root,
        }
    }

    /// Whether a change request puts an attempt of `user` on the target, with
    /// these passwords and the policy of the engine.
    pub open spec fn asks(
        self,
        request: ChangeRequest<'static, C>,
        user: SmokeUser,
        old_password: Option<&'static str>,
        new_password: &'static str,
        confirmation: &'static str,
    ) -> bool {
        &&& request.actor == self.actor_of(user).credentials
        &&& request.target_uid == TARGET_UID
        &&& match old_password {
            Some(old) => request.old_password is Some && request.old_password->0@
                == old.spec_bytes(),
            None => request.old_password is None,
        }
        &&& request.new_password@ == new_password.spec_bytes()
        &&& request.confirmation@ == confirmation.spec_bytes()
        &&& request.policy == self.engine@.policy
    }

    /// What `set_locked` is asked for an attempt of `user`.
    pub open spec fn lock_request(self, user: SmokeUser, locked: bool) -> LockRequest<C> {
        LockRequest { actor: self.actor_of(user).credentials, target_uid: TARGET_UID, locked }
    }
}

/// Where the answer of a recovery says that the accounts came from.
pub open spec fn origin<D>(answer: Result<(D, Recovery), PasswdError>) -> Result<
    Recovery,
    PasswdError,
> {
    match answer {
        Ok(recovered) => Ok(recovered.1),
        Err(error) => Err(error),
    }
}

/// A change of the target's password: the engine puts it to the database, writes
/// it down and answers.
pub open spec fn changes<D, C, F>(
    change: F,
    before: World<D, C>,
    user: SmokeUser,
    old_password: Option<&'static str>,
    new_password: &'static str,
    confirmation: &'static str,
    after: World<D, C>,
    observation: Observation,
) -> bool where
    F: Fn(D, ChangeRequest<'static, C>) -> (D, Result<(), PasswordChangeError>),
 {
    exists|request: ChangeRequest<'static, C>, outcome: Result<(), PasswordChangeError>|
        {
            &&& #[trigger] call_ensures(
                change,
                (before.database, request),
                (after.database, outcome),
            )
            &&& before.asks(request, user, old_password, new_password, confirmation)
            &&& after.engine@ == before.engine@.changed(
                before.actor_of(user).account_admin,
                request,
                outcome,
            )
            &&& after.storage == before.storage
            &&& observation == Observation::Answer(error::password_result(outcome))
        }
}

/// Locking or unlocking the target: the engine puts it to the database, writes it
/// down and answers.
pub open spec fn locks<D, C, E, G>(
    set_locked: G,
    before: World<D, C>,
    user: SmokeUser,
    locked: bool,
    after: World<D, C>,
    observation: Observation,
) -> bool where G: Fn(D, LockRequest<C>) -> (D, Result<(), E>) {
    exists|outcome: Result<(), E>|
        {
            &&& #[trigger] call_ensures(
                set_locked,
                (before.database, before.lock_request(user, locked)),
                (after.database, outcome),
            )
            &&& after.engine@ == before.engine@.recorded(
                engine::lock_operation(locked),
                TARGET_UID,
                outcome is Ok,
            )
            &&& after.storage == before.storage
            &&& observation == Observation::Answer(engine::lock_result(outcome))
        }
}

/// A commit: the engine has the database replaced in the storage and answers.
pub open spec fn commits<D, C, H>(
    replace: H,
    before: World<D, C>,
    committed_path: &'static str,
    temp_path: &'static str,
    after: World<D, C>,
    observation: Observation,
) -> bool where
    H: Fn(MemoryStorage, &[u8], &[u8], &D) -> (MemoryStorage, Result<(), StorageError>),
 {
    exists|committed: &[u8], temporary: &[u8], outcome: Result<(), StorageError>|
        {
            &&& #[trigger] call_ensures(
                replace,
                (before.storage, committed, temporary, &before.database),
                (after.storage, outcome),
            )
            &&& committed@ == committed_path.spec_bytes()
            &&& temporary@ == temp_path.spec_bytes()
            &&& after.engine@ == before.engine@
            &&& after.database == before.database
            &&& observation == Observation::Answer(error::storage_result(outcome))
        }
}

/// A recovery from the given files: they are put into the storage, then the
/// engine has the accounts loaded from it and answers. The accounts that were
/// loaded are not taken over.
pub open spec fn recovers<D, C, L>(
    load: L,
    before: World<D, C>,
    files: (&'static str, &'static str),
    committed_path: &'static str,
    temp_path: &'static str,
    after: World<D, C>,
    observation: Observation,
) -> bool where
    L: Fn(MemoryStorage, &[u8], &[u8]) -> (MemoryStorage, Result<(D, Recovery), StorageError>),
 {
    exists|
        storage: MemoryStorage,
        committed: &[u8],
        temporary: &[u8],
        outcome: Result<(D, Recovery), StorageError>,
    |
        {
            &&& #[trigger] call_ensures(
                load,
                (storage, committed, temporary),
                (after.storage, outcome),
            )
            &&& storage@ == (StorageView {
                committed: Some(files.0.spec_bytes()),
                temporary: Some(files.1.spec_bytes()),
                locked: before.storage@.locked,
            })
            &&& committed@ == committed_path.spec_bytes()
            &&& temporary@ == temp_path.spec_bytes()
            &&& after.engine@ == before.engine@
            &&& after.database == before.database
            &&& observation == Observation::Recovered(origin(error::storage_result(outcome)))
        }
}

/// What an action does in the world. A milestone and the end of a run do nothing
/// there, and are not performed.
pub open spec fn acted<D, C, E, F, G, H, L>(
    change: F,
    set_locked: G,
    replace: H,
    load: L,
    before: World<D, C>,
    action: Action,
    after: World<D, C>,
    observation: Observation,
) -> bool where
    F: Fn(D, ChangeRequest<'static, C>) -> (D, Result<(), PasswordChangeError>),
    G: Fn(D, LockRequest<C>) -> (D, Result<(), E>),
    H: Fn(MemoryStorage, &[u8], &[u8], &D) -> (MemoryStorage, Result<(), StorageError>),
    L: Fn(MemoryStorage, &[u8], &[u8]) -> (MemoryStorage, Result<(D, Recovery), StorageError>),
 {
    &&& after.alice == before.alice
    &&& after.root == before.root
    &&& match action {
        Action::ChangePassword { user, old_password, new_password, confirmation } => changes(
            change,
            before,
            user,
            old_password,
            new_password,
            confirmation,
            after,
            observation,
        ),
        Action::SetLocked { user, locked } => locks(
            set_locked,
            before,
            user,
            locked,
            after,
            observation,
        ),
        Action::LockStorage => {
            &&& after.engine@ == before.engine@
            &&& after.database == before.database
            &&& after.storage@ == before.storage@.with_lock(true)
            &&& observation == Observation::Storage(before.storage@.lock_answer())
        },
        Action::UnlockStorage => {
            &&& after.engine@ == before.engine@
            &&& after.database == before.database
            &&& after.storage@ == before.storage@.with_lock(false)
            &&& observation == Observation::Storage(Ok(()))
        },
        Action::Commit { committed_path, temp_path } => commits(
            replace,
            before,
            committed_path,
            temp_path,
            after,
            observation,
        ),
        Action::Recover { committed, temporary, committed_path, temp_path } => recovers(
            load,
            before,
            (committed, temporary),
            committed_path,
            temp_path,
            after,
            observation,
        ),
        Action::CountAudit => {
            &&& after == before
            &&& observation == Observation::Counted(before.engine@.audit.len() as usize)
        },
        Action::Mark { .. } => false,
        Action::Finish { .. } => false,
    }
}

/// What actions may do in the world, given the database's operations.
pub open spec fn acts_in<D, C, E, F, G, H, L>(
    change: F,
    set_locked: G,
    replace: H,
    load: L,
) -> Acts<World<D, C>> where
    F: Fn(D, ChangeRequest<'static, C>) -> (D, Result<(), PasswordChangeError>),
    G: Fn(D, LockRequest<C>) -> (D, Result<(), E>),
    H: Fn(MemoryStorage, &[u8], &[u8], &D) -> (MemoryStorage, Result<(), StorageError>),
    L: Fn(MemoryStorage, &[u8], &[u8]) -> (MemoryStorage, Result<(D, Recovery), StorageError>),
 {
    |before: World<D, C>, action: Action, after: World<D, C>, observation: Observation|
        acted(change, set_locked, replace, load, before, action, after, observation)
}

impl<D, C: Copy> World<D, C> {
    /// A world whose storage is still empty.
    pub fn new(engine: PasswdEngine, database: D, alice: Actor<C>, root: Actor<C>) -> (world: World<
        D,
        C,
    >)
        ensures
            world.engine == engine,
            world.database == database,
            world.storage@ == (StorageView { committed: None, temporary: None, locked: false }),
            world.alice == alice,
            world.root == root,
    {
        World { engine, database, storage: MemoryStorage::default(), alice, root }
    }

    fn actor(&self, user: SmokeUser) -> (actor: Actor<C>)
        ensures
            actor == self.actor_of(user),
    {
        match user {
            SmokeUser::Alice => self.alice,
            SmokeUser::Root => self.root,
        }
    }

    fn change_password<F>(
        self,
        user: SmokeUser,
        old_password: Option<&'static str>,
        new_password: &'static str,
        confirmation: &'static str,
        change: &F,
    ) -> (result: (World<D, C>, Observation)) where
        F: Fn(D, ChangeRequest<'static, C>) -> (D, Result<(), PasswordChangeError>),

        requires
            forall|database: D, request: ChangeRequest<'static, C>| #[trigger]
                call_requires(*change, (database, request)),
        ensures
            result.0.alice == self.alice,
            result.0.root == self.root,
            changes(
                *change,
                self,
                user,
                old_password,
                new_password,
                confirmation,
                result.0,
                result.1,
            ),
    {
        let actor = self.actor(user);
        let World { mut engine, database, storage, alice, root } = self;
        let old_bytes: Option<&'static [u8]> = match old_password {
            Some(old) => Some(old.as_bytes()),
            None => None,
        };
        let mut slot: Option<D> = Some(database);
        let answer = engine.change_password(
            &mut slot,
            actor,
            TARGET_UID,
            old_bytes,
            new_password.as_bytes(),
            confirmation.as_bytes(),
            |slot: &mut Option<D>, request: ChangeRequest<'static, C>| -> (outcome: Result<(), PasswordChangeError>)
                requires
                    *old(slot) is Some,
                ensures
                    *final(slot) is Some,
                    call_ensures(
                        *change,
                        ((*old(slot))->0, request),
                        ((*final(slot))->0, outcome),
                    )
                {
                    let database = slot.take().unwrap();
                    let (database, outcome) = change(database, request);
                    *slot = Some(database);
                    outcome
                },
        );
        let database = slot.unwrap();
        (World { engine, database, storage, alice, root }, Observation::Answer(answer))
    }

    fn set_locked<E, G>(self, user: SmokeUser, locked: bool, set_locked: &G) -> (result: (
        World<D, C>,
        Observation,
    )) where G: Fn(D, LockRequest<C>) -> (D, Result<(), E>)
        requires
            forall|database: D, request: LockRequest<C>| #[trigger]
                call_requires(*set_locked, (database, request)),
        ensures
            result.0.alice == self.alice,
            result.0.root == self.root,
            locks(*set_locked, self, user, locked, result.0, result.1),
    {
        let actor = self.actor(user);
        let World { mut engine, database, storage, alice, root } = self;
        let mut slot: Option<D> = Some(database);
        let answer = engine.set_locked(
            &mut slot,
            actor,
            TARGET_UID,
            locked,
            |slot: &mut Option<D>, request: LockRequest<C>| -> (outcome: Result<(), E>)
                requires
                    *old(slot) is Some,
                ensures
                    *final(slot) is Some,
                    call_ensures(
                        *set_locked,
                        ((*old(slot))->0, request),
                        ((*final(slot))->0, outcome),
                    )
                {
                    let database = slot.take().unwrap();
                    let (database, outcome) = set_locked(database, request);
                    *slot = Some(database);
                    outcome
                },
        );
        let database = slot.unwrap();
        (World { engine, database, storage, alice, root }, Observation::Answer(answer))
    }

    fn commit<H>(
        self,
        committed_path: &'static str,
        temp_path: &'static str,
        replace: &H,
    ) -> (result: (World<D, C>, Observation)) where
        H: Fn(MemoryStorage, &[u8], &[u8], &D) -> (MemoryStorage, Result<(), StorageError>),

        requires
            forall|storage: MemoryStorage, committed: &[u8], temporary: &[u8], database: &D|
             #[trigger]
                call_requires(*replace, (storage, committed, temporary, database)),
        ensures
            result.0.alice == self.alice,
            result.0.root == self.root,
            commits(*replace, self, committed_path, temp_path, result.0, result.1),
    {
        let World { engine, database, storage, alice, root } = self;
        let mut slot: Option<MemoryStorage> = Some(storage);
        let answer = engine.commit(
            &mut slot,
            committed_path.as_bytes(),
            temp_path.as_bytes(),
            &database,
            |slot: &mut Option<MemoryStorage>, committed: &[u8], temporary: &[u8], database: &D|
             -> (outcome: Result<(), StorageError>)
                requires
                    *old(slot) is Some,
                ensures
                    *final(slot) is Some,
                    call_ensures(
                        *replace,
                        ((*old(slot))->0, committed, temporary, database),
                        ((*final(slot))->0, outcome),
                    )
                {
                    let storage = slot.take().unwrap();
                    let (storage, outcome) = replace(storage, committed, temporary, database);
                    *slot = Some(storage);
                    outcome
                },
        );
        let storage = slot.unwrap();
        (World { engine, database, storage, alice, root }, Observation::Answer(answer))
    }

    fn recover<L>(
        self,
        committed: &'static str,
        temporary: &'static str,
        committed_path: &'static str,
        temp_path: &'static str,
        load: &L,
    ) -> (result: (World<D, C>, Observation)) where
        L: Fn(MemoryStorage, &[u8], &[u8]) -> (MemoryStorage, Result<(D, Recovery), StorageError>),

        requires
            forall|storage: MemoryStorage, committed: &[u8], temporary: &[u8]| #[trigger]
                call_requires(*load, (storage, committed, temporary)),
        ensures
            result.0.alice == self.alice,
            result.0.root == self.root,
            recovers(
                *load,
                self,
                (committed, temporary),
                committed_path,
                temp_path,
                result.0,
                result.1,
            ),
    {
        let World { engine, database, mut storage, alice, root } = self;
        storage.committed = Some(slice_to_vec(committed.as_bytes()));
        storage.temporary = Some(slice_to_vec(temporary.as_bytes()));
        let mut slot: Option<MemoryStorage> = Some(storage);
        let answer = engine.recover(
            &mut slot,
            committed_path.as_bytes(),
            temp_path.as_bytes(),
            |slot: &mut Option<MemoryStorage>, committed: &[u8], temporary: &[u8]|
             -> (outcome: Result<(D, Recovery), StorageError>)
                requires
                    *old(slot) is Some,
                ensures
                    *final(slot) is Some,
                    call_ensures(
                        *load,
                        ((*old(slot))->0, committed, temporary),
                        ((*final(slot))->0, outcome),
                    )
                {
                    let storage = slot.take().unwrap();
                    let (storage, outcome) = load(storage, committed, temporary);
                    *slot = Some(storage);
                    outcome
                },
        );
        let storage = slot.unwrap();
        let recovered = match answer {
            Ok(recovered) => Ok(recovered.1),
            Err(error) => Err(error),
        };
        (World { engine, database, storage, alice, root }, Observation::Recovered(recovered))
    }

    /// Does what an action asks for, and says what came of it.
    pub fn perform<E, F, G, H, L>(
        self,
        action: Action,
        change: &F,
        set_locked: &G,
        replace: &H,
        load: &L,
    ) -> (result: (World<D, C>, Observation)) where
        F: Fn(D, ChangeRequest<'static, C>) -> (D, Result<(), PasswordChangeError>),
        G: Fn(D, LockRequest<C>) -> (D, Result<(), E>),
        H: Fn(MemoryStorage, &[u8], &[u8], &D) -> (MemoryStorage, Result<(), StorageError>),
        L: Fn(MemoryStorage, &[u8], &[u8]) -> (MemoryStorage, Result<(D, Recovery), StorageError>),

        requires
            !(action is Mark),
            !(action is Finish),
            forall|database: D, request: ChangeRequest<'static, C>| #[trigger]
                call_requires(*change, (database, request)),
            forall|database: D, request: LockRequest<C>| #[trigger]
                call_requires(*set_locked, (database, request)),
            forall|storage: MemoryStorage, committed: &[u8], temporary: &[u8], database: &D|
             #[trigger]
                call_requires(*replace, (storage, committed, temporary, database)),
            forall|storage: MemoryStorage, committed: &[u8], temporary: &[u8]| #[trigger]
                call_requires(*load, (storage, committed, temporary)),
        ensures
            acted(*change, *set_locked, *replace, *load, self, action, result.0, result.1),
    {
        let mut world = self;
        match action {
            Action::ChangePassword { user, old_password, new_password, confirmation } => {
                world.change_password(user, old_password, new_password, confirmation, change)
            },
            Action::SetLocked { user, locked } => world.set_locked(user, locked, set_locked),
            Action::LockStorage => {
                let answer = world.storage.lock();
                (world, Observation::Storage(answer))
            },
            Action::UnlockStorage => {
                let answer = world.storage.unlock();
                (world, Observation::Storage(answer))
            },
            Action::Commit { committed_path, temp_path } => {
                world.commit(committed_path, temp_path, replace)
            },
            Action::Recover { committed, temporary, committed_path, temp_path } => {
                world.recover(committed, temporary, committed_path, temp_path, load)
            },
            Action::CountAudit => {
                let events = world.engine.audit().len();
                (world, Observation::Counted(events))
            },
            Action::Mark { .. } | Action::Finish { .. } => vstd::pervasive::unreached(),
        }
    }
}

/// Runs the scenario in a world, and says whether it passed.
pub fn run_smoke<D, C: Copy, E, F, G, H, L, O, W>(
    world: World<D, C>,
    change: &F,
    set_locked: &G,
    replace: &H,
    load: &L,
    output: O,
    write: &W,
) -> (result: (World<D, C>, O, bool)) where
    F: Fn(D, ChangeRequest<'static, C>) -> (D, Result<(), PasswordChangeError>),
    G: Fn(D, LockRequest<C>) -> (D, Result<(), E>),
    H: Fn(MemoryStorage, &[u8], &[u8], &D) -> (MemoryStorage, Result<(), StorageError>),
    L: Fn(MemoryStorage, &[u8], &[u8]) -> (MemoryStorage, Result<(D, Recovery), StorageError>),
    W: Fn(O, &[u8]) -> (O, Option<usize>),

    requires
        forall|database: D, request: ChangeRequest<'static, C>| #[trigger]
            call_requires(*change, (database, request)),
        forall|database: D, request: LockRequest<C>| #[trigger]
            call_requires(*set_locked, (database, request)),
        forall|storage: MemoryStorage, committed: &[u8], temporary: &[u8], database: &D|
         #[trigger]
            call_requires(*replace, (storage, committed, temporary, database)),
        forall|storage: MemoryStorage, committed: &[u8], temporary: &[u8]| #[trigger]
            call_requires(*load, (storage, committed, temporary)),
        forall|state: O, chunk: &[u8]| #[trigger] call_requires(*write, (state, chunk)),
    ensures
        run::runs(
            acts_in(*change, *set_locked, *replace, *load),
            *write,
            (world, output),
            (result.0, result.1),
            result.2,
        ),
{
    let perform = |world: World<D, C>, action: Action| -> (result: (World<D, C>, Observation))
        requires
            !(action is Mark) && !(action is Finish),
        ensures
            acted(*change, *set_locked, *replace, *load, world, action, result.0, result.1)
        { world.perform(action, change, set_locked, replace, load) };
    let result = run::run(world, &perform, output, write);
    proof {
        run::lemma_more_acts(
            run::acts_of(perform),
            acts_in(*change, *set_locked, *replace, *load),
            *write,
            (world, output),
            (result.0, result.1),
            result.2,
        );
    }
    result
}

/// How many of these steps are attempts that are audited.
pub open spec fn attempts(steps: Seq<Step>) -> nat
    decreases steps.len(),
{
    if steps.len() == 0 {
        0
    } else {
        let earlier = attempts(steps.drop_last());
        match steps.last().action {
            Action::ChangePassword { .. } => earlier + 1,
            Action::SetLocked { .. } => earlier + 1,
            _ => earlier,
        }
    }
}

proof fn lemma_attempts_grow(steps: Seq<Step>, n: int)
    requires
        0 <= n <= steps.len(),
    ensures
        attempts(steps.take(n)) <= attempts(steps),
    decreases steps.len(),
{
    if n == steps.len() {
        assert(steps.take(n) =~= steps);
    } else {
        lemma_attempts_grow(steps.drop_last(), n);
        assert(steps.drop_last().take(n) =~= steps.take(n));
    }
}

#[verifier::spinoff_prover]
proof fn lemma_attempts_in_all()
    ensures
        attempts(script::script()) == 8,
{
    reveal_with_fuel(attempts, 29);
}

#[verifier::spinoff_prover]
proof fn lemma_attempts_of_the_scenario(i: int)
    requires
        0 <= i < script::script().len(),
    ensures
        attempts(script::script()) == 8,
        script::script()[i].action is CountAudit ==> attempts(script::script().take(i)) == 8,
{
    let steps = script::script();
    lemma_attempts_in_all();
    if steps[i].action is CountAudit {
        let all_but_one = steps.drop_last();
        assert(i == steps.len() - 2);
        assert(steps.last().action is Mark);
        assert(attempts(steps) == attempts(all_but_one));
        assert(all_but_one.last() == steps[i]);
        assert(attempts(all_but_one) == attempts(all_but_one.drop_last()));
        assert(steps.take(i) =~= all_but_one.drop_last());
    }
}

proof fn lemma_trail_of_a_run<D, C, E, F, G, H, L, O, W>(
    change: F,
    set_locked: G,
    replace: H,
    load: L,
    write: W,
    stages: Seq<(World<D, C>, O)>,
    observations: Seq<Observation>,
    n: int,
) where
    F: Fn(D, ChangeRequest<'static, C>) -> (D, Result<(), PasswordChangeError>),
    G: Fn(D, LockRequest<C>) -> (D, Result<(), E>),
    H: Fn(MemoryStorage, &[u8], &[u8], &D) -> (MemoryStorage, Result<(), StorageError>),
    L: Fn(MemoryStorage, &[u8], &[u8]) -> (MemoryStorage, Result<(D, Recovery), StorageError>),
    W: Fn(O, &[u8]) -> (O, Option<usize>),

    requires
        run::stages_of(acts_in(change, set_locked, replace, load), write, stages, observations),
        stages[0].0.engine@.audit.len() == 0,
        0 <= n <= observations.len(),
    ensures
        stages[n].0.engine@.audit.len() == attempts(script::script().take(n)),
        stages[n].0.engine@.policy == stages[0].0.engine@.policy,
        stages[n].0.alice == stages[0].0.alice,
        stages[n].0.root == stages[0].0.root,
    decreases n,
{
    let steps = script::script();
    if n == 0 {
        assert(steps.take(0) =~= Seq::empty());
    } else {
        let k = n - 1;
        lemma_trail_of_a_run(
            change,
            set_locked,
            replace,
            load,
            write,
            stages,
            observations,
            k,
        );
        lemma_attempts_of_the_scenario(k);
        lemma_attempts_grow(steps, n);
        assert(steps.take(n).drop_last() =~= steps.take(k));
        let seen = observations[k];
        assert(run::performed(
            acts_in(change, set_locked, replace, load),
            write,
            steps[k].action,
            stages[k],
            seen,
            stages[n],
        ));
    }
}

/// A run that starts on an empty trail counts every attempt that it made, and
/// nothing else, whatever the database answered to them. The policy and the two
/// who make the attempts are the same throughout.
pub proof fn law_count_sees_every_attempt<D, C, E, F, G, H, L, O, W>(
    change: F,
    set_locked: G,
    replace: H,
    load: L,
    write: W,
    stages: Seq<(World<D, C>, O)>,
    observations: Seq<Observation>,
    i: int,
) where
    F: Fn(D, ChangeRequest<'static, C>) -> (D, Result<(), PasswordChangeError>),
    G: Fn(D, LockRequest<C>) -> (D, Result<(), E>),
    H: Fn(MemoryStorage, &[u8], &[u8], &D) -> (MemoryStorage, Result<(), StorageError>),
    L: Fn(MemoryStorage, &[u8], &[u8]) -> (MemoryStorage, Result<(D, Recovery), StorageError>),
    W: Fn(O, &[u8]) -> (O, Option<usize>),

    requires
        run::stages_of(acts_in(change, set_locked, replace, load), write, stages, observations),
        stages[0].0.engine@.audit.len() == 0,
        0 <= i < observations.len(),
    ensures
        stages[i].0.engine@.audit.len() == attempts(script::script().take(i)),
        script::script()[i].action is CountAudit ==> observations[i] == Observation::Counted(8),
        stages[i].0.engine@.policy == stages[0].0.engine@.policy,
        stages[i].0.alice == stages[0].0.alice,
        stages[i].0.root == stages[0].0.root,
{
    lemma_trail_of_a_run(change, set_locked, replace, load, write, stages, observations, i);
    lemma_attempts_of_the_scenario(i);
    let seen = observations[i];
    assert(run::performed(
        acts_in(change, set_locked, replace, load),
        write,
        script::script()[i].action,
        stages[i],
        seen,
        stages[i + 1],
    ));
}

/// The policy and the two who make the attempts are the same throughout a run,
/// whatever trail it starts on and whatever the database answers.
pub proof fn law_world_keeps_its_policy_and_actors<D, C, E, F, G, H, L, O, W>(
    change: F,
    set_locked: G,
    replace: H,
    load: L,
    write: W,
    stages: Seq<(World<D, C>, O)>,
    observations: Seq<Observation>,
    n: int,
) where
    F: Fn(D, ChangeRequest<'static, C>) -> (D, Result<(), PasswordChangeError>),
    G: Fn(D, LockRequest<C>) -> (D, Result<(), E>),
    H: Fn(MemoryStorage, &[u8], &[u8], &D) -> (MemoryStorage, Result<(), StorageError>),
    L: Fn(MemoryStorage, &[u8], &[u8]) -> (MemoryStorage, Result<(D, Recovery), StorageError>),
    W: Fn(O, &[u8]) -> (O, Option<usize>),

    requires
        run::stages_of(acts_in(change, set_locked, replace, load), write, stages, observations),
        0 <= n <= observations.len(),
    ensures
        stages[n].0.engine@.policy == stages[0].0.engine@.policy,
        stages[n].0.alice == stages[0].0.alice,
        stages[n].0.root == stages[0].0.root,
    decreases n,
{
    if n > 0 {
        let k = n - 1;
        law_world_keeps_its_policy_and_actors(
            change,
            set_locked,
            replace,
            load,
            write,
            stages,
            observations,
            k,
        );
        let seen = observations[k];
        assert(run::performed(
            acts_in(change, set_locked, replace, load),
            write,
            script::script()[k].action,
            stages[k],
            seen,
            stages[n],
        ));
    }
}

/// What a password change does in the world, from the request that the database
/// gets to what is observed.
///
/// The database gets the credentials of the user who makes the attempt, the account
/// 1000, the three passwords as they stand in the action, and the engine's policy.
/// The trail gets one event, about that account, of the user's kind and with the
/// database's verdict, which is also what is observed. Nothing else changes.
pub proof fn law_change_in_the_world<D, C, E, F, G, H, L>(
    change: F,
    set_locked: G,
    replace: H,
    load: L,
    before: World<D, C>,
    action: Action,
    after: World<D, C>,
    observation: Observation,
) -> (call: (ChangeRequest<'static, C>, Result<(), PasswordChangeError>)) where
    F: Fn(D, ChangeRequest<'static, C>) -> (D, Result<(), PasswordChangeError>),
    G: Fn(D, LockRequest<C>) -> (D, Result<(), E>),
    H: Fn(MemoryStorage, &[u8], &[u8], &D) -> (MemoryStorage, Result<(), StorageError>),
    L: Fn(MemoryStorage, &[u8], &[u8]) -> (MemoryStorage, Result<(D, Recovery), StorageError>),

    requires
        acted(change, set_locked, replace, load, before, action, after, observation),
        action is ChangePassword,
        before.engine@.audit.len() <= 32,
    ensures
        ({
            let (request, outcome) = call;
            let actor = if action->ChangePassword_user == SmokeUser::Root {
                before.root
            } else {
                before.alice
            };
            let trail = after.engine@.audit;
            &&& call_ensures(change, (before.database, request), (after.database, outcome))
            &&& request.actor == actor.credentials
            &&& request.target_uid == 1000
            &&& action->old_password is None <==> request.old_password is None
            &&& action->old_password is Some ==> request.old_password->0@
                == action->old_password->0.spec_bytes()
            &&& request.new_password@ == action->new_password.spec_bytes()
            &&& request.confirmation@ == action->confirmation.spec_bytes()
            &&& request.policy == before.engine@.policy
            &&& observation is Answer
            &&& outcome is Ok <==> observation == Observation::Answer(Ok(()))
            &&& outcome is Err ==> observation == Observation::Answer(
                Err(error::password_error_class(outcome->Err_0)),
            )
            &&& trail.len() == if before.engine@.audit.len() == 32 {
                32
            } else {
                before.engine@.audit.len() + 1
            }
            &&& trail.last().target_uid == 1000
            &&& trail.last().success <==> observation == Observation::Answer(Ok(()))
            &&& trail.last().operation == Operation::Reset <==> actor.account_admin
            &&& trail.last().operation == Operation::Change <==> !actor.account_admin
            &&& before.engine@.audit.len() < 32 ==> trail.drop_last() == before.engine@.audit
            &&& before.engine@.audit.len() == 32 ==> trail.drop_last()
                == before.engine@.audit.drop_first()
            &&& after.engine@.policy == before.engine@.policy
            &&& after.storage == before.storage
            &&& after.alice == before.alice
            &&& after.root == before.root
        }),
{
    let user = action->ChangePassword_user;
    let (request, outcome) = choose|
        request: ChangeRequest<'static, C>,
        outcome: Result<(), PasswordChangeError>,
    |
        {
            &&& #[trigger] call_ensures(
                change,
                (before.database, request),
                (after.database, outcome),
            )
            &&& before.asks(
                request,
                user,
                action->old_password,
                action->new_password,
                action->confirmation,
            )
            &&& after.engine@ == before.engine@.changed(
                before.actor_of(user).account_admin,
                request,
                outcome,
            )
            &&& after.storage == before.storage
            &&& observation == Observation::Answer(error::password_result(outcome))
        };
    engine::law_change_is_written_down_as_it_was(
        before.engine@,
        before.actor_of(user).account_admin,
        request,
        outcome,
    );
    if outcome is Ok {
        assert(error::password_result(outcome) == Ok::<(), PasswdError>(()));
    }
    (request, outcome)
}

/// What locking or unlocking does in the world, from the request that the database
/// gets to what is observed. As with a password change, nothing changes but the
/// database and one event of the trail.
pub proof fn law_lock_in_the_world<D, C, E, F, G, H, L>(
    change: F,
    set_locked: G,
    replace: H,
    load: L,
    before: World<D, C>,
    action: Action,
    after: World<D, C>,
    observation: Observation,
) -> (outcome: Result<(), E>) where
    F: Fn(D, ChangeRequest<'static, C>) -> (D, Result<(), PasswordChangeError>),
    G: Fn(D, LockRequest<C>) -> (D, Result<(), E>),
    H: Fn(MemoryStorage, &[u8], &[u8], &D) -> (MemoryStorage, Result<(), StorageError>),
    L: Fn(MemoryStorage, &[u8], &[u8]) -> (MemoryStorage, Result<(D, Recovery), StorageError>),

    requires
        acted(change, set_locked, replace, load, before, action, after, observation),
        action is SetLocked,
        before.engine@.audit.len() <= 32,
    ensures
        ({
            let actor = if action->SetLocked_user == SmokeUser::Root {
                before.root
            } else {
                before.alice
            };
            let request = LockRequest {
                actor: actor.credentials,
                target_uid: 1000,
                locked: action->locked,
            };
            let trail = after.engine@.audit;
            &&& call_ensures(set_locked, (before.database, request), (after.database, outcome))
            &&& outcome is Ok <==> observation == Observation::Answer(Ok(()))
            &&& outcome is Err <==> observation == Observation::Answer(
                Err(PasswdError::PermissionDenied),
            )
            &&& trail.len() == if before.engine@.audit.len() == 32 {
                32
            } else {
                before.engine@.audit.len() + 1
            }
            &&& trail.last().target_uid == 1000
            &&& trail.last().success <==> outcome is Ok
            &&& trail.last().operation == Operation::Lock <==> action->locked
            &&& trail.last().operation == Operation::Unlock <==> !action->locked
            &&& before.engine@.audit.len() < 32 ==> trail.drop_last() == before.engine@.audit
            &&& before.engine@.audit.len() == 32 ==> trail.drop_last()
                == before.engine@.audit.drop_first()
            &&& after.engine@.policy == before.engine@.policy
            &&& after.storage == before.storage
            &&& after.alice == before.alice
            &&& after.root == before.root
        }),
{
    let user = action->SetLocked_user;
    let locked = action->locked;
    let outcome = choose|outcome: Result<(), E>|
        {
            &&& #[trigger] call_ensures(
                set_locked,
                (before.database, before.lock_request(user, locked)),
                (after.database, outcome),
            )
            &&& after.engine@ == before.engine@.recorded(
                engine::lock_operation(locked),
                TARGET_UID,
                outcome is Ok,
            )
            &&& after.storage == before.storage
            &&& observation == Observation::Answer(engine::lock_result(outcome))
        };
    engine::law_attempt_is_written_down(
        before.engine@,
        engine::lock_operation(locked),
        TARGET_UID,
        outcome is Ok,
    );
    engine::law_lock_is_reported_as_it_was(locked, outcome);
    outcome
}

/// What a commit does in the world: the database is replaced in the storage under
/// the two paths, the committed one first, and its outcome is what is observed.
/// Engine, accounts and users stay as they are.
pub proof fn law_commit_in_the_world<'a, D, C, E, F, G, H, L>(
    change: F,
    set_locked: G,
    replace: H,
    load: L,
    before: World<D, C>,
    action: Action,
    after: World<D, C>,
    observation: Observation,
) -> (call: (&'a [u8], &'a [u8], Result<(), StorageError>)) where
    F: Fn(D, ChangeRequest<'static, C>) -> (D, Result<(), PasswordChangeError>),
    G: Fn(D, LockRequest<C>) -> (D, Result<(), E>),
    H: Fn(MemoryStorage, &[u8], &[u8], &D) -> (MemoryStorage, Result<(), StorageError>),
    L: Fn(MemoryStorage, &[u8], &[u8]) -> (MemoryStorage, Result<(D, Recovery), StorageError>),

    requires
        acted(change, set_locked, replace, load, before, action, after, observation),
        action is Commit,
    ensures
        ({
            let (committed, temporary, outcome) = call;
            &&& call_ensures(
                replace,
                (before.storage, committed, temporary, &before.database),
                (after.storage, outcome),
            )
            &&& committed@ == action->Commit_committed_path.spec_bytes()
            &&& temporary@ == action->Commit_temp_path.spec_bytes()
            &&& outcome is Ok <==> observation == Observation::Answer(Ok(()))
            &&& outcome is Err ==> observation == Observation::Answer(
                Err(error::storage_error_class(outcome->Err_0)),
            )
            &&& after.engine@ == before.engine@
            &&& after.database == before.database
            &&& after.alice == before.alice
            &&& after.root == before.root
        }),
{
    let (committed, temporary, outcome) = choose|
        committed: &[u8],
        temporary: &[u8],
        outcome: Result<(), StorageError>,
    |
        {
            &&& #[trigger] call_ensures(
                replace,
                (before.storage, committed, temporary, &before.database),
                (after.storage, outcome),
            )
            &&& committed@ == action->Commit_committed_path.spec_bytes()
            &&& temporary@ == action->Commit_temp_path.spec_bytes()
            &&& after.engine@ == before.engine@
            &&& after.database == before.database
            &&& observation == Observation::Answer(error::storage_result(outcome))
        };
    if outcome is Ok {
        assert(error::storage_result(outcome) == Ok::<(), PasswdError>(()));
    }
    (committed, temporary, outcome)
}

/// What a recovery does in the world: the two files of the action are in the
/// storage, whose lock is as before, when the accounts are loaded from the two
/// paths, the committed one first. Where they came from, or the class of the
/// failure, is observed. Engine, accounts and users stay as they are.
pub proof fn law_recovery_in_the_world<'a, D, C, E, F, G, H, L>(
    change: F,
    set_locked: G,
    replace: H,
    load: L,
    before: World<D, C>,
    action: Action,
    after: World<D, C>,
    observation: Observation,
) -> (call: (MemoryStorage, &'a [u8], &'a [u8], Result<(D, Recovery), StorageError>)) where
    F: Fn(D, ChangeRequest<'static, C>) -> (D, Result<(), PasswordChangeError>),
    G: Fn(D, LockRequest<C>) -> (D, Result<(), E>),
    H: Fn(MemoryStorage, &[u8], &[u8], &D) -> (MemoryStorage, Result<(), StorageError>),
    L: Fn(MemoryStorage, &[u8], &[u8]) -> (MemoryStorage, Result<(D, Recovery), StorageError>),

    requires
        acted(change, set_locked, replace, load, before, action, after, observation),
        action is Recover,
    ensures
        ({
            let (storage, committed, temporary, outcome) = call;
            &&& call_ensures(load, (storage, committed, temporary), (after.storage, outcome))
            &&& storage@.committed == Some(action->committed.spec_bytes())
            &&& storage@.temporary == Some(action->temporary.spec_bytes())
            &&& storage@.locked == before.storage@.locked
            &&& committed@ == action->Recover_committed_path.spec_bytes()
            &&& temporary@ == action->Recover_temp_path.spec_bytes()
            &&& outcome is Ok ==> observation == Observation::Recovered(Ok(outcome->Ok_0.1))
            &&& outcome is Err ==> observation == Observation::Recovered(
                Err(error::storage_error_class(outcome->Err_0)),
            )
            &&& after.engine@ == before.engine@
            &&& after.database == before.database
            &&& after.alice == before.alice
            &&& after.root == before.root
        }),
{
    let (storage, committed, temporary, outcome) = choose|
        storage: MemoryStorage,
        committed: &[u8],
        temporary: &[u8],
        outcome: Result<(D, Recovery), StorageError>,
    |
        {
            &&& #[trigger] call_ensures(
                load,
                (storage, committed, temporary),
                (after.storage, outcome),
            )
            &&& storage@ == (StorageView {
                committed: Some(action->committed.spec_bytes()),
                temporary: Some(action->temporary.spec_bytes()),
                locked: before.storage@.locked,
            })
            &&& committed@ == action->Recover_committed_path.spec_bytes()
            &&& temporary@ == action->Recover_temp_path.spec_bytes()
            &&& after.engine@ == before.engine@
            &&& after.database == before.database
            &&& observation == Observation::Recovered(origin(error::storage_result(outcome)))
        };
    (storage, committed, temporary, outcome)
}

/// What the other actions do in the world. Taking the storage's lock succeeds
/// exactly if it is free, and it is taken then; giving it back always succeeds.
/// Counting changes nothing and gives the length of the trail. Milestones and the
/// end of a run are not performed in the world.
pub proof fn law_other_actions_in_the_world<D, C, E, F, G, H, L>(
    change: F,
    set_locked: G,
    replace: H,
    load: L,
    before: World<D, C>,
    action: Action,
    after: World<D, C>,
    observation: Observation,
) where
    F: Fn(D, ChangeRequest<'static, C>) -> (D, Result<(), PasswordChangeError>),
    G: Fn(D, LockRequest<C>) -> (D, Result<(), E>),
    H: Fn(MemoryStorage, &[u8], &[u8], &D) -> (MemoryStorage, Result<(), StorageError>),
    L: Fn(MemoryStorage, &[u8], &[u8]) -> (MemoryStorage, Result<(D, Recovery), StorageError>),

    requires
        acted(change, set_locked, replace, load, before, action, after, observation),
        !(action is ChangePassword),
        !(action is SetLocked),
        !(action is Commit),
        !(action is Recover),
    ensures
        action is LockStorage || action is UnlockStorage || action is CountAudit,
        after.engine@ == before.engine@,
        after.database == before.database,
        after.alice == before.alice,
        after.root == before.root,
        after.storage@.committed == before.storage@.committed,
        after.storage@.temporary == before.storage@.temporary,
        action is LockStorage ==> after.storage@.locked,
        action is LockStorage && !before.storage@.locked ==> observation == Observation::Storage(
            Ok(()),
        ),
        action is LockStorage && before.storage@.locked ==> observation == Observation::Storage(
            Err(StorageError::Busy),
        ),
        action is UnlockStorage ==> !after.storage@.locked && observation == Observation::Storage(
            Ok(()),
        ),
        action is CountAudit ==> after == before && observation == Observation::Counted(
            before.engine@.audit.len() as usize,
        ),
{
}

/// An action may do in the world what the database's operations make of it, and
/// nothing else.
pub proof fn law_acts_are_those_of_the_world<D, C, E, F, G, H, L>(
    change: F,
    set_locked: G,
    replace: H,
    load: L,
    before: World<D, C>,
    action: Action,
    after: World<D, C>,
    observation: Observation,
) where
    F: Fn(D, ChangeRequest<'static, C>) -> (D, Result<(), PasswordChangeError>),
    G: Fn(D, LockRequest<C>) -> (D, Result<(), E>),
    H: Fn(MemoryStorage, &[u8], &[u8], &D) -> (MemoryStorage, Result<(), StorageError>),
    L: Fn(MemoryStorage, &[u8], &[u8]) -> (MemoryStorage, Result<(D, Recovery), StorageError>),

    ensures
        (acts_in(change, set_locked, replace, load))(before, action, after, observation) <==> acted(
            change,
            set_locked,
            replace,
            load,
            before,
            action,
            after,
            observation,
        ),
{
}

/// One more step is one more attempt if it changes a password or a lock of the
/// target, and none otherwise.
pub proof fn law_attempts_of_one_more_step(steps: Seq<Step>, step: Step)
    ensures
        attempts(Seq::empty()) == 0,
        step.action is ChangePassword || step.action is SetLocked ==> attempts(steps.push(step))
            == attempts(steps) + 1,
        !(step.action is ChangePassword || step.action is SetLocked) ==> attempts(
            steps.push(step),
        ) == attempts(steps),
{
    assert(steps.push(step).drop_last() =~= steps);
}

/// `World::new` holds what it is given, over a storage without files whose lock is
/// free.
pub proof fn law_new_world<D, C: Copy>(
    engine: PasswdEngine,
    database: D,
    alice: Actor<C>,
    root: Actor<C>,
    world: World<D, C>,
)
    requires
        call_ensures(World::<D, C>::new, (engine, database, alice, root), world),
    ensures
        world.engine == engine,
        world.database == database,
        world.alice == alice,
        world.root == root,
        world.storage@.committed is None,
        world.storage@.temporary is None,
        !world.storage@.locked,
{
}

/// `World::perform` does in the world what the laws of the single actions tell, and
/// says what came of it.
pub proof fn law_perform<D, C: Copy, E, F, G, H, L>(
    world: World<D, C>,
    action: Action,
    change: &F,
    set_locked: &G,
    replace: &H,
    load: &L,
    result: (World<D, C>, Observation),
) where
    F: Fn(D, ChangeRequest<'static, C>) -> (D, Result<(), PasswordChangeError>),
    G: Fn(D, LockRequest<C>) -> (D, Result<(), E>),
    H: Fn(MemoryStorage, &[u8], &[u8], &D) -> (MemoryStorage, Result<(), StorageError>),
    L: Fn(MemoryStorage, &[u8], &[u8]) -> (MemoryStorage, Result<(D, Recovery), StorageError>),

    requires
        !(action is Mark),
        !(action is Finish),
        call_ensures(
            World::<D, C>::perform::<E, F, G, H, L>,
            (world, action, change, set_locked, replace, load),
            result,
        ),
    ensures
        acted(*change, *set_locked, *replace, *load, world, action, result.0, result.1),
{
}

} // verus!
