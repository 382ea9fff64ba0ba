//! The smoke run on a database that works: what such a database does, and that
//! the run passes on it.
//!
//! Nothing here is taken from the scenario. A database is judged by what it makes
//! of any attempt; that this is what the scenario expects, step by step, is then
//! proved.

use vstd::prelude::*;
use vstd::string::StringSliceAdditionalSpecFns;

use crate::engine::{AuditEvent, ChangeRequest, LockRequest, Operation};
use crate::error;
use crate::error::{PasswordChangeError, StorageError};
use crate::output;
use crate::smoke::fixture;
use crate::smoke::run;
use crate::smoke::script;
use crate::smoke::script::{Action, Observation, Recovery};
use crate::smoke::storage;
use crate::smoke::storage::MemoryStorage;
use crate::smoke::world;
use crate::smoke::world::{run_smoke, World};

verus! {

/// Whether a database changes the password of the target as it should. `hash`
/// gives the target's hash, and `administers` tells administrators.
///
/// A change needs the old password unless an administrator makes it, a
/// confirmation that repeats the new password, a length within the policy, a
/// password other than the current one, and a hash, which is made last. If
/// nothing is missing it succeeds and sets that hash; otherwise it names
/// something that is missing and changes nothing.
pub open spec fn changes_passwords<D, C, F>(
    change: F,
    hash: spec_fn(D) -> Seq<u8>,
    administers: spec_fn(C) -> bool,
) -> bool where
    F: Fn(D, ChangeRequest<'static, C>) -> (D, Result<(), PasswordChangeError>),
 {
    forall|
        before: D,
        request: ChangeRequest<'static, C>,
        after: D,
        outcome: Result<(), PasswordChangeError>,
    |
        #[trigger] call_ensures(change, (before, request), (after, outcome)) && request.target_uid
            == 1000 ==> {
            let new = request.new_password@;
            let entitled = administers(request.actor) || (request.old_password is Some
                && fixture::accepts(request.old_password->0@, hash(before)));
            let confirmed = request.confirmation@ == new;
            let fits = request.policy.min_length <= new.len() <= request.policy.max_length;
            let fresh = !fixture::accepts(new, hash(before));
            let encoded = fixture::hash_of(new);
            match outcome {
                Ok(_) => {
                    &&& entitled && confirmed && fits && fresh && encoded is Some
                    &&& hash(after) == vstd::utf8::encode_utf8(encoded->0)
                },
                Err(reason) => {
                    &&& hash(after) == hash(before)
                    &&& match reason {
                        PasswordChangeError::OldPasswordRejected => !entitled,
                        PasswordChangeError::ConfirmationMismatch => !confirmed,
                        PasswordChangeError::InvalidPassword => !fits,
                        PasswordChangeError::PasswordReuse => !fresh,
                        PasswordChangeError::HashFailed => entitled && confirmed && fits && fresh
                            && encoded is None,
                        _ => false,
                    }
                },
            }
        }
}

/// Whether a database lets administrators, and nobody else, lock and unlock the
/// target. The target's hash stays what it is.
pub open spec fn locks_accounts<D, C, E, G>(
    set_locked: G,
    hash: spec_fn(D) -> Seq<u8>,
    administers: spec_fn(C) -> bool,
) -> bool where G: Fn(D, LockRequest<C>) -> (D, Result<(), E>) {
    forall|before: D, request: LockRequest<C>, after: D, outcome: Result<(), E>|
        #[trigger] call_ensures(set_locked, (before, request), (after, outcome))
            && request.target_uid == 1000 ==> {
            &&& outcome is Ok <==> administers(request.actor)
            &&& hash(after) == hash(before)
        }
}

/// Whether a database is replaced in the storage unless the lock of the storage is
/// taken, and the lock is afterwards as it was.
pub open spec fn replaces_files<D, H>(replace: H) -> bool where
    H: Fn(MemoryStorage, &[u8], &[u8], &D) -> (MemoryStorage, Result<(), StorageError>),
 {
    forall|
        before: MemoryStorage,
        committed: &[u8],
        temporary: &[u8],
        database: &D,
        after: MemoryStorage,
        outcome: Result<(), StorageError>,
    |
        #[trigger] call_ensures(
            replace,
            (before, committed, temporary, database),
            (after, outcome),
        ) && committed@ == "db".spec_bytes() && temporary@ == "tmp".spec_bytes() ==> {
            &&& after.locked == before.locked
            &&& before.locked ==> outcome == Err::<(), StorageError>(StorageError::Busy)
            &&& !before.locked ==> outcome is Ok
        }
}

/// Whether a database is loaded from the committed file if that is intact, else
/// from the temporary one if that is, and else not at all. The lock stays as it
/// is.
pub open spec fn recovers_files<D, L>(load: L, intact: spec_fn(Seq<u8>) -> bool) -> bool where
    L: Fn(MemoryStorage, &[u8], &[u8]) -> (MemoryStorage, Result<(D, Recovery), StorageError>),
 {
    forall|
        before: MemoryStorage,
        committed: &[u8],
        temporary: &[u8],
        after: MemoryStorage,
        outcome: Result<(D, Recovery), StorageError>,
    |
        #[trigger] call_ensures(load, (before, committed, temporary), (after, outcome))
            && committed@ == "db".spec_bytes() && temporary@ == "tmp".spec_bytes()
            && before@.committed is Some && before@.temporary is Some ==> {
            &&& after.locked == before.locked
            &&& if intact(before@.committed->0) {
                outcome is Ok && outcome->Ok_0.1 == Recovery::Elsewhere
            } else if intact(before@.temporary->0) {
                outcome is Ok && outcome->Ok_0.1 == Recovery::Temporary
            } else {
                outcome is Err && outcome->Err_0 == StorageError::Corrupt
            }
        }
}

/// Whether an output takes something whenever it is offered something.
pub open spec fn output_is_willing<O, W: Fn(O, &[u8]) -> (O, Option<usize>)>(write: W) -> bool {
    forall|before: O, chunk: &[u8], after: O, reply: Option<usize>| #[trigger]
        call_ensures(write, (before, chunk), (after, reply)) && chunk@.len() > 0 ==> reply is Some
            && reply->0 > 0
}

/// The attempts of the scenario as a trail shows them, on a database that works.
pub open spec fn attempts_made() -> Seq<AuditEvent> {
    seq![
        AuditEvent { operation: Operation::Change, target_uid: 1000, success: false },
        AuditEvent { operation: Operation::Change, target_uid: 1000, success: false },
        AuditEvent { operation: Operation::Change, target_uid: 1000, success: false },
        AuditEvent { operation: Operation::Change, target_uid: 1000, success: true },
        AuditEvent { operation: Operation::Reset, target_uid: 1000, success: true },
        AuditEvent { operation: Operation::Lock, target_uid: 1000, success: false },
        AuditEvent { operation: Operation::Lock, target_uid: 1000, success: true },
        AuditEvent { operation: Operation::Unlock, target_uid: 1000, success: true },
    ]
}

/// How many of the first `n` steps are attempts.
spec fn attempts_before(n: int) -> int {
    if n >= 15 {
        8
    } else {
        (n + 1) / 2
    }
}

/// The target's hash before step `n`.
spec fn hash_before(n: int) -> Seq<u8> {
    if n <= 6 {
        "$argon2id$v=19$m=65536,t=3,p=1$c2FsdFNhbXBsZQ$ZGlnaWVzdFNhbXBsZQ".spec_bytes()
    } else if n <= 8 {
        "$argon2id$v=19$m=65536,t=3,p=1$bmV3c2FsdFNhbXBsZQ$bmV3ZGlnaWVzdFNhbXBsZQ".spec_bytes()
    } else {
        "$argon2id$v=19$m=65536,t=3,p=1$cmVzZXRzYW1wbGU$cmVzZXRkaWdlc3Q".spec_bytes()
    }
}

/// The world before step `n`.
spec fn stands_at<D, C>(
    hash: spec_fn(D) -> Seq<u8>,
    administers: spec_fn(C) -> bool,
    world: World<D, C>,
    n: int,
) -> bool {
    &&& !administers(world.alice.credentials) && !world.alice.account_admin
    &&& administers(world.root.credentials) && world.root.account_admin
    &&& 5 < world.engine@.policy.min_length <= 8
    &&& 10 <= world.engine@.policy.max_length
    &&& hash(world.database) == hash_before(n)
    &&& world.storage@.locked <==> 17 <= n <= 19
    &&& world.engine@.audit == attempts_made().take(attempts_before(n))
}

proof fn lemma_words()
    ensures
        "wrongold".spec_bytes() != "oldpass!".spec_bytes(),
        "wrongold".spec_bytes() != "newpass!".spec_bytes(),
        "wrongold".spec_bytes() != "resetpass!".spec_bytes(),
        "different!".spec_bytes() != "newpass!".spec_bytes(),
        "newpass!".spec_bytes() != "oldpass!".spec_bytes(),
        "newpass!".spec_bytes() != "resetpass!".spec_bytes(),
        "oldpass!".spec_bytes() != "resetpass!".spec_bytes(),
        "short".spec_bytes().len() == 5,
        "newpass!".spec_bytes().len() == 8,
        "resetpass!".spec_bytes().len() == 10,
{
    reveal_strlit("wrongold");
    reveal_strlit("oldpass!");
    reveal_strlit("newpass!");
    reveal_strlit("resetpass!");
    reveal_strlit("different!");
    reveal_strlit("short");
    assert("wrongold".is_ascii());
    assert("oldpass!".is_ascii());
    assert("newpass!".is_ascii());
    assert("resetpass!".is_ascii());
    assert("different!".is_ascii());
    assert("short".is_ascii());
    assert("wrongold".spec_bytes()[0] == 119);
    assert("oldpass!".spec_bytes()[0] == 111);
    assert("newpass!".spec_bytes()[0] == 110);
    assert("resetpass!".spec_bytes()[0] == 114);
    assert("different!".spec_bytes()[0] == 100);
}

proof fn lemma_hashes()
    ensures
        hash_before(0) != hash_before(7),
        hash_before(0) != hash_before(9),
        hash_before(7) != hash_before(9),
{
    fixture::law_accepted_pairs("oldpass!".spec_bytes(), hash_before(0));
    fixture::law_accepted_pairs("newpass!".spec_bytes(), hash_before(7));
    fixture::law_accepted_pairs("resetpass!".spec_bytes(), hash_before(9));
    lemma_words();
    if hash_before(0) == hash_before(7) {
        fixture::law_one_password_per_hash(
            "oldpass!".spec_bytes(),
            "newpass!".spec_bytes(),
            hash_before(0),
        );
    }
    if hash_before(0) == hash_before(9) {
        fixture::law_one_password_per_hash(
            "oldpass!".spec_bytes(),
            "resetpass!".spec_bytes(),
            hash_before(0),
        );
    }
    if hash_before(7) == hash_before(9) {
        fixture::law_one_password_per_hash(
            "newpass!".spec_bytes(),
            "resetpass!".spec_bytes(),
            hash_before(7),
        );
    }
}

proof fn lemma_one_more_attempt(n: int, event: AuditEvent)
    requires
        0 <= n < 15,
        n % 2 == 0,
        event == attempts_made()[n / 2],
    ensures
        attempts_made().take(attempts_before(n)).push(event) == attempts_made().take(
            attempts_before(n + 1),
        ),
{
    assert(attempts_made().take(n / 2).push(event) =~= attempts_made().take(n / 2 + 1));
}

#[verifier::rlimit(60)]
#[verifier::spinoff_prover]
proof fn lemma_change_step<D, C, F>(
    change: F,
    hash: spec_fn(D) -> Seq<u8>,
    administers: spec_fn(C) -> bool,
    before: World<D, C>,
    n: int,
    after: World<D, C>,
    observation: Observation,
) where
    F: Fn(D, ChangeRequest<'static, C>) -> (D, Result<(), PasswordChangeError>),

    requires
        changes_passwords(change, hash, administers),
        stands_at(hash, administers, before, n),
        n == 0 || n == 2 || n == 4 || n == 6 || n == 8,
        after.alice == before.alice,
        after.root == before.root,
        script::script()[n].action matches Action::ChangePassword {
            user,
            old_password,
            new_password,
            confirmation,
        } && world::changes(
            change,
            before,
            user,
            old_password,
            new_password,
            confirmation,
            after,
            observation,
        ),
    ensures
        observation == script::script()[n].expected,
        stands_at(hash, administers, after, n + 1),
{
    script::law_password_changes_of_the_scenario();
    lemma_words();
    lemma_hashes();
    let action = script::script()[n].action;
    let user = action->ChangePassword_user;
    let (request, outcome) = choose|
        request: ChangeRequest<'static, C>,
        outcome: Result<(), PasswordChangeError>,
    |
        {
            &&& #[trigger] call_ensures(
                change,
                (before.database, request),
                (after.database, outcome),
            )
            &&& before.asks(
                request,
                user,
                action->old_password,
                action->new_password,
                action->confirmation,
            )
            &&& after.engine@ == before.engine@.changed(
                before.actor_of(user).account_admin,
                request,
                outcome,
            )
            &&& after.storage == before.storage
            &&& observation == Observation::Answer(error::password_result(outcome))
        };
    fixture::law_hashed_passwords(request.new_password@);
    fixture::law_accepted_pairs(request.new_password@, hash_before(n));
    if request.old_password is Some {
        fixture::law_accepted_pairs(request.old_password->0@, hash_before(n));
    }
    lemma_one_more_attempt(n, attempts_made()[n / 2]);
    assert(outcome is Ok <==> n >= 6);
    if outcome is Ok {
        assert(observation == Observation::Answer(Ok(())));
    }
    assert(after.engine@.audit == before.engine@.audit.push(attempts_made()[n / 2]));
}

#[verifier::rlimit(60)]
#[verifier::spinoff_prover]
proof fn lemma_lock_step<D, C, E, G>(
    set_locked: G,
    hash: spec_fn(D) -> Seq<u8>,
    administers: spec_fn(C) -> bool,
    before: World<D, C>,
    n: int,
    after: World<D, C>,
    observation: Observation,
) where
    G: Fn(D, LockRequest<C>) -> (D, Result<(), E>),

    requires
        locks_accounts(set_locked, hash, administers),
        stands_at(hash, administers, before, n),
        n == 10 || n == 12 || n == 14,
        after.alice == before.alice,
        after.root == before.root,
        script::script()[n].action matches Action::SetLocked { user, locked } && world::locks(
            set_locked,
            before,
            user,
            locked,
            after,
            observation,
        ),
    ensures
        observation == script::script()[n].expected,
        stands_at(hash, administers, after, n + 1),
{
    script::law_lock_changes_of_the_scenario();
    lemma_one_more_attempt(n, attempts_made()[n / 2]);
    assert(after.engine@.audit == before.engine@.audit.push(attempts_made()[n / 2]));
}

#[verifier::rlimit(60)]
#[verifier::spinoff_prover]
proof fn lemma_commit_step<D, C, H>(
    replace: H,
    hash: spec_fn(D) -> Seq<u8>,
    administers: spec_fn(C) -> bool,
    before: World<D, C>,
    n: int,
    after: World<D, C>,
    observation: Observation,
) where
    H: Fn(MemoryStorage, &[u8], &[u8], &D) -> (MemoryStorage, Result<(), StorageError>),

    requires
        replaces_files(replace),
        stands_at(hash, administers, before, n),
        n == 17 || n == 20,
        after.alice == before.alice,
        after.root == before.root,
        script::script()[n].action matches Action::Commit { committed_path, temp_path }
            && world::commits(replace, before, committed_path, temp_path, after, observation),
    ensures
        observation == script::script()[n].expected,
        stands_at(hash, administers, after, n + 1),
{
    script::law_storage_steps_of_the_scenario();
}

#[verifier::rlimit(60)]
#[verifier::spinoff_prover]
proof fn lemma_recover_step<D, C, L>(
    load: L,
    intact: spec_fn(Seq<u8>) -> bool,
    hash: spec_fn(D) -> Seq<u8>,
    administers: spec_fn(C) -> bool,
    before: World<D, C>,
    n: int,
    after: World<D, C>,
    observation: Observation,
) where
    L: Fn(MemoryStorage, &[u8], &[u8]) -> (MemoryStorage, Result<(D, Recovery), StorageError>),

    requires
        recovers_files(load, intact),
        intact(script::SEED.spec_bytes()),
        !intact("corrupt".spec_bytes()),
        !intact("also corrupt".spec_bytes()),
        stands_at(hash, administers, before, n),
        n == 22 || n == 24,
        after.alice == before.alice,
        after.root == before.root,
        script::script()[n].action matches Action::Recover {
            committed,
            temporary,
            committed_path,
            temp_path,
        } && world::recovers(
            load,
            before,
            (committed, temporary),
            committed_path,
            temp_path,
            after,
            observation,
        ),
    ensures
        observation == script::script()[n].expected,
        stands_at(hash, administers, after, n + 1),
{
    script::law_storage_steps_of_the_scenario();
}

#[verifier::rlimit(60)]
#[verifier::spinoff_prover]
proof fn lemma_step<D, C, E, F, G, H, L>(
    change: F,
    set_locked: G,
    replace: H,
    load: L,
    hash: spec_fn(D) -> Seq<u8>,
    administers: spec_fn(C) -> bool,
    intact: spec_fn(Seq<u8>) -> bool,
    before: World<D, C>,
    n: int,
    after: World<D, C>,
    observation: Observation,
) where
    F: Fn(D, ChangeRequest<'static, C>) -> (D, Result<(), PasswordChangeError>),
    G: Fn(D, LockRequest<C>) -> (D, Result<(), E>),
    H: Fn(MemoryStorage, &[u8], &[u8], &D) -> (MemoryStorage, Result<(), StorageError>),
    L: Fn(MemoryStorage, &[u8], &[u8]) -> (MemoryStorage, Result<(D, Recovery), StorageError>),

    requires
        changes_passwords(change, hash, administers),
        locks_accounts(set_locked, hash, administers),
        replaces_files(replace),
        recovers_files(load, intact),
        intact(script::SEED.spec_bytes()),
        !intact("corrupt".spec_bytes()),
        !intact("also corrupt".spec_bytes()),
        stands_at(hash, administers, before, n),
        0 <= n < 28,
        world::acted(
            change,
            set_locked,
            replace,
            load,
            before,
            script::script()[n].action,
            after,
            observation,
        ),
    ensures
        observation == script::script()[n].expected,
        stands_at(hash, administers, after, n + 1),
{
    script::law_password_changes_of_the_scenario();
    script::law_lock_changes_of_the_scenario();
    script::law_storage_steps_of_the_scenario();
    script::law_milestones_of_the_scenario();
    let action = script::script()[n].action;
    if action is ChangePassword {
        lemma_change_step(change, hash, administers, before, n, after, observation);
    } else if action is SetLocked {
        lemma_lock_step(set_locked, hash, administers, before, n, after, observation);
    } else if action is Commit {
        lemma_commit_step(replace, hash, administers, before, n, after, observation);
    } else if action is Recover {
        lemma_recover_step(load, intact, hash, administers, before, n, after, observation);
    }
}

#[verifier::rlimit(60)]
#[verifier::spinoff_prover]
proof fn lemma_stage<D, C, E, F, G, H, L, O, W>(
    change: F,
    set_locked: G,
    replace: H,
    load: L,
    hash: spec_fn(D) -> Seq<u8>,
    administers: spec_fn(C) -> bool,
    intact: spec_fn(Seq<u8>) -> bool,
    write: W,
    stages: Seq<(World<D, C>, O)>,
    observations: Seq<Observation>,
    n: int,
) where
    F: Fn(D, ChangeRequest<'static, C>) -> (D, Result<(), PasswordChangeError>),
    G: Fn(D, LockRequest<C>) -> (D, Result<(), E>),
    H: Fn(MemoryStorage, &[u8], &[u8], &D) -> (MemoryStorage, Result<(), StorageError>),
    L: Fn(MemoryStorage, &[u8], &[u8]) -> (MemoryStorage, Result<(D, Recovery), StorageError>),
    W: Fn(O, &[u8]) -> (O, Option<usize>),

    requires
        changes_passwords(change, hash, administers),
        locks_accounts(set_locked, hash, administers),
        replaces_files(replace),
        recovers_files(load, intact),
        intact(script::SEED.spec_bytes()),
        !intact("corrupt".spec_bytes()),
        !intact("also corrupt".spec_bytes()),
        output_is_willing(write),
        run::stages_of(
            world::acts_in(change, set_locked, replace, load),
            write,
            stages,
            observations,
        ),
        stands_at(hash, administers, stages[0].0, 0),
        0 <= n <= observations.len(),
    ensures
        stands_at(hash, administers, stages[n].0, n),
        run::as_expected(observations, n),
    decreases n,
{
    if n > 0 {
        let k = n - 1;
        lemma_stage(
            change,
            set_locked,
            replace,
            load,
            hash,
            administers,
            intact,
            write,
            stages,
            observations,
            k,
        );
        script::law_milestones_of_the_scenario();
        let seen = observations[k];
        assert(run::performed(
            world::acts_in(change, set_locked, replace, load),
            write,
            script::script()[k].action,
            stages[k],
            seen,
            stages[n],
        ));
        if let Action::Mark { marker } = script::script()[k].action {
            output::law_willing_output_takes_every_message(
                write,
                marker.spec_bytes(),
                stages[k].1,
                stages[n].1,
                seen->Marked_0,
            );
            lemma_milestone_changes_nothing(k);
        } else {
            lemma_step(
                change,
                set_locked,
                replace,
                load,
                hash,
                administers,
                intact,
                stages[k].0,
                k,
                stages[n].0,
                seen,
            );
        }
        assert(seen == script::script()[k].expected);
    }
}

#[verifier::rlimit(60)]
#[verifier::spinoff_prover]
proof fn lemma_milestone_changes_nothing(n: int)
    requires
        0 <= n < 28,
        script::script()[n].action is Mark,
    ensures
        hash_before(n + 1) == hash_before(n),
        attempts_before(n + 1) == attempts_before(n),
        17 <= n + 1 <= 19 <==> 17 <= n <= 19,
{
    script::law_password_changes_of_the_scenario();
    script::law_lock_changes_of_the_scenario();
    script::law_storage_steps_of_the_scenario();
    script::law_milestones_of_the_scenario();
}

/// On a database that works, and with an output that takes what it is offered, a
/// run of the scenario passes.
///
/// The run starts with an empty trail, a free lock and the seed's hash. The policy
/// lets passwords of eight to ten bytes pass and none of five. Alice is no
/// administrator, root is one. Afterwards the trail shows the eight attempts with
/// what came of each, the target has the hash that the reset set, the lock is free,
/// and the policy and the two who made the attempts are the same.
#[verifier::rlimit(60)]
#[verifier::spinoff_prover]
pub proof fn law_run_passes_on_a_healthy_database<D, C, E, F, G, H, L, O, W>(
    change: F,
    set_locked: G,
    replace: H,
    load: L,
    hash: spec_fn(D) -> Seq<u8>,
    administers: spec_fn(C) -> bool,
    intact: spec_fn(Seq<u8>) -> bool,
    write: W,
    before: (World<D, C>, O),
    after: (World<D, C>, O),
    passed: bool,
) where
    F: Fn(D, ChangeRequest<'static, C>) -> (D, Result<(), PasswordChangeError>),
    G: Fn(D, LockRequest<C>) -> (D, Result<(), E>),
    H: Fn(MemoryStorage, &[u8], &[u8], &D) -> (MemoryStorage, Result<(), StorageError>),
    L: Fn(MemoryStorage, &[u8], &[u8]) -> (MemoryStorage, Result<(D, Recovery), StorageError>),
    W: Fn(O, &[u8]) -> (O, Option<usize>),

    requires
        changes_passwords(change, hash, administers),
        locks_accounts(set_locked, hash, administers),
        replaces_files(replace),
        recovers_files(load, intact),
        intact(script::SEED.spec_bytes()),
        !intact("corrupt".spec_bytes()),
        !intact("also corrupt".spec_bytes()),
        output_is_willing(write),
        hash(before.0.database)
            == "$argon2id$v=19$m=65536,t=3,p=1$c2FsdFNhbXBsZQ$ZGlnaWVzdFNhbXBsZQ".spec_bytes(),
        before.0.engine@.audit.len() == 0,
        5 < before.0.engine@.policy.min_length <= 8,
        10 <= before.0.engine@.policy.max_length,
        !before.0.storage.locked,
        !administers(before.0.alice.credentials),
        !before.0.alice.account_admin,
        administers(before.0.root.credentials),
        before.0.root.account_admin,
        run::runs(
            world::acts_in(change, set_locked, replace, load),
            write,
            before,
            after,
            passed,
        ),
    ensures
        passed,
        after.0.engine@.audit == attempts_made(),
        after.0.engine@.policy == before.0.engine@.policy,
        hash(after.0.database)
            == "$argon2id$v=19$m=65536,t=3,p=1$cmVzZXRzYW1wbGU$cmVzZXRkaWdlc3Q".spec_bytes(),
        !after.0.storage.locked,
        after.0.alice == before.0.alice,
        after.0.root == before.0.root,
{
    let acts = world::acts_in(change, set_locked, replace, load);
    let (stages, observations) = choose|
        stages: Seq<(World<D, C>, O)>,
        observations: Seq<Observation>,
    |
        run::went_through(acts, write, before, after, passed, stages, observations);
    let count = observations.len() as int;
    storage::law_view_is_the_fields(before.0.storage);
    storage::law_view_is_the_fields(after.0.storage);
    assert(before.0.engine@.audit =~= attempts_made().take(0));
    lemma_stage(
        change,
        set_locked,
        replace,
        load,
        hash,
        administers,
        intact,
        write,
        stages,
        observations,
        count,
    );
    script::law_milestones_of_the_scenario();
    assert(attempts_made().take(8) =~= attempts_made());
    world::law_world_keeps_its_policy_and_actors(
        change,
        set_locked,
        replace,
        load,
        write,
        stages,
        observations,
        count,
    );
}

/// On a database that works, and with an output that takes what it is offered and
/// tells what it has accepted, `run_smoke` succeeds, the output has accepted the
/// transcript and nothing else, and the trail shows the eight attempts.
pub proof fn law_run_smoke_succeeds<D, C: Copy, E, F, G, H, L, O, W>(
    world: World<D, C>,
    change: &F,
    set_locked: &G,
    replace: &H,
    load: &L,
    output: O,
    write: &W,
    result: (World<D, C>, O, bool),
    hash: spec_fn(D) -> Seq<u8>,
    administers: spec_fn(C) -> bool,
    intact: spec_fn(Seq<u8>) -> bool,
    accepted: spec_fn(O) -> Seq<u8>,
) where
    F: Fn(D, ChangeRequest<'static, C>) -> (D, Result<(), PasswordChangeError>),
    G: Fn(D, LockRequest<C>) -> (D, Result<(), E>),
    H: Fn(MemoryStorage, &[u8], &[u8], &D) -> (MemoryStorage, Result<(), StorageError>),
    L: Fn(MemoryStorage, &[u8], &[u8]) -> (MemoryStorage, Result<(D, Recovery), StorageError>),
    W: Fn(O, &[u8]) -> (O, Option<usize>),

    requires
        changes_passwords(*change, hash, administers),
        locks_accounts(*set_locked, hash, administers),
        replaces_files(*replace),
        recovers_files(*load, intact),
        intact(script::SEED.spec_bytes()),
        !intact("corrupt".spec_bytes()),
        !intact("also corrupt".spec_bytes()),
        output_is_willing(*write),
        output::faithful(*write, accepted),
        hash(world.database)
            == "$argon2id$v=19$m=65536,t=3,p=1$c2FsdFNhbXBsZQ$ZGlnaWVzdFNhbXBsZQ".spec_bytes(),
        world.engine@.audit.len() == 0,
        5 < world.engine@.policy.min_length <= 8,
        10 <= world.engine@.policy.max_length,
        !world.storage.locked,
        !administers(world.alice.credentials),
        !world.alice.account_admin,
        administers(world.root.credentials),
        world.root.account_admin,
        call_ensures(
            run_smoke::<D, C, E, F, G, H, L, O, W>,
            (world, change, set_locked, replace, load, output, write),
            result,
        ),
    ensures
        result.2,
        result.0.engine@.audit == attempts_made(),
        accepted(result.1) == accepted(output) + script::transcript(),
{
    law_run_passes_on_a_healthy_database(
        *change,
        *set_locked,
        *replace,
        *load,
        hash,
        administers,
        intact,
        *write,
        (world, output),
        (result.0, result.1),
        result.2,
    );
    run::law_run_writes_the_transcript(
        world::acts_in(*change, *set_locked, *replace, *load),
        *write,
        accepted,
        (world, output),
        (result.0, result.1),
        result.2,
    );
}

} // verus!
