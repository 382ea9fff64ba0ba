use norx_passwd::smoke::fixture::{
    FixtureHasher, FixtureVerifier, HASH, NEW_HASH, NEW_PASSWORD, OLD_PASSWORD, RESET_HASH,
    RESET_PASSWORD,
};
use norx_passwd::smoke::run::{run, SmokeRun};
use norx_passwd::smoke::script::{
    same_observation, script_steps, Action, Observation, Recovery, SmokeUser, SEED, TARGET_UID,
};
use norx_passwd::smoke::storage::MemoryStorage;
use norx_passwd::smoke::world::{run_smoke, World};
use norx_passwd::{
    Actor, AuditEvent, ChangeRequest, LockRequest, Operation, PasswdEngine, PasswdError,
    PasswordChangeError, PasswordPolicy, StorageError,
};

const MARKERS: &str = "PASSWD:WRONG_OLD_DENIED\n\
PASSWD:CONFIRMATION_DENIED\n\
PASSWD:POLICY_DENIED\n\
PASSWD:CHANGE_OK\n\
PASSWD:RESET_OK\n\
PASSWD:LOCK_DENIED\n\
PASSWD:LOCK_OK\n\
PASSWD:UNLOCK_OK\n\
PASSWD:CONCURRENT_DENIED\n\
PASSWD:ATOMIC_OK\n\
PASSWD:RECOVERED_OK\n\
PASSWD:CORRUPT_FAIL_CLOSED\n\
PASSWD:AUDIT_REDACTED\n";

/// The target account: alice's hash and whether it is locked.
struct Account {
    hash: Vec<u8>,
    locked: bool,
}

impl Account {
    fn change(
        &mut self,
        request: ChangeRequest<'_, SmokeUser>,
    ) -> Result<(), PasswordChangeError> {
        if request.target_uid != TARGET_UID {
            return Err(PasswordChangeError::NotFound);
        }
        if request.actor == SmokeUser::Alice {
            match request.old_password {
                Some(old) if FixtureVerifier.verify(old, &self.hash) => {}
                _ => return Err(PasswordChangeError::OldPasswordRejected),
            }
        }
        if request.new_password != request.confirmation {
            return Err(PasswordChangeError::ConfirmationMismatch);
        }
        if request.new_password.len() < request.policy.min_length {
            return Err(PasswordChangeError::InvalidPassword);
        }
        match FixtureHasher.hash(request.new_password) {
            Some(hash) => {
                self.hash = hash.into_bytes();
                Ok(())
            }
            None => Err(PasswordChangeError::HashFailed),
        }
    }
}

fn change(
    mut account: Account,
    request: ChangeRequest<'static, SmokeUser>,
) -> (Account, Result<(), PasswordChangeError>) {
    let outcome = account.change(request);
    (account, outcome)
}

fn set_locked(mut account: Account, request: LockRequest<SmokeUser>) -> (Account, Result<(), ()>) {
    if request.target_uid == TARGET_UID && request.actor == SmokeUser::Root {
        account.locked = request.locked;
        (account, Ok(()))
    } else {
        (account, Err(()))
    }
}

fn replace(
    mut storage: MemoryStorage,
    committed: &[u8],
    temporary: &[u8],
    account: &Account,
) -> (MemoryStorage, Result<(), StorageError>) {
    if let Err(error) = storage.lock() {
        return (storage, Err(error));
    }
    storage.write_temp(temporary, &account.hash).unwrap();
    storage.sync_file(temporary).unwrap();
    storage.replace(temporary, committed).unwrap();
    storage.sync_parent(committed).unwrap();
    let outcome = storage.unlock();
    (storage, outcome)
}

fn read_intact(storage: &mut MemoryStorage, path: &[u8]) -> Result<Option<Account>, StorageError> {
    let mut bytes = Vec::new();
    storage.read(path, &mut bytes)?;
    if bytes.starts_with(b"NORX-USERDB 1\n") {
        Ok(Some(Account { hash: HASH.as_bytes().to_vec(), locked: false }))
    } else {
        Ok(None)
    }
}

fn load_accounts(
    storage: &mut MemoryStorage,
    committed: &[u8],
    temporary: &[u8],
) -> Result<(Account, Recovery), StorageError> {
    if let Some(account) = read_intact(storage, committed)? {
        return Ok((account, Recovery::Elsewhere));
    }
    match read_intact(storage, temporary)? {
        Some(account) => Ok((account, Recovery::Temporary)),
        None => Err(StorageError::Corrupt),
    }
}

fn load(
    mut storage: MemoryStorage,
    committed: &[u8],
    temporary: &[u8],
) -> (MemoryStorage, Result<(Account, Recovery), StorageError>) {
    let outcome = load_accounts(&mut storage, committed, temporary);
    (storage, outcome)
}

fn actor(user: SmokeUser) -> Actor<SmokeUser> {
    Actor::new(user, |user: &SmokeUser| *user == SmokeUser::Root)
}

fn world(hash: &str) -> World<Account, SmokeUser> {
    let engine =
        PasswdEngine::new(PasswordPolicy { min_length: 8, max_length: 128 }, 128).unwrap();
    let account = Account { hash: hash.as_bytes().to_vec(), locked: false };
    World::new(engine, account, actor(SmokeUser::Alice), actor(SmokeUser::Root))
}

/// Runs the scenario on an account with the given hash and an output that takes
/// `room` bytes in all, at most seven at a time.
fn drive(hash: &str, room: usize) -> (World<Account, SmokeUser>, String, bool) {
    let write = |mut output: Vec<u8>, chunk: &[u8]| {
        let taken = chunk.len().min(7).min(room - output.len());
        output.extend_from_slice(&chunk[..taken]);
        (output, Some(taken))
    };
    let (world, output, passed) =
        run_smoke(world(hash), &change, &set_locked, &replace, &load, Vec::new(), &write);
    (world, String::from_utf8(output).unwrap(), passed)
}

fn perform(world: World<Account, SmokeUser>, action: Action) -> (World<Account, SmokeUser>, Observation) {
    world.perform(action, &change, &set_locked, &replace, &load)
}

#[test]
fn attempts_reach_the_engine_and_the_database() {
    let (world, observation) = perform(
        world(HASH),
        Action::ChangePassword {
            user: SmokeUser::Alice,
            old_password: Some(OLD_PASSWORD),
            new_password: NEW_PASSWORD,
            confirmation: NEW_PASSWORD,
        },
    );
    assert!(matches!(observation, Observation::Answer(Ok(()))));
    assert_eq!(world.database.hash, NEW_HASH.as_bytes());
    let (world, observation) =
        perform(world, Action::SetLocked { user: SmokeUser::Alice, locked: true });
    assert!(matches!(observation, Observation::Answer(Err(PasswdError::PermissionDenied))));
    let (world, observation) =
        perform(world, Action::SetLocked { user: SmokeUser::Root, locked: true });
    assert!(matches!(observation, Observation::Answer(Ok(()))));
    assert!(world.database.locked);
    assert_eq!(
        world.engine.audit(),
        &[
            AuditEvent { operation: Operation::Change, target_uid: TARGET_UID, success: true },
            AuditEvent { operation: Operation::Lock, target_uid: TARGET_UID, success: false },
            AuditEvent { operation: Operation::Lock, target_uid: TARGET_UID, success: true },
        ]
    );
    let (_, observation) = perform(world, Action::CountAudit);
    assert!(matches!(observation, Observation::Counted(3)));
}

#[test]
fn storage_actions_leave_the_trail_alone() {
    let (world, observation) = perform(world(HASH), Action::LockStorage);
    assert!(matches!(observation, Observation::Storage(Ok(()))));
    let (world, observation) = perform(world, Action::LockStorage);
    assert!(matches!(observation, Observation::Storage(Err(StorageError::Busy))));
    let commit = Action::Commit { committed_path: "db", temp_path: "tmp" };
    let (world, observation) = perform(world, commit);
    assert!(matches!(observation, Observation::Answer(Err(PasswdError::StorageBusy))));
    let (world, observation) = perform(world, Action::UnlockStorage);
    assert!(matches!(observation, Observation::Storage(Ok(()))));
    let (world, observation) = perform(world, commit);
    assert!(matches!(observation, Observation::Answer(Ok(()))));
    assert_eq!(world.storage.committed.as_deref(), Some(HASH.as_bytes()));
    let recover = |committed, temporary| Action::Recover {
        committed,
        temporary,
        committed_path: "db",
        temp_path: "tmp",
    };
    let (world, observation) = perform(world, recover(SEED, "corrupt"));
    assert!(matches!(observation, Observation::Recovered(Ok(Recovery::Elsewhere))));
    let (world, observation) = perform(world, recover("corrupt", SEED));
    assert!(matches!(observation, Observation::Recovered(Ok(Recovery::Temporary))));
    let (world, observation) = perform(world, recover("corrupt", "also corrupt"));
    assert!(matches!(observation, Observation::Recovered(Err(PasswdError::StorageCorrupt))));
    assert_eq!(world.storage.committed.as_deref(), Some(&b"corrupt"[..]));
    assert_eq!(world.storage.temporary.as_deref(), Some(&b"also corrupt"[..]));
    assert!(world.engine.audit().is_empty());
}

#[test]
fn a_run_can_be_made_with_any_way_to_perform() {
    let steps = script_steps();
    let perform = |at: usize, _: Action| {
        let mut next = at;
        while matches!(steps[next].action, Action::Mark { .. }) {
            next += 1;
        }
        (next + 1, steps[next].expected)
    };
    let write = |mut output: Vec<u8>, chunk: &[u8]| {
        output.extend_from_slice(chunk);
        (output, Some(chunk.len()))
    };
    let (at, output, passed) = run(0, &perform, Vec::new(), &write);
    assert!(passed);
    assert_eq!(at, 27);
    assert_eq!(output, MARKERS.as_bytes());
}

#[test]
fn the_smoke_run_passes_and_marks_every_milestone() {
    let (world, output, passed) = drive(HASH, usize::MAX);
    assert!(passed);
    assert_eq!(output, MARKERS);
    assert_eq!(world.engine.audit().len(), 8);
    assert_eq!(world.database.hash, RESET_HASH.as_bytes());
    assert!(!world.database.locked && !world.storage.locked);
}

#[test]
fn the_smoke_run_stops_where_a_marker_cannot_be_written() {
    for room in 0..MARKERS.len() {
        let (_, output, passed) = drive(HASH, room);
        assert!(!passed);
        assert_eq!(output, MARKERS[..room]);
    }
    let (_, output, passed) = drive(HASH, MARKERS.len());
    assert!(passed);
    assert_eq!(output, MARKERS);
}

#[test]
fn the_smoke_run_stops_at_an_unexpected_answer() {
    let (world, output, passed) = drive(NEW_HASH, usize::MAX);
    assert!(!passed);
    assert_eq!(output, "PASSWD:WRONG_OLD_DENIED\n");
    assert_eq!(world.engine.audit().len(), 2);
}

#[test]
fn the_milestones_are_plain_and_hold_no_secret() {
    let lines: Vec<&str> = script_steps()
        .iter()
        .filter_map(|step| match step.action {
            Action::Mark { marker } => Some(marker),
            _ => None,
        })
        .collect();
    assert_eq!(lines.len(), 13);
    assert_eq!(lines.concat(), MARKERS);
    let plain = |byte: u8| byte.is_ascii_uppercase() || b":_\n".contains(&byte);
    assert!(MARKERS.bytes().all(plain));
    for secret in [OLD_PASSWORD, NEW_PASSWORD, RESET_PASSWORD, HASH, NEW_HASH, RESET_HASH] {
        assert!(!MARKERS.contains(secret));
    }
}

#[test]
fn commits_and_recoveries_name_their_paths() {
    let mut named = 0;
    for step in script_steps() {
        match step.action {
            Action::Commit { committed_path, temp_path }
            | Action::Recover { committed_path, temp_path, .. } => {
                assert_eq!((committed_path, temp_path), ("db", "tmp"));
                named += 1;
            }
            _ => {}
        }
    }
    assert_eq!(named, 4);
}

#[test]
fn a_run_passes_on_the_expected_observations_alone() {
    let steps = script_steps();
    assert_eq!(steps.len(), 28);
    let mut run = SmokeRun::new();
    for step in &steps {
        assert_eq!(format!("{:?}", run.next_action()), format!("{:?}", step.action));
        run.observe(step.expected);
    }
    assert!(matches!(run.next_action(), Action::Finish { passed: true }));
    run.observe(Observation::Marked(false));
    assert!(matches!(run.next_action(), Action::Finish { passed: true }));
}

#[test]
fn every_unexpected_observation_fails_the_run_for_good() {
    let steps = script_steps();
    for wrong in 0..steps.len() {
        let mut run = SmokeRun::new();
        for step in &steps[..wrong] {
            run.observe(step.expected);
        }
        run.observe(Observation::Counted(9));
        for step in &steps[wrong..] {
            assert!(matches!(run.next_action(), Action::Finish { passed: false }));
            run.observe(step.expected);
        }
    }
}

#[test]
fn the_audit_count_is_the_number_of_attempts() {
    let attempts = script_steps()
        .iter()
        .filter(|step| {
            matches!(step.action, Action::ChangePassword { .. } | Action::SetLocked { .. })
        })
        .count();
    assert_eq!(attempts, 8);
    let expected = script_steps()[26].expected;
    assert!(matches!(expected, Observation::Counted(8)));
}

#[test]
fn observations_are_told_apart() {
    let all = [
        Observation::Answer(Ok(())),
        Observation::Answer(Err(PasswdError::PermissionDenied)),
        Observation::Answer(Err(PasswdError::InvalidInput)),
        Observation::Storage(Ok(())),
        Observation::Storage(Err(StorageError::Busy)),
        Observation::Storage(Err(StorageError::Missing)),
        Observation::Recovered(Ok(Recovery::Temporary)),
        Observation::Recovered(Ok(Recovery::Elsewhere)),
        Observation::Recovered(Err(PasswdError::StorageCorrupt)),
        Observation::Counted(7),
        Observation::Counted(8),
        Observation::Marked(true),
        Observation::Marked(false),
    ];
    for (i, left) in all.iter().enumerate() {
        for (j, right) in all.iter().enumerate() {
            assert_eq!(same_observation(*left, *right), i == j);
        }
    }
}

#[test]
fn the_verifier_knows_one_password_for_each_hash() {
    let passwords = [OLD_PASSWORD, NEW_PASSWORD, RESET_PASSWORD, "short", ""];
    let hashes = [HASH, NEW_HASH, RESET_HASH, ""];
    for (i, password) in passwords.iter().enumerate() {
        for (j, hash) in hashes.iter().enumerate() {
            assert_eq!(
                FixtureVerifier.verify(password.as_bytes(), hash.as_bytes()),
                i == j && i < 3
            );
        }
    }
}

#[test]
fn the_hasher_hashes_what_may_be_set() {
    assert_eq!(FixtureHasher.hash(b"newpass!"), Some(NEW_HASH.to_string()));
    assert_eq!(FixtureHasher.hash(b"resetpass!"), Some(RESET_HASH.to_string()));
    assert_eq!(FixtureHasher.hash(b"oldpass!"), None);
    assert_eq!(FixtureHasher.hash(b""), None);
}

#[test]
fn the_seed_holds_the_old_hash_for_both_accounts() {
    assert_eq!(SEED.matches(HASH).count(), 2);
    assert!(SEED.starts_with("NORX-USERDB 1\nu:root:0:0:0:256:/root:/bin/nsh:"));
    assert!(SEED.ends_with("\ng:users:1000:alice\n"));
}

#[test]
fn a_storage_publishes_a_write_on_replacement() {
    let mut storage = MemoryStorage::default();
    let mut output = b"> ".to_vec();
    assert_eq!(storage.read(b"db", &mut output), Err(StorageError::Missing));
    assert_eq!(storage.read(b"tmp", &mut output), Err(StorageError::Missing));
    assert_eq!(output, b"> ");
    assert_eq!(storage.write_temp(b"anywhere", b"one"), Ok(()));
    assert_eq!(storage.read(b"db", &mut output), Err(StorageError::Missing));
    assert_eq!(storage.read(b"tmp", &mut output), Ok(()));
    assert_eq!(output, b"> one");
    assert_eq!(storage.sync_file(b"tmp"), Ok(()));
    assert_eq!(storage.replace(b"tmp", b"db"), Ok(()));
    assert_eq!(storage.sync_parent(b"db"), Ok(()));
    assert_eq!(storage.read(b"db", &mut output), Ok(()));
    assert_eq!(output, b"> oneone");
    assert_eq!(storage.read(b"tmp", &mut output), Err(StorageError::Missing));
    assert_eq!(storage.replace(b"tmp", b"db"), Ok(()));
    assert_eq!(storage.read(b"db", &mut output), Err(StorageError::Missing));
}

#[test]
fn a_storage_is_locked_once() {
    let mut storage = MemoryStorage::default();
    assert_eq!(storage.unlock(), Ok(()));
    assert_eq!(storage.lock(), Ok(()));
    assert_eq!(storage.lock(), Err(StorageError::Busy));
    assert!(storage.locked);
    assert_eq!(storage.unlock(), Ok(()));
    assert_eq!(storage.lock(), Ok(()));
}
