use norx_passwd::error::{conclude_storage, map_password_error, map_storage_error};
use norx_passwd::{
    Actor, AuditEvent, ChangeRequest, LockRequest, Operation, PasswdEngine, PasswdError,
    PasswordChangeError, PasswordPolicy, StorageError, MAX_AUDIT_EVENTS,
};

const HASH: &[u8] = b"$argon2id$v=19$m=65536,t=3,p=1$c2FsdFNhbXBsZQ$ZGlnaWVzdFNhbXBsZQ";
const NEW_HASH: &str =
    "$argon2id$v=19$m=65536,t=3,p=1$bmV3c2FsdFNhbXBsZQ$bmV3ZGlnaWVzdFNhbXBsZQ";

const MAX_PASSWORD_BYTES: usize = 128;
const DEFAULT_POLICY: PasswordPolicy = PasswordPolicy { min_length: 8, max_length: 128 };

struct Verifier;

impl Verifier {
    fn verify(&self, password: &[u8], encoded_hash: &[u8]) -> bool {
        password == b"oldpass!" && encoded_hash == HASH
    }
}

struct Hasher;

impl Hasher {
    fn hash(&self, password: &[u8]) -> Option<String> {
        if password == b"newpass!" {
            Some(NEW_HASH.into())
        } else {
            None
        }
    }
}

/// One account, owned by the user whose id the credentials carry.
struct Account {
    uid: u32,
    hash: Vec<u8>,
}

impl Account {
    fn change(
        &mut self,
        request: ChangeRequest<'_, u32>,
        verifier: &Verifier,
        hasher: &Hasher,
    ) -> Result<(), PasswordChangeError> {
        if request.target_uid != self.uid {
            return Err(PasswordChangeError::NotFound);
        }
        if request.actor != self.uid {
            return Err(PasswordChangeError::Denied);
        }
        match request.old_password {
            Some(old) if verifier.verify(old, &self.hash) => {}
            _ => return Err(PasswordChangeError::OldPasswordRejected),
        }
        if request.new_password != request.confirmation {
            return Err(PasswordChangeError::ConfirmationMismatch);
        }
        let length = request.new_password.len();
        if length < request.policy.min_length || length > request.policy.max_length {
            return Err(PasswordChangeError::InvalidPassword);
        }
        let hash = hasher
            .hash(request.new_password)
            .ok_or(PasswordChangeError::HashFailed)?;
        self.hash = hash.into_bytes();
        Ok(())
    }
}

fn engine() -> PasswdEngine {
    PasswdEngine::new(DEFAULT_POLICY, MAX_PASSWORD_BYTES).unwrap()
}

fn is_admin(uid: &u32) -> bool {
    *uid == 0
}

fn alice() -> Actor<u32> {
    Actor::new(1000, is_admin)
}

fn root() -> Actor<u32> {
    Actor::new(0, is_admin)
}

#[test]
fn engine_maps_policy_permissions_and_redacted_audit() {
    let mut database = Account { uid: 1000, hash: HASH.to_vec() };
    let actor = alice();
    let mut engine = engine();
    assert_eq!(
        engine.change_password(
            &mut database,
            actor,
            1000,
            Some(b"wrong"),
            b"newpass!",
            b"newpass!",
            |database: &mut Account, request| database.change(request, &Verifier, &Hasher),
        ),
        Err(PasswdError::PermissionDenied)
    );
    assert_eq!(
        engine.change_password(
            &mut database,
            actor,
            1000,
            Some(b"oldpass!"),
            b"short",
            b"short",
            |database: &mut Account, request| database.change(request, &Verifier, &Hasher),
        ),
        Err(PasswdError::PolicyRejected)
    );
    engine
        .change_password(
            &mut database,
            actor,
            1000,
            Some(b"oldpass!"),
            b"newpass!",
            b"newpass!",
            |database: &mut Account, request| database.change(request, &Verifier, &Hasher),
        )
        .unwrap();
    let audit = format!("{:?}", engine.audit());
    assert!(!audit.contains("oldpass!") && !audit.contains(NEW_HASH));
    assert_eq!(engine.audit().len(), 3);
    assert_eq!(database.hash, NEW_HASH.as_bytes());
}

#[test]
fn policy_boundaries_are_rejected_without_unbounded_input() {
    assert!(PasswdEngine::new(
        PasswordPolicy { min_length: 0, max_length: 8 },
        MAX_PASSWORD_BYTES
    )
    .is_err());
    assert!(PasswdEngine::new(
        PasswordPolicy { min_length: 8, max_length: 129 },
        MAX_PASSWORD_BYTES
    )
    .is_err());
}

#[test]
fn policy_bounds_are_inclusive() {
    let refused = |min_length: usize, max_length: usize, limit: usize| {
        PasswdEngine::new(PasswordPolicy { min_length, max_length }, limit).err()
            == Some(PasswdError::PolicyRejected)
    };
    assert!(!refused(1, 1, 1));
    assert!(!refused(1, 128, 128));
    assert!(!refused(128, 128, 128));
    assert!(!refused(8, 64, usize::MAX));
    assert!(refused(0, 0, 128));
    assert!(refused(9, 8, 128));
    assert!(refused(1, 129, 128));
    assert!(refused(1, 1, 0));
}

#[test]
fn a_new_engine_keeps_its_policy_and_has_no_history() {
    let policy = PasswordPolicy { min_length: 10, max_length: 64 };
    let engine = PasswdEngine::new(policy, MAX_PASSWORD_BYTES).unwrap();
    assert_eq!(engine.policy(), policy);
    assert!(engine.audit().is_empty());
}

#[test]
fn the_database_gets_the_attempt_with_the_policy_of_the_engine() {
    let policy = PasswordPolicy { min_length: 3, max_length: 5 };
    let mut engine = PasswdEngine::new(policy, MAX_PASSWORD_BYTES).unwrap();
    let mut calls: u8 = 0;
    let result = engine.change_password(&mut calls, root(), 7, None, b"new", b"confirmed", |calls: &mut u8, request| {
        *calls += 1;
        assert_eq!(request.actor, 0);
        assert_eq!(request.target_uid, 7);
        assert_eq!(request.old_password, None);
        assert_eq!(request.new_password, b"new");
        assert_eq!(request.confirmation, b"confirmed");
        assert_eq!(request.policy, policy);
        Ok(())
    });
    assert_eq!(result, Ok(()));
    assert_eq!(calls, 1);
    assert_eq!(
        engine.audit(),
        &[AuditEvent { operation: Operation::Reset, target_uid: 7, success: true }]
    );
    assert_eq!(engine.policy(), policy);
}

#[test]
fn an_actor_has_the_capability_that_its_credentials_have() {
    let actor = Actor::new("operator", |credentials: &&str| credentials.starts_with("op"));
    assert_eq!(actor.credentials, "operator");
    assert!(actor.account_admin);
    assert!(!alice().account_admin && alice().credentials == 1000);
    assert!(root().account_admin && root().credentials == 0);
}

#[test]
fn an_administrator_resets_and_everyone_else_changes() {
    let mut engine = engine();
    assert_eq!(engine.conclude_change(true, 5, Ok(())), Ok(()));
    assert_eq!(
        engine.conclude_change(false, 6, Err(PasswordChangeError::HashFailed)),
        Err(PasswdError::HashUnavailable)
    );
    assert_eq!(
        engine.audit(),
        &[
            AuditEvent { operation: Operation::Reset, target_uid: 5, success: true },
            AuditEvent { operation: Operation::Change, target_uid: 6, success: false },
        ]
    );
}

#[test]
fn locks_and_unlocks_are_audited_and_failures_are_denials() {
    let mut engine = engine();
    let denied = engine.set_locked("accounts", alice(), 1000, true, |database, request: LockRequest<u32>| {
        assert_eq!(database, "accounts");
        assert_eq!(request.actor, 1000);
        assert_eq!(request.target_uid, 1000);
        assert!(request.locked);
        Err("no such account")
    });
    assert_eq!(denied, Err(PasswdError::PermissionDenied));
    let unlocked = engine.set_locked((), root(), 1001, false, |_, request: LockRequest<u32>| {
        assert!(!request.locked);
        Ok::<(), &str>(())
    });
    assert_eq!(unlocked, Ok(()));
    assert_eq!(engine.conclude_lock(1002, true, Ok::<(), u8>(())), Ok(()));
    assert_eq!(
        engine.audit(),
        &[
            AuditEvent { operation: Operation::Lock, target_uid: 1000, success: false },
            AuditEvent { operation: Operation::Unlock, target_uid: 1001, success: true },
            AuditEvent { operation: Operation::Lock, target_uid: 1002, success: true },
        ]
    );
}

#[test]
fn a_full_trail_forgets_the_oldest_attempt() {
    let mut engine = engine();
    for uid in 0..MAX_AUDIT_EVENTS as u32 {
        let _ = engine.conclude_change(false, uid, Ok(()));
    }
    assert_eq!(engine.audit().len(), MAX_AUDIT_EVENTS);
    assert_eq!(engine.audit()[0].target_uid, 0);
    for uid in 100..103 {
        let _ = engine.conclude_lock(uid, true, Err(()));
    }
    let trail: Vec<u32> = engine.audit().iter().map(|event| event.target_uid).collect();
    let expected: Vec<u32> = (3..32).chain(100..103).collect();
    assert_eq!(trail, expected);
    assert!(!engine.audit()[31].success && engine.audit()[28].success);
}

#[test]
fn nothing_older_survives_a_full_trail_of_attempts() {
    let mut first = engine();
    let mut second = engine();
    for uid in 0..40 {
        second.record(Operation::Unlock, uid, true);
    }
    for uid in 500..500 + MAX_AUDIT_EVENTS as u32 {
        first.record(Operation::Reset, uid, uid % 2 == 0);
        second.record(Operation::Reset, uid, uid % 2 == 0);
    }
    assert_eq!(first.audit(), second.audit());
    let trail: Vec<u32> = first.audit().iter().map(|event| event.target_uid).collect();
    assert_eq!(trail, (500..532).collect::<Vec<u32>>());
}

#[test]
fn two_failures_for_different_reasons_leave_the_same_trail() {
    let mut first = engine();
    let mut second = engine();
    let _ = first.change_password((), alice(), 1, Some(b"a"), b"b", b"c", |_, _| {
        Err(PasswordChangeError::OldPasswordRejected)
    });
    let _ = second.change_password((), alice(), 1, None, b"x", b"x", |_, _| {
        Err(PasswordChangeError::PasswordReuse)
    });
    assert_eq!(first.audit(), second.audit());
}

#[test]
fn password_errors_have_their_classes() {
    let cases = [
        (PasswordChangeError::Denied, PasswdError::PermissionDenied),
        (PasswordChangeError::NotFound, PasswdError::PermissionDenied),
        (PasswordChangeError::OldPasswordRejected, PasswdError::PermissionDenied),
        (PasswordChangeError::ConfirmationMismatch, PasswdError::PolicyRejected),
        (PasswordChangeError::PasswordReuse, PasswdError::PolicyRejected),
        (PasswordChangeError::InvalidPassword, PasswdError::PolicyRejected),
        (PasswordChangeError::InvalidPolicy, PasswdError::PolicyRejected),
        (PasswordChangeError::HashFailed, PasswdError::HashUnavailable),
        (PasswordChangeError::InvalidHash, PasswdError::HashUnavailable),
    ];
    for (error, class) in cases {
        assert_eq!(map_password_error(error), class);
        assert_eq!(engine().conclude_change(true, 1, Err(error)), Err(class));
    }
}

#[test]
fn storage_errors_have_their_classes() {
    let cases = [
        (StorageError::Missing, PasswdError::StorageUnavailable),
        (StorageError::Busy, PasswdError::StorageBusy),
        (StorageError::Unavailable, PasswdError::StorageUnavailable),
        (StorageError::Corrupt, PasswdError::StorageCorrupt),
        (StorageError::TooLarge, PasswdError::StorageUnavailable),
    ];
    for (error, class) in cases {
        assert_eq!(map_storage_error(error), class);
        assert_eq!(conclude_storage::<u8>(Err(error)), Err(class));
        assert_eq!(engine().commit(0u8, b"db", b"tmp", 0u8, |_, _, _, _| Err(error)), Err(class));
        assert_eq!(
            engine().recover(0u8, b"db", b"tmp", |_, _, _| Err::<u8, StorageError>(error)),
            Err(class)
        );
    }
}

#[test]
fn commit_and_recovery_pass_their_arguments_on() {
    let engine = engine();
    let mut storage: Vec<u8> = Vec::new();
    let committed = engine.commit(
        &mut storage,
        b"db",
        b"tmp",
        &[1u8, 2],
        |storage: &mut Vec<u8>, committed: &[u8], temporary: &[u8], database: &[u8; 2]| {
            assert_eq!(committed, b"db");
            assert_eq!(temporary, b"tmp");
            storage.extend_from_slice(database);
            Ok(())
        },
    );
    assert_eq!(committed, Ok(()));
    assert_eq!(storage, [1, 2]);
    let recovered = engine.recover(
        &mut storage,
        b"db",
        b"tmp",
        |storage: &mut Vec<u8>, committed: &[u8], temporary: &[u8]| {
            assert_eq!(committed, b"db");
            assert_eq!(temporary, b"tmp");
            Ok((storage.clone(), "committed"))
        },
    );
    assert_eq!(recovered, Ok((vec![1, 2], "committed")));
    assert!(engine.audit().is_empty());
}
