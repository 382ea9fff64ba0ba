//! The scenario of the smoke run: what is done, and what has to come of it.

use vstd::prelude::*;
use vstd::string::StringSliceAdditionalSpecFns;

use crate::error::{PasswdError, StorageError};
use crate::smoke::fixture;
use crate::smoke::fixture::{NEW_PASSWORD, OLD_PASSWORD, RESET_PASSWORD};
use crate::smoke::storage::TEMP_PATH;

verus! {

/// The account that every attempt is aimed at.
pub const TARGET_UID: u32 = 1000;

/// The path of the committed file.
pub const COMMITTED_PATH: &'static str = "db";

/// The accounts that the run starts from.
pub const SEED: &'static str =
    "NORX-USERDB 1\nu:root:0:0:0:256:/root:/bin/nsh:$argon2id$v=19$m=65536,t=3,p=1$c2FsdFNhbXBsZQ$ZGlnaWVzdFNhbXBsZQ\nu:alice:1000:1000:0:0:/users/alice:/bin/nsh:$argon2id$v=19$m=65536,t=3,p=1$c2FsdFNhbXBsZQ$ZGlnaWVzdFNhbXBsZQ\ng:users:1000:alice\n";

/// Who makes an attempt: the owner of the account, or an administrator.
#[derive(Clone, Copy, Debug, PartialEq, Eq, Structural)]
pub enum SmokeUser {
    Alice,
    Root,
}

/// What a driver has to do next.
#[derive(Clone, Copy, Debug)]
pub enum Action {
    /// Let the engine change the password of the target account.
    ChangePassword {
        user: SmokeUser,
        old_password: Option<&'static str>,
        new_password: &'static str,
        confirmation: &'static str,
    },
    /// Let the engine lock or unlock the target account.
    SetLocked { user: SmokeUser, locked: bool },
    /// Take the lock of the storage.
    LockStorage,
    /// Give the lock of the storage back.
    UnlockStorage,
    /// Let the engine commit the accounts under these paths.
    Commit { committed_path: &'static str, temp_path: &'static str },
    /// Put these files into the storage, then let the engine recover from these
    /// paths.
    Recover {
        committed: &'static str,
        temporary: &'static str,
        committed_path: &'static str,
        temp_path: &'static str,
    },
    /// Count the events of the audit trail.
    CountAudit,
    /// Write the line that marks a milestone.
    Mark { marker: &'static str },
    /// Stop: the run is over.
    Finish { passed: bool },
}

/// Where recovered accounts came from.
#[derive(Clone, Copy, Debug, PartialEq, Eq, Structural)]
pub enum Recovery {
    Temporary,
    Elsewhere,
}

/// What came of an action.
#[derive(Clone, Copy, Debug)]
pub enum Observation {
    /// What the engine answered to an attempt or a commit.
    Answer(Result<(), PasswdError>),
    /// What the storage answered.
    Storage(Result<(), StorageError>),
    /// What the engine recovered.
    Recovered(Result<Recovery, PasswdError>),
    /// How many events the audit trail holds.
    Counted(usize),
    /// Whether a marker was written.
    Marked(bool),
}

/// An action and what has to come of it.
#[derive(Clone, Copy, Debug)]
pub struct Step {
    pub action: Action,
    pub expected: Observation,
}

/// Whether two observations are the same.
pub fn same_observation(left: Observation, right: Observation) -> (same: bool)
    ensures
        same <==> left == right,
{
    match (left, right) {
        (Observation::Answer(Ok(a)), Observation::Answer(Ok(b))) => {
            assert(a == b);
            true
        },
        (Observation::Answer(Err(a)), Observation::Answer(Err(b))) => a == b,
        (Observation::Storage(Ok(a)), Observation::Storage(Ok(b))) => {
            assert(a == b);
            true
        },
        (Observation::Storage(Err(a)), Observation::Storage(Err(b))) => a == b,
        (Observation::Recovered(Ok(a)), Observation::Recovered(Ok(b))) => a == b,
        (Observation::Recovered(Err(a)), Observation::Recovered(Err(b))) => a == b,
        (Observation::Counted(a), Observation::Counted(b)) => a == b,
        (Observation::Marked(a), Observation::Marked(b)) => a == b,
        _ => false,
    }
}

impl Step {
    /// An attempt to change the target's password, and the engine's answer.
    #[verifier::allow_in_spec]
    pub fn change(
        user: SmokeUser,
        old_password: Option<&'static str>,
        new_password: &'static str,
        confirmation: &'static str,
        answer: Result<(), PasswdError>,
    ) -> Step
        returns
            (Step {
            action: Action::ChangePassword { user, old_password, new_password, confirmation },
            expected: Observation::Answer(answer),
        }),
    {
        Step {
            action: Action::ChangePassword { user, old_password, new_password, confirmation },
            expected: Observation::Answer(answer),
        }
    }

    /// An attempt to lock or unlock the target, and the engine's answer.
    #[verifier::allow_in_spec]
    pub fn set_locked(
        user: SmokeUser,
        locked: bool,
        answer: Result<(), PasswdError>,
    ) -> Step
        returns
            (Step {
            action: Action::SetLocked { user, locked },
            expected: Observation::Answer(answer),
        }),
    {
        Step {
            action: Action::SetLocked { user, locked },
            expected: Observation::Answer(answer),
        }
    }

    /// The storage's lock is free and can be taken.
    #[verifier::allow_in_spec]
    pub fn lock_storage() -> Step
        returns
            (Step { action: Action::LockStorage, expected: Observation::Storage(Ok(())) }),
    {
        Step { action: Action::LockStorage, expected: Observation::Storage(Ok(())) }
    }

    /// The storage's lock can be given back.
    #[verifier::allow_in_spec]
    pub fn unlock_storage() -> Step
        returns
            (Step { action: Action::UnlockStorage, expected: Observation::Storage(Ok(())) }),
    {
        Step { action: Action::UnlockStorage, expected: Observation::Storage(Ok(())) }
    }

    /// A commit, and the engine's answer.
    #[verifier::allow_in_spec]
    pub fn commit(answer: Result<(), PasswdError>) -> Step
        returns
            (Step {
            action: Action::Commit { committed_path: COMMITTED_PATH, temp_path: TEMP_PATH },
            expected: Observation::Answer(answer),
        }),
    {
        Step {
            action: Action::Commit { committed_path: COMMITTED_PATH, temp_path: TEMP_PATH },
            expected: Observation::Answer(answer),
        }
    }

    /// A recovery from the given files, and what the engine makes of them.
    #[verifier::allow_in_spec]
    pub fn recover(
        committed: &'static str,
        temporary: &'static str,
        recovered: Result<Recovery, PasswdError>,
    ) -> Step
        returns
            (Step {
            action: Action::Recover {
                committed,
                temporary,
                committed_path: COMMITTED_PATH,
                temp_path: TEMP_PATH,
            },
            expected: Observation::Recovered(recovered),
        }),
    {
        Step {
            action: Action::Recover {
                committed,
                temporary,
                committed_path: COMMITTED_PATH,
                temp_path: TEMP_PATH,
            },
            expected: Observation::Recovered(recovered),
        }
    }

    /// The number of attempts in the audit trail.
    #[verifier::allow_in_spec]
    pub fn count(events: usize) -> Step
        returns
            (Step { action: Action::CountAudit, expected: Observation::Counted(events) }),
    {
        Step { action: Action::CountAudit, expected: Observation::Counted(events) }
    }

    /// A milestone, which has to go out whole.
    #[verifier::allow_in_spec]
    pub fn mark(marker: &'static str) -> Step
        returns
            (Step { action: Action::Mark { marker }, expected: Observation::Marked(true) }),
    {
        Step { action: Action::Mark { marker }, expected: Observation::Marked(true) }
    }
}

/// The scenario.
pub open spec fn script() -> Seq<Step> {
    seq![
        Step::change(
            SmokeUser::Alice,
            Some("wrongold"),
            NEW_PASSWORD,
            NEW_PASSWORD,
            Err(PasswdError::PermissionDenied),
        ),
        Step::mark("PASSWD:WRONG_OLD_DENIED\n"),
        Step::change(
            SmokeUser::Alice,
            Some(OLD_PASSWORD),
            NEW_PASSWORD,
            "different!",
            Err(PasswdError::PolicyRejected),
        ),
        Step::mark("PASSWD:CONFIRMATION_DENIED\n"),
        Step::change(
            SmokeUser::Alice,
            Some(OLD_PASSWORD),
            "short",
            "short",
            Err(PasswdError::PolicyRejected),
        ),
        Step::mark("PASSWD:POLICY_DENIED\n"),
        Step::change(
            SmokeUser::Alice,
            Some(OLD_PASSWORD),
            NEW_PASSWORD,
            NEW_PASSWORD,
            Ok(()),
        ),
        Step::mark("PASSWD:CHANGE_OK\n"),
        Step::change(
            SmokeUser::Root,
            None,
            RESET_PASSWORD,
            RESET_PASSWORD,
            Ok(()),
        ),
        Step::mark("PASSWD:RESET_OK\n"),
        Step::set_locked(SmokeUser::Alice, true, Err(PasswdError::PermissionDenied)),
        Step::mark("PASSWD:LOCK_DENIED\n"),
        Step::set_locked(SmokeUser::Root, true, Ok(())),
        Step::mark("PASSWD:LOCK_OK\n"),
        Step::set_locked(SmokeUser::Root, false, Ok(())),
        Step::mark("PASSWD:UNLOCK_OK\n"),
        Step::lock_storage(),
        Step::commit(Err(PasswdError::StorageBusy)),
        Step::mark("PASSWD:CONCURRENT_DENIED\n"),
        Step::unlock_storage(),
        Step::commit(Ok(())),
        Step::mark("PASSWD:ATOMIC_OK\n"),
        Step::recover("corrupt", SEED, Ok(Recovery::Temporary)),
        Step::mark("PASSWD:RECOVERED_OK\n"),
        Step::recover("corrupt", "also corrupt", Err(PasswdError::StorageCorrupt)),
        Step::mark("PASSWD:CORRUPT_FAIL_CLOSED\n"),
        Step::count(8),
        Step::mark("PASSWD:AUDIT_REDACTED\n"),
    ]
}

/// The scenario, step by step.
pub fn script_steps() -> (steps: Vec<Step>)
    ensures
        steps@ == script(),
{
    vec![
        Step::change(
            SmokeUser::Alice,
            Some("wrongold"),
            NEW_PASSWORD,
            NEW_PASSWORD,
            Err(PasswdError::PermissionDenied),
        ),
        Step::mark("PASSWD:WRONG_OLD_DENIED\n"),
        Step::change(
            SmokeUser::Alice,
            Some(OLD_PASSWORD),
            NEW_PASSWORD,
            "different!",
            Err(PasswdError::PolicyRejected),
        ),
        Step::mark("PASSWD:CONFIRMATION_DENIED\n"),
        Step::change(
            SmokeUser::Alice,
            Some(OLD_PASSWORD),
            "short",
            "short",
            Err(PasswdError::PolicyRejected),
        ),
        Step::mark("PASSWD:POLICY_DENIED\n"),
        Step::change(
            SmokeUser::Alice,
            Some(OLD_PASSWORD),
            NEW_PASSWORD,
            NEW_PASSWORD,
            Ok(()),
        ),
        Step::mark("PASSWD:CHANGE_OK\n"),
        Step::change(
            SmokeUser::Root,
            None,
            RESET_PASSWORD,
            RESET_PASSWORD,
            Ok(()),
        ),
        Step::mark("PASSWD:RESET_OK\n"),
        Step::set_locked(SmokeUser::Alice, true, Err(PasswdError::PermissionDenied)),
        Step::mark("PASSWD:LOCK_DENIED\n"),
        Step::set_locked(SmokeUser::Root, true, Ok(())),
        Step::mark("PASSWD:LOCK_OK\n"),
        Step::set_locked(SmokeUser::Root, false, Ok(())),
        Step::mark("PASSWD:UNLOCK_OK\n"),
        Step::lock_storage(),
        Step::commit(Err(PasswdError::StorageBusy)),
        Step::mark("PASSWD:CONCURRENT_DENIED\n"),
        Step::unlock_storage(),
        Step::commit(Ok(())),
        Step::mark("PASSWD:ATOMIC_OK\n"),
        Step::recover("corrupt", SEED, Ok(Recovery::Temporary)),
        Step::mark("PASSWD:RECOVERED_OK\n"),
        Step::recover("corrupt", "also corrupt", Err(PasswdError::StorageCorrupt)),
        Step::mark("PASSWD:CORRUPT_FAIL_CLOSED\n"),
        Step::count(8),
        Step::mark("PASSWD:AUDIT_REDACTED\n"),
    ]
}

/// The lines that the scenario marks its milestones with.
pub open spec fn transcript_lines() -> Seq<&'static str> {
    seq![
        "PASSWD:WRONG_OLD_DENIED\n",
        "PASSWD:CONFIRMATION_DENIED\n",
        "PASSWD:POLICY_DENIED\n",
        "PASSWD:CHANGE_OK\n",
        "PASSWD:RESET_OK\n",
        "PASSWD:LOCK_DENIED\n",
        "PASSWD:LOCK_OK\n",
        "PASSWD:UNLOCK_OK\n",
        "PASSWD:CONCURRENT_DENIED\n",
        "PASSWD:ATOMIC_OK\n",
        "PASSWD:RECOVERED_OK\n",
        "PASSWD:CORRUPT_FAIL_CLOSED\n",
        "PASSWD:AUDIT_REDACTED\n",
    ]
}

/// The lines that steps mark, in their order.
pub open spec fn marks(steps: Seq<Step>) -> Seq<&'static str>
    decreases steps.len(),
{
    if steps.len() == 0 {
        Seq::empty()
    } else {
        let earlier = marks(steps.drop_last());
        match steps.last().action {
            Action::Mark { marker } => earlier.push(marker),
            _ => earlier,
        }
    }
}

/// The bytes of lines, one after another.
pub open spec fn text(lines: Seq<&'static str>) -> Seq<u8>
    decreases lines.len(),
{
    if lines.len() == 0 {
        Seq::empty()
    } else {
        text(lines.drop_last()) + lines.last().spec_bytes()
    }
}

/// All that a passed run writes.
pub open spec fn transcript() -> Seq<u8> {
    text(transcript_lines())
}

/// Upper-case letters, `:`, `_` and the end of a line.
pub open spec fn is_plain(byte: u8) -> bool {
    65 <= byte <= 90 || byte == 58 || byte == 95 || byte == 10
}

/// The passwords that are tried in the scenario, and the hashes behind them.
pub open spec fn is_secret(word: Seq<u8>) -> bool {
    ||| word == fixture::OLD_PASSWORD.spec_bytes()
    ||| word == fixture::NEW_PASSWORD.spec_bytes()
    ||| word == fixture::RESET_PASSWORD.spec_bytes()
    ||| word == "wrongold".spec_bytes()
    ||| word == "different!".spec_bytes()
    ||| word == "short".spec_bytes()
    ||| word == fixture::HASH.spec_bytes()
    ||| word == fixture::NEW_HASH.spec_bytes()
    ||| word == fixture::RESET_HASH.spec_bytes()
}

/// The milestones of the scenario are the lines of the transcript, in order.
#[verifier::rlimit(60)]
#[verifier::spinoff_prover]
pub proof fn law_marks_are_the_transcript()
    ensures
        marks(script()) == transcript_lines(),
{
    reveal_with_fuel(marks, 29);
    assert(marks(script()) =~= transcript_lines());
}

proof fn lemma_line_is_plain(line: &'static str)
    requires
        transcript_lines().contains(line),
    ensures
        line@.len() > 0,
        forall|i: int|
            0 <= i < line.spec_bytes().len() ==> is_plain(#[trigger] line.spec_bytes()[i]),
        line.spec_bytes().len() == line@.len(),
{
    reveal_strlit("PASSWD:WRONG_OLD_DENIED\n");
    reveal_strlit("PASSWD:CONFIRMATION_DENIED\n");
    reveal_strlit("PASSWD:POLICY_DENIED\n");
    reveal_strlit("PASSWD:CHANGE_OK\n");
    reveal_strlit("PASSWD:RESET_OK\n");
    reveal_strlit("PASSWD:LOCK_DENIED\n");
    reveal_strlit("PASSWD:LOCK_OK\n");
    reveal_strlit("PASSWD:UNLOCK_OK\n");
    reveal_strlit("PASSWD:CONCURRENT_DENIED\n");
    reveal_strlit("PASSWD:ATOMIC_OK\n");
    reveal_strlit("PASSWD:RECOVERED_OK\n");
    reveal_strlit("PASSWD:CORRUPT_FAIL_CLOSED\n");
    reveal_strlit("PASSWD:AUDIT_REDACTED\n");
    assert(line.is_ascii());
}

proof fn lemma_marks_contain(steps: Seq<Step>, i: int)
    requires
        0 <= i < steps.len(),
        steps[i].action is Mark,
    ensures
        marks(steps).contains(steps[i].action->marker),
    decreases steps.len(),
{
    let earlier = steps.drop_last();
    if i == steps.len() - 1 {
        assert(marks(steps).last() == steps[i].action->marker);
    } else {
        lemma_marks_contain(earlier, i);
        let k = choose|k: int|
            0 <= k < marks(earlier).len() && marks(earlier)[k] == steps[i].action->marker;
        assert(marks(steps)[k] == steps[i].action->marker);
    }
}

/// Every milestone is a line of the transcript, is not empty and holds nothing
/// but plain bytes.
pub proof fn law_milestones_are_plain(i: int)
    requires
        0 <= i < script().len(),
        script()[i].action is Mark,
    ensures
        ({
            let line = script()[i].action->marker;
            &&& transcript_lines().contains(line)
            &&& line.spec_bytes().len() > 0
            &&& forall|k: int|
                0 <= k < line.spec_bytes().len() ==> is_plain(#[trigger] line.spec_bytes()[k])
        }),
{
    law_marks_are_the_transcript();
    lemma_marks_contain(script(), i);
    lemma_line_is_plain(script()[i].action->marker);
}

proof fn lemma_text_is_plain(lines: Seq<&'static str>)
    requires
        forall|i: int| 0 <= i < lines.len() ==> transcript_lines().contains(#[trigger] lines[i]),
    ensures
        forall|k: int| 0 <= k < text(lines).len() ==> is_plain(#[trigger] text(lines)[k]),
    decreases lines.len(),
{
    if lines.len() > 0 {
        let earlier = lines.drop_last();
        assert(transcript_lines().contains(lines[lines.len() - 1]));
        lemma_line_is_plain(lines.last());
        assert forall|i: int| 0 <= i < earlier.len() implies transcript_lines().contains(
            #[trigger] earlier[i],
        ) by {
            assert(transcript_lines().contains(lines[i]));
        }
        lemma_text_is_plain(earlier);
        assert forall|k: int| 0 <= k < text(lines).len() implies is_plain(
            #[trigger] text(lines)[k],
        ) by {
            let split = text(earlier).len();
            if k < split {
                assert(text(lines)[k] == text(earlier)[k]);
            } else {
                assert(text(lines)[k] == lines.last().spec_bytes()[k - split]);
            }
        }
    }
}

/// The transcript holds nothing but plain bytes.
pub proof fn law_transcript_is_plain(k: int)
    requires
        0 <= k < transcript().len(),
    ensures
        is_plain(transcript()[k]),
{
    lemma_text_is_plain(transcript_lines());
}

/// Plain bytes hold no password and no hash of the scenario.
pub proof fn law_plain_bytes_hold_no_secret(bytes: Seq<u8>, secret: Seq<u8>, start: int, end: int)
    requires
        forall|k: int| 0 <= k < bytes.len() ==> is_plain(#[trigger] bytes[k]),
        is_secret(secret),
        0 <= start <= end <= bytes.len(),
    ensures
        bytes.subrange(start, end) != secret,
{
    reveal_strlit("oldpass!");
    reveal_strlit("newpass!");
    reveal_strlit("resetpass!");
    reveal_strlit("wrongold");
    reveal_strlit("different!");
    reveal_strlit("short");
    reveal_strlit("$argon2id$v=19$m=65536,t=3,p=1$c2FsdFNhbXBsZQ$ZGlnaWVzdFNhbXBsZQ");
    reveal_strlit("$argon2id$v=19$m=65536,t=3,p=1$bmV3c2FsdFNhbXBsZQ$bmV3ZGlnaWVzdFNhbXBsZQ");
    reveal_strlit("$argon2id$v=19$m=65536,t=3,p=1$cmVzZXRzYW1wbGU$cmVzZXRkaWdlc3Q");
    assert(fixture::OLD_PASSWORD.is_ascii());
    assert(fixture::NEW_PASSWORD.is_ascii());
    assert(fixture::RESET_PASSWORD.is_ascii());
    assert("wrongold".is_ascii());
    assert("different!".is_ascii());
    assert("short".is_ascii());
    assert(fixture::HASH.is_ascii());
    assert(fixture::NEW_HASH.is_ascii());
    assert(fixture::RESET_HASH.is_ascii());
    assert(secret.len() > 0 && !is_plain(secret[0]));
    if bytes.subrange(start, end) == secret {
        assert(secret[0] == bytes[start]);
    }
}

/// The password changes of the scenario: one with a wrong old password, one that
/// is not confirmed, one that is too short, one that is in order and a reset.
pub proof fn law_password_changes_of_the_scenario()
    ensures
        script()[0].action == (Action::ChangePassword {
            user: SmokeUser::Alice,
            old_password: Some("wrongold"),
            new_password: "newpass!",
            confirmation: "newpass!",
        }),
        script()[0].expected == Observation::Answer(Err(PasswdError::PermissionDenied)),
        script()[2].action == (Action::ChangePassword {
            user: SmokeUser::Alice,
            old_password: Some("oldpass!"),
            new_password: "newpass!",
            confirmation: "different!",
        }),
        script()[2].expected == Observation::Answer(Err(PasswdError::PolicyRejected)),
        script()[4].action == (Action::ChangePassword {
            user: SmokeUser::Alice,
            old_password: Some("oldpass!"),
            new_password: "short",
            confirmation: "short",
        }),
        script()[4].expected == Observation::Answer(Err(PasswdError::PolicyRejected)),
        script()[6].action == (Action::ChangePassword {
            user: SmokeUser::Alice,
            old_password: Some("oldpass!"),
            new_password: "newpass!",
            confirmation: "newpass!",
        }),
        script()[6].expected == Observation::Answer(Ok(())),
        script()[8].action == (Action::ChangePassword {
            user: SmokeUser::Root,
            old_password: None,
            new_password: "resetpass!",
            confirmation: "resetpass!",
        }),
        script()[8].expected == Observation::Answer(Ok(())),
{
}

/// The lock changes of the scenario: the owner may not lock the account, an
/// administrator may lock and unlock it.
pub proof fn law_lock_changes_of_the_scenario()
    ensures
        script()[10].action == (Action::SetLocked { user: SmokeUser::Alice, locked: true }),
        script()[10].expected == Observation::Answer(Err(PasswdError::PermissionDenied)),
        script()[12].action == (Action::SetLocked { user: SmokeUser::Root, locked: true }),
        script()[12].expected == Observation::Answer(Ok(())),
        script()[14].action == (Action::SetLocked { user: SmokeUser::Root, locked: false }),
        script()[14].expected == Observation::Answer(Ok(())),
{
}

/// What the scenario does with the storage: a commit while the lock is taken, one
/// when it is free, a recovery from an intact temporary file and one from nothing
/// that is intact.
pub proof fn law_storage_steps_of_the_scenario()
    ensures
        script()[16].action == Action::LockStorage,
        script()[16].expected == Observation::Storage(Ok(())),
        script()[17].action == (Action::Commit { committed_path: "db", temp_path: "tmp" }),
        script()[17].expected == Observation::Answer(Err(PasswdError::StorageBusy)),
        script()[19].action == Action::UnlockStorage,
        script()[19].expected == Observation::Storage(Ok(())),
        script()[20].action == (Action::Commit { committed_path: "db", temp_path: "tmp" }),
        script()[20].expected == Observation::Answer(Ok(())),
        script()[22].action == (Action::Recover {
            committed: "corrupt",
            temporary: SEED,
            committed_path: "db",
            temp_path: "tmp",
        }),
        script()[22].expected == Observation::Recovered(Ok(Recovery::Temporary)),
        script()[24].action == (Action::Recover {
            committed: "corrupt",
            temporary: "also corrupt",
            committed_path: "db",
            temp_path: "tmp",
        }),
        script()[24].expected == Observation::Recovered(Err(PasswdError::StorageCorrupt)),
        SEED
            == "NORX-USERDB 1\nu:root:0:0:0:256:/root:/bin/nsh:$argon2id$v=19$m=65536,t=3,p=1$c2FsdFNhbXBsZQ$ZGlnaWVzdFNhbXBsZQ\nu:alice:1000:1000:0:0:/users/alice:/bin/nsh:$argon2id$v=19$m=65536,t=3,p=1$c2FsdFNhbXBsZQ$ZGlnaWVzdFNhbXBsZQ\ng:users:1000:alice\n",
{
}

/// The scenario has 28 steps. The last but one counts eight attempts, and what is
/// neither an attempt nor done with the storage is a milestone that has to go out
/// whole.
#[verifier::rlimit(60)]
#[verifier::spinoff_prover]
pub proof fn law_milestones_of_the_scenario()
    ensures
        script().len() == 28,
        script()[26].action == Action::CountAudit,
        script()[26].expected == Observation::Counted(8),
        script()[1].action == (Action::Mark { marker: "PASSWD:WRONG_OLD_DENIED\n" }),
        script()[3].action == (Action::Mark { marker: "PASSWD:CONFIRMATION_DENIED\n" }),
        script()[5].action == (Action::Mark { marker: "PASSWD:POLICY_DENIED\n" }),
        script()[7].action == (Action::Mark { marker: "PASSWD:CHANGE_OK\n" }),
        script()[9].action == (Action::Mark { marker: "PASSWD:RESET_OK\n" }),
        script()[11].action == (Action::Mark { marker: "PASSWD:LOCK_DENIED\n" }),
        script()[13].action == (Action::Mark { marker: "PASSWD:LOCK_OK\n" }),
        script()[15].action == (Action::Mark { marker: "PASSWD:UNLOCK_OK\n" }),
        script()[18].action == (Action::Mark { marker: "PASSWD:CONCURRENT_DENIED\n" }),
        script()[21].action == (Action::Mark { marker: "PASSWD:ATOMIC_OK\n" }),
        script()[23].action == (Action::Mark { marker: "PASSWD:RECOVERED_OK\n" }),
        script()[25].action == (Action::Mark { marker: "PASSWD:CORRUPT_FAIL_CLOSED\n" }),
        script()[27].action == (Action::Mark { marker: "PASSWD:AUDIT_REDACTED\n" }),
        forall|i: int|
            0 <= i < 28 && (#[trigger] script()[i]).action is Mark ==> script()[i].expected
                == Observation::Marked(true),
{
}

/// One more step adds its line if it is a milestone, and nothing otherwise.
pub proof fn law_marks_of_one_more_step(steps: Seq<Step>, step: Step)
    ensures
        marks(Seq::empty()) == Seq::<&'static str>::empty(),
        step.action is Mark ==> marks(steps.push(step)) == marks(steps).push(step.action->marker),
        !(step.action is Mark) ==> marks(steps.push(step)) == marks(steps),
{
    assert(steps.push(step).drop_last() =~= steps);
}

/// One more line adds its bytes at the end.
pub proof fn law_text_of_one_more_line(lines: Seq<&'static str>, line: &'static str)
    ensures
        text(Seq::empty()) == Seq::<u8>::empty(),
        text(lines.push(line)) == text(lines) + line.spec_bytes(),
{
    assert(lines.push(line).drop_last() =~= lines);
}

/// Plain are the capital letters, the colon, the underscore and the line feed.
pub proof fn law_plain_bytes(byte: u8)
    ensures
        is_plain(byte) <==> (0x41 <= byte && byte <= 0x5a) || byte == 0x3a || byte == 0x5f || byte
            == 0x0a,
        is_plain(byte) ==> byte < 0x60,
{
}

/// Every password that a change of the scenario is made with, and every password
/// and hash of the fixtures, is a secret.
#[verifier::rlimit(60)]
#[verifier::spinoff_prover]
pub proof fn law_secrets()
    ensures
        is_secret("oldpass!".spec_bytes()),
        is_secret("newpass!".spec_bytes()),
        is_secret("resetpass!".spec_bytes()),
        is_secret("$argon2id$v=19$m=65536,t=3,p=1$c2FsdFNhbXBsZQ$ZGlnaWVzdFNhbXBsZQ".spec_bytes()),
        is_secret(
            "$argon2id$v=19$m=65536,t=3,p=1$bmV3c2FsdFNhbXBsZQ$bmV3ZGlnaWVzdFNhbXBsZQ".spec_bytes(),
        ),
        is_secret("$argon2id$v=19$m=65536,t=3,p=1$cmVzZXRzYW1wbGU$cmVzZXRkaWdlc3Q".spec_bytes()),
        forall|i: int|
            #![trigger script()[i]]
            0 <= i < script().len() && script()[i].action is ChangePassword ==> {
                &&& is_secret(script()[i].action->new_password.spec_bytes())
                &&& is_secret(script()[i].action->confirmation.spec_bytes())
                &&& script()[i].action->old_password matches Some(old) ==> is_secret(
                    old.spec_bytes(),
                )
            },
{
}

/// `script_steps` gives the scenario, and `same_observation` is equality.
pub proof fn law_steps_and_observations(
    steps: Vec<Step>,
    left: Observation,
    right: Observation,
    same: bool,
)
    requires
        call_ensures(script_steps, (), steps),
        call_ensures(same_observation, (left, right), same),
    ensures
        steps@.len() == 28,
        forall|i: int| 0 <= i < 28 ==> #[trigger] steps@[i] == script()[i],
        same <==> left == right,
{
    law_milestones_of_the_scenario();
}

} // verus!
