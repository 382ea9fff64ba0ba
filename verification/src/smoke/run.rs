//! A run through the scenario.
//!
//! A run names the next action, has it performed and takes what was observed.
//! The first observation that differs from the expected one ends the run.

use vstd::prelude::*;
use vstd::string::StringSliceAdditionalSpecFns;

use crate::output;
use crate::output::marker;
use crate::smoke::script;
use crate::smoke::script::{same_observation, script_steps};
use crate::smoke::script::{Action, Observation, Step};

verus! {

/// Where a run stands: how many steps it has behind it, and whether one of its
/// observations was not the expected one.
pub struct RunView {
    pub position: nat,
    pub failed: bool,
}

impl RunView {
    /// A run before its first step.
    pub open spec fn start() -> RunView {
        RunView { position: 0, failed: false }
    }

    /// How the run ended, once it has.
    pub open spec fn verdict(self) -> Option<bool> {
        if self.failed {
            Some(false)
        } else if self.position >= script::script().len() {
            Some(true)
        } else {
            None
        }
    }

    /// What has to be done next.
    pub open spec fn next_action(self) -> Action {
        match self.verdict() {
            Some(passed) => Action::Finish { passed },
            None => script::script()[self.position as int].action,
        }
    }

    /// The run after an observation. A run that is over stays as it is.
    pub open spec fn after(self, observation: Observation) -> RunView {
        if self.verdict() is Some {
            self
        } else if observation == script::script()[self.position as int].expected {
            RunView { position: self.position + 1, failed: false }
        } else {
            RunView { position: self.position, failed: true }
        }
    }

    /// The run after several observations.
    pub open spec fn after_all(self, observations: Seq<Observation>) -> RunView
        decreases observations.len(),
    {
        if observations.len() == 0 {
            self
        } else {
            self.after_all(observations.drop_last()).after(observations.last())
        }
    }
}

pub struct SmokeRun {
    steps: Vec<Step>,
    position: usize,
    failed: bool,
}

impl View for SmokeRun {
    type V = RunView;

    closed spec fn view(&self) -> RunView {
        RunView { position: self.position as nat, failed: self.failed }
    }
}

impl SmokeRun {
    #[verifier::type_invariant]
    spec fn is_on_script(self) -> bool {
        &&& self.steps@ == script::script()
        &&& self.position <= self.steps@.len()
    }

    pub fn new() -> (run: SmokeRun)
        ensures
            run@ == RunView::start(),
    {
        SmokeRun { steps: script_steps(), position: 0, failed: false }
    }

    /// What has to be done next.
    pub fn next_action(&self) -> (action: Action)
        ensures
            action == self@.next_action(),
    {
        proof {
            use_type_invariant(self);
        }
        if self.failed {
            Action::Finish { passed: false }
        } else if self.position >= self.steps.len() {
            Action::Finish { passed: true }
        } else {
            self.steps[self.position].action
        }
    }

    /// Takes what came of the next action.
    pub fn observe(&mut self, observation: Observation)
        ensures
            final(self)@ == old(self)@.after(observation),
    {
        proof {
            use_type_invariant(&*self);
        }
        if !self.failed && self.position < self.steps.len() {
            if same_observation(observation, self.steps[self.position].expected) {
                self.position = self.position + 1;
            } else {
                self.failed = true;
            }
        }
    }
}

/// Whether the first `count` observations are the ones that the scenario asks
/// for.
pub open spec fn as_expected(observations: Seq<Observation>, count: int) -> bool {
    forall|i: int|
        0 <= i < count ==> #[trigger] observations[i]
            == script::script()[i].expected
}

/// A run passes if and only if every step of the scenario was observed as
/// expected, in order. It fails if and only if some step was not, and goes on
/// otherwise.
pub proof fn law_verdict_is_the_whole_scenario(observations: Seq<Observation>)
    ensures
        ({
            let length = script::script().len();
            let seen = if observations.len() < length {
                observations.len()
            } else {
                length
            };
            RunView::start().after_all(observations).verdict() == if !as_expected(
                observations,
                seen as int,
            ) {
                Some(false)
            } else if seen == length {
                Some(true)
            } else {
                None
            }
        }),
{
    lemma_position(observations);
}

/// As long as a run asks for anything but to stop, all that was observed is as
/// expected, and the next action is the one that follows in the scenario. So a
/// milestone is never marked after an unexpected observation.
pub proof fn law_no_action_after_a_failure(observations: Seq<Observation>)
    requires
        !(RunView::start().after_all(observations).next_action() is Finish),
    ensures
        observations.len() < script::script().len(),
        as_expected(observations, observations.len() as int),
        RunView::start().after_all(observations).next_action()
            == script::script()[observations.len() as int].action,
{
    lemma_position(observations);
}

/// A run that is over takes no further observation.
pub proof fn law_verdict_is_final(run: RunView, observations: Seq<Observation>)
    requires
        run.verdict() is Some,
    ensures
        run.after_all(observations) == run,
    decreases observations.len(),
{
    if observations.len() > 0 {
        law_verdict_is_final(run, observations.drop_last());
    }
}

proof fn lemma_position(observations: Seq<Observation>)
    ensures
        ({
            let run = RunView::start().after_all(observations);
            let length = script::script().len();
            let seen = if observations.len() < length {
                observations.len()
            } else {
                length
            };
            &&& run.position <= seen
            &&& run.failed <==> !as_expected(observations, seen as int)
            &&& !run.failed ==> run.position == seen
        }),
    decreases observations.len(),
{
    if observations.len() > 0 {
        let earlier = observations.drop_last();
        let length = script::script().len();
        lemma_position(earlier);
        let before = RunView::start().after_all(earlier);
        let seen = if earlier.len() < length {
            earlier.len()
        } else {
            length
        };
        if before.failed {
            let i = choose|i: int|
                0 <= i < seen && #[trigger] earlier[i]
                    != script::script()[i].expected;
            assert(observations[i] == earlier[i]);
        } else {
            assert forall|i: int| 0 <= i < seen implies #[trigger] observations[i]
                == script::script()[i].expected by {
                assert(observations[i] == earlier[i]);
            }
            if earlier.len() < length {
                assert(observations[seen as int] == observations.last());
            }
        }
    }
}

/// What an action may lead to: from which state of the world to which, and with
/// which observation.
pub type Acts<S> = spec_fn(S, Action, S, Observation) -> bool;

/// What a function that performs actions may do.
pub open spec fn acts_of<S, P: Fn(S, Action) -> (S, Observation)>(perform: P) -> Acts<S> {
    |before: S, action: Action, after: S, observation: Observation|
        call_ensures(perform, (before, action), (after, observation))
}

/// Whether doing what `action` asks for can lead from one stage of a run to the
/// next with this observation. A stage is the world that actions are performed
/// in and the output that milestones are written to: a milestone leaves the
/// world alone, every other action leaves the output alone.
pub open spec fn performed<S, O, W>(
    acts: Acts<S>,
    write: W,
    action: Action,
    before: (S, O),
    observation: Observation,
    after: (S, O),
) -> bool where
    W: Fn(O, &[u8]) -> (O, Option<usize>),
 {
    match action {
        Action::Mark { marker } => {
            &&& after.0 == before.0
            &&& observation matches Observation::Marked(done) && output::sends(
                write,
                marker.spec_bytes(),
                before.1,
                after.1,
                done,
            )
        },
        _ => {
            &&& after.1 == before.1
            &&& acts(before.0, action, after.0, observation)
        },
    }
}

/// Whether a run goes through these stages with these observations: one step of
/// the scenario leads from each stage to the next, and every step but the last
/// was observed as expected.
pub open spec fn stages_of<S, O, W>(
    acts: Acts<S>,
    write: W,
    stages: Seq<(S, O)>,
    observations: Seq<Observation>,
) -> bool where
    W: Fn(O, &[u8]) -> (O, Option<usize>),
 {
    &&& observations.len() <= script::script().len()
    &&& stages.len() == observations.len() + 1
    &&& as_expected(observations, observations.len() - 1)
    &&& forall|i: int|
        0 <= i < observations.len() ==> performed(
            acts,
            write,
            script::script()[i].action,
            stages[i],
            #[trigger] observations[i],
            stages[i + 1],
        )
}

/// Whether a run that goes through these stages with these observations leads
/// from the stage `before` to the stage `after`. It passes if it takes all steps
/// of the scenario and observes the last as expected too; it fails with the
/// first step that is not observed as expected.
pub open spec fn went_through<S, O, W>(
    acts: Acts<S>,
    write: W,
    before: (S, O),
    after: (S, O),
    passed: bool,
    stages: Seq<(S, O)>,
    observations: Seq<Observation>,
) -> bool where
    W: Fn(O, &[u8]) -> (O, Option<usize>),
 {
    &&& stages_of(acts, write, stages, observations)
    &&& stages.first() == before
    &&& stages.last() == after
    &&& if passed {
        &&& observations.len() == script::script().len()
        &&& as_expected(observations, observations.len() as int)
    } else {
        !as_expected(observations, observations.len() as int)
    }
}

/// Whether a run leads from the stage `before` to the stage `after`, and passes
/// or not.
pub open spec fn runs<S, O, W>(
    acts: Acts<S>,
    write: W,
    before: (S, O),
    after: (S, O),
    passed: bool,
) -> bool where
    W: Fn(O, &[u8]) -> (O, Option<usize>),
 {
    exists|stages: Seq<(S, O)>, observations: Seq<Observation>| #[trigger]
        went_through(acts, write, before, after, passed, stages, observations)
}

/// Runs the scenario, and says whether it passed.
///
/// `perform` does what an action asks for and says what came of it; `write`
/// writes to the output. World and output are values that every call takes and
/// gives back.
pub fn run<S, P, O, W>(world: S, perform: &P, output: O, write: &W) -> (result: (S, O, bool)) where
    P: Fn(S, Action) -> (S, Observation),
    W: Fn(O, &[u8]) -> (O, Option<usize>),

    requires
        forall|state: S, action: Action|
            !(action is Mark) && !(action is Finish) ==> #[trigger] call_requires(
                *perform,
                (state, action),
            ),
        forall|state: O, chunk: &[u8]| #[trigger] call_requires(*write, (state, chunk)),
    ensures
        runs(acts_of(*perform), *write, (world, output), (result.0, result.1), result.2),
{
    let mut place = world;
    let mut sink = output;
    let mut run = SmokeRun::new();
    let ghost mut stages: Seq<(S, O)> = seq![(place, sink)];
    let ghost mut observations: Seq<Observation> = Seq::empty();
    loop
        invariant
            forall|state: S, action: Action|
                !(action is Mark) && !(action is Finish) ==> #[trigger] call_requires(
                    *perform,
                    (state, action),
                ),
            forall|state: O, chunk: &[u8]| #[trigger] call_requires(*write, (state, chunk)),
            run@ == RunView::start().after_all(observations),
            stages_of(acts_of(*perform), *write, stages, observations),
            stages.first() == (world, output),
            stages.last() == (place, sink),
        decreases script::script().len() - observations.len(),
    {
        let action = run.next_action();
        let ghost earlier = observations;
        proof {
            lemma_position(observations);
        }
        match action {
            Action::Finish { passed } => {
                assert(went_through(
                    acts_of(*perform),
                    *write,
                    (world, output),
                    (place, sink),
                    passed,
                    stages,
                    observations,
                ));
                return (place, sink, passed);
            },
            Action::Mark { marker: line } => {
                let (next, done) = marker(line.as_bytes(), sink, write);
                sink = next;
                run.observe(Observation::Marked(done));
                proof {
                    observations = earlier.push(Observation::Marked(done));
                }
            },
            _ => {
                let (next, observation) = perform(place, action);
                place = next;
                run.observe(observation);
                proof {
                    observations = earlier.push(observation);
                }
            },
        }
        proof {
            stages = stages.push((place, sink));
            assert(observations.drop_last() =~= earlier);
        }
    }
}

/// The lines that a run has written: those of the steps that it has behind it.
pub open spec fn marked(run: RunView) -> Seq<&'static str> {
    script::marks(script::script().take(run.position as int))
}

proof fn lemma_marks_are_prefixes(steps: Seq<Step>, n: int)
    requires
        0 <= n <= steps.len(),
    ensures
        script::marks(steps.take(n)).is_prefix_of(script::marks(steps)),
    decreases steps.len(),
{
    if n == steps.len() {
        assert(steps.take(n) =~= steps);
    } else {
        lemma_marks_are_prefixes(steps.drop_last(), n);
        assert(steps.drop_last().take(n) =~= steps.take(n));
    }
}

proof fn lemma_marks_before_the_end(n: int)
    requires
        0 <= n < script::script().len(),
    ensures
        script::marks(script::script().take(n)).is_prefix_of(script::transcript_lines()),
        script::marks(script::script().take(n)).len() < script::transcript_lines().len(),
{
    let steps = script::script();
    script::law_marks_are_the_transcript();
    lemma_marks_are_prefixes(steps, n);
    lemma_marks_are_prefixes(steps.drop_last(), n);
    assert(steps.drop_last().take(n) =~= steps.take(n));
    assert(steps.last().action is Mark);
}

/// A passed run has written the lines of the transcript, in order; a failed one
/// has written some first lines of it, but not all.
pub proof fn law_passed_run_marked_every_milestone(observations: Seq<Observation>)
    ensures
        ({
            let run = RunView::start().after_all(observations);
            &&& run.verdict() == Some(true) ==> marked(run) == script::transcript_lines()
            &&& run.verdict() == Some(false) ==> marked(run).is_prefix_of(
                script::transcript_lines(),
            ) && marked(run).len() < script::transcript_lines().len()
        }),
{
    let run = RunView::start().after_all(observations);
    lemma_position(observations);
    if run.verdict() == Some(true) {
        script::law_marks_are_the_transcript();
        assert(script::script().take(run.position as int) =~= script::script());
    } else if run.verdict() == Some(false) {
        lemma_failed_before_the_end(observations);
        lemma_marks_before_the_end(run.position as int);
    }
}

proof fn lemma_failed_before_the_end(observations: Seq<Observation>)
    ensures
        ({
            let run = RunView::start().after_all(observations);
            run.failed ==> run.position < script::script().len()
        }),
    decreases observations.len(),
{
    if observations.len() > 0 {
        lemma_failed_before_the_end(observations.drop_last());
    }
}

/// What the first `n` steps of the scenario write.
spec fn written(n: int) -> Seq<u8> {
    script::text(script::marks(script::script().take(n)))
}

proof fn lemma_written_step(n: int)
    requires
        0 <= n < script::script().len(),
    ensures
        written(n + 1) == match script::script()[n].action {
            Action::Mark { marker } => written(n) + marker.spec_bytes(),
            _ => written(n),
        },
{
    let steps = script::script().take(n + 1);
    assert(steps.drop_last() =~= script::script().take(n));
    if let Action::Mark { marker } = script::script()[n].action {
        let lines = script::marks(script::script().take(n));
        assert(lines.push(marker).drop_last() =~= lines);
    }
}

proof fn lemma_written_is_a_prefix(n: int)
    requires
        0 <= n <= script::script().len(),
    ensures
        written(n).is_prefix_of(script::transcript()),
        n < script::script().len() ==> written(n).len() < script::transcript().len(),
        n == script::script().len() ==> written(n) == script::transcript(),
    decreases script::script().len() - n,
{
    let steps = script::script();
    script::law_marks_are_the_transcript();
    if n == steps.len() {
        assert(steps.take(n) =~= steps);
    } else {
        lemma_written_is_a_prefix(n + 1);
        lemma_written_step(n);
        if steps[n].action is Mark {
            script::law_milestones_are_plain(n);
        } else {
            assert(steps.last().action is Mark);
            assert(n + 1 < steps.len());
        }
    }
}

proof fn lemma_accepted_so_far<S, O, W>(
    acts: Acts<S>,
    write: W,
    accepted: spec_fn(O) -> Seq<u8>,
    stages: Seq<(S, O)>,
    observations: Seq<Observation>,
    n: int,
) where W: Fn(O, &[u8]) -> (O, Option<usize>)
    requires
        output::faithful(write, accepted),
        stages_of(acts, write, stages, observations),
        0 <= n <= observations.len(),
        as_expected(observations, n),
    ensures
        accepted(stages[n].1) == accepted(stages[0].1) + written(n),
    decreases n,
{
    if n == 0 {
        assert(script::script().take(0) =~= Seq::empty());
        assert(accepted(stages[0].1) + written(0) =~= accepted(stages[0].1));
    } else {
        let k = n - 1;
        lemma_accepted_so_far(acts, write, accepted, stages, observations, k);
        lemma_written_step(k);
        let seen = observations[k];
        if let Action::Mark { marker } = script::script()[k].action {
            lemma_mark_expects_success(k);
            output::law_output_holds_the_message(
                write,
                accepted,
                marker.spec_bytes(),
                stages[k].1,
                stages[n].1,
                true,
            );
            assert(accepted(stages[n].1) =~= accepted(stages[0].1) + written(n));
        }
    }
}

proof fn lemma_mark_expects_success(i: int)
    requires
        0 <= i < script::script().len(),
        script::script()[i].action is Mark,
    ensures
        script::script()[i].expected == Observation::Marked(true),
{
}

proof fn lemma_take_extends(whole: Seq<u8>, head: Seq<u8>, line: Seq<u8>, j: int)
    requires
        (head + line).is_prefix_of(whole),
        0 <= j <= line.len(),
    ensures
        head + line.take(j) == whole.take(head.len() + j),
{
    assert(head + line.take(j) =~= (head + line).take(head.len() + j));
    assert((head + line).take(head.len() + j) =~= whole.take(head.len() + j));
}

#[verifier::spinoff_prover]
proof fn lemma_failed_run<S, O, W>(
    acts: Acts<S>,
    write: W,
    accepted: spec_fn(O) -> Seq<u8>,
    stages: Seq<(S, O)>,
    observations: Seq<Observation>,
) where W: Fn(O, &[u8]) -> (O, Option<usize>)
    requires
        output::faithful(write, accepted),
        stages_of(acts, write, stages, observations),
        !as_expected(observations, observations.len() as int),
    ensures
        exists|k: int|
            0 <= k < script::transcript().len() && accepted(stages.last().1) == accepted(
                stages.first().1,
            ) + #[trigger] script::transcript().take(k),
{
    let n = observations.len() - 1;
    let seen = observations[n];
    let whole = script::transcript();
    let start = accepted(stages[0].1);
    lemma_accepted_so_far(acts, write, accepted, stages, observations, n);
    lemma_written_is_a_prefix(n);
    if let Action::Mark { marker } = script::script()[n].action {
        let line = marker.spec_bytes();
        lemma_mark_expects_success(n);
        lemma_written_step(n);
        lemma_written_is_a_prefix(n + 1);
        output::law_output_holds_the_message(
            write,
            accepted,
            line,
            stages[n].1,
            stages[n + 1].1,
            false,
        );
        let j = choose|j: int|
            0 <= j < line.len() && accepted(stages[n + 1].1) == accepted(stages[n].1)
                + #[trigger] line.take(j);
        lemma_take_extends(whole, written(n), line, j);
        let k = written(n).len() + j;
        assert(start + written(n) + line.take(j) =~= start + whole.take(k));
    } else {
        lemma_take_extends(whole, written(n), Seq::empty(), 0);
        let k = written(n).len() as int;
        assert(written(n) + Seq::empty() =~= written(n));
        assert(written(n) =~= whole.take(k));
    }
}

/// A run adds the transcript to what the output has accepted: all of it, and
/// nothing else, exactly if the run passes, and otherwise a proper prefix of it.
/// So nothing is written after the first step that is not observed as expected.
#[verifier::spinoff_prover]
pub proof fn law_run_writes_the_transcript<S, O, W>(
    acts: Acts<S>,
    write: W,
    accepted: spec_fn(O) -> Seq<u8>,
    before: (S, O),
    after: (S, O),
    passed: bool,
) where W: Fn(O, &[u8]) -> (O, Option<usize>)
    requires
        output::faithful(write, accepted),
        runs(acts, write, before, after, passed),
    ensures
        passed <==> accepted(after.1) == accepted(before.1) + script::transcript(),
        !passed ==> exists|k: int|
            0 <= k < script::transcript().len() && accepted(after.1) == accepted(before.1)
                + #[trigger] script::transcript().take(k),
{
    let (stages, observations) = choose|stages: Seq<(S, O)>, observations: Seq<Observation>|
        went_through(acts, write, before, after, passed, stages, observations);
    let count = observations.len() as int;
    if passed {
        lemma_accepted_so_far(acts, write, accepted, stages, observations, count);
        lemma_written_is_a_prefix(count);
    } else {
        lemma_failed_run(acts, write, accepted, stages, observations);
        let k = choose|k: int|
            0 <= k < script::transcript().len() && accepted(stages.last().1) == accepted(
                stages.first().1,
            ) + #[trigger] script::transcript().take(k);
        assert(script::transcript().take(k).len() == k);
    }
}

/// Whether writing plain bytes, however the output answers, keeps a property of
/// the output.
pub open spec fn kept_by_plain_bytes<O, W: Fn(O, &[u8]) -> (O, Option<usize>)>(
    write: W,
    property: spec_fn(O) -> bool,
) -> bool {
    forall|before: O, chunk: &[u8], after: O, reply: Option<usize>| #[trigger]
        call_ensures(write, (before, chunk), (after, reply)) && property(before) && (forall|k: int|
            0 <= k < chunk@.len() ==> script::is_plain(#[trigger] chunk@[k])) ==> property(after)
}

proof fn lemma_line_keeps<O, W: Fn(O, &[u8]) -> (O, Option<usize>)>(
    write: W,
    property: spec_fn(O) -> bool,
    line: Seq<u8>,
    states: Seq<O>,
    chunks: Seq<&[u8]>,
    replies: Seq<Option<usize>>,
    n: int,
)
    requires
        kept_by_plain_bytes(write, property),
        forall|k: int| 0 <= k < line.len() ==> script::is_plain(#[trigger] line[k]),
        output::chain(write, states, chunks, replies),
        output::offers(line, chunks, replies),
        output::completes(line.len(), replies) || output::stalls(line.len(), replies),
        property(states[0]),
        0 <= n <= replies.len(),
    ensures
        property(states[n]),
    decreases n,
{
    if n > 0 {
        let i = n - 1;
        lemma_line_keeps(write, property, line, states, chunks, replies, i);
        output::law_only_the_message_is_offered(line, chunks, replies, i);
        let offset = output::taken(replies.take(i)) as int;
        assert forall|k: int| 0 <= k < chunks[i]@.len() implies script::is_plain(
            #[trigger] chunks[i]@[k],
        ) by {
            assert(chunks[i]@[k] == line[offset + k]);
        }
        assert(call_ensures(write, (states[i], chunks[i]), (states[i + 1], replies[i])));
    }
}

proof fn lemma_stages_keep<S, O, W>(
    acts: Acts<S>,
    write: W,
    property: spec_fn(O) -> bool,
    stages: Seq<(S, O)>,
    observations: Seq<Observation>,
    n: int,
) where W: Fn(O, &[u8]) -> (O, Option<usize>)
    requires
        kept_by_plain_bytes(write, property),
        stages_of(acts, write, stages, observations),
        property(stages[0].1),
        0 <= n <= observations.len(),
    ensures
        property(stages[n].1),
    decreases n,
{
    if n > 0 {
        let i = n - 1;
        lemma_stages_keep(acts, write, property, stages, observations, i);
        let seen = observations[i];
        if let Action::Mark { marker } = script::script()[i].action {
            let line = marker.spec_bytes();
            let done = seen->Marked_0;
            script::law_milestones_are_plain(i);
            assert(output::sends(write, line, stages[i].1, stages[n].1, done));
            let (states, chunks, replies) = choose|
                states: Seq<O>,
                chunks: Seq<&[u8]>,
                replies: Seq<Option<usize>>,
            |
                output::dialogue(
                    write,
                    line,
                    stages[i].1,
                    stages[n].1,
                    done,
                    states,
                    chunks,
                    replies,
                );
            lemma_line_keeps(
                write,
                property,
                line,
                states,
                chunks,
                replies,
                replies.len() as int,
            );
        }
    }
}

/// However the output answers, and whatever the actions do, a run hands it
/// nothing but plain bytes: whatever holds of the output before the run and is
/// kept by writing plain bytes holds of it afterwards. So no password and no
/// hash of the scenario is ever written.
pub proof fn law_only_plain_bytes_reach_the_output<S, O, W>(
    acts: Acts<S>,
    write: W,
    property: spec_fn(O) -> bool,
    before: (S, O),
    after: (S, O),
    passed: bool,
) where W: Fn(O, &[u8]) -> (O, Option<usize>)
    requires
        kept_by_plain_bytes(write, property),
        runs(acts, write, before, after, passed),
        property(before.1),
    ensures
        property(after.1),
{
    let (stages, observations) = choose|stages: Seq<(S, O)>, observations: Seq<Observation>|
        went_through(acts, write, before, after, passed, stages, observations);
    lemma_stages_keep(
        acts,
        write,
        property,
        stages,
        observations,
        observations.len() as int,
    );
}

/// A run whose actions may do no more than others may is also a run with those.
pub proof fn lemma_more_acts<S, O, W>(
    acts: Acts<S>,
    more: Acts<S>,
    write: W,
    before: (S, O),
    after: (S, O),
    passed: bool,
) where W: Fn(O, &[u8]) -> (O, Option<usize>)
    requires
        forall|from: S, action: Action, to: S, observation: Observation| #[trigger]
            acts(from, action, to, observation) ==> more(from, action, to, observation),
        runs(acts, write, before, after, passed),
    ensures
        runs(more, write, before, after, passed),
{
    let (stages, observations) = choose|stages: Seq<(S, O)>, observations: Seq<Observation>|
        went_through(acts, write, before, after, passed, stages, observations);
    assert forall|i: int| 0 <= i < observations.len() implies performed(
        more,
        write,
        script::script()[i].action,
        stages[i],
        #[trigger] observations[i],
        stages[i + 1],
    ) by {
        assert(performed(
            acts,
            write,
            script::script()[i].action,
            stages[i],
            observations[i],
            stages[i + 1],
        ));
    }
    assert(went_through(more, write, before, after, passed, stages, observations));
}

/// One observation of a run. A run starts before the first step. While it is not
/// over it asks for the action of the step that it stands at; what that step
/// expects takes it to the next step, and anything else makes it fail there. A
/// failed run, and one with all 28 steps behind it, asks to stop and stays as it
/// is.
pub proof fn law_one_observation(run: RunView, observation: Observation)
    ensures
        RunView::start().position == 0,
        !RunView::start().failed,
        run.failed ==> run.next_action() == (Action::Finish { passed: false }),
        !run.failed && run.position >= 28 ==> run.next_action() == (Action::Finish {
            passed: true,
        }),
        run.failed || run.position >= 28 ==> run.after(observation).position == run.position
            && run.after(observation).failed == run.failed,
        !run.failed && run.position < 28 ==> {
            let step = script::script()[run.position as int];
            &&& run.next_action() == step.action
            &&& observation == step.expected ==> run.after(observation).position == run.position
                + 1 && !run.after(observation).failed
            &&& observation != step.expected ==> run.after(observation).position == run.position
                && run.after(observation).failed
        },
        run.verdict() == Some(false) <==> run.failed,
        run.verdict() == Some(true) <==> !run.failed && run.position >= 28,
{
    script::law_milestones_of_the_scenario();
}

/// Several observations are taken one after another.
pub proof fn law_one_more_observation(
    run: RunView,
    observations: Seq<Observation>,
    observation: Observation,
)
    ensures
        run.after_all(Seq::empty()) == run,
        run.after_all(observations.push(observation)) == run.after_all(observations).after(
            observation,
        ),
{
    assert(observations.push(observation).drop_last() =~= observations);
}

/// All that happens in a run, step by step.
///
/// The steps of the scenario are taken in their order, each from where the one
/// before it led. A milestone is sent to the output and leaves the world alone;
/// every other action is performed in the world and leaves the output alone. Every
/// step but the last is observed as expected. The run passes exactly if it takes
/// all 28 steps and observes the last one as expected too; otherwise the last step
/// that it takes is one that is not observed as expected.
#[verifier::rlimit(60)]
#[verifier::spinoff_prover]
pub proof fn law_every_step_of_a_run<S, O, W>(
    acts: Acts<S>,
    write: W,
    before: (S, O),
    after: (S, O),
    passed: bool,
) -> (steps: (Seq<(S, O)>, Seq<Observation>)) where W: Fn(O, &[u8]) -> (O, Option<usize>)
    requires
        runs(acts, write, before, after, passed),
    ensures
        ({
            let (stages, observations) = steps;
            let count = observations.len() as int;
            &&& 1 <= count <= 28
            &&& stages.len() == count + 1
            &&& stages[0] == before
            &&& stages[count] == after
            &&& forall|i: int|
                0 <= i < count - 1 ==> #[trigger] observations[i] == script::script()[i].expected
            &&& passed <==> count == 28 && observations[27] == script::script()[27].expected
            &&& !passed <==> observations[count - 1] != script::script()[count - 1].expected
            &&& forall|i: int|
                0 <= i < count && (#[trigger] script::script()[i]).action is Mark ==> {
                    &&& stages[i + 1].0 == stages[i].0
                    &&& observations[i] is Marked
                    &&& output::sends(
                        write,
                        script::script()[i].action->marker.spec_bytes(),
                        stages[i].1,
                        stages[i + 1].1,
                        observations[i]->Marked_0,
                    )
                }
            &&& forall|i: int|
                0 <= i < count && !((#[trigger] script::script()[i]).action is Mark) ==> {
                    &&& stages[i + 1].1 == stages[i].1
                    &&& acts(
                        stages[i].0,
                        script::script()[i].action,
                        stages[i + 1].0,
                        observations[i],
                    )
                }
        }),
{
    let (stages, observations) = choose|stages: Seq<(S, O)>, observations: Seq<Observation>|
        went_through(acts, write, before, after, passed, stages, observations);
    script::law_milestones_of_the_scenario();
    let count = observations.len() as int;
    let last = observations[count - 1];
    if passed {
        assert(last == script::script()[count - 1].expected);
    } else {
        let i = choose|i: int|
            0 <= i < count && #[trigger] observations[i] != script::script()[i].expected;
        assert(i == count - 1);
    }
    assert forall|i: int| 0 <= i < count && (#[trigger] script::script()[i]).action is Mark implies {
        &&& stages[i + 1].0 == stages[i].0
        &&& observations[i] is Marked
        &&& output::sends(
            write,
            script::script()[i].action->marker.spec_bytes(),
            stages[i].1,
            stages[i + 1].1,
            observations[i]->Marked_0,
        )
    } by {
        let seen = observations[i];
    }
    assert forall|i: int| 0 <= i < count && !((#[trigger] script::script()[i]).action is Mark) implies {
        &&& stages[i + 1].1 == stages[i].1
        &&& acts(
            stages[i].0,
            script::script()[i].action,
            stages[i + 1].0,
            observations[i],
        )
    } by {
        let seen = observations[i];
    }
    (stages, observations)
}

/// What a function that performs actions may do is what it promises.
pub proof fn law_acts_are_those_of_the_function<S, P: Fn(S, Action) -> (S, Observation)>(
    perform: P,
    before: S,
    action: Action,
    after: S,
    observation: Observation,
)
    ensures
        (acts_of(perform))(before, action, after, observation) <==> call_ensures(
            perform,
            (before, action),
            (after, observation),
        ),
{
}

/// A `SmokeRun` starts before the first step. It asks for the action of the step
/// that it stands at, and goes on to the next step exactly if that step's expected
/// observation is made; any other makes it fail. Once it has failed, or has all
/// steps behind it, it asks to stop and no observation changes it.
pub proof fn law_smoke_run(
    new: SmokeRun,
    run: &mut SmokeRun,
    shown: &SmokeRun,
    action: Action,
    observation: Observation,
)
    requires
        call_ensures(SmokeRun::new, (), new),
        call_ensures(SmokeRun::next_action, (shown,), action),
        call_ensures(SmokeRun::observe, (run, observation), ()),
    ensures
        new@.position == 0,
        !new@.failed,
        shown@.failed ==> action == (Action::Finish { passed: false }),
        !shown@.failed && shown@.position >= 28 ==> action == (Action::Finish { passed: true }),
        !shown@.failed && shown@.position < 28 ==> action
            == script::script()[shown@.position as int].action,
        old(run)@.failed || old(run)@.position >= 28 ==> final(run)@ == old(run)@,
        !old(run)@.failed && old(run)@.position < 28 ==> {
            let expected = script::script()[old(run)@.position as int].expected;
            &&& final(run)@.failed <==> observation != expected
            &&& observation == expected ==> final(run)@.position == old(run)@.position + 1
            &&& observation != expected ==> final(run)@.position == old(run)@.position
        },
{
    law_one_observation(shown@, observation);
    law_one_observation(old(run)@, observation);
}

/// `run` takes the steps of the scenario as `law_every_step_of_a_run` tells, with
/// the actions performed as `perform` promises.
pub proof fn law_run<S, P, O, W>(
    world: S,
    perform: &P,
    output: O,
    write: &W,
    result: (S, O, bool),
) where
    P: Fn(S, Action) -> (S, Observation),
    W: Fn(O, &[u8]) -> (O, Option<usize>),

    requires
        call_ensures(self::run::<S, P, O, W>, (world, perform, output, write), result),
    ensures
        runs(
            |before: S, action: Action, after: S, observation: Observation|
                call_ensures(*perform, (before, action), (after, observation)),
            *write,
            (world, output),
            (result.0, result.1),
            result.2,
        ),
{
    lemma_more_acts(
        acts_of(*perform),
        |before: S, action: Action, after: S, observation: Observation|
            call_ensures(*perform, (before, action), (after, observation)),
        *write,
        (world, output),
        (result.0, result.1),
        result.2,
    );
}

} // verus!
