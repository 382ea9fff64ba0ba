//! Writing a whole message through an output that may take it piece by piece.

use vstd::prelude::*;
use vstd::slice::slice_subrange;

verus! {

/// How a message stands after one more write.
#[derive(Clone, Copy, Debug, PartialEq, Eq, Structural)]
pub enum Progress {
    /// All of it is out.
    Complete,
    /// This many bytes of it are out, and some are not.
    Partial { written: usize },
    /// The output failed, or took nothing.
    Stalled,
}

/// How a message of `length` bytes stands once a write after its first `offset`
/// bytes was answered with `reply`: the number of bytes taken, or a failure.
pub open spec fn progress(length: nat, offset: nat, reply: Option<usize>) -> Progress {
    match reply {
        None => Progress::Stalled,
        Some(taken) => if taken == 0 {
            Progress::Stalled
        } else if offset + taken < length {
            Progress::Partial { written: (offset + taken) as usize }
        } else {
            Progress::Complete
        },
    }
}

/// Whether an output took something.
pub open spec fn took_some(reply: Option<usize>) -> bool {
    reply matches Some(taken) && taken > 0
}

/// How much an output took in one write.
pub open spec fn taken_by(reply: Option<usize>) -> nat {
    match reply {
        Some(taken) => taken as nat,
        None => 0,
    }
}

/// How much an output took in all.
pub open spec fn taken(replies: Seq<Option<usize>>) -> nat
    decreases replies.len(),
{
    if replies.len() == 0 {
        0
    } else {
        taken(replies.drop_last()) + taken_by(replies.last())
    }
}

/// Whether an output took something in every write, and a message of `length`
/// bytes was not out before the last of them.
pub open spec fn flows(length: nat, replies: Seq<Option<usize>>) -> bool {
    &&& forall|i: int| 0 <= i < replies.len() ==> took_some(#[trigger] replies[i])
    &&& replies.len() > 0 ==> taken(replies.drop_last()) < length
}

/// Whether these replies bring out a message of `length` bytes, and none of them
/// comes after it is out.
pub open spec fn completes(length: nat, replies: Seq<Option<usize>>) -> bool {
    flows(length, replies) && taken(replies) >= length
}

/// Whether the last of these replies, and no other, stalls a message of `length`
/// bytes before it is out.
pub open spec fn stalls(length: nat, replies: Seq<Option<usize>>) -> bool {
    &&& replies.len() > 0
    &&& flows(length, replies.drop_last())
    &&& taken(replies.drop_last()) < length
    &&& !took_some(replies.last())
}

/// Whether these chunks are what an output that gives these replies is offered
/// of a message: each time all that it has not taken yet.
pub open spec fn offers(
    message: Seq<u8>,
    chunks: Seq<&[u8]>,
    replies: Seq<Option<usize>>,
) -> bool {
    &&& chunks.len() == replies.len()
    &&& forall|i: int|
        0 <= i < chunks.len() ==> (#[trigger] chunks[i])@ == message.skip(
            taken(replies.take(i)) as int,
        )
}

/// Whether an output, written to through `write`, passes through these states:
/// one write leads from each state to the next, with the chunk that is offered
/// there and the reply that is given there.
pub open spec fn chain<S, W: Fn(S, &[u8]) -> (S, Option<usize>)>(
    write: W,
    states: Seq<S>,
    chunks: Seq<&[u8]>,
    replies: Seq<Option<usize>>,
) -> bool {
    &&& chunks.len() == replies.len()
    &&& states.len() == replies.len() + 1
    &&& forall|i: int|
        0 <= i < replies.len() ==> call_ensures(
            write,
            (#[trigger] states[i], chunks[i]),
            (states[i + 1], replies[i]),
        )
}

/// Whether these states, chunks and replies are all that happens to an output
/// while `message` is sent to it, from the state `before` to the state `after`:
/// a chain of writes that each offer what is left, up to the one that brings
/// the message out (`done`), or up to the first one that fails or takes nothing.
pub open spec fn dialogue<S, W: Fn(S, &[u8]) -> (S, Option<usize>)>(
    write: W,
    message: Seq<u8>,
    before: S,
    after: S,
    done: bool,
    states: Seq<S>,
    chunks: Seq<&[u8]>,
    replies: Seq<Option<usize>>,
) -> bool {
    &&& chain(write, states, chunks, replies)
    &&& states.first() == before
    &&& states.last() == after
    &&& offers(message, chunks, replies)
    &&& if done {
        completes(message.len(), replies)
    } else {
        stalls(message.len(), replies)
    }
}

/// Whether sending `message` takes an output from the state `before` to the
/// state `after`, and brings it out or not.
pub open spec fn sends<S, W: Fn(S, &[u8]) -> (S, Option<usize>)>(
    write: W,
    message: Seq<u8>,
    before: S,
    after: S,
    done: bool,
) -> bool {
    exists|states: Seq<S>, chunks: Seq<&[u8]>, replies: Seq<Option<usize>>| #[trigger]
        dialogue(write, message, before, after, done, states, chunks, replies)
}

/// Decides how a message stands after one more write.
pub fn after_write(length: usize, offset: usize, reply: Option<usize>) -> (standing: Progress)
    requires
        offset < length,
    ensures
        standing == progress(length as nat, offset as nat, reply),
        standing == Progress::Stalled <==> reply is None || reply == Some(0usize),
        standing == Progress::Complete <==> reply is Some && reply->0 > 0 && offset + reply->0
            >= length,
        standing is Partial <==> reply is Some && reply->0 > 0 && offset + reply->0 < length,
        standing is Partial ==> standing->written == offset + reply->0,
{
    match reply {
        None => Progress::Stalled,
        Some(taken) => if taken == 0 {
            Progress::Stalled
        } else if taken < length - offset {
            Progress::Partial { written: offset + taken }
        } else {
            Progress::Complete
        },
    }
}

/// Writes all of `bytes` to `output`, and says whether that succeeded. Every
/// write offers all that is left. It fails as soon as a write fails or takes
/// nothing, and writes no more then; what was written until then stays written.
///
/// The output is a value that every write takes and gives back, so that nothing
/// can be written to it on the side.
pub fn write_all<S, W: Fn(S, &[u8]) -> (S, Option<usize>)>(
    bytes: &[u8],
    output: S,
    write: &W,
) -> (result: (S, bool))
    requires
        forall|state: S, chunk: &[u8]| #[trigger] call_requires(*write, (state, chunk)),
    ensures
        sends(*write, bytes@, output, result.0, result.1),
{
    let mut state = output;
    let mut offset: usize = 0;
    let ghost mut states: Seq<S> = seq![state];
    let ghost mut chunks: Seq<&[u8]> = Seq::empty();
    let ghost mut replies: Seq<Option<usize>> = Seq::empty();
    while offset < bytes.len()
        invariant
            forall|state: S, chunk: &[u8]| #[trigger] call_requires(*write, (state, chunk)),
            offset <= bytes.len(),
            offset == taken(replies),
            flows(bytes@.len(), replies),
            offers(bytes@, chunks, replies),
            chain(*write, states, chunks, replies),
            states.first() == output,
            states.last() == state,
        decreases bytes.len() - offset,
    {
        let chunk = slice_subrange(bytes, offset, bytes.len());
        let (next, reply) = write(state, chunk);
        state = next;
        proof {
            let earlier = replies;
            assert(chunk@ =~= bytes@.skip(offset as int));
            states = states.push(state);
            chunks = chunks.push(chunk);
            replies = earlier.push(reply);
            assert(replies.drop_last() =~= earlier);
            assert forall|i: int| 0 <= i < chunks.len() implies (#[trigger] chunks[i])@
                == bytes@.skip(taken(replies.take(i)) as int) by {
                assert(replies.take(i) =~= earlier.take(i));
                if i == earlier.len() {
                    assert(earlier.take(i) =~= earlier);
                }
            }
            assert(chain(*write, states, chunks, replies));
        }
        match after_write(bytes.len(), offset, reply) {
            Progress::Complete => {
                assert(dialogue(
                    *write,
                    bytes@,
                    output,
                    state,
                    true,
                    states,
                    chunks,
                    replies,
                ));
                return (state, true);
            },
            Progress::Stalled => {
                assert(dialogue(
                    *write,
                    bytes@,
                    output,
                    state,
                    false,
                    states,
                    chunks,
                    replies,
                ));
                return (state, false);
            },
            Progress::Partial { written } => {
                offset = written;
            },
        }
    }
    assert(dialogue(*write, bytes@, output, state, true, states, chunks, replies));
    (state, true)
}

/// Writes the line that marks a milestone, and nothing else, and says whether
/// all of it went out.
pub fn marker<S, W: Fn(S, &[u8]) -> (S, Option<usize>)>(
    bytes: &[u8],
    output: S,
    write: &W,
) -> (result: (S, bool))
    requires
        forall|state: S, chunk: &[u8]| #[trigger] call_requires(*write, (state, chunk)),
    ensures
        sends(*write, bytes@, output, result.0, result.1),
{
    write_all(bytes, output, write)
}

/// Whether `accepted` tells what an output has accepted so far: a write adds to
/// it as much of the front of the chunk as the reply says, which is never more
/// than the chunk holds, and a failed write adds nothing.
pub open spec fn faithful<S, W: Fn(S, &[u8]) -> (S, Option<usize>)>(
    write: W,
    accepted: spec_fn(S) -> Seq<u8>,
) -> bool {
    forall|before: S, chunk: &[u8], after: S, reply: Option<usize>| #[trigger]
        call_ensures(write, (before, chunk), (after, reply)) ==> {
            &&& taken_by(reply) <= chunk@.len()
            &&& accepted(after) == accepted(before) + chunk@.take(taken_by(reply) as int)
        }
}

/// No series of replies both brings a message out and stalls it.
pub proof fn law_success_and_failure_exclude_each_other(length: nat, replies: Seq<Option<usize>>)
    ensures
        !(completes(length, replies) && stalls(length, replies)),
{
    if completes(length, replies) && stalls(length, replies) {
        assert(took_some(replies[replies.len() - 1]));
    }
}

proof fn lemma_every_write_takes_a_byte(replies: Seq<Option<usize>>)
    requires
        forall|i: int| 0 <= i < replies.len() ==> took_some(#[trigger] replies[i]),
    ensures
        replies.len() <= taken(replies),
    decreases replies.len(),
{
    if replies.len() > 0 {
        assert(took_some(replies[replies.len() - 1]));
        assert forall|i: int| 0 <= i < replies.drop_last().len() implies took_some(
            #[trigger] replies.drop_last()[i],
        ) by {
            assert(took_some(replies[i]));
        }
        lemma_every_write_takes_a_byte(replies.drop_last());
    }
}

/// A message is sent, or stalls, within as many writes as it has bytes. An empty
/// one takes no write and cannot stall.
pub proof fn law_writes_are_bounded(length: nat, replies: Seq<Option<usize>>)
    requires
        completes(length, replies) || stalls(length, replies),
    ensures
        replies.len() <= length,
{
    if replies.len() > 0 {
        let earlier = replies.drop_last();
        assert forall|i: int| 0 <= i < earlier.len() implies took_some(#[trigger] earlier[i]) by {
            if completes(length, replies) {
                assert(took_some(replies[i]));
            }
        }
        lemma_every_write_takes_a_byte(earlier);
    }
}

/// Every write offers something, and it offers a tail of the message: no byte
/// reaches an output that is not the message's.
pub proof fn law_only_the_message_is_offered(
    message: Seq<u8>,
    chunks: Seq<&[u8]>,
    replies: Seq<Option<usize>>,
    i: int,
)
    requires
        offers(message, chunks, replies),
        completes(message.len(), replies) || stalls(message.len(), replies),
        0 <= i < chunks.len(),
    ensures
        taken(replies.take(i)) < message.len(),
        chunks[i]@ == message.skip(taken(replies.take(i)) as int),
{
    lemma_taken_grows(replies.drop_last(), i);
    assert(replies.drop_last().take(i) =~= replies.take(i));
}

proof fn lemma_taken_grows(replies: Seq<Option<usize>>, i: int)
    requires
        0 <= i <= replies.len(),
    ensures
        taken(replies.take(i)) <= taken(replies),
    decreases replies.len(),
{
    if i == replies.len() {
        assert(replies.take(i) =~= replies);
    } else {
        lemma_taken_grows(replies.drop_last(), i);
        assert(replies.drop_last().take(i) =~= replies.take(i));
    }
}

proof fn lemma_accepted<S, W: Fn(S, &[u8]) -> (S, Option<usize>)>(
    write: W,
    accepted: spec_fn(S) -> Seq<u8>,
    message: Seq<u8>,
    states: Seq<S>,
    chunks: Seq<&[u8]>,
    replies: Seq<Option<usize>>,
    n: int,
)
    requires
        faithful(write, accepted),
        chain(write, states, chunks, replies),
        offers(message, chunks, replies),
        completes(message.len(), replies) || stalls(message.len(), replies),
        0 <= n <= replies.len(),
    ensures
        taken(replies.take(n)) <= message.len(),
        accepted(states[n]) == accepted(states[0]) + message.take(taken(replies.take(n)) as int),
    decreases n,
{
    if n == 0 {
        assert(replies.take(0) =~= Seq::empty());
        assert(accepted(states[0]) =~= accepted(states[0]) + message.take(0));
    } else {
        let k = n - 1;
        lemma_accepted(write, accepted, message, states, chunks, replies, k);
        law_only_the_message_is_offered(message, chunks, replies, k);
        assert(call_ensures(write, (states[k], chunks[k]), (states[k + 1], replies[k])));
        assert(replies.take(n).drop_last() =~= replies.take(k));
        let sofar = taken(replies.take(k)) as int;
        let more = taken_by(replies[k]) as int;
        assert(message.take(sofar + more) =~= message.take(sofar) + message.skip(sofar).take(more));
        assert(accepted(states[n]) =~= accepted(states[0]) + message.take(sofar + more));
    }
}

/// Sending a message adds it to what the output has accepted: all of it, and
/// nothing else, exactly if sending succeeds, and otherwise a proper prefix of it.
pub proof fn law_output_holds_the_message<S, W: Fn(S, &[u8]) -> (S, Option<usize>)>(
    write: W,
    accepted: spec_fn(S) -> Seq<u8>,
    message: Seq<u8>,
    before: S,
    after: S,
    done: bool,
)
    requires
        faithful(write, accepted),
        sends(write, message, before, after, done),
    ensures
        done <==> accepted(after) == accepted(before) + message,
        !done ==> exists|k: int|
            0 <= k < message.len() && accepted(after) == accepted(before) + #[trigger] message.take(
                k,
            ),
{
    let (states, chunks, replies) = choose|
        states: Seq<S>,
        chunks: Seq<&[u8]>,
        replies: Seq<Option<usize>>,
    |
        dialogue(write, message, before, after, done, states, chunks, replies);
    let n = replies.len() as int;
    lemma_accepted(write, accepted, message, states, chunks, replies, n);
    assert(replies.take(n) =~= replies);
    let k = taken(replies) as int;
    assert(accepted(after) == accepted(before) + message.take(k));
    if done {
        assert(message.take(k) =~= message);
    } else {
        assert(k < message.len());
        assert(accepted(after).len() != (accepted(before) + message).len());
    }
}

/// What an output took in all is the sum of what it took: nothing at first, and
/// with every reply as much more as that reply says.
pub proof fn law_taken_is_a_sum(replies: Seq<Option<usize>>, reply: Option<usize>)
    ensures
        taken(Seq::empty()) == 0,
        reply is None ==> taken(replies.push(reply)) == taken(replies),
        reply is Some ==> taken(replies.push(reply)) == taken(replies) + reply->0,
{
    assert(replies.push(reply).drop_last() =~= replies);
}

/// All that happens while a message is sent, write by write.
///
/// The first write offers the whole message, and every further one what its
/// predecessor left of its own offer, so that something is always offered. Every
/// write but the last is answered with fewer bytes than were offered, but some. The last write takes all that it is
/// offered if sending succeeds; if sending fails, the last write failed or took
/// nothing. Sending fails in no other way, however many pieces it takes, and a
/// message without bytes needs no write.
pub proof fn law_every_write_of_a_dialogue<'a, S, W: Fn(S, &[u8]) -> (S, Option<usize>)>(
    write: W,
    message: Seq<u8>,
    before: S,
    after: S,
    done: bool,
) -> (writes: (Seq<S>, Seq<&'a [u8]>, Seq<Option<usize>>))
    requires
        sends(write, message, before, after, done),
    ensures
        ({
            let (states, chunks, replies) = writes;
            let count = replies.len() as int;
            &&& states.len() == count + 1
            &&& chunks.len() == count
            &&& states[0] == before
            &&& states[count] == after
            &&& forall|i: int|
                0 <= i < count ==> call_ensures(
                    write,
                    (#[trigger] states[i], chunks[i]),
                    (states[i + 1], replies[i]),
                )
            &&& count == 0 <==> message.len() == 0
            &&& count > 0 ==> chunks[0]@ == message
            &&& forall|i: int| 0 <= i < count ==> (#[trigger] chunks[i])@.len() > 0
            &&& forall|i: int|
                0 <= i < count - 1 ==> (#[trigger] replies[i]) is Some && 0 < replies[i]->0
                    < chunks[i]@.len() && chunks[i + 1]@ == chunks[i]@.skip(replies[i]->0 as int)
            &&& done && count > 0 ==> replies[count - 1] is Some && replies[count - 1]->0
                >= chunks[count - 1]@.len()
            &&& !done ==> count > 0 && (replies[count - 1] is None || replies[count - 1] == Some(
                0usize,
            ))
        }),
{
    let (states, chunks, replies) = choose|
        states: Seq<S>,
        chunks: Seq<&[u8]>,
        replies: Seq<Option<usize>>,
    |
        dialogue(write, message, before, after, done, states, chunks, replies);
    let count = replies.len() as int;
    law_writes_are_bounded(message.len(), replies);
    if count > 0 {
        assert(replies.take(0) =~= Seq::empty());
        assert(chunks[0]@ =~= message);
        law_only_the_message_is_offered(message, chunks, replies, count - 1);
        assert(replies.take(count - 1) =~= replies.drop_last());
    }
    assert forall|i: int| 0 <= i < count - 1 implies (#[trigger] replies[i]) is Some && 0
        < replies[i]->0 < chunks[i]@.len() && chunks[i + 1]@ == chunks[i]@.skip(
        replies[i]->0 as int,
    ) by {
        assert(took_some(replies[i])) by {
            if !done {
                assert(took_some(replies.drop_last()[i]));
            }
        }
        law_only_the_message_is_offered(message, chunks, replies, i);
        law_only_the_message_is_offered(message, chunks, replies, i + 1);
        assert(replies.take(i + 1).drop_last() =~= replies.take(i));
        let offset = taken(replies.take(i)) as int;
        let more = replies[i]->0 as int;
        assert(message.skip(offset).skip(more) =~= message.skip(offset + more));
    }
    if done && count > 0 {
        assert(took_some(replies[count - 1]));
    }
    (states, chunks, replies)
}

/// Sending fails only through the output: to an output that takes something
/// whenever it is offered something, every message goes out, in however many
/// pieces.
pub proof fn law_willing_output_takes_every_message<S, W: Fn(S, &[u8]) -> (S, Option<usize>)>(
    write: W,
    message: Seq<u8>,
    before: S,
    after: S,
    done: bool,
)
    requires
        sends(write, message, before, after, done),
        forall|from: S, chunk: &[u8], to: S, reply: Option<usize>| #[trigger]
            call_ensures(write, (from, chunk), (to, reply)) && chunk@.len() > 0 ==> reply is Some
                && reply->0 > 0,
    ensures
        done,
{
    let (states, chunks, replies) = law_every_write_of_a_dialogue(
        write,
        message,
        before,
        after,
        done,
    );
    if !done {
        let last = replies.len() - 1;
        assert(call_ensures(
            write,
            (states[last], chunks[last]),
            (states[last + 1], replies[last]),
        ));
    }
}

/// To an output that takes nothing, no message goes out but the empty one.
pub proof fn law_refusing_output_takes_no_message<S, W: Fn(S, &[u8]) -> (S, Option<usize>)>(
    write: W,
    message: Seq<u8>,
    before: S,
    after: S,
    done: bool,
)
    requires
        sends(write, message, before, after, done),
        forall|from: S, chunk: &[u8], to: S, reply: Option<usize>| #[trigger]
            call_ensures(write, (from, chunk), (to, reply)) ==> reply is None || reply == Some(
                0usize,
            ),
    ensures
        done <==> message.len() == 0,
        message.len() == 0 ==> after == before,
{
    let (states, chunks, replies) = law_every_write_of_a_dialogue(
        write,
        message,
        before,
        after,
        done,
    );
    if replies.len() > 0 {
        assert(call_ensures(write, (states[0], chunks[0]), (states[1], replies[0])));
    }
}

/// `after_write` says that a message is out exactly if the output took at least
/// what was left of it, and that it stalled exactly if the output failed or took
/// nothing; else it counts what the output took.
pub proof fn law_after_write(
    length: usize,
    offset: usize,
    reply: Option<usize>,
    standing: Progress,
)
    requires
        offset < length,
        call_ensures(after_write, (length, offset, reply), standing),
    ensures
        standing == Progress::Stalled <==> reply is None || reply->0 == 0,
        standing == Progress::Complete <==> reply is Some && reply->0 > 0 && reply->0 >= length
            - offset,
        standing is Partial <==> reply is Some && 0 < reply->0 < length - offset,
        standing is Partial ==> standing->written == offset + reply->0,
{
}

/// `write_all`, and `marker` in the same way, sends all of the bytes that it is
/// given and nothing else. All that happens meanwhile is the dialogue of
/// `law_every_write_of_a_dialogue`: the result is false only if the last write
/// failed or took nothing.
pub proof fn law_write_all<'a, S, W: Fn(S, &[u8]) -> (S, Option<usize>)>(
    bytes: &[u8],
    output: S,
    write: &W,
    result: (S, bool),
) -> (writes: (Seq<S>, Seq<&'a [u8]>, Seq<Option<usize>>))
    requires
        call_ensures(write_all::<S, W>, (bytes, output, write), result) || call_ensures(
            marker::<S, W>,
            (bytes, output, write),
            result,
        ),
    ensures
        ({
            let (states, chunks, replies) = writes;
            let count = replies.len() as int;
            &&& states.len() == count + 1
            &&& chunks.len() == count
            &&& states[0] == output
            &&& states[count] == result.0
            &&& forall|i: int|
                0 <= i < count ==> call_ensures(
                    *write,
                    (#[trigger] states[i], chunks[i]),
                    (states[i + 1], replies[i]),
                )
            &&& count == 0 <==> bytes@.len() == 0
            &&& count > 0 ==> chunks[0]@ == bytes@
            &&& forall|i: int| 0 <= i < count ==> (#[trigger] chunks[i])@.len() > 0
            &&& forall|i: int|
                0 <= i < count - 1 ==> (#[trigger] replies[i]) is Some && 0 < replies[i]->0
                    < chunks[i]@.len() && chunks[i + 1]@ == chunks[i]@.skip(replies[i]->0 as int)
            &&& result.1 && count > 0 ==> replies[count - 1] is Some && replies[count - 1]->0
                >= chunks[count - 1]@.len()
            &&& !result.1 ==> count > 0 && (replies[count - 1] is None || replies[count - 1]
                == Some(0usize))
        }),
{
    law_every_write_of_a_dialogue(*write, bytes@, output, result.0, result.1)
}

} // verus!
