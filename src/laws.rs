use vstd::prelude::*;

use crate::decoder::{
    admissible, initial_state, step, valid, Action, DecodeError, DecoderState, Event,
};
use crate::raw_buffer::BUFFER_SIZE;

verus! {

/// The states and actions of the adapter when `evs` happen in order from `s`.
pub open spec fn run(s: DecoderState, evs: Seq<Event>) -> (DecoderState, Seq<Action>)
    decreases evs.len(),
{
    if evs.len() == 0 {
        (s, Seq::empty())
    } else {
        let (t, a) = step(s, evs[0]);
        let (u, rest) = run(t, evs.drop_first());
        (u, seq![a] + rest)
    }
}

/// Every event of `evs` is admissible in the state it happens in.
pub open spec fn admissible_run(s: DecoderState, evs: Seq<Event>) -> bool
    decreases evs.len(),
{
    evs.len() == 0 || (admissible(s, evs[0]) && admissible_run(step(s, evs[0]).0, evs.drop_first()))
}

/// Every admissible event keeps the bookkeeping: `pos <= len <= capacity`, and
/// the bytes fed to the engine followed by the pending ones are exactly the
/// bytes received from the source.
pub proof fn lemma_step_keeps_valid(s: DecoderState, e: Event)
    requires
        valid(s),
        admissible(s, e),
    ensures
        valid(step(s, e).0),
{
    match e {
        Event::SourceData { bytes } => {
            if bytes.len() > 0 {
                assert(s.fed + bytes =~= s.received + bytes);
            }
        },
        Event::Decoded { .. } => {
            let t = step(s, e).0;
            assert(t.fed + t.pending =~= s.fed + s.pending);
        },
        _ => {},
    }
}

/// Over any admissible run from the start, the engine is fed the source's
/// bytes in order, none skipped or repeated: what it consumed followed by what
/// is pending is exactly what the source delivered.
pub proof fn lemma_engine_sees_source_stream(evs: Seq<Event>)
    requires
        admissible_run(initial_state(), evs),
    ensures
        valid(run(initial_state(), evs).0),
        run(initial_state(), evs).0.fed + run(initial_state(), evs).0.pending == run(
            initial_state(),
            evs,
        ).0.received,
{
    assert(initial_state().fed + initial_state().pending =~= initial_state().received);
    lemma_run_keeps_valid(initial_state(), evs);
}

/// Validity holds along every admissible run.
pub proof fn lemma_run_keeps_valid(s: DecoderState, evs: Seq<Event>)
    requires
        valid(s),
        admissible_run(s, evs),
    ensures
        valid(run(s, evs).0),
    decreases evs.len(),
{
    if evs.len() > 0 {
        lemma_step_keeps_valid(s, evs[0]);
        lemma_run_keeps_valid(step(s, evs[0]).0, evs.drop_first());
    }
}

/// The adapter never asks the source for more than the engine expects, nor
/// for more than the buffer holds, and never for nothing.
pub proof fn lemma_refill_within_hint(s: DecoderState, e: Event)
    ensures
        step(s, e).1 matches Action::ReadSource(n) ==> 0 < n && n <= step(s, e).0.expected && n
            <= BUFFER_SIZE,
{
}

/// Once the frame has ended, every read completes with nothing produced and no
/// fault, however many reads follow, and the state stays as it is.
pub proof fn lemma_terminal_reads_idempotent(s: DecoderState, evs: Seq<Event>)
    requires
        s.expected == 0,
        !s.failed,
        forall|i: int| 0 <= i < evs.len() ==> #[trigger] evs[i] is Poll,
    ensures
        run(s, evs).0 == s,
        run(s, evs).1.len() == evs.len(),
        forall|i: int| 0 <= i < evs.len() ==> #[trigger] run(s, evs).1[i] == Action::Ready,
    decreases evs.len(),
{
    if evs.len() > 0 {
        let rest = evs.drop_first();
        assert forall|i: int| 0 <= i < rest.len() implies #[trigger] rest[i] is Poll by {
            assert(rest[i] == evs[i + 1]);
        }
        lemma_terminal_reads_idempotent(s, rest);
        let acts = run(s, evs).1;
        assert forall|i: int| 0 <= i < evs.len() implies #[trigger] acts[i] == Action::Ready by {
            if i > 0 {
                assert(acts[i] == run(s, rest).1[i - 1]);
            }
        }
    }
}

/// A source that would block makes the read report blocking and changes
/// nothing: a run with a blocked poll inserted ends in the same state and takes
/// the same actions, with one `Blocked` added in front.
pub proof fn lemma_blocking_is_transparent(s: DecoderState, evs: Seq<Event>)
    ensures
        step(s, Event::SourceBlocked) == (s, Action::Blocked),
        run(s, seq![Event::SourceBlocked] + evs).0 == run(s, evs).0,
        run(s, seq![Event::SourceBlocked] + evs).1 == seq![Action::Blocked] + run(s, evs).1,
{
    let all = seq![Event::SourceBlocked] + evs;
    assert(all.drop_first() =~= evs);
    assert(all[0] == Event::SourceBlocked);
}

/// A source that ends while the engine still expects bytes yields the
/// truncation fault and leaves the state as it is.
pub proof fn lemma_truncation_is_a_fault(s: DecoderState)
    requires
        s.expected > 0,
    ensures
        step(s, Event::SourceData { bytes: Seq::empty() }) == (s, Action::Fail(
            DecodeError::Truncated,
        )),
{
}

/// A read never completes short: it reports success only when the destination
/// had no room, when the last engine call produced output, or when the frame
/// has ended.
pub proof fn lemma_ready_only_with_progress(s: DecoderState, e: Event)
    ensures
        step(s, e).1 == Action::Ready ==> {
            ||| e matches Event::Poll { room } && room == 0
            ||| e matches Event::Decoded { produced, .. } && produced > 0
            ||| step(s, e).0.expected == 0
        },
{
}

} // verus!
