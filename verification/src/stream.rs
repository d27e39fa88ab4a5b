//! The streaming-hash data path: a fallible byte source is drained in
//! chunks into a digest engine, retrying transparently on transient
//! interruptions and aborting on any other failure.  One read outcome at a
//! time is handled by `process_read`; `copy_wide` drains a whole scripted
//! source.

use vstd::prelude::*;

verus! {

use crate::engine::DigestEngine;

/// A non-recoverable read failure, carrying an application-chosen code.
#[derive(Clone, Copy, Debug, PartialEq, Eq, Structural)]
pub struct StreamError {
    pub code: u64,
}

/// The outcome of one read from a byte source.  A `Chunk` of zero bytes
/// means the source is exhausted; `Interrupted` is a transient failure
/// that must be retried; `Failed` is fatal.
#[derive(Debug)]
pub enum ReadEvent {
    Chunk(Vec<u8>),
    Interrupted,
    Failed(StreamError),
}

/// What the streaming hasher does after one read: finish with the total
/// byte count, continue with an updated total, or abort with the error.
#[derive(Clone, Copy, Debug, PartialEq, Eq, Structural)]
pub enum StepOutcome {
    Done(u64),
    Progress(u64),
    Abort(StreamError),
}

/// The bytes a source described by `events` delivers before it reports
/// exhaustion, fails, or runs out of script: the concatenation of its
/// chunks up to the first empty chunk or fatal failure, with interrupted
/// reads contributing nothing.
pub open spec fn drained_bytes(events: Seq<ReadEvent>) -> Seq<u8>
    decreases events.len(),
{
    if events.len() == 0 {
        Seq::<u8>::empty()
    } else {
        match events[0] {
            ReadEvent::Chunk(data) => if data@.len() == 0 {
                Seq::<u8>::empty()
            } else {
                data@ + drained_bytes(events.skip(1))
            },
            ReadEvent::Interrupted => drained_bytes(events.skip(1)),
            ReadEvent::Failed(_) => Seq::<u8>::empty(),
        }
    }
}

/// The fatal error, if any, that draining a source described by `events`
/// runs into before an empty chunk or the end of the script.
pub open spec fn drain_error(events: Seq<ReadEvent>) -> Option<StreamError>
    decreases events.len(),
{
    if events.len() == 0 {
        None
    } else {
        match events[0] {
            ReadEvent::Chunk(data) => if data@.len() == 0 {
                None
            } else {
                drain_error(events.skip(1))
            },
            ReadEvent::Interrupted => drain_error(events.skip(1)),
            ReadEvent::Failed(e) => Some(e),
        }
    }
}

/// A byte source driven by a fixed script of read outcomes, delivered in
/// order; once the script is exhausted the source counts as exhausted.
/// It is finite and not restartable: draining consumes it.
pub struct ScriptedSource {
    events: Vec<ReadEvent>,
}

impl View for ScriptedSource {
    type V = Seq<ReadEvent>;

    closed spec fn view(&self) -> Seq<ReadEvent> {
        self.events@
    }
}

impl ScriptedSource {
    /// A source that replays exactly the given read outcomes.
    pub fn new(events: Vec<ReadEvent>) -> (s: Self)
        ensures
            s@ == events@,
    {
        ScriptedSource { events }
    }
}

/// Whether `events` is a pure chunk script: one non-empty chunk per
/// entry, delivering exactly the byte sequences in `chunks`, with no
/// interruptions, failures, or explicit end-of-stream marker.
pub open spec fn is_chunk_script(events: Seq<ReadEvent>, chunks: Seq<Seq<u8>>) -> bool {
    &&& events.len() == chunks.len()
    &&& forall|i: int|
        0 <= i < events.len() ==> ((#[trigger] events[i]) matches ReadEvent::Chunk(data)
            && data@ == chunks[i] && chunks[i].len() > 0)
}

/// A pure chunk script drains to the concatenation of its chunks and
/// never fails, whatever the chunk boundaries are.
pub proof fn lemma_chunk_script_drains(events: Seq<ReadEvent>, chunks: Seq<Seq<u8>>)
    requires
        is_chunk_script(events, chunks),
    ensures
        drained_bytes(events) == chunks.flatten(),
        drain_error(events) is None,
    decreases events.len(),
{
    if events.len() == 0 {
    } else {
        assert(events.skip(1).len() == chunks.skip(1).len());
        assert forall|i: int|
            0 <= i < events.skip(1).len() implies (#[trigger] events.skip(1)[i]) matches
            ReadEvent::Chunk(data) && data@ == chunks.skip(1)[i] && chunks.skip(1)[i].len()
            > 0 by {
            assert(events.skip(1)[i] == events[i + 1]);
            assert(chunks.skip(1)[i] == chunks[i + 1]);
        }
        lemma_chunk_script_drains(events.skip(1), chunks.skip(1));
        assert(events[0] matches ReadEvent::Chunk(data) && data@ == chunks[0]);
        assert(chunks.drop_first() =~= chunks.skip(1));
        assert(chunks.flatten() == chunks[0] + chunks.skip(1).flatten());
    }
}

/// The script with every transient interruption removed.
pub open spec fn without_interrupts(events: Seq<ReadEvent>) -> Seq<ReadEvent>
    decreases events.len(),
{
    if events.len() == 0 {
        Seq::<ReadEvent>::empty()
    } else {
        match events[0] {
            ReadEvent::Interrupted => without_interrupts(events.skip(1)),
            _ => seq![events[0]] + without_interrupts(events.skip(1)),
        }
    }
}

/// Transient interruptions are transparent: a script delivers exactly the
/// bytes, and runs into exactly the fatal error, that it would with its
/// interrupted reads left out.
pub proof fn lemma_interrupts_transparent(events: Seq<ReadEvent>)
    ensures
        drained_bytes(events) == drained_bytes(without_interrupts(events)),
        drain_error(events) == drain_error(without_interrupts(events)),
    decreases events.len(),
{
    if events.len() == 0 {
    } else {
        lemma_interrupts_transparent(events.skip(1));
        match events[0] {
            ReadEvent::Interrupted => {},
            _ => {
                let w = seq![events[0]] + without_interrupts(events.skip(1));
                assert(w[0] == events[0]);
                assert(w.skip(1) =~= without_interrupts(events.skip(1)));
            },
        }
    }
}

/// Handles the outcome of one read, as the streaming hasher does: an
/// empty chunk finishes with the running total; a non-empty chunk is
/// absorbed into the engine, order-preserving, and the total grows by its
/// length; a transient interruption absorbs nothing and continues; any
/// other failure aborts with the error, leaving the engine as it was.
pub fn process_read(engine: &mut DigestEngine, total: u64, event: ReadEvent) -> (r: StepOutcome)
    requires
        event matches ReadEvent::Chunk(data) ==> total + data@.len() <= u64::MAX,
    ensures
        final(engine).algorithm() == old(engine).algorithm(),
        match event {
            ReadEvent::Chunk(data) => if data@.len() == 0 {
                r == StepOutcome::Done(total) && final(engine).absorbed() == old(engine).absorbed()
            } else {
                r == StepOutcome::Progress((total + data@.len()) as u64) && final(engine).absorbed()
                    == old(engine).absorbed() + data@
            },
            ReadEvent::Interrupted => r == StepOutcome::Progress(total) && final(engine).absorbed()
                == old(engine).absorbed(),
            ReadEvent::Failed(e) => r == StepOutcome::Abort(e) && final(engine).absorbed() == old(
                engine,
            ).absorbed(),
        },
{
    match event {
        ReadEvent::Chunk(data) => {
            if data.len() == 0 {
                StepOutcome::Done(total)
            } else {
                engine.update(data.as_slice());
                StepOutcome::Progress(total + data.len() as u64)
            }
        },
        ReadEvent::Interrupted => StepOutcome::Progress(total),
        ReadEvent::Failed(e) => StepOutcome::Abort(e),
    }
}

/// Removing the first event of a non-empty script steps the drained bytes
/// and the drain outcome by exactly that event.
proof fn lemma_drain_step(events: Seq<ReadEvent>)
    requires
        events.len() > 0,
    ensures
        drained_bytes(events) == match events[0] {
            ReadEvent::Chunk(data) => if data@.len() == 0 {
                Seq::<u8>::empty()
            } else {
                data@ + drained_bytes(events.remove(0))
            },
            ReadEvent::Interrupted => drained_bytes(events.remove(0)),
            ReadEvent::Failed(_) => Seq::<u8>::empty(),
        },
        drain_error(events) == match events[0] {
            ReadEvent::Chunk(data) => if data@.len() == 0 {
                None
            } else {
                drain_error(events.remove(0))
            },
            ReadEvent::Interrupted => drain_error(events.remove(0)),
            ReadEvent::Failed(e) => Some(e),
        },
{
    assert(events.remove(0) =~= events.skip(1));
}

/// Drains a whole byte source into the engine, absorbing every chunk the
/// source delivers, in order, retrying interrupted reads and stopping at
/// the first empty chunk, the first fatal failure, or the end of the
/// script.  On success the result is the number of bytes absorbed; on
/// failure the source's fatal error is returned unchanged, and the bytes
/// absorbed before the failure remain absorbed.
#[verifier::loop_isolation(false)]
pub fn copy_wide(source: ScriptedSource, engine: &mut DigestEngine) -> (r: Result<
    u64,
    StreamError,
>)
    requires
        drained_bytes(source@).len() <= u64::MAX,
    ensures
        final(engine).algorithm() == old(engine).algorithm(),
        final(engine).absorbed() == old(engine).absorbed() + drained_bytes(source@),
        match r {
            Ok(total) => drain_error(source@) is None && total == drained_bytes(source@).len(),
            Err(e) => drain_error(source@) == Some(e),
        },
{
    let ScriptedSource { events } = source;
    let mut events = events;
    let mut total: u64 = 0;
    let ghost mut absorbed_here: Seq<u8> = Seq::<u8>::empty();
    loop
        invariant
            drained_bytes(source@) == absorbed_here + drained_bytes(events@),
            drain_error(source@) == drain_error(events@),
            engine.algorithm() == old(engine).algorithm(),
            engine.absorbed() == old(engine).absorbed() + absorbed_here,
            total == absorbed_here.len(),
        decreases events@.len(),
    {
        if events.len() == 0 {
            assert(drained_bytes(source@) =~= absorbed_here);
            return Ok(total);
        }
        proof {
            lemma_drain_step(events@);
        }
        let event = events.remove(0);
        let ghost ev = event;
        match process_read(engine, total, event) {
            StepOutcome::Done(t) => {
                assert(drained_bytes(source@) =~= absorbed_here);
                return Ok(t);
            },
            StepOutcome::Progress(t) => {
                total = t;
                proof {
                    match ev {
                        ReadEvent::Chunk(data) => {
                            absorbed_here = absorbed_here + data@;
                        },
                        _ => {},
                    }
                }
            },
            StepOutcome::Abort(e) => {
                assert(drained_bytes(source@) =~= absorbed_here);
                return Err(e);
            },
        }
    }
}

} // verus!
