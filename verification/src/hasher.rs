//! The full digest pipeline: select an engine for the configured
//! algorithm, drain the byte source into it, and encode the finalized
//! digest as lowercase hexadecimal.

use vstd::prelude::*;

verus! {

use crate::config::{Algorithm, Config};
use crate::engine::{DigestEngine, spec_digest};
use crate::hexstr::{hex_encode_bytes, lemma_hex_shape, spec_hex};
use crate::stream::{
    ReadEvent, ScriptedSource, StreamError, copy_wide, drain_error, drained_bytes, is_chunk_script,
    lemma_chunk_script_drains, lemma_interrupts_transparent, without_interrupts,
};

/// Finalizes an engine and encodes its digest: the result is the
/// lowercase hexadecimal encoding of the digest of everything the engine
/// absorbed, twice the digest length in characters.
pub fn finish_hex(engine: DigestEngine) -> (r: String)
    ensures
        r@ == spec_hex(spec_digest(engine.algorithm(), engine.absorbed())),
        r@.len() == 2 * engine.algorithm().digest_len(),
{
    let digest = engine.finalize();
    proof {
        lemma_hex_shape(digest@);
    }
    hex_encode_bytes(digest.as_slice())
}

/// Computes the digest of a byte source under a configuration: the source
/// is drained to exhaustion into an engine for the configured algorithm
/// and the digest is returned as lowercase hexadecimal.  The
/// configuration's literal argument is deliberately ignored; the bytes
/// hashed are exactly those the source delivers.  A fatal read failure is
/// returned unchanged, and no digest is produced for it.
pub fn get_hash(config: &Config, source: ScriptedSource) -> (r: Result<String, StreamError>)
    requires
        drained_bytes(source@).len() <= u64::MAX,
    ensures
        match r {
            Ok(digest) => drain_error(source@) is None && digest@ == spec_hex(
                spec_digest(config.algorithm, drained_bytes(source@)),
            ) && digest@.len() == 2 * config.algorithm.digest_len(),
            Err(e) => drain_error(source@) == Some(e),
        },
{
    let mut engine = DigestEngine::new(config.algorithm);
    match copy_wide(source, &mut engine) {
        Ok(_total) => Ok(finish_hex(engine)),
        Err(e) => Err(e),
    }
}

/// Chunking invariance: two sources that deliver the same bytes overall,
/// however differently those bytes are split into chunks, are hashed to
/// the same hexadecimal digest by every algorithm, and both succeed.
pub proof fn lemma_chunking_invariance(
    algo: Algorithm,
    events1: Seq<ReadEvent>,
    chunks1: Seq<Seq<u8>>,
    events2: Seq<ReadEvent>,
    chunks2: Seq<Seq<u8>>,
)
    requires
        is_chunk_script(events1, chunks1),
        is_chunk_script(events2, chunks2),
        chunks1.flatten() == chunks2.flatten(),
    ensures
        drained_bytes(events1) == drained_bytes(events2),
        drain_error(events1) is None,
        drain_error(events2) is None,
        spec_hex(spec_digest(algo, drained_bytes(events1))) == spec_hex(
            spec_digest(algo, drained_bytes(events2)),
        ),
{
    lemma_chunk_script_drains(events1, chunks1);
    lemma_chunk_script_drains(events2, chunks2);
}

/// Retry correctness: a source that suffers transient interruptions is
/// hashed to the same hexadecimal digest, with the same outcome, as the
/// same source with those interruptions left out.
pub proof fn lemma_retry_correctness(algo: Algorithm, events: Seq<ReadEvent>)
    ensures
        drain_error(events) == drain_error(without_interrupts(events)),
        spec_hex(spec_digest(algo, drained_bytes(events))) == spec_hex(
            spec_digest(algo, drained_bytes(without_interrupts(events))),
        ),
{
    lemma_interrupts_transparent(events);
}

} // verus!
