use sha3sum::config::{Algorithm, Config, ConfigError};
use sha3sum::engine::DigestEngine;
use sha3sum::hasher::{finish_hex, get_hash};
use sha3sum::stream::{copy_wide, process_read, ReadEvent, ScriptedSource, StepOutcome, StreamError};

const EMPTY_256: &str = "a7ffc6f8bf1ed76651c14756a061d662f580ff4de43b49fa82d80a4b80f8434a";
const EMPTY_512: &str = "a69f73cca23a9ac5c8b567dc185a756e97c982164fe25859e0d1dcc1475c80a615b2123af1f5f94c11e3e9402c3ac558f500199d95b6d3e301758586281dcd26";
const ABC_256: &str = "3a985da74fe225b2045c172d6bd390bd855f086e3e9d525b46bfe24511431532";
const ABC_512: &str = "b751850b1a57168a5693cd924b6b096e08f621827444f70d884f5d0240d2712e10e116e9192af3c91a7ec57647e3934057340b4cf408d5a56592f8274eec53f0";

fn config_for(code: u32) -> Config {
    Config::resolve(Some(code), None).expect("supported code")
}

fn chunk(bytes: &[u8]) -> ReadEvent {
    ReadEvent::Chunk(bytes.to_vec())
}

#[test]
fn empty_input_256_matches_published_vector() {
    let source = ScriptedSource::new(vec![]);
    let digest = get_hash(&config_for(256), source).expect("no read error");
    assert_eq!(digest, EMPTY_256);
}

#[test]
fn empty_input_512_matches_published_vector() {
    let source = ScriptedSource::new(vec![chunk(b"")]);
    let digest = get_hash(&config_for(512), source).expect("no read error");
    assert_eq!(digest, EMPTY_512);
}

#[test]
fn abc_256_matches_published_vector() {
    let source = ScriptedSource::new(vec![chunk(b"abc")]);
    let digest = get_hash(&config_for(256), source).expect("no read error");
    assert_eq!(digest, ABC_256);
}

#[test]
fn abc_512_matches_published_vector() {
    let source = ScriptedSource::new(vec![chunk(b"abc")]);
    let digest = get_hash(&config_for(512), source).expect("no read error");
    assert_eq!(digest, ABC_512);
}

#[test]
fn single_read_and_byte_sized_chunks_agree() {
    for code in [256u32, 512u32] {
        let one = ScriptedSource::new(vec![chunk(b"chunking invariance")]);
        let many = ScriptedSource::new(
            b"chunking invariance".iter().map(|b| chunk(&[*b])).collect(),
        );
        let d_one = get_hash(&config_for(code), one).expect("no read error");
        let d_many = get_hash(&config_for(code), many).expect("no read error");
        assert_eq!(d_one, d_many);
    }
}

#[test]
fn uneven_chunks_agree_with_single_read() {
    let split = ScriptedSource::new(vec![chunk(b"a"), chunk(b"b"), chunk(b"c")]);
    let digest = get_hash(&config_for(256), split).expect("no read error");
    assert_eq!(digest, ABC_256);
}

#[test]
fn hex_output_shape_256() {
    let source = ScriptedSource::new(vec![chunk(b"shape test")]);
    let digest = get_hash(&config_for(256), source).expect("no read error");
    assert_eq!(digest.len(), 64);
    assert!(digest.chars().all(|c| c.is_ascii_hexdigit() && !c.is_ascii_uppercase()));
}

#[test]
fn hex_output_shape_512() {
    let source = ScriptedSource::new(vec![chunk(b"shape test")]);
    let digest = get_hash(&config_for(512), source).expect("no read error");
    assert_eq!(digest.len(), 128);
    assert!(digest.chars().all(|c| c.is_ascii_hexdigit() && !c.is_ascii_uppercase()));
}

#[test]
fn unsupported_algorithm_is_rejected() {
    let r = Config::resolve(Some(384), None);
    assert_eq!(r.err(), Some(ConfigError::UnknownAlgorithm));
}

#[test]
fn unsupported_algorithm_message() {
    let e = Config::resolve(Some(384), None).err().expect("rejected");
    assert_eq!(e.message(), "Unknown hash algorithm");
}

#[test]
fn omitted_algorithm_defaults_to_512() {
    let config = Config::resolve(None, None).expect("default accepted");
    assert_eq!(config.algorithm, Algorithm::Sha3_512);
    assert_eq!(config.literal_input, "");
}

#[test]
fn literal_argument_is_not_hashed() {
    let config = Config::resolve(Some(256), Some(String::from("something else"))).expect("accepted");
    assert_eq!(config.literal_input, "something else");
    let source = ScriptedSource::new(vec![chunk(b"abc")]);
    let digest = get_hash(&config, source).expect("no read error");
    assert_eq!(digest, ABC_256);
}

#[test]
fn transient_interruptions_are_retried() {
    let source = ScriptedSource::new(vec![
        ReadEvent::Interrupted,
        ReadEvent::Interrupted,
        ReadEvent::Interrupted,
        chunk(b"ab"),
        ReadEvent::Interrupted,
        chunk(b"c"),
        chunk(b""),
    ]);
    let digest = get_hash(&config_for(256), source).expect("no read error");
    assert_eq!(digest, ABC_256);
}

#[test]
fn interruptions_only_hash_as_empty_input() {
    let source = ScriptedSource::new(vec![ReadEvent::Interrupted, ReadEvent::Interrupted]);
    let digest = get_hash(&config_for(256), source).expect("no read error");
    assert_eq!(digest, EMPTY_256);
}

#[test]
fn fatal_read_failure_aborts_without_digest() {
    let source = ScriptedSource::new(vec![
        chunk(b"partial"),
        ReadEvent::Failed(StreamError { code: 7 }),
        chunk(b"never read"),
    ]);
    let r = get_hash(&config_for(512), source);
    assert_eq!(r, Err(StreamError { code: 7 }));
}

#[test]
fn always_failing_source_aborts() {
    let source = ScriptedSource::new(vec![ReadEvent::Failed(StreamError { code: 32 })]);
    let r = get_hash(&config_for(256), source);
    assert_eq!(r, Err(StreamError { code: 32 }));
}

#[test]
fn copy_wide_reports_total_bytes() {
    let mut engine = DigestEngine::new(Algorithm::Sha3_512);
    let source = ScriptedSource::new(vec![chunk(b"a"), chunk(b"bc")]);
    let total = copy_wide(source, &mut engine).expect("no read error");
    assert_eq!(total, 3);
    assert_eq!(finish_hex(engine), ABC_512);
}

#[test]
fn copy_wide_stops_at_empty_chunk() {
    let mut engine = DigestEngine::new(Algorithm::Sha3_256);
    let source = ScriptedSource::new(vec![chunk(b"abc"), chunk(b""), chunk(b"ignored")]);
    let total = copy_wide(source, &mut engine).expect("no read error");
    assert_eq!(total, 3);
    assert_eq!(finish_hex(engine), ABC_256);
}

#[test]
fn process_read_absorbs_chunk() {
    let mut engine = DigestEngine::new(Algorithm::Sha3_256);
    let r = process_read(&mut engine, 10, chunk(b"abc"));
    assert_eq!(r, StepOutcome::Progress(13));
}

#[test]
fn process_read_finishes_on_empty_chunk() {
    let mut engine = DigestEngine::new(Algorithm::Sha3_256);
    let r = process_read(&mut engine, 10, chunk(b""));
    assert_eq!(r, StepOutcome::Done(10));
}

#[test]
fn process_read_retries_on_interrupt() {
    let mut engine = DigestEngine::new(Algorithm::Sha3_256);
    let r = process_read(&mut engine, 10, ReadEvent::Interrupted);
    assert_eq!(r, StepOutcome::Progress(10));
}

#[test]
fn process_read_aborts_on_failure() {
    let mut engine = DigestEngine::new(Algorithm::Sha3_256);
    let r = process_read(&mut engine, 10, ReadEvent::Failed(StreamError { code: 5 }));
    assert_eq!(r, StepOutcome::Abort(StreamError { code: 5 }));
}

#[test]
fn process_read_sequence_matches_one_shot() {
    let mut engine = DigestEngine::new(Algorithm::Sha3_512);
    let mut total: u64 = 0;
    for event in [chunk(b"a"), ReadEvent::Interrupted, chunk(b"bc"), chunk(b"")] {
        match process_read(&mut engine, total, event) {
            StepOutcome::Done(t) => {
                total = t;
                break;
            }
            StepOutcome::Progress(t) => total = t,
            StepOutcome::Abort(_) => panic!("unexpected abort"),
        }
    }
    assert_eq!(total, 3);
    assert_eq!(finish_hex(engine), ABC_512);
}

#[test]
fn algorithm_from_code_accepts_only_supported_values() {
    assert_eq!(Algorithm::from_code(256), Some(Algorithm::Sha3_256));
    assert_eq!(Algorithm::from_code(512), Some(Algorithm::Sha3_512));
    assert_eq!(Algorithm::from_code(384), None);
    assert_eq!(Algorithm::from_code(0), None);
}
