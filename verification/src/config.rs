//! Argument resolution: turning a raw algorithm code and an optional
//! literal argument into a validated configuration.

use vstd::prelude::*;

verus! {

use vstd::string::StringExecFns;

/// The two supported SHA-3 digest widths.
#[derive(Clone, Copy, PartialEq, Eq, Structural, Debug)]
pub enum Algorithm {
    Sha3_256,
    Sha3_512,
}

impl Algorithm {
    /// The numeric code that selects this algorithm on the command line.
    pub open spec fn spec_code(self) -> u32 {
        match self {
            Algorithm::Sha3_256 => 256,
            Algorithm::Sha3_512 => 512,
        }
    }

    /// Number of bytes in a digest produced by this algorithm.
    pub open spec fn digest_len(self) -> nat {
        match self {
            Algorithm::Sha3_256 => 32,
            Algorithm::Sha3_512 => 64,
        }
    }

    /// Selects the algorithm matching a numeric code; any code other than
    /// 256 or 512 is unsupported and yields `None`.
    pub fn from_code(code: u32) -> (r: Option<Algorithm>)
        ensures
            code == 256 ==> r == Some(Algorithm::Sha3_256),
            code == 512 ==> r == Some(Algorithm::Sha3_512),
            code != 256 && code != 512 ==> r is None,
    {
        if code == 256 {
            Some(Algorithm::Sha3_256)
        } else if code == 512 {
            Some(Algorithm::Sha3_512)
        } else {
            None
        }
    }
}

/// A configuration error: the algorithm code is not one of the two
/// supported values.
#[derive(Clone, Copy, Debug, PartialEq, Eq, Structural)]
pub enum ConfigError {
    UnknownAlgorithm,
}

impl ConfigError {
    /// The diagnostic reported to the user for this error.
    pub fn message(&self) -> (r: String)
        ensures
            r@ == "Unknown hash algorithm"@,
    {
        String::from_str("Unknown hash algorithm")
    }
}

/// A validated invocation: a supported algorithm and the literal argument,
/// if one was given.  The literal is recorded for the caller's benefit but
/// is deliberately not used as hash input: the digest is always computed
/// from the byte source (standard input), whether or not a literal was
/// supplied.
pub struct Config {
    pub algorithm: Algorithm,
    pub literal_input: String,
}

impl Config {
    /// Resolves raw invocation values into a configuration.  An omitted
    /// algorithm code defaults to 512 and an omitted literal argument to
    /// the empty string; a code other than 256 or 512 is rejected, never
    /// silently mapped to a fallback.
    pub fn resolve(algo_code: Option<u32>, literal: Option<String>) -> (r: Result<
        Config,
        ConfigError,
    >)
        ensures
            ({
                let code = match algo_code {
                    Some(c) => c,
                    None => 512u32,
                };
                match r {
                    Ok(config) => (code == 256 || code == 512) && config.algorithm.spec_code()
                        == code && config.literal_input@ == match literal {
                        Some(s) => s@,
                        None => Seq::<char>::empty(),
                    },
                    Err(e) => code != 256 && code != 512 && e == ConfigError::UnknownAlgorithm,
                }
            }),
    {
        let code: u32 = match algo_code {
            Some(c) => c,
            None => 512,
        };
        let algorithm = match Algorithm::from_code(code) {
            Some(a) => a,
            None => {
                return Err(ConfigError::UnknownAlgorithm);
            },
        };
        let literal_input = match literal {
            Some(s) => s,
            None => String::new(),
        };
        Ok(Config { algorithm, literal_input })
    }
}

} // verus!
