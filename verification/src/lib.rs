//! Credential lifecycle management and a broker facade for a single
//! brokerage integration: OAuth2-style token acquisition and refresh,
//! expiration tracking, and a staleness-triggered refresh policy.

use vstd::prelude::*;

pub mod tda_broker;
pub mod tda_client;
pub mod text;

verus! {

/// The faults this crate reports.
#[derive(Clone, Copy, Debug, PartialEq, Eq, Structural)]
pub enum TdaError {
    /// The client identifier is missing from the configuration;
    /// authentication cannot proceed.
    Configuration,
    /// The pasted authorization line could not be read or decoded.
    Input,
    /// A network call failed or the provider answered with an error status.
    Transport,
    /// The provider's reply could not be decoded into a token response.
    Decode,
    /// The capability is declared by the broker interface but has no
    /// backing implementation here.
    Unimplemented,
}

/// A rational number kept as a plain numerator/denominator pair.
///
/// The cash-balance queries of this crate report a fixed placeholder
/// value of this type; nothing here reduces or normalises fractions.
#[derive(Clone, Copy, Debug, PartialEq, Eq, Structural)]
pub struct Rational {
    pub numer: i64,
    pub denom: i64,
}

impl Rational {
    /// Builds the fraction `numer / denom`; a zero denominator names
    /// no rational number and is excluded.
    pub fn new(numer: i64, denom: i64) -> (r: Rational)
        requires
            denom != 0,
        ensures
            r.numer == numer,
            r.denom == denom,
    {
        Rational { numer, denom }
    }
}

} // verus!
