//! The options of a benchmark run, as plain values.

use crate::dispatch::AdmissionStrategy;
use crate::dns::TargetAddr;
use vstd::prelude::*;
use vstd::string::StringExecFns;

verus! {

/// How the name of each query is chosen.
#[derive(Clone, Copy, Debug, PartialEq, Eq, Structural)]
pub enum TestMode {
    /// Every query asks for the configured domain itself.
    SameDomain,
    /// Every query asks for a fresh random label under the configured domain.
    RandomSubdomain,
}

/// The options of one invocation.
#[derive(Clone, Debug)]
pub struct Cli {
    /// Address of the resolver under test.
    pub target: TargetAddr,
    /// Domain name to query.
    pub domain: String,
    /// Total number of queries to send.
    pub count: u64,
    /// Timeout of each query, in seconds.
    pub timeout: u64,
    /// Number of queries that may be under way at once.
    pub workers: usize,
    /// Queries per second. Where it is given, queries are admitted at
    /// this rate, and `workers` is not used.
    pub rate: Option<u32>,
    /// How the name of each query is chosen.
    pub mode: TestMode,
}

impl Cli {
    /// What is wrong with the options, if anything: the count is checked
    /// first, then the timeout.
    pub open spec fn complaint(self) -> Option<Seq<char>> {
        if self.count == 0 {
            Some("Count must be greater than 0"@)
        } else if self.timeout == 0 {
            Some("Timeout must be greater than 0"@)
        } else {
            None
        }
    }

    /// The admission strategy that the options ask for: rate-bounded where
    /// a rate is given, concurrency-bounded by `workers` where none is.
    pub open spec fn chosen_strategy(self) -> AdmissionStrategy {
        match self.rate {
            Some(rate) => AdmissionStrategy::Rate { rate },
            None => AdmissionStrategy::Concurrency { max_in_flight: self.workers },
        }
    }

    /// The admission strategy that the options ask for.
    pub fn strategy(&self) -> (strategy: AdmissionStrategy)
        ensures
            strategy == self.chosen_strategy(),
    {
        match self.rate {
            Some(rate) => AdmissionStrategy::Rate { rate },
            None => AdmissionStrategy::Concurrency { max_in_flight: self.workers },
        }
    }

    /// Accepts the options when both the count and the timeout are above
    /// zero, and says which of the two is not otherwise.
    pub fn validate(&self) -> (result: Result<(), String>)
        ensures
            self.complaint() is None <==> result is Ok,
            self.complaint() matches Some(text) ==> result matches Err(message) && message@
                == text,
    {
        if self.count == 0 {
            return Err(String::from_str("Count must be greater than 0"));
        }
        if self.timeout == 0 {
            return Err(String::from_str("Timeout must be greater than 0"));
        }
        Ok(())
    }
}

} // verus!
