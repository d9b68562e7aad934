//! When a failed database operation is tried again.
//!
//! The streak calculator and the refresh scheduler share one pool of database connections.
//! Only failures of the connection itself are worth another try, only after a pause, and only
//! a limited number of times. Everything else is reported to the caller at once.

use vstd::prelude::*;

verus! {

/// The pause before the pool is connected again at start-up, in seconds.
pub const CONNECT_RETRY_SECS: u64 = 60;

/// The pause before a connection or a transaction is asked of the pool again, in seconds.
pub const ACQUIRE_RETRY_SECS: u64 = 1;

/// What is being tried.
#[derive(Clone, Copy, Debug, PartialEq, Eq)]
pub enum RetryRule {
    /// Connecting the pool at start-up. Any I/O failure is tried again.
    Connect,
    /// Taking a connection or a transaction from the pool. Only a reset connection is tried
    /// again.
    Acquire,
}

/// What went wrong, as far as it matters for another try.
#[derive(Clone, Copy, Debug, PartialEq, Eq)]
pub enum FailureKind {
    /// An I/O failure: the connection was reset by the peer.
    ConnectionReset,
    /// Any other I/O failure.
    OtherIo,
    /// A failure that is no I/O failure.
    NotIo,
}

/// Whether a failure is tried again under a rule.
pub open spec fn retryable(rule: RetryRule, failure: FailureKind) -> bool {
    match rule {
        RetryRule::Connect => failure is ConnectionReset || failure is OtherIo,
        RetryRule::Acquire => failure is ConnectionReset,
    }
}

/// The pause before another try under a rule, in seconds.
pub open spec fn retry_pause(rule: RetryRule) -> u64 {
    match rule {
        RetryRule::Connect => CONNECT_RETRY_SECS,
        RetryRule::Acquire => ACQUIRE_RETRY_SECS,
    }
}

/// Counts the tries of one operation.
pub struct RetryBudget {
    rule: RetryRule,
    max_retries: usize,
    attempts: usize,
}

impl RetryBudget {
    #[verifier::type_invariant]
    spec fn within_budget(&self) -> bool {
        self.attempts <= self.max_retries
    }

    /// The rule that the operation is tried under.
    pub closed spec fn rule(&self) -> RetryRule {
        self.rule
    }

    /// How often the operation may be tried again in all.
    pub closed spec fn max_retries(&self) -> nat {
        self.max_retries as nat
    }

    /// How often the operation has been tried again so far.
    pub closed spec fn attempts(&self) -> nat {
        self.attempts as nat
    }

    /// The budget of an operation that has not failed yet.
    pub fn new(rule: RetryRule, max_retries: usize) -> (budget: RetryBudget)
        ensures
            budget.rule() == rule,
            budget.max_retries() == max_retries,
            budget.attempts() == 0,
    {
        RetryBudget { rule, max_retries, attempts: 0 }
    }

    /// How often the operation has been tried again so far.
    pub fn retries(&self) -> (attempts: usize)
        ensures
            attempts == self.attempts(),
            attempts <= self.max_retries(),
    {
        proof {
            use_type_invariant(self);
        }
        self.attempts
    }

    /// Takes a failure of the operation. `Some(seconds)` says to pause that long and try
    /// again, and counts the try; `None` says to give up and report the failure.
    pub fn on_failure(&mut self, failure: FailureKind) -> (pause: Option<u64>)
        ensures
            final(self).rule() == old(self).rule(),
            final(self).max_retries() == old(self).max_retries(),
            old(self).attempts() < old(self).max_retries() && retryable(old(self).rule(), failure)
                ==> pause == Some(retry_pause(old(self).rule())) && final(self).attempts()
                == old(self).attempts() + 1,
            !(old(self).attempts() < old(self).max_retries() && retryable(
                old(self).rule(),
                failure,
            )) ==> pause is None && final(self).attempts() == old(self).attempts(),
    {
        proof {
            use_type_invariant(&*self);
        }
        if self.attempts >= self.max_retries {
            return None;
        }
        let again = match self.rule {
            RetryRule::Connect => match failure {
                FailureKind::ConnectionReset => true,
                FailureKind::OtherIo => true,
                FailureKind::NotIo => false,
            },
            RetryRule::Acquire => match failure {
                FailureKind::ConnectionReset => true,
                FailureKind::OtherIo => false,
                FailureKind::NotIo => false,
            },
        };
        if again {
            self.attempts = self.attempts + 1;
            Some(
                match self.rule {
                    RetryRule::Connect => CONNECT_RETRY_SECS,
                    RetryRule::Acquire => ACQUIRE_RETRY_SECS,
                },
            )
        } else {
            None
        }
    }
}

} // verus!
