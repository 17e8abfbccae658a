//! Retries with exponential backoff.

use crate::error::{AgentError, AgentErrorView};
use crate::text::decimal;
use crate::text::{decimal_text, join4};
use vstd::arithmetic::power2::{lemma_pow2_unfold, pow2};
use vstd::prelude::*;

verus! {

/// The wait after the first failed attempt, in milliseconds.
pub const INITIAL_DELAY_MS: u64 = 500;

/// The longest wait between two attempts, in milliseconds.
pub const MAX_DELAY_MS: u64 = 10_000;

/// The wait after an attempt that `failures` others failed before: it doubles with each failure
/// up to the longest wait.
pub open spec fn backoff_delay(failures: nat) -> nat {
    let doubled = INITIAL_DELAY_MS as nat * pow2(failures);
    if doubled < MAX_DELAY_MS {
        doubled
    } else {
        MAX_DELAY_MS as nat
    }
}

/// Whether an operation is given up after a number of failed attempts.
pub open spec fn gives_up(failures: nat, max_attempts: u32) -> bool {
    failures >= max_attempts
}

/// The error of an operation that was given up.
pub open spec fn give_up_error(
    operation_name: Seq<char>,
    failures: nat,
    error: AgentErrorView,
) -> AgentErrorView {
    AgentErrorView::RetryError(
        operation_name + " failed after "@ + decimal(failures) + " attempts: "@ + error.message(),
    )
}

/// What to do after a failed attempt.
#[derive(Debug)]
pub enum RetryStep {
    /// Wait for a number of milliseconds and try again.
    Retry { delay_ms: u64 },
    /// Report the error.
    GiveUp(AgentError),
}

/// The attempts that an operation has failed so far.
pub struct Backoff {
    failures: u32,
    delay_ms: u64,
}

impl View for Backoff {
    type V = nat;

    /// The number of failed attempts.
    closed spec fn view(&self) -> nat {
        self.failures as nat
    }
}

proof fn lemma_delay_doubles(failures: nat)
    ensures
        backoff_delay(failures + 1) == if 2 * backoff_delay(failures) < MAX_DELAY_MS {
            2 * backoff_delay(failures)
        } else {
            MAX_DELAY_MS as nat
        },
{
    lemma_pow2_unfold(failures + 1);
    assert(INITIAL_DELAY_MS * pow2(failures + 1) == 2 * (INITIAL_DELAY_MS * pow2(failures)));
}

impl Backoff {
    #[verifier::type_invariant]
    spec fn well_formed(self) -> bool {
        self.delay_ms == backoff_delay(self.failures as nat)
    }

    /// An operation that has not been tried yet.
    pub fn start() -> (r: Self)
        ensures
            r@ == 0,
    {
        proof {
            vstd::arithmetic::power2::lemma2_to64();
        }
        Backoff { failures: 0, delay_ms: INITIAL_DELAY_MS }
    }

    /// Takes note of a failed attempt, and says whether to try again and after which wait.
    pub fn after_failure(
        &mut self,
        operation_name: &str,
        max_attempts: u32,
        error: &AgentError,
    ) -> (r: RetryStep)
        requires
            old(self)@ < u32::MAX,
        ensures
            final(self)@ == old(self)@ + 1,
            match r {
                RetryStep::Retry { delay_ms } => !gives_up(final(self)@, max_attempts) && delay_ms
                    == backoff_delay(old(self)@),
                RetryStep::GiveUp(given_up) => gives_up(final(self)@, max_attempts) && given_up@
                    == give_up_error(operation_name@, final(self)@, error@),
            },
    {
        proof {
            use_type_invariant(&*self);
            lemma_delay_doubles(self.failures as nat);
        }
        let failures: u32 = self.failures + 1;
        let delay_ms: u64 = self.delay_ms;
        let doubled: u64 = if 2 * delay_ms < MAX_DELAY_MS {
            2 * delay_ms
        } else {
            MAX_DELAY_MS
        };
        *self = Backoff { failures, delay_ms: doubled };
        if failures >= max_attempts {
            let mut text = join4(
                operation_name,
                " failed after ",
                decimal_text(failures).as_str(),
                " attempts: ",
            );
            text.append(error.message().as_str());
            RetryStep::GiveUp(AgentError::RetryError(text))
        } else {
            RetryStep::Retry { delay_ms }
        }
    }
}

/// The wait never shrinks from one failure to the next, is never shorter than the first one nor
/// longer than the longest, and doubles for as long as that stays within the longest.
pub proof fn law_backoff_is_exponential_and_capped(failures: nat)
    ensures
        INITIAL_DELAY_MS <= backoff_delay(failures) <= backoff_delay(failures + 1) <= MAX_DELAY_MS,
        2 * backoff_delay(failures) <= MAX_DELAY_MS ==> backoff_delay(failures + 1) == 2
            * backoff_delay(failures),
    decreases failures,
{
    vstd::arithmetic::power2::lemma2_to64();
    lemma_delay_doubles(failures);
    if failures > 0 {
        law_backoff_is_exponential_and_capped((failures - 1) as nat);
    }
}

/// An operation that keeps failing is given up after exactly as many attempts as are allowed,
/// and after one where none is allowed.
pub proof fn law_attempts_are_bounded(failures: nat, max_attempts: u32)
    requires
        failures > 0,
    ensures
        (gives_up(failures, max_attempts) && (failures == 1 || !gives_up(
            (failures - 1) as nat,
            max_attempts,
        ))) <==> failures == if max_attempts == 0 {
            1
        } else {
            max_attempts as nat
        },
{
}

} // verus!
