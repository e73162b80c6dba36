//! The bounded-retry policy of the HTTP pipeline, as a pure decision model.
//!
//! Every outbound call is repeated on transient failures (network faults,
//! server-side errors) with the number of attempts capped. The runtime glue
//! performs the attempts; this model takes the outcome each successive
//! attempt would have and says which attempt the pipeline stops at: the
//! first success within the cap, or exhaustion. An outcome list shorter than
//! the cap stands for a call whose remaining attempts would also fail.

use vstd::prelude::*;

verus! {

/// The number of attempts a single call may use, first try included.
pub const ATTEMPT_CAP: usize = 5;

/// What one attempt of a call comes back with.
#[derive(Clone, Copy)]
pub enum Attempt {
    /// The attempt succeeded; the call stops here.
    Success,
    /// The attempt failed transiently; the call may be retried.
    Transient,
}

/// How many attempts a call consumes before its first success, given the
/// outcomes its successive attempts would have and at most `cap` attempts:
/// `Some(n)` when the `n`-th attempt succeeds within the cap, `None` when
/// every attempt up to the cap fails transiently.
pub open spec fn spec_attempts_used(outcomes: Seq<Attempt>, cap: nat) -> Option<nat>
    decreases cap,
{
    if cap == 0 || outcomes.len() == 0 {
        None
    } else if outcomes[0] is Success {
        Some(1)
    } else {
        match spec_attempts_used(outcomes.skip(1), (cap - 1) as nat) {
            Some(n) => Some((n + 1) as nat),
            None => None,
        }
    }
}

proof fn lemma_success_at(outcomes: Seq<Attempt>, cap: nat, k: int)
    requires
        0 <= k < outcomes.len(),
        k < cap,
        forall|j: int| 0 <= j < k ==> outcomes[j] is Transient,
        outcomes[k] is Success,
    ensures
        spec_attempts_used(outcomes, cap) == Some((k + 1) as nat),
    decreases k,
{
    if k > 0 {
        lemma_success_at(outcomes.skip(1), (cap - 1) as nat, k - 1);
    }
}

proof fn lemma_all_transient(outcomes: Seq<Attempt>, cap: nat)
    requires
        forall|j: int| 0 <= j < outcomes.len() && j < cap ==> outcomes[j] is Transient,
    ensures
        spec_attempts_used(outcomes, cap) is None,
    decreases cap,
{
    if cap > 0 && outcomes.len() > 0 {
        lemma_all_transient(outcomes.skip(1), (cap - 1) as nat);
    }
}

/// Runs the retry decision against the outcomes the successive attempts of a
/// call would have: the attempt count of the first success within the cap,
/// or `None` when the retries are exhausted and the call surfaces a
/// connectivity failure.
pub fn run_with_retries(outcomes: &Vec<Attempt>) -> (r: Option<usize>)
    ensures
        r is Some <==> spec_attempts_used(outcomes@, ATTEMPT_CAP as nat) is Some,
        r matches Some(n) ==> spec_attempts_used(outcomes@, ATTEMPT_CAP as nat) == Some(n as nat)
            && 1 <= n <= ATTEMPT_CAP,
{
    let mut i: usize = 0;
    while i < ATTEMPT_CAP && i < outcomes.len()
        invariant
            0 <= i <= ATTEMPT_CAP,
            i <= outcomes@.len(),
            forall|j: int| 0 <= j < i ==> outcomes@[j] is Transient,
        decreases ATTEMPT_CAP - i,
    {
        match outcomes[i] {
            Attempt::Success => {
                proof {
                    lemma_success_at(outcomes@, ATTEMPT_CAP as nat, i as int);
                }
                return Some(i + 1);
            },
            Attempt::Transient => {
                i += 1;
            },
        }
    }
    proof {
        lemma_all_transient(outcomes@, ATTEMPT_CAP as nat);
    }
    None
}

/// Law: a call whose first failures are transient still succeeds while an
/// attempt within the cap succeeds; four transient failures followed by a
/// success consume exactly five attempts.
pub proof fn lemma_retry_recovers(outcomes: Seq<Attempt>, k: int)
    requires
        0 <= k < outcomes.len(),
        k < ATTEMPT_CAP,
        forall|j: int| 0 <= j < k ==> outcomes[j] is Transient,
        outcomes[k] is Success,
    ensures
        spec_attempts_used(outcomes, ATTEMPT_CAP as nat) == Some((k + 1) as nat),
{
    lemma_success_at(outcomes, ATTEMPT_CAP as nat, k);
}

/// Law: a call all of whose attempts fail transiently — six consecutive
/// failures included — exhausts the cap and surfaces no success.
pub proof fn lemma_retry_exhausts(outcomes: Seq<Attempt>)
    requires
        forall|j: int| 0 <= j < outcomes.len() && j < ATTEMPT_CAP ==> outcomes[j] is Transient,
    ensures
        spec_attempts_used(outcomes, ATTEMPT_CAP as nat) is None,
{
    lemma_all_transient(outcomes, ATTEMPT_CAP as nat);
}

} // verus!
