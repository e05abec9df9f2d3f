use vstd::prelude::*;

verus! {

/// What one send attempt came back with.
#[derive(Clone, Copy, Debug, PartialEq, Eq, Structural)]
pub enum AttemptOutcome {
    /// The request never produced a response (timeout, connection or DNS failure).
    TransportError,
    /// An HTTP response arrived with this status code.
    Response(u16),
}

/// Where a firing stands.
#[derive(Clone, Copy, Debug, PartialEq, Eq, Structural)]
pub enum FiringResult {
    /// More attempts may be made.
    Pending,
    /// A response with a 2xx status ended the firing.
    Succeeded(u16),
    /// A response with another status ended the firing.
    HttpFailed(u16),
    /// Every attempt failed at the transport level.
    Exhausted,
    /// The retry budget was zero: nothing was sent.
    NoAttempt,
}

/// One record of a firing's log stream.
#[derive(Clone, Copy, Debug, PartialEq, Eq, Structural)]
pub enum LogEvent {
    Start,
    TransportFailed { attempt: u64, max_attempts: u64 },
    Succeeded(u16),
    HttpFailed(u16),
    End,
}

/// The state of one firing of a job: how many attempts were made out of how many allowed.
#[derive(Clone, Copy, Debug)]
pub struct Firing {
    pub attempts: u64,
    pub max_attempts: u64,
    pub result: FiringResult,
}

/// What a firing came to, with its whole log stream.
#[derive(Clone, Debug)]
pub struct FiringReport {
    pub attempts: u64,
    pub result: FiringResult,
    pub log: Vec<LogEvent>,
}

pub open spec fn status_ok(status: u16) -> bool {
    200 <= status <= 299
}

/// The result that a response with this status gives.
pub open spec fn response_result(status: u16) -> FiringResult {
    if status_ok(status) {
        FiringResult::Succeeded(status)
    } else {
        FiringResult::HttpFailed(status)
    }
}

/// The log record that a response with this status gives.
pub open spec fn response_log(status: u16) -> LogEvent {
    if status_ok(status) {
        LogEvent::Succeeded(status)
    } else {
        LogEvent::HttpFailed(status)
    }
}

/// What attempt `i` meets: the scripted outcome, or a transport failure past the script's end.
pub open spec fn outcome_at(outs: Seq<AttemptOutcome>, i: int) -> AttemptOutcome {
    if 0 <= i < outs.len() {
        outs[i]
    } else {
        AttemptOutcome::TransportError
    }
}

/// How many attempts are made from attempt index `i` on, when attempt `k` meets
/// `outcome_at(outs, k)`.
pub open spec fn attempts_from(i: nat, max: nat, outs: Seq<AttemptOutcome>) -> nat
    decreases max - i,
{
    if i >= max {
        0
    } else {
        match outcome_at(outs, i as int) {
            AttemptOutcome::Response(_) => 1,
            AttemptOutcome::TransportError => 1 + attempts_from(i + 1, max, outs),
        }
    }
}

/// How a firing ends that is at attempt index `i < max` and still pending.
pub open spec fn result_from(i: nat, max: nat, outs: Seq<AttemptOutcome>) -> FiringResult
    decreases max - i,
{
    if i >= max {
        FiringResult::Exhausted
    } else {
        match outcome_at(outs, i as int) {
            AttemptOutcome::Response(s) => response_result(s),
            AttemptOutcome::TransportError => if i + 1 >= max {
                FiringResult::Exhausted
            } else {
                result_from(i + 1, max, outs)
            },
        }
    }
}

/// The attempt records logged from attempt index `i` on.
pub open spec fn attempt_log(i: nat, max: u64, outs: Seq<AttemptOutcome>) -> Seq<LogEvent>
    decreases max - i,
{
    if i >= max {
        seq![]
    } else {
        match outcome_at(outs, i as int) {
            AttemptOutcome::Response(s) => seq![response_log(s)],
            AttemptOutcome::TransportError => seq![
                LogEvent::TransportFailed { attempt: (i + 1) as u64, max_attempts: max },
            ] + attempt_log(i + 1, max, outs),
        }
    }
}

/// The result of a whole firing with budget `max`.
pub open spec fn firing_result(max: nat, outs: Seq<AttemptOutcome>) -> FiringResult {
    if max == 0 {
        FiringResult::NoAttempt
    } else {
        result_from(0, max, outs)
    }
}

/// The whole log stream of a firing with budget `max`.
pub open spec fn firing_log(max: u64, outs: Seq<AttemptOutcome>) -> Seq<LogEvent> {
    seq![LogEvent::Start] + attempt_log(0, max, outs) + seq![LogEvent::End]
}

pub proof fn lemma_attempts_bounded(i: nat, max: nat, outs: Seq<AttemptOutcome>)
    ensures
        i <= max ==> attempts_from(i, max, outs) <= max - i,
    decreases max - i,
{
    if i < max {
        lemma_attempts_bounded(i + 1, max, outs);
    }
}

/// A firing with budget `max` sends at most `max` attempts, whatever the transport
/// answers, and exactly one when the first attempt receives a response of any status.
pub proof fn lemma_retry_bound(max: nat, outs: Seq<AttemptOutcome>)
    ensures
        attempts_from(0, max, outs) <= max,
        max > 0 && outcome_at(outs, 0) is Response ==> attempts_from(0, max, outs) == 1,
{
    lemma_attempts_bounded(0, max, outs);
}

/// Whether an HTTP status code counts as success (2xx).
pub fn is_success_status(status: u16) -> (r: bool)
    ensures
        r == status_ok(status),
{
    200 <= status && status <= 299
}

impl Firing {
    pub open spec fn wf(&self) -> bool {
        &&& self.attempts <= self.max_attempts
        &&& (self.result == FiringResult::Pending ==> self.attempts < self.max_attempts)
        &&& (self.result == FiringResult::NoAttempt ==> self.max_attempts == 0)
    }

    /// Starts a firing that may make up to `max_retry` attempts.
    pub fn new(max_retry: u64) -> (r: Firing)
        ensures
            r.wf(),
            r.attempts == 0,
            r.max_attempts == max_retry,
            r.result == (if max_retry == 0 {
                FiringResult::NoAttempt
            } else {
                FiringResult::Pending
            }),
    {
        let result = if max_retry == 0 {
            FiringResult::NoAttempt
        } else {
            FiringResult::Pending
        };
        Firing { attempts: 0, max_attempts: max_retry, result }
    }

    /// Whether another attempt is to be sent.
    pub fn wants_attempt(&self) -> (r: bool)
        ensures
            r == (self.result == FiringResult::Pending),
    {
        match self.result {
            FiringResult::Pending => true,
            _ => false,
        }
    }

    /// Records the outcome of the attempt just sent and returns its log record.
    /// A response of any status ends the firing; a transport error ends it only when
    /// the budget is spent.
    pub fn record(&mut self, outcome: AttemptOutcome) -> (log: LogEvent)
        requires
            old(self).wf(),
            old(self).result == FiringResult::Pending,
        ensures
            final(self).wf(),
            final(self).attempts == old(self).attempts + 1,
            final(self).max_attempts == old(self).max_attempts,
            final(self).result == (match outcome {
                AttemptOutcome::Response(s) => response_result(s),
                AttemptOutcome::TransportError => if final(self).attempts
                    == final(self).max_attempts {
                    FiringResult::Exhausted
                } else {
                    FiringResult::Pending
                },
            }),
            log == (match outcome {
                AttemptOutcome::Response(s) => response_log(s),
                AttemptOutcome::TransportError => LogEvent::TransportFailed {
                    attempt: final(self).attempts,
                    max_attempts: final(self).max_attempts,
                },
            }),
    {
        self.attempts = self.attempts + 1;
        match outcome {
            AttemptOutcome::Response(s) => {
                if is_success_status(s) {
                    self.result = FiringResult::Succeeded(s);
                    LogEvent::Succeeded(s)
                } else {
                    self.result = FiringResult::HttpFailed(s);
                    LogEvent::HttpFailed(s)
                }
            },
            AttemptOutcome::TransportError => {
                if self.attempts == self.max_attempts {
                    self.result = FiringResult::Exhausted;
                }
                LogEvent::TransportFailed { attempt: self.attempts, max_attempts: self.max_attempts }
            },
        }
    }
}

/// Runs one firing against a transport that answers attempt `k` with `transport[k]`, and
/// with a transport failure past the end of `transport`. Attempts stop at the first
/// response of any status, or when `max_retry` are spent.
pub fn run_firing(max_retry: u64, transport: &Vec<AttemptOutcome>) -> (r: FiringReport)
    ensures
        r.attempts == attempts_from(0, max_retry as nat, transport@),
        r.result == firing_result(max_retry as nat, transport@),
        r.log@ == firing_log(max_retry, transport@),
        r.attempts <= max_retry,
        max_retry > 0 && transport@.len() > 0 && transport@[0] is Response ==> r.attempts == 1,
        max_retry == 0 ==> r.attempts == 0 && r.log@ == seq![LogEvent::Start, LogEvent::End],
{
    let ghost outs = transport@;
    let ghost max = max_retry as nat;
    let n: usize = transport.len();
    let mut firing = Firing::new(max_retry);
    let mut log: Vec<LogEvent> = Vec::new();
    log.push(LogEvent::Start);
    proof {
        lemma_attempts_bounded(0, max, outs);
    }
    while firing.wants_attempt()
        invariant
            firing.wf(),
            firing.max_attempts == max_retry,
            outs == transport@,
            max == max_retry as nat,
            n == transport@.len(),
            firing.result == FiringResult::Pending ==> (
                attempts_from(0, max, outs) == firing.attempts + attempts_from(
                    firing.attempts as nat,
                    max,
                    outs,
                ) && firing_result(max, outs) == result_from(firing.attempts as nat, max, outs)
                    && seq![LogEvent::Start] + attempt_log(0, max_retry, outs) == log@
                    + attempt_log(firing.attempts as nat, max_retry, outs)),
            firing.result != FiringResult::Pending ==> (attempts_from(0, max, outs)
                == firing.attempts && firing_result(max, outs) == firing.result && seq![
                LogEvent::Start,
            ] + attempt_log(0, max_retry, outs) == log@),
        decreases max_retry - firing.attempts,
    {
        let ghost i = firing.attempts as nat;
        assert(firing.result == FiringResult::Pending);
        let outcome = if firing.attempts < n as u64 {
            transport[firing.attempts as usize]
        } else {
            AttemptOutcome::TransportError
        };
        let ev = firing.record(outcome);
        log.push(ev);
        proof {
            assert(outcome_at(outs, i as int) == outcome);
            assert(i < max);
            let rest = if firing.result == FiringResult::Pending {
                attempt_log(i + 1, max_retry, outs)
            } else {
                seq![]
            };
            if firing.result != FiringResult::Pending && outcome is TransportError {
                assert(attempt_log(i + 1, max_retry, outs) =~= seq![]);
                assert(attempts_from(i + 1, max, outs) == 0);
            }
            if firing.result != FiringResult::Pending {
                assert(attempts_from(i, max, outs) == 1);
                assert(result_from(i, max, outs) == firing.result);
            }
            assert(attempt_log(i, max_retry, outs) =~= seq![ev] + rest);
            assert(log@ =~= log@.drop_last().push(ev));
            assert(log@.drop_last() + attempt_log(i, max_retry, outs) =~= log@ + rest);
        }
    }
    log.push(LogEvent::End);
    proof {
        if max_retry == 0 {
            assert(log@ =~= seq![LogEvent::Start, LogEvent::End]);
        }
        assert(log@ =~= firing_log(max_retry, outs));
    }
    FiringReport { attempts: firing.attempts, result: firing.result, log }
}

} // verus!
