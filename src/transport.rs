use vstd::prelude::*;

use crate::error::GatewayError;
use crate::frame::{validate_response, validate_spec};

verus! {

/// Where a gateway listens and how hard to try reaching it.
#[derive(Debug, Clone, Copy, PartialEq, Eq)]
pub struct GatewayEndpoint {
    pub address: [u8; 4],
    pub port: u16,
    /// Bounds connect, read and write, each on its own.
    pub socket_timeout_ms: u64,
    pub max_tries: u32,
    /// Pause between two attempts.
    pub retry_wait_ms: u64,
}

/// The port gateways listen on unless configured otherwise.
pub const DEFAULT_PORT: u16 = 45000;

pub const DEFAULT_MAX_TRIES: u32 = 3;

pub const DEFAULT_RETRY_WAIT_MS: u64 = 2000;

pub const DEFAULT_SOCKET_TIMEOUT_MS: u64 = 2000;

impl GatewayEndpoint {
    pub open spec fn new_spec(address: [u8; 4], port: u16) -> GatewayEndpoint {
        GatewayEndpoint {
            address,
            port,
            socket_timeout_ms: DEFAULT_SOCKET_TIMEOUT_MS,
            max_tries: DEFAULT_MAX_TRIES,
            retry_wait_ms: DEFAULT_RETRY_WAIT_MS,
        }
    }

    /// An endpoint with the default timeouts and retry policy.
    pub fn new(address: [u8; 4], port: u16) -> (r: GatewayEndpoint)
        ensures
            r == Self::new_spec(address, port),
    {
        GatewayEndpoint {
            address,
            port,
            socket_timeout_ms: DEFAULT_SOCKET_TIMEOUT_MS,
            max_tries: DEFAULT_MAX_TRIES,
            retry_wait_ms: DEFAULT_RETRY_WAIT_MS,
        }
    }
}

/// Where the exchange of one command stands.
#[derive(Debug, Clone, Copy, PartialEq, Eq, Structural)]
pub enum RetryPhase {
    /// Nothing done yet.
    Idle,
    /// An attempt is out: connect, send the frame, read one response.
    Exchanging,
    /// Pausing before the next attempt.
    Waiting,
    /// Succeeded or gave up.
    Done,
}

/// What the caller is to do next.
#[derive(Debug)]
pub enum TransportAction {
    /// Open a connection, write the frame, read once, close; `attempt` counts
    /// from one.
    Exchange { attempt: u32 },
    /// Pause for `millis` milliseconds.
    Wait { millis: u64 },
    /// The command is answered by this valid response.
    Succeeded(Vec<u8>),
    /// The command failed.
    Exhausted(GatewayError),
}

pub enum ActionView {
    Exchange { attempt: u32 },
    Wait { millis: u64 },
    Succeeded(Seq<u8>),
    Exhausted(GatewayError),
}

impl View for TransportAction {
    type V = ActionView;

    open spec fn view(&self) -> ActionView {
        match self {
            TransportAction::Exchange { attempt } => ActionView::Exchange { attempt: *attempt },
            TransportAction::Wait { millis } => ActionView::Wait { millis: *millis },
            TransportAction::Succeeded(v) => ActionView::Succeeded(v@),
            TransportAction::Exhausted(e) => ActionView::Exhausted(*e),
        }
    }
}

/// The retry policy for one command: up to `max_tries` attempts, a pause of
/// `retry_wait_ms` between two of them and none after the last. Every failure,
/// of the transport or of validation, is retried alike.
#[derive(Debug, Clone, Copy, PartialEq, Eq, Structural)]
pub struct CommandRetry {
    pub command: u8,
    pub max_tries: u32,
    pub retry_wait_ms: u64,
    /// Attempts begun so far.
    pub attempts: u32,
    pub phase: RetryPhase,
}

pub open spec fn with_state(s: CommandRetry, attempts: u32, phase: RetryPhase) -> CommandRetry {
    CommandRetry { attempts, phase, ..s }
}

/// Starting: the first attempt, or failure at once when no attempt is allowed.
pub open spec fn start_spec(s: CommandRetry) -> (CommandRetry, ActionView) {
    if s.max_tries == 0 {
        (
            with_state(s, 0, RetryPhase::Done),
            ActionView::Exhausted(GatewayError::TransportExhausted { command: s.command, attempts: 0 }),
        )
    } else {
        (with_state(s, 1, RetryPhase::Exchanging), ActionView::Exchange { attempt: 1 })
    }
}

/// An attempt ended with `outcome`: the bytes read, or the transport's error.
pub open spec fn response_spec(s: CommandRetry, outcome: Result<Seq<u8>, GatewayError>) -> (
    CommandRetry,
    ActionView,
) {
    if outcome is Ok && validate_spec(outcome->Ok_0, s.command) is Ok {
        (with_state(s, s.attempts, RetryPhase::Done), ActionView::Succeeded(outcome->Ok_0))
    } else if s.attempts < s.max_tries {
        (with_state(s, s.attempts, RetryPhase::Waiting), ActionView::Wait { millis: s.retry_wait_ms })
    } else {
        (
            with_state(s, s.attempts, RetryPhase::Done),
            ActionView::Exhausted(
                GatewayError::TransportExhausted { command: s.command, attempts: s.attempts },
            ),
        )
    }
}

/// The pause is over: the next attempt.
pub open spec fn wait_done_spec(s: CommandRetry) -> (CommandRetry, ActionView) {
    (
        with_state(s, (s.attempts + 1) as u32, RetryPhase::Exchanging),
        ActionView::Exchange { attempt: (s.attempts + 1) as u32 },
    )
}

pub open spec fn outcome_view(o: Result<Vec<u8>, GatewayError>) -> Result<Seq<u8>, GatewayError> {
    match o {
        Ok(v) => Ok(v@),
        Err(e) => Err(e),
    }
}

/// The actions that follow attempt `k` of `n` when every attempt times out:
/// a pause and the next attempt while attempts remain, then failure.
pub open spec fn timeout_tail(command: u8, n: u32, w: u64, k: u32) -> Seq<ActionView>
    decreases n - k,
{
    if k >= n {
        seq![ActionView::Exhausted(GatewayError::TransportExhausted { command, attempts: n })]
    } else {
        seq![ActionView::Wait { millis: w }, ActionView::Exchange { attempt: (k + 1) as u32 }]
            + timeout_tail(command, n, w, (k + 1) as u32)
    }
}

/// The next `fuel` actions from state `s` after action `a`, when every
/// attempt times out and every pause runs its course.
pub open spec fn timeout_run(s: CommandRetry, a: ActionView, fuel: nat) -> Seq<ActionView>
    decreases fuel,
{
    if fuel == 0 {
        seq![]
    } else {
        match a {
            ActionView::Exchange { .. } => {
                let (s2, a2) = response_spec(s, Err(GatewayError::Timeout));
                seq![a2] + timeout_run(s2, a2, (fuel - 1) as nat)
            },
            ActionView::Wait { .. } => {
                let (s2, a2) = wait_done_spec(s);
                seq![a2] + timeout_run(s2, a2, (fuel - 1) as nat)
            },
            _ => seq![],
        }
    }
}

proof fn lemma_timeout_run_tail(s: CommandRetry, fuel: nat)
    requires
        s.phase == RetryPhase::Exchanging,
        1 <= s.attempts <= s.max_tries,
        fuel >= 2 * (s.max_tries - s.attempts) + 1,
    ensures
        timeout_run(s, ActionView::Exchange { attempt: s.attempts }, fuel) == timeout_tail(
            s.command,
            s.max_tries,
            s.retry_wait_ms,
            s.attempts,
        ),
    decreases s.max_tries - s.attempts,
{
    let a = ActionView::Exchange { attempt: s.attempts };
    let (s2, a2) = response_spec(s, Err(GatewayError::Timeout));
    if s.attempts < s.max_tries {
        let (s3, a3) = wait_done_spec(s2);
        lemma_timeout_run_tail(s3, (fuel - 2) as nat);
        assert(timeout_run(s2, a2, (fuel - 1) as nat) == seq![a3] + timeout_run(
            s3,
            a3,
            (fuel - 2) as nat,
        ));
        assert(timeout_run(s, a, fuel) =~= seq![a2, a3] + timeout_run(s3, a3, (fuel - 2) as nat));
    } else {
        assert(timeout_run(s2, a2, (fuel - 1) as nat) =~= seq![]);
        assert(timeout_run(s, a, fuel) =~= seq![a2]);
    }
}

proof fn lemma_timeout_tail_shape(command: u8, n: u32, w: u64, k: u32)
    requires
        k <= n,
    ensures
        timeout_tail(command, n, w, k).len() == 2 * (n - k) + 1,
        forall|j: int|
            0 <= j < n - k ==> #[trigger] timeout_tail(command, n, w, k)[2 * j]
                == (ActionView::Wait { millis: w }),
        forall|j: int|
            0 <= j < n - k ==> #[trigger] timeout_tail(command, n, w, k)[2 * j + 1]
                == (ActionView::Exchange { attempt: (k + j + 1) as u32 }),
        timeout_tail(command, n, w, k)[2 * (n - k)] == ActionView::Exhausted(
            GatewayError::TransportExhausted { command, attempts: n },
        ),
    decreases n - k,
{
    if k < n {
        let k2 = (k + 1) as u32;
        lemma_timeout_tail_shape(command, n, w, k2);
        let t = timeout_tail(command, n, w, k);
        let t2 = timeout_tail(command, n, w, k2);
        assert(t == seq![ActionView::Wait { millis: w }, ActionView::Exchange { attempt: k2 }]
            + t2);
        assert forall|j: int| 0 <= j < n - k implies #[trigger] t[2 * j] == ActionView::Wait {
            millis: w,
        } by {
            if j > 0 {
                assert(t[2 * j] == t2[2 * (j - 1)]);
            }
        }
        assert forall|j: int| 0 <= j < n - k implies #[trigger] t[2 * j + 1]
            == ActionView::Exchange { attempt: (k + j + 1) as u32 } by {
            if j > 0 {
                assert(t[2 * j + 1] == t2[2 * (j - 1) + 1]);
            }
        }
        assert(t[2 * (n - k)] == t2[2 * (n - k2)]);
    }
}

/// A command whose every attempt times out is tried exactly `max_tries`
/// times, with a pause of `retry_wait_ms` between two attempts and none after
/// the last, and then fails with `TransportExhausted` carrying `max_tries`.
pub proof fn lemma_timeouts_exhaust(command: u8, max_tries: u32, retry_wait_ms: u64)
    requires
        max_tries >= 1,
    ensures
        ({
            let s0 = CommandRetry {
                command,
                max_tries,
                retry_wait_ms,
                attempts: 0,
                phase: RetryPhase::Idle,
            };
            let (s1, a1) = start_spec(s0);
            let trace = seq![a1] + timeout_run(s1, a1, (2 * max_tries) as nat);
            &&& trace.len() == 2 * max_tries
            &&& forall|i: int|
                0 <= i < max_tries ==> #[trigger] trace[2 * i] == ActionView::Exchange {
                    attempt: (i + 1) as u32,
                }
            &&& forall|i: int|
                0 <= i < max_tries - 1 ==> #[trigger] trace[2 * i + 1] == ActionView::Wait {
                    millis: retry_wait_ms,
                }
            &&& trace[2 * max_tries - 1] == ActionView::Exhausted(
                GatewayError::TransportExhausted { command, attempts: max_tries },
            )
        }),
{
    let s0 = CommandRetry { command, max_tries, retry_wait_ms, attempts: 0, phase: RetryPhase::Idle };
    let (s1, a1) = start_spec(s0);
    lemma_timeout_run_tail(s1, (2 * max_tries) as nat);
    lemma_timeout_tail_shape(command, max_tries, retry_wait_ms, 1);
    let tail = timeout_tail(command, max_tries, retry_wait_ms, 1);
    let trace = seq![a1] + timeout_run(s1, a1, (2 * max_tries) as nat);
    assert(trace == seq![a1] + tail);
    assert forall|i: int| 0 <= i < max_tries implies #[trigger] trace[2 * i]
        == ActionView::Exchange { attempt: (i + 1) as u32 } by {
        if i > 0 {
            assert(trace[2 * i] == tail[2 * (i - 1) + 1]);
        }
    }
    assert forall|i: int| 0 <= i < max_tries - 1 implies #[trigger] trace[2 * i + 1]
        == ActionView::Wait { millis: retry_wait_ms } by {
        assert(trace[2 * i + 1] == tail[2 * i]);
    }
    assert(trace[2 * max_tries - 1] == tail[2 * (max_tries - 1)]);
}

impl CommandRetry {
    /// The attempt count fits the phase.
    pub open spec fn wf(&self) -> bool {
        match self.phase {
            RetryPhase::Idle => self.attempts == 0,
            RetryPhase::Exchanging => 1 <= self.attempts <= self.max_tries,
            RetryPhase::Waiting => 1 <= self.attempts < self.max_tries,
            RetryPhase::Done => self.attempts <= self.max_tries,
        }
    }

    /// A command exchange under the endpoint's retry policy, not yet started.
    pub fn new(command: u8, endpoint: &GatewayEndpoint) -> (r: CommandRetry)
        ensures
            r.wf(),
            r == (CommandRetry {
                command,
                max_tries: endpoint.max_tries,
                retry_wait_ms: endpoint.retry_wait_ms,
                attempts: 0,
                phase: RetryPhase::Idle,
            }),
    {
        CommandRetry {
            command,
            max_tries: endpoint.max_tries,
            retry_wait_ms: endpoint.retry_wait_ms,
            attempts: 0,
            phase: RetryPhase::Idle,
        }
    }

    /// Begins the exchange.
    pub fn start(&mut self) -> (r: TransportAction)
        requires
            old(self).phase == RetryPhase::Idle,
            old(self).wf(),
        ensures
            final(self).wf(),
            (*final(self), r@) == start_spec(*old(self)),
    {
        if self.max_tries == 0 {
            self.phase = RetryPhase::Done;
            TransportAction::Exhausted(
                GatewayError::TransportExhausted { command: self.command, attempts: 0 },
            )
        } else {
            self.attempts = 1;
            self.phase = RetryPhase::Exchanging;
            TransportAction::Exchange { attempt: 1 }
        }
    }

    /// Takes the outcome of the attempt that is out: what was read, or the
    /// transport's error.
    pub fn on_response(&mut self, outcome: Result<Vec<u8>, GatewayError>) -> (r: TransportAction)
        requires
            old(self).phase == RetryPhase::Exchanging,
            old(self).wf(),
        ensures
            final(self).wf(),
            (*final(self), r@) == response_spec(*old(self), outcome_view(outcome)),
    {
        if let Ok(data) = outcome {
            if validate_response(data.as_slice(), self.command).is_ok() {
                self.phase = RetryPhase::Done;
                return TransportAction::Succeeded(data);
            }
        }
        if self.attempts < self.max_tries {
            self.phase = RetryPhase::Waiting;
            TransportAction::Wait { millis: self.retry_wait_ms }
        } else {
            self.phase = RetryPhase::Done;
            TransportAction::Exhausted(
                GatewayError::TransportExhausted { command: self.command, attempts: self.attempts },
            )
        }
    }

    /// The pause between two attempts is over.
    pub fn on_wait_done(&mut self) -> (r: TransportAction)
        requires
            old(self).phase == RetryPhase::Waiting,
            old(self).wf(),
        ensures
            final(self).wf(),
            (*final(self), r@) == wait_done_spec(*old(self)),
    {
        self.attempts = self.attempts + 1;
        self.phase = RetryPhase::Exchanging;
        TransportAction::Exchange { attempt: self.attempts }
    }
}

} // verus!
