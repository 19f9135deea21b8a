use vstd::prelude::*;

verus! {

/// How many times the bridge tries to reach the TCP endpoint.
pub const MAX_CONNECT_ATTEMPTS: u32 = 20;

/// Pause between two connection attempts, in milliseconds.
pub const RETRY_DELAY_MS: u64 = 250;

/// Exit status when no serial device or no TCP endpoint can be had.
pub const EXIT_UNAVAILABLE: i32 = 127;

/// What to do after a connection attempt.
#[derive(Clone, Copy, Debug, PartialEq, Eq, Structural)]
pub enum ConnectAction {
    /// The connection stands: start the bridge.
    Proceed,
    /// Wait this many milliseconds, then try again.
    RetryAfter(u64),
    /// Stop with this exit status, before any bridge session starts.
    GiveUp(i32),
}

pub open spec fn connect_spec(attempt: int, connected: bool) -> ConnectAction {
    if connected {
        ConnectAction::Proceed
    } else if attempt < MAX_CONNECT_ATTEMPTS {
        ConnectAction::RetryAfter(RETRY_DELAY_MS)
    } else {
        ConnectAction::GiveUp(EXIT_UNAVAILABLE)
    }
}

/// Decides what follows attempt number `attempt` (counted from 1), which
/// `connected` says succeeded or not.
pub fn after_connect_attempt(attempt: u32, connected: bool) -> (r: ConnectAction)
    requires
        1 <= attempt <= MAX_CONNECT_ATTEMPTS,
    ensures
        r == connect_spec(attempt as int, connected),
{
    if connected {
        ConnectAction::Proceed
    } else if attempt < MAX_CONNECT_ATTEMPTS {
        ConnectAction::RetryAfter(RETRY_DELAY_MS)
    } else {
        ConnectAction::GiveUp(EXIT_UNAVAILABLE)
    }
}

/// Where a run of connection attempts ends, from attempt number `attempt` on,
/// given whether each attempt succeeds; `RetryAfter` if the run is cut short.
pub open spec fn run_connect(results: Seq<bool>, attempt: int) -> ConnectAction
    decreases results.len(),
{
    if results.len() == 0 {
        ConnectAction::RetryAfter(RETRY_DELAY_MS)
    } else {
        match connect_spec(attempt, results[0]) {
            ConnectAction::RetryAfter(_) => run_connect(results.drop_first(), attempt + 1),
            other => other,
        }
    }
}

pub open spec fn refusals(k: nat) -> Seq<bool> {
    Seq::new(k, |i: int| false)
}

proof fn lemma_accept_after(k: nat, attempt: int)
    requires
        1 <= attempt,
        attempt + k <= MAX_CONNECT_ATTEMPTS,
    ensures
        run_connect(refusals(k).push(true), attempt) == ConnectAction::Proceed,
    decreases k,
{
    if k > 0 {
        assert(refusals(k).push(true).drop_first() =~= refusals((k - 1) as nat).push(true));
        lemma_accept_after((k - 1) as nat, attempt + 1);
    }
}

proof fn lemma_refused_from(results: Seq<bool>, attempt: int)
    requires
        1 <= attempt <= MAX_CONNECT_ATTEMPTS,
        results.len() >= MAX_CONNECT_ATTEMPTS + 1 - attempt,
        forall|i: int| 0 <= i < MAX_CONNECT_ATTEMPTS + 1 - attempt ==> !results[i],
    ensures
        run_connect(results, attempt) == ConnectAction::GiveUp(EXIT_UNAVAILABLE),
    decreases MAX_CONNECT_ATTEMPTS - attempt,
{
    if attempt < MAX_CONNECT_ATTEMPTS {
        let rest = results.drop_first();
        assert forall|i: int| 0 <= i < MAX_CONNECT_ATTEMPTS + 1 - (attempt + 1) implies !rest[i] by {
            assert(!results[i + 1]);
        }
        lemma_refused_from(rest, attempt + 1);
    }
}

/// Any number of refusals below the attempt budget, followed by an
/// acceptance, still establishes the connection.
pub proof fn lemma_connects_within_budget(k: nat)
    requires
        k < MAX_CONNECT_ATTEMPTS,
    ensures
        run_connect(refusals(k).push(true), 1) == ConnectAction::Proceed,
{
    lemma_accept_after(k, 1);
}

/// When every attempt of the budget is refused the bridge gives up with the
/// unavailable status, whatever would have come after.
pub proof fn lemma_gives_up_after_budget(results: Seq<bool>)
    requires
        results.len() >= MAX_CONNECT_ATTEMPTS,
        forall|i: int| 0 <= i < MAX_CONNECT_ATTEMPTS ==> !results[i],
    ensures
        run_connect(results, 1) == ConnectAction::GiveUp(EXIT_UNAVAILABLE),
{
    lemma_refused_from(results, 1);
}

/// Which serial device an open attempt was for.
#[derive(Clone, Copy, Debug, PartialEq, Eq, Structural)]
pub enum OpenAttempt {
    /// The device named in the configuration.
    Requested,
    /// The device picked from the enumeration after the requested one failed.
    Fallback,
}

/// What to do after a serial device failed to open.
#[derive(Clone, Debug)]
pub enum OpenAction {
    /// Open this device instead, once.
    TryDevice(String),
    /// Stop with this exit status.
    GiveUp(i32),
}

/// Decides what follows a failed open, given the devices that enumeration
/// found (none where enumeration failed): after the requested device, the
/// last device found is tried once; after that, or with none found, the
/// bridge gives up with the unavailable status.
pub fn after_open_failure(attempt: OpenAttempt, available: &Vec<String>) -> (r: OpenAction)
    ensures
        attempt == OpenAttempt::Requested && available@.len() > 0 ==> (r matches OpenAction::TryDevice(
            d,
        ) && d@ == available@.last()@),
        attempt == OpenAttempt::Fallback || available@.len() == 0 ==> (r matches OpenAction::GiveUp(
            c,
        ) && c == EXIT_UNAVAILABLE),
{
    match attempt {
        OpenAttempt::Requested => {
            let n = available.len();
            if n == 0 {
                OpenAction::GiveUp(EXIT_UNAVAILABLE)
            } else {
                OpenAction::TryDevice(available[n - 1].clone())
            }
        },
        OpenAttempt::Fallback => OpenAction::GiveUp(EXIT_UNAVAILABLE),
    }
}

} // verus!
