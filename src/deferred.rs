//! The delayed push of a captured path to listeners.
//!
//! At startup the frontend may not listen yet, so the path is pushed only once
//! a fixed delay has passed. The caller runs the timer and polls with the time
//! elapsed since the capture; the push fires on the first poll at or after the
//! delay, and never again. The timer is not cancellable: if the process ends
//! first, the push is simply dropped.
use vstd::prelude::*;

verus! {

/// Delay before the startup path is pushed, in milliseconds. It only makes a
/// listener likelier to be attached; the pull query is the reliable route.
pub const OPEN_FILE_DELAY_MS: u64 = 1500;

/// The state of a delayed push, as the contracts see it.
pub struct PushState {
    pub path: Seq<char>,
    pub delay_ms: nat,
    pub delivered: bool,
}

/// One poll at `elapsed_ms` after the capture: the state afterwards, and the
/// path to push now, if any.
pub open spec fn poll_step(s: PushState, elapsed_ms: nat) -> (PushState, Option<Seq<char>>) {
    if !s.delivered && elapsed_ms >= s.delay_ms {
        (PushState { delivered: true, ..s }, Some(s.path))
    } else {
        (s, None)
    }
}

/// The results of polling at each time of `times`, in order.
pub open spec fn poll_results(s: PushState, times: Seq<nat>) -> Seq<Option<Seq<char>>>
    decreases times.len(),
{
    if times.len() == 0 {
        Seq::empty()
    } else {
        let (next, out) = poll_step(s, times[0]);
        seq![out].add(poll_results(next, times.drop_first()))
    }
}

/// Once a push has fired, polling never yields anything again.
pub proof fn lemma_delivered_push_stays_silent(s: PushState, times: Seq<nat>)
    requires
        s.delivered,
    ensures
        poll_results(s, times).len() == times.len(),
        forall|i: int| 0 <= i < times.len() ==> (#[trigger] poll_results(s, times)[i]) is None,
    decreases times.len(),
{
    if times.len() > 0 {
        lemma_delivered_push_stays_silent(s, times.drop_first());
        assert forall|i: int| 0 <= i < times.len() implies (#[trigger] poll_results(s, times)[i]) is None by {
            if i > 0 {
                assert(poll_results(s, times)[i] == poll_results(s, times.drop_first())[i - 1]);
            }
        }
    }
}

/// A push that has not fired yet, polled at any series of times: it yields
/// its path only at a time at or after its delay, it yields at most once,
/// and it does yield once some time of the series reaches the delay.
pub proof fn lemma_push_fires_once_after_delay(s: PushState, times: Seq<nat>)
    requires
        !s.delivered,
    ensures
        poll_results(s, times).len() == times.len(),
        forall|i: int|
            0 <= i < times.len() && (#[trigger] poll_results(s, times)[i]) is Some ==> times[i]
                >= s.delay_ms && poll_results(s, times)[i] == Some(s.path),
        forall|i: int, j: int|
            0 <= i < times.len() && 0 <= j < times.len() && (#[trigger] poll_results(s, times)[i])
                is Some && (#[trigger] poll_results(s, times)[j]) is Some ==> i == j,
        (exists|i: int| 0 <= i < times.len() && #[trigger] times[i] >= s.delay_ms) ==> exists|
            i: int,
        |
            0 <= i < times.len() && (#[trigger] poll_results(s, times)[i]) is Some,
    decreases times.len(),
{
    if times.len() > 0 {
        let rest = times.drop_first();
        let (next, out) = poll_step(s, times[0]);
        let res = poll_results(s, times);
        if out is Some {
            lemma_delivered_push_stays_silent(next, rest);
        } else {
            lemma_push_fires_once_after_delay(next, rest);
        }
        assert forall|i: int| 0 < i < times.len() implies res[i] == poll_results(next, rest)[i - 1]
            by {}
        if out is Some {
            assert(res[0] == Some(s.path));
        } else {
            assert(times[0] < s.delay_ms);
            if exists|i: int| 0 <= i < times.len() && #[trigger] times[i] >= s.delay_ms {
                let i = choose|i: int| 0 <= i < times.len() && #[trigger] times[i] >= s.delay_ms;
                assert(rest[i - 1] >= next.delay_ms);
                let j = choose|j: int| 0 <= j < rest.len() && (#[trigger] poll_results(next, rest)[j]) is Some;
                assert(res[j + 1] is Some);
            }
        }
    }
}

/// A push of one path that is due once the delay has passed.
pub struct DeferredPush {
    path: String,
    delay_ms: u64,
    delivered: bool,
}

impl View for DeferredPush {
    type V = PushState;

    closed spec fn view(&self) -> PushState {
        PushState { path: self.path@, delay_ms: self.delay_ms as nat, delivered: self.delivered }
    }
}

impl DeferredPush {
    /// A push of `path`, not yet delivered, due after the standard delay.
    pub fn new(path: String) -> (r: Self)
        ensures
            r@ == (PushState { path: path@, delay_ms: OPEN_FILE_DELAY_MS as nat, delivered: false }),
    {
        DeferredPush { path, delay_ms: OPEN_FILE_DELAY_MS, delivered: false }
    }

    /// The path that this push carries.
    pub fn path(&self) -> (r: &String)
        ensures
            r@ == self@.path,
    {
        &self.path
    }

    /// How long to wait before polling, in milliseconds.
    pub fn delay_ms(&self) -> (r: u64)
        ensures
            r == self@.delay_ms,
    {
        self.delay_ms
    }

    /// Whether the push has fired.
    pub fn is_delivered(&self) -> (r: bool)
        ensures
            r == self@.delivered,
    {
        self.delivered
    }

    /// Polls at `elapsed_ms` after the capture. Returns the path to push
    /// exactly when the delay has passed and nothing was pushed before.
    pub fn poll(&mut self, elapsed_ms: u64) -> (r: Option<String>)
        ensures
            (final(self)@, r.deep_view()) == poll_step(old(self)@, elapsed_ms as nat),
    {
        if !self.delivered && elapsed_ms >= self.delay_ms {
            self.delivered = true;
            Some(self.path.clone())
        } else {
            None
        }
    }
}

} // verus!
