//! The one audio session that the control port keeps.

use vstd::prelude::*;

verus! {

/// The running session: a handle that stops its pipeline, and where it sends to.
pub struct AudioSession<S, A> {
    pub stop_tx: Option<S>,
    pub target_addr: Option<A>,
}

impl<S, A> AudioSession<S, A> {
    /// A session has both a handle and a target, or neither.
    pub open spec fn wf(self) -> bool {
        self.stop_tx is Some <==> self.target_addr is Some
    }

    pub open spec fn running(self) -> bool {
        self.stop_tx is Some
    }

    /// No session.
    pub fn new() -> (r: AudioSession<S, A>)
        ensures
            r.wf(),
            !r.running(),
    {
        AudioSession { stop_tx: None, target_addr: None }
    }

    /// Installs a session once its pipeline was started. The handle of the session
    /// that it replaces comes back and is to be signalled. Where the pipeline could
    /// not be started, that is the answer, and a session that runs goes on.
    pub fn start_udp_audio_session(
        &mut self,
        started: Result<(), String>,
        stop_tx: S,
        target_addr: A,
    ) -> (r: Result<Option<S>, String>)
        requires
            old(self).wf(),
        ensures
            final(self).wf(),
            match started {
                Ok(()) => {
                    &&& r matches Ok(replaced)
                    &&& (replaced, final(self).stop_tx) == handed_over(
                        old(self).stop_tx,
                        Some(stop_tx),
                    )
                    &&& replaced == old(self).stop_tx
                    &&& final(self).stop_tx == Some(stop_tx)
                    &&& final(self).target_addr == Some(target_addr)
                },
                Err(message) => {
                    &&& r == Err::<Option<S>, String>(message)
                    &&& *final(self) == *old(self)
                },
            },
    {
        match started {
            Ok(()) => {
                let replaced: Option<S> = self.stop_tx.take();
                self.target_addr = Some(target_addr);
                self.stop_tx = Some(stop_tx);
                Ok(replaced)
            },
            Err(message) => Err(message),
        }
    }

    /// Ends the session. Its handle comes back and is to be signalled; so does
    /// its target.
    pub fn stop_udp_audio_session(&mut self) -> (r: (Option<S>, Option<A>))
        requires
            old(self).wf(),
        ensures
            final(self).wf(),
            !final(self).running(),
            (r.0, final(self).stop_tx) == handed_over(old(self).stop_tx, None),
            r.0 == old(self).stop_tx,
            r.1 == old(self).target_addr,
    {
        let stopped: Option<S> = self.stop_tx.take();
        let target: Option<A> = self.target_addr.take();
        (stopped, target)
    }

    /// Whether a session runs.
    pub fn is_running(&self) -> (r: bool)
        ensures
            r == self.running(),
    {
        self.stop_tx.is_some()
    }
}

/// The handle that comes back, and the one that is then in place, where a
/// request brings a new handle or none.
pub open spec fn handed_over<S>(current: Option<S>, request: Option<S>) -> (Option<S>, Option<S>) {
    (current, request)
}

/// The handles that came back so far, and the one in place, after a row of
/// requests: a handle for a start that succeeded, nothing for a stop.
pub open spec fn after_requests<S>(requests: Seq<Option<S>>) -> (Seq<S>, Option<S>)
    decreases requests.len(),
{
    if requests.len() == 0 {
        (Seq::empty(), None)
    } else {
        let (returned, current) = after_requests(requests.drop_last());
        let (back, next) = handed_over(current, requests.last());
        (returned + optional(back), next)
    }
}

pub open spec fn optional<S>(handle: Option<S>) -> Seq<S> {
    match handle {
        Some(handle) => seq![handle],
        None => Seq::empty(),
    }
}

/// The handles that were started, in order.
pub open spec fn started<S>(requests: Seq<Option<S>>) -> Seq<S>
    decreases requests.len(),
{
    if requests.len() == 0 {
        Seq::empty()
    } else {
        started(requests.drop_last()) + optional(requests.last())
    }
}

/// There is never more than one session: of all that were started, each but
/// the one in place has come back to be stopped, once, in the order of the starts.
pub proof fn replaced_sessions_are_stopped<S>(requests: Seq<Option<S>>)
    ensures
        ({
            let (returned, current) = after_requests(requests);
            started(requests) == returned + optional(current)
        }),
    decreases requests.len(),
{
    if requests.len() > 0 {
        replaced_sessions_are_stopped(requests.drop_last());
    } else {
        assert(Seq::<S>::empty() =~= Seq::<S>::empty() + Seq::<S>::empty());
    }
}

} // verus!
