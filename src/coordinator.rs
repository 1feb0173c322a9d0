//! The single render lane: at most one render runs, new requests wait for a
//! cancelled render to wind down, and a cancelled render forces the next one
//! to rebuild its reference orbit.
use vstd::prelude::*;

verus! {

/// Whether a render may reuse the reference orbit (`Fast`) or must rebuild it
/// (`Full`).
#[derive(Clone, Copy, Debug, PartialEq, Eq, Structural)]
pub enum RenderMode {
    Fast,
    Full,
}

/// A render to run; `generation` tells it from every other render started.
#[derive(Clone, Copy, Debug, PartialEq, Eq, Structural)]
pub struct RenderRequest {
    pub mode: RenderMode,
    pub generation: u64,
}

#[derive(Clone, Copy, Debug, PartialEq, Eq, Structural)]
pub enum CoordinatorError {
    /// A request came while a render ran and nobody had asked it to stop.
    RenderInProgress,
}

/// What the coordinator is told.
#[derive(Clone, Copy, Debug, PartialEq, Eq, Structural)]
pub enum CoordinatorEvent {
    Submit(RenderMode),
    Cancel,
    /// The running render returned; `true` when it stopped on a cancel.
    Finish(bool),
}

/// What the coordinator answers to an event.
#[derive(Clone, Copy, Debug, PartialEq, Eq, Structural)]
pub enum CoordinatorReply {
    /// Run this render now.
    Start(RenderRequest),
    /// The request waits for the running render to stop.
    Queued,
    /// Signal the running render to stop.
    SignalCancel,
    /// Nothing to do.
    Nothing,
    Rejected(CoordinatorError),
}

/// The state of the render lane.
#[derive(Clone, Copy, Debug, PartialEq, Eq, Structural)]
pub struct Coordinator {
    /// The render in flight, if any.
    pub running: Option<RenderRequest>,
    /// Whether the render in flight was asked to stop.
    pub cancel_requested: bool,
    /// The request waiting for the render in flight to stop.
    pub pending: Option<RenderMode>,
    /// Whether the last render was cancelled, leaving the reference orbit
    /// unusable.
    pub need_full: bool,
    pub next_generation: u64,
}

/// The generation after `g`, wrapping at the top.
pub open spec fn successor(g: u64) -> u64 {
    if g == u64::MAX {
        0
    } else {
        (g + 1) as u64
    }
}

/// Two waiting requests collapse into one: a full render covers a fast one.
pub open spec fn merged(waiting: Option<RenderMode>, mode: RenderMode) -> RenderMode {
    if waiting == Some(RenderMode::Full) || mode == RenderMode::Full {
        RenderMode::Full
    } else {
        RenderMode::Fast
    }
}

impl Coordinator {
    /// No render waits unless one runs and was asked to stop.
    pub open spec fn wf(&self) -> bool {
        &&& self.cancel_requested ==> self.running.is_some()
        &&& self.pending.is_some() ==> self.cancel_requested
        &&& self.running.is_some() ==> !self.need_full
    }

    pub open spec fn is_idle(&self) -> bool {
        self.running.is_none()
    }

    /// Starting a render of `mode` from idle; a fast render after a cancelled
    /// one is promoted to full.
    pub open spec fn started(self, mode: RenderMode) -> (Coordinator, RenderRequest) {
        let request = RenderRequest {
            mode: if self.need_full {
                RenderMode::Full
            } else {
                mode
            },
            generation: self.next_generation,
        };
        (
            Coordinator {
                running: Some(request),
                cancel_requested: false,
                pending: None,
                need_full: false,
                next_generation: successor(self.next_generation),
            },
            request,
        )
    }

    /// The state after an event, and the reply.
    pub open spec fn next(self, e: CoordinatorEvent) -> (Coordinator, CoordinatorReply) {
        match e {
            CoordinatorEvent::Submit(mode) => {
                if self.running.is_none() {
                    let (c, r) = self.started(mode);
                    (c, CoordinatorReply::Start(r))
                } else if self.cancel_requested {
                    (
                        Coordinator { pending: Some(merged(self.pending, mode)), ..self },
                        CoordinatorReply::Queued,
                    )
                } else {
                    (self, CoordinatorReply::Rejected(CoordinatorError::RenderInProgress))
                }
            },
            CoordinatorEvent::Cancel => {
                if self.running.is_some() {
                    (Coordinator { cancel_requested: true, ..self }, CoordinatorReply::SignalCancel)
                } else {
                    (self, CoordinatorReply::Nothing)
                }
            },
            CoordinatorEvent::Finish(cancelled) => {
                if self.running.is_none() {
                    (self, CoordinatorReply::Nothing)
                } else {
                    let idle = Coordinator {
                        running: None,
                        cancel_requested: false,
                        pending: None,
                        need_full: cancelled,
                        ..self
                    };
                    match self.pending {
                        Some(mode) => {
                            let (c, r) = idle.started(mode);
                            (c, CoordinatorReply::Start(r))
                        },
                        None => (idle, CoordinatorReply::Nothing),
                    }
                }
            },
        }
    }

    /// The state after a sequence of events.
    pub open spec fn run(self, events: Seq<CoordinatorEvent>) -> Coordinator
        decreases events.len(),
    {
        if events.len() == 0 {
            self
        } else {
            self.run(events.drop_last()).next(events.last()).0
        }
    }

    /// An idle lane whose first render is number zero.
    pub fn new() -> (c: Coordinator)
        ensures
            c.wf(),
            c == (Coordinator {
                running: None,
                cancel_requested: false,
                pending: None,
                need_full: false,
                next_generation: 0,
            }),
    {
        Coordinator {
            running: None,
            cancel_requested: false,
            pending: None,
            need_full: false,
            next_generation: 0,
        }
    }

    fn start(&mut self, mode: RenderMode) -> (r: RenderRequest)
        ensures
            (*final(self), r) == old(self).started(mode),
    {
        let effective = if self.need_full {
            RenderMode::Full
        } else {
            mode
        };
        let request = RenderRequest { mode: effective, generation: self.next_generation };
        self.running = Some(request);
        self.cancel_requested = false;
        self.pending = None;
        self.need_full = false;
        self.next_generation = if self.next_generation == u64::MAX {
            0
        } else {
            self.next_generation + 1
        };
        request
    }

    /// Handles one event: a request, a cancel, or the return of the running
    /// render.
    pub fn handle(&mut self, e: CoordinatorEvent) -> (r: CoordinatorReply)
        requires
            old(self).wf(),
        ensures
            (*final(self), r) == old(self).next(e),
            final(self).wf(),
    {
        match e {
            CoordinatorEvent::Submit(mode) => {
                if self.running.is_none() {
                    CoordinatorReply::Start(self.start(mode))
                } else if self.cancel_requested {
                    let full = match self.pending {
                        Some(RenderMode::Full) => true,
                        _ => false,
                    };
                    self.pending = Some(
                        if full || mode == RenderMode::Full {
                            RenderMode::Full
                        } else {
                            RenderMode::Fast
                        },
                    );
                    CoordinatorReply::Queued
                } else {
                    CoordinatorReply::Rejected(CoordinatorError::RenderInProgress)
                }
            },
            CoordinatorEvent::Cancel => {
                if self.running.is_some() {
                    self.cancel_requested = true;
                    CoordinatorReply::SignalCancel
                } else {
                    CoordinatorReply::Nothing
                }
            },
            CoordinatorEvent::Finish(cancelled) => {
                if self.running.is_none() {
                    CoordinatorReply::Nothing
                } else {
                    let waiting = self.pending;
                    self.running = None;
                    self.cancel_requested = false;
                    self.pending = None;
                    self.need_full = cancelled;
                    match waiting {
                        Some(mode) => CoordinatorReply::Start(self.start(mode)),
                        None => CoordinatorReply::Nothing,
                    }
                }
            },
        }
    }

    /// Asks for a render; see `handle`.
    pub fn submit(&mut self, mode: RenderMode) -> (r: CoordinatorReply)
        requires
            old(self).wf(),
        ensures
            (*final(self), r) == old(self).next(CoordinatorEvent::Submit(mode)),
            final(self).wf(),
    {
        self.handle(CoordinatorEvent::Submit(mode))
    }

    /// Asks the running render, if any, to stop; see `handle`.
    pub fn cancel(&mut self) -> (r: CoordinatorReply)
        requires
            old(self).wf(),
        ensures
            (*final(self), r) == old(self).next(CoordinatorEvent::Cancel),
            final(self).wf(),
    {
        self.handle(CoordinatorEvent::Cancel)
    }

    /// Records that the running render returned; see `handle`.
    pub fn finish(&mut self, cancelled: bool) -> (r: CoordinatorReply)
        requires
            old(self).wf(),
        ensures
            (*final(self), r) == old(self).next(CoordinatorEvent::Finish(cancelled)),
            final(self).wf(),
    {
        self.handle(CoordinatorEvent::Finish(cancelled))
    }

    pub fn is_running(&self) -> (r: bool)
        ensures
            r == self.running.is_some(),
    {
        self.running.is_some()
    }
}

/// One event keeps the lane well formed, and only the return of the running
/// render can take it out of the lane: no event but `Finish` replaces or
/// clears a render in flight.
pub proof fn lemma_step_keeps_running(c: Coordinator, e: CoordinatorEvent)
    requires
        c.wf(),
    ensures
        c.next(e).0.wf(),
        c.running.is_some() && !(e is Finish) ==> c.next(e).0.running == c.running,
        c.next(e).1 is Start ==> c.running.is_none() || e is Finish,
{
}

/// Whatever the interleaving of requests, cancels and returns, the lane stays
/// well formed (one render slot, nothing waiting unless a cancelled render is
/// winding down), and a render starts only when none is in flight or the one
/// in flight has just returned.
pub proof fn lemma_one_render_at_a_time(c: Coordinator, events: Seq<CoordinatorEvent>)
    requires
        c.wf(),
    ensures
        c.run(events).wf(),
        forall|i: int|
            0 <= i < events.len() ==> {
                let before = #[trigger] c.run(events.take(i));
                before.next(events[i]).1 is Start ==> before.running.is_none()
                    || events[i] is Finish
            },
    decreases events.len(),
{
    if events.len() > 0 {
        let prefix = events.drop_last();
        lemma_one_render_at_a_time(c, prefix);
        assert forall|i: int| 0 <= i < events.len() implies {
            let before = #[trigger] c.run(events.take(i));
            before.next(events[i]).1 is Start ==> before.running.is_none() || events[i] is Finish
        } by {
            if i < prefix.len() {
                assert(events.take(i) =~= prefix.take(i));
            } else {
                assert(events.take(i) =~= prefix);
            }
            lemma_run_wf(c, events.take(i));
            lemma_step_keeps_running(c.run(events.take(i)), events[i]);
        }
        lemma_run_wf(c, events);
    }
}

proof fn lemma_run_wf(c: Coordinator, events: Seq<CoordinatorEvent>)
    requires
        c.wf(),
    ensures
        c.run(events).wf(),
    decreases events.len(),
{
    if events.len() > 0 {
        lemma_run_wf(c, events.drop_last());
        lemma_step_keeps_running(c.run(events.drop_last()), events.last());
    }
}

/// A cancel while no render runs changes nothing: the next request starts
/// exactly the render it would have started without it.
pub proof fn lemma_cancel_while_idle(c: Coordinator, mode: RenderMode)
    requires
        c.wf(),
        c.running.is_none(),
    ensures
        c.next(CoordinatorEvent::Cancel) == (c, CoordinatorReply::Nothing),
        c.next(CoordinatorEvent::Cancel).0.next(CoordinatorEvent::Submit(mode)) == c.next(
            CoordinatorEvent::Submit(mode),
        ),
        c.next(CoordinatorEvent::Submit(mode)).1 is Start,
{
}

} // verus!
