//! The consumer-side dispatcher: it drains the event queue, hands each event
//! to the user callback, and interprets the callback's control-flow
//! directive to decide whether to keep looping, stop cleanly, or abort.
//!
//! The dispatcher is the sole point where [`ControlFlow`] is interpreted;
//! the translator and the state tables never see it. The host's run loop
//! owns the callback invocation itself; this module holds every decision
//! that loop takes.

use vstd::prelude::*;

use crate::controlflow::ControlFlow;
use crate::queue::EventQueue;

verus! {

/// The dispatcher's phase: draining buffered events, idling between
/// batches, or terminated.
#[derive(Debug, Copy, Clone, PartialEq, Eq, Structural)]
pub enum DispatchPhase {
    /// The queue is yielding events; each is handed to the callback.
    Draining,
    /// The queue is momentarily empty; the callback still runs once per
    /// tick with the idle event.
    Idle,
    /// A callback asked the loop to stop; no further events are dispatched.
    Terminated,
}

/// The consumer-side loop driver state.
#[derive(Debug, Copy, Clone, PartialEq, Eq, Structural)]
pub struct Dispatcher {
    /// The current phase.
    pub phase: DispatchPhase,
    /// Set when termination was requested abruptly: the code the host
    /// should abort with. A clean exit leaves it empty.
    pub exit_code: Option<u32>,
}

/// The phase after one callback invocation: `Continue` remains in the
/// current phase; `Exit` and `ExitWithCode` terminate.
pub open spec fn phase_after(phase: DispatchPhase, flow: ControlFlow) -> DispatchPhase {
    match flow {
        ControlFlow::Continue => phase,
        ControlFlow::Exit => DispatchPhase::Terminated,
        ControlFlow::ExitWithCode(_) => DispatchPhase::Terminated,
    }
}

/// The abort code after one callback invocation: only `ExitWithCode`
/// records one; `Exit` is a clean stop.
pub open spec fn exit_code_after(prior: Option<u32>, flow: ControlFlow) -> Option<u32> {
    match flow {
        ControlFlow::ExitWithCode(code) => Some(code),
        _ => prior,
    }
}

impl Dispatcher {
    /// A fresh dispatcher, about to drain its first batch.
    pub fn new() -> (d: Self)
        ensures
            d.phase == DispatchPhase::Draining,
            d.exit_code is None,
    {
        Dispatcher { phase: DispatchPhase::Draining, exit_code: None }
    }

    /// Marks the start of a cycle: draining while the queue still holds
    /// events, idling otherwise. A terminated dispatcher never resumes.
    pub fn begin_cycle(&mut self, queue_empty: bool)
        requires
            old(self).phase != DispatchPhase::Terminated,
        ensures
            final(self).phase == if queue_empty {
                DispatchPhase::Idle
            } else {
                DispatchPhase::Draining
            },
            final(self).exit_code == old(self).exit_code,
    {
        if queue_empty {
            self.phase = DispatchPhase::Idle;
        } else {
            self.phase = DispatchPhase::Draining;
        }
    }

    /// Interprets the directive the callback left behind, after one
    /// invocation: `Continue` keeps the current phase, `Exit` terminates
    /// cleanly, `ExitWithCode` terminates and records the abort code.
    pub fn observe(&mut self, flow: ControlFlow)
        ensures
            final(self).phase == phase_after(old(self).phase, flow),
            final(self).exit_code == exit_code_after(old(self).exit_code, flow),
    {
        match flow {
            ControlFlow::Continue => {},
            ControlFlow::Exit => {
                self.phase = DispatchPhase::Terminated;
            },
            ControlFlow::ExitWithCode(code) => {
                self.phase = DispatchPhase::Terminated;
                self.exit_code = Some(code);
            },
        }
    }

    /// Whether the loop must stop.
    pub fn is_terminated(&self) -> (b: bool)
        ensures
            b == (self.phase == DispatchPhase::Terminated),
    {
        match self.phase {
            DispatchPhase::Terminated => true,
            _ => false,
        }
    }

    /// Whether termination was requested abruptly; the host then aborts
    /// with [`Self::exit_code`] rather than unwinding cleanly.
    pub fn is_fatal(&self) -> (b: bool)
        ensures
            b == (self.exit_code is Some),
    {
        match self.exit_code {
            Some(_) => true,
            None => false,
        }
    }

    /// The recorded abort code, if termination was abrupt.
    pub fn exit_code(&self) -> (c: Option<u32>)
        ensures
            c == self.exit_code,
    {
        self.exit_code
    }
}

impl Default for Dispatcher {
    /// A fresh dispatcher, about to drain its first batch.
    fn default() -> (d: Self)
        ensures
            d.phase == DispatchPhase::Draining,
            d.exit_code is None,
    {
        Dispatcher::new()
    }
}

/// The index of the first directive in `flows` that stops the loop, or
/// `flows.len()` when every directive asks to continue.
pub open spec fn stop_index(flows: Seq<ControlFlow>) -> int
    decreases flows.len(),
{
    if flows.len() == 0 {
        0
    } else if flows[0] != ControlFlow::Continue {
        0
    } else {
        1 + stop_index(flows.drop_first())
    }
}

/// Basic shape of [`stop_index`]: it lies within the sequence, every
/// directive before it continues, and the directive at it (when it lies
/// strictly inside) stops.
pub proof fn lemma_stop_index_props(flows: Seq<ControlFlow>)
    ensures
        0 <= stop_index(flows) <= flows.len(),
        forall|j: int| 0 <= j < stop_index(flows) ==> flows[j] == ControlFlow::Continue,
        stop_index(flows) < flows.len() ==> flows[stop_index(flows)] != ControlFlow::Continue,
    decreases flows.len(),
{
    if flows.len() > 0 && flows[0] == ControlFlow::Continue {
        lemma_stop_index_props(flows.drop_first());
        assert forall|j: int| 0 <= j < stop_index(flows) implies flows[j]
            == ControlFlow::Continue by {
            if j > 0 {
                assert(flows.drop_first()[j - 1] == flows[j]);
            }
        }
    }
}

/// One draining pass, with the callback's replies abstracted as data: the
/// `i`-th buffered event is answered by `flows[i]`. Events are handed out
/// in FIFO order; the pass stops right after the first directive that is
/// not `Continue`, or when the batch is exhausted. Returns the dispatcher
/// as the pass leaves it and the number of events dispatched — equal to the
/// number of callback invocations the pass stands for.
pub fn drain_batch(queue: &mut EventQueue, flows: &Vec<ControlFlow>) -> (r: (Dispatcher, usize))
    requires
        flows@.len() == old(queue)@.len(),
    ensures
        ({
            let k = stop_index(flows@);
            let d = r.0;
            let n = r.1 as int;
            &&& (if k < flows@.len() {
                &&& n == k + 1
                &&& d.phase == DispatchPhase::Terminated
                &&& d.exit_code == exit_code_after(None, flows@[k])
            } else {
                &&& n == flows@.len()
                &&& d.phase == DispatchPhase::Draining
                &&& d.exit_code is None
            })
            &&& final(queue)@ == old(queue)@.skip(n)
        }),
{
    proof {
        lemma_stop_index_props(flows@);
    }
    let ghost k = stop_index(flows@);
    let mut dispatcher = Dispatcher::new();
    let mut i: usize = 0;
    let n = flows.len();
    while i < n
        invariant
            n == flows@.len(),
            flows@.len() == old(queue)@.len(),
            i <= n,
            k == stop_index(flows@),
            0 <= k <= flows@.len(),
            forall|j: int| 0 <= j < k ==> flows@[j] == ControlFlow::Continue,
            k < flows@.len() ==> flows@[k] != ControlFlow::Continue,
            i <= k,
            queue@ == old(queue)@.skip(i as int),
            dispatcher.phase == DispatchPhase::Draining,
            dispatcher.exit_code is None,
        decreases n - i,
    {
        let _event = queue.pop();
        proof {
            assert(old(queue)@.skip(i as int).drop_first() =~= old(queue)@.skip(i + 1));
        }
        let flow = flows[i];
        dispatcher.observe(flow);
        i = i + 1;
        if dispatcher.is_terminated() {
            assert(flows@[i - 1] != ControlFlow::Continue);
            assert(k == i - 1);
            return (dispatcher, i);
        }
        assert(flows@[i - 1] == ControlFlow::Continue);
    }
    assert(k == flows@.len());
    (dispatcher, i)
}

} // verus!
