//! The shutdown coordinator: a one-shot state machine that, on the single
//! external stop signal, fans a stop message out to every component over
//! Reliable Send and then signals completion exactly once.

use std::sync::mpsc::SyncSender;
use vstd::prelude::*;

use crate::channel::send_reliable;
use crate::messages::{ResultMessage, Signal, WorkMessage};

verus! {

/// The coordinator's states; the only transition is the one-shot
/// `Running -> Draining -> Terminated` taken on the first stop signal.
#[derive(Clone, Copy, Debug, PartialEq, Eq, Structural)]
pub enum CoordinatorState {
    /// Waiting for the external stop signal.
    Running,
    /// Fanning the stop out to the components.
    Draining,
    /// Done; later stop signals are ignored.
    Terminated,
}

/// One send the coordinator performs while draining.
#[derive(Clone, Copy, Debug, PartialEq, Eq, Structural)]
pub enum StopAction {
    /// A stop signal on the scheduler's control channel.
    StopScheduler,
    /// A stop signal on the ticker's control channel.
    StopTicker,
    /// A poison pill on the work channel, consumed by one worker.
    StopWorkChannel,
    /// A poison pill on the result channel, one per worker thread.
    StopResultChannel,
    /// The completion signal on the done channel, sent last.
    SignalDone,
}

/// The fan-out performed on entering `Draining`: one stop each for the
/// scheduler and the ticker, one poison pill on the work channel, one
/// poison pill on the result channel per worker, and then exactly one
/// completion signal, last.
pub fn stop_actions(worker_count: usize) -> (r: Vec<StopAction>)
    requires
        worker_count + 4 <= usize::MAX,
    ensures
        r@.len() == worker_count + 4,
        r@[0] == StopAction::StopScheduler,
        r@[1] == StopAction::StopTicker,
        r@[2] == StopAction::StopWorkChannel,
        forall|j: int| 3 <= j < 3 + worker_count ==> r@[j] == StopAction::StopResultChannel,
        r@[worker_count + 3] == StopAction::SignalDone,
        forall|j: int| 0 <= j < worker_count + 3 ==> r@[j] != StopAction::SignalDone,
{
    let mut r: Vec<StopAction> = Vec::new();
    r.push(StopAction::StopScheduler);
    r.push(StopAction::StopTicker);
    r.push(StopAction::StopWorkChannel);
    let mut i: usize = 0;
    while i < worker_count
        invariant
            i <= worker_count,
            worker_count + 4 <= usize::MAX,
            r@.len() == i + 3,
            r@[0] == StopAction::StopScheduler,
            r@[1] == StopAction::StopTicker,
            r@[2] == StopAction::StopWorkChannel,
            forall|j: int| 3 <= j < 3 + i ==> r@[j] == StopAction::StopResultChannel,
        decreases worker_count - i,
    {
        r.push(StopAction::StopResultChannel);
        i = i + 1;
    }
    r.push(StopAction::SignalDone);
    r
}

/// The shutdown coordinator.
pub struct Coordinator {
    /// Where the one-shot machine stands.
    pub state: CoordinatorState,
}

impl Coordinator {
    /// A coordinator at the start of a run.
    pub fn new() -> (r: Coordinator)
        ensures
            r.state is Running,
    {
        Coordinator { state: CoordinatorState::Running }
    }

    /// The transition taken on the external stop signal: from `Running`,
    /// performs the whole fan-out of `stop_actions` over Reliable Send and
    /// ends `Terminated`; in any other state the signal is ignored and
    /// nothing is sent.
    pub fn drain(
        &mut self,
        worker_count: usize,
        scheduler_tx: &SyncSender<Signal>,
        ticker_tx: &SyncSender<Signal>,
        work_tx: &SyncSender<WorkMessage>,
        result_tx: &SyncSender<ResultMessage>,
        done_tx: &SyncSender<Signal>,
    )
        requires
            worker_count + 4 <= usize::MAX,
        ensures
            old(self).state is Running ==> final(self).state is Terminated,
            !(old(self).state is Running) ==> *final(self) == *old(self),
    {
        match self.state {
            CoordinatorState::Running => {},
            _ => {
                return ;
            },
        }
        self.state = CoordinatorState::Draining;
        let actions = stop_actions(worker_count);
        let mut i: usize = 0;
        while i < actions.len()
            invariant
                i <= actions.len(),
            decreases actions.len() - i,
        {
            match actions[i] {
                StopAction::StopScheduler => send_reliable(scheduler_tx, Signal::Stop),
                StopAction::StopTicker => send_reliable(ticker_tx, Signal::Stop),
                StopAction::StopWorkChannel => send_reliable(work_tx, WorkMessage::Stop),
                StopAction::StopResultChannel => send_reliable(result_tx, ResultMessage::Stop),
                StopAction::SignalDone => send_reliable(done_tx, Signal::Stop),
            }
            i = i + 1;
        }
        self.state = CoordinatorState::Terminated;
    }
}

} // verus!
