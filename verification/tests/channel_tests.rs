use tile_pipeline::channel::{
    poll_stop, recv_blocking, send_reliable, send_step, stop_decision, sync_channel_pair,
    try_recv, try_send, RecvAttempt, SendAttempt, SendOutcome,
};
use tile_pipeline::coordinator::{Coordinator, CoordinatorState, StopAction};
use tile_pipeline::messages::{ResultMessage, Signal, WorkMessage};
use tile_pipeline::scheduler::{run_scheduler, schedule_order};
use tile_pipeline::config::AppConfig;

fn cfg(width: u32, height: u32, tile_size: u8) -> AppConfig {
    AppConfig::new(width, height, tile_size, 2, 8, 16, 100).unwrap()
}

#[test]
fn try_send_and_receive() {
    let (tx, rx) = sync_channel_pair::<u32>(2);
    assert!(matches!(try_send(&tx, 7), SendAttempt::Sent));
    assert!(matches!(try_recv(&rx), RecvAttempt::Received(7)));
}

#[test]
fn try_send_full_returns_message() {
    let (tx, rx) = sync_channel_pair::<u32>(1);
    assert!(matches!(try_send(&tx, 1), SendAttempt::Sent));
    assert!(matches!(try_send(&tx, 2), SendAttempt::Full(2)));
    assert!(matches!(try_recv(&rx), RecvAttempt::Received(1)));
}

#[test]
fn try_send_disconnected_returns_message() {
    let (tx, rx) = sync_channel_pair::<u32>(1);
    drop(rx);
    assert!(matches!(try_send(&tx, 9), SendAttempt::Disconnected(9)));
}

#[test]
fn try_recv_empty_and_closed() {
    let (tx, rx) = sync_channel_pair::<u32>(1);
    assert!(matches!(try_recv(&rx), RecvAttempt::Empty));
    drop(tx);
    assert!(matches!(try_recv(&rx), RecvAttempt::Closed));
}

#[test]
fn recv_blocking_gets_message_or_closure() {
    let (tx, rx) = sync_channel_pair::<u32>(1);
    assert!(matches!(try_send(&tx, 5), SendAttempt::Sent));
    assert_eq!(recv_blocking(&rx), Some(5));
    drop(tx);
    assert_eq!(recv_blocking(&rx), None);
}

#[test]
fn send_step_decisions() {
    assert!(matches!(send_step::<u32>(SendAttempt::Sent), SendOutcome::Done));
    assert!(matches!(send_step::<u32>(SendAttempt::Disconnected(3)), SendOutcome::Done));
    assert!(matches!(send_step::<u32>(SendAttempt::Full(3)), SendOutcome::Retry(3)));
}

#[test]
fn reliable_send_delivers() {
    let (tx, rx) = sync_channel_pair::<Signal>(1);
    send_reliable(&tx, Signal::Stop);
    assert!(matches!(try_recv(&rx), RecvAttempt::Received(Signal::Stop)));
}

#[test]
fn reliable_send_survives_dropped_receiver() {
    // The receiver is gone before the first attempt; the send returns
    // without hanging and without an error.
    let (tx, rx) = sync_channel_pair::<Signal>(1);
    drop(rx);
    send_reliable(&tx, Signal::Stop);
}

#[test]
fn stop_decision_on_each_outcome() {
    assert!(stop_decision(RecvAttempt::Received(Signal::Stop)));
    assert!(stop_decision(RecvAttempt::Closed));
    assert!(!stop_decision(RecvAttempt::Empty));
}

#[test]
fn poll_stop_sees_signal_and_closure() {
    let (tx, rx) = sync_channel_pair::<Signal>(1);
    assert!(!poll_stop(&rx));
    send_reliable(&tx, Signal::Stop);
    assert!(poll_stop(&rx));
    drop(tx);
    assert!(poll_stop(&rx));
}

#[test]
fn schedule_is_a_permutation() {
    let c = cfg(100, 50, 30);
    let order = schedule_order(&c);
    assert_eq!(order.len(), 8);
    let mut sorted = order.clone();
    sorted.sort();
    let expected: Vec<u32> = (0..8).collect();
    assert_eq!(sorted, expected);
}

#[test]
fn scheduler_enqueues_every_tile_once() {
    let c = cfg(64, 64, 32);
    let order = schedule_order(&c);
    let (stop_tx, stop_rx) = sync_channel_pair::<Signal>(4);
    let (work_tx, work_rx) = sync_channel_pair::<WorkMessage>(16);
    run_scheduler(&order, &stop_rx, &work_tx);
    let mut seen = Vec::new();
    while let RecvAttempt::Received(msg) = try_recv(&work_rx) {
        match msg {
            WorkMessage::Process(t) => seen.push(t),
            WorkMessage::Stop => panic!("the scheduler sends no stop"),
        }
    }
    seen.sort();
    let expected: Vec<u32> = (0..4).collect();
    assert_eq!(seen, expected);
    drop(stop_tx);
}

#[test]
fn scheduler_abandons_tiles_on_stop() {
    let c = cfg(64, 64, 32);
    let order = schedule_order(&c);
    let (stop_tx, stop_rx) = sync_channel_pair::<Signal>(4);
    let (work_tx, work_rx) = sync_channel_pair::<WorkMessage>(16);
    send_reliable(&stop_tx, Signal::Stop);
    run_scheduler(&order, &stop_rx, &work_tx);
    assert!(matches!(try_recv(&work_rx), RecvAttempt::Empty));
}

#[test]
fn stop_actions_fan_out_shape() {
    let actions = tile_pipeline::coordinator::stop_actions(3);
    assert_eq!(actions.len(), 7);
    assert_eq!(actions[0], StopAction::StopScheduler);
    assert_eq!(actions[1], StopAction::StopTicker);
    assert_eq!(actions[2], StopAction::StopWorkChannel);
    for j in 3..6 {
        assert_eq!(actions[j], StopAction::StopResultChannel);
    }
    assert_eq!(actions[6], StopAction::SignalDone);
    let dones = actions.iter().filter(|a| matches!(a, StopAction::SignalDone)).count();
    assert_eq!(dones, 1);
}

#[test]
fn coordinator_fans_out_once() {
    // One external stop, observed mid-run, fans out to every component
    // and signals completion exactly once; a second stop does nothing.
    let (sched_tx, sched_rx) = sync_channel_pair::<Signal>(4);
    let (ticker_tx, ticker_rx) = sync_channel_pair::<Signal>(4);
    let (work_tx, work_rx) = sync_channel_pair::<WorkMessage>(16);
    let (result_tx, result_rx) = sync_channel_pair::<ResultMessage>(16);
    let (done_tx, done_rx) = sync_channel_pair::<Signal>(4);

    let mut coord = Coordinator::new();
    assert_eq!(coord.state, CoordinatorState::Running);
    coord.drain(2, &sched_tx, &ticker_tx, &work_tx, &result_tx, &done_tx);
    assert_eq!(coord.state, CoordinatorState::Terminated);

    assert!(matches!(try_recv(&sched_rx), RecvAttempt::Received(Signal::Stop)));
    assert!(matches!(try_recv(&sched_rx), RecvAttempt::Empty));
    assert!(matches!(try_recv(&ticker_rx), RecvAttempt::Received(Signal::Stop)));
    assert!(matches!(try_recv(&ticker_rx), RecvAttempt::Empty));
    assert!(matches!(try_recv(&work_rx), RecvAttempt::Received(WorkMessage::Stop)));
    assert!(matches!(try_recv(&work_rx), RecvAttempt::Empty));
    assert!(matches!(try_recv(&result_rx), RecvAttempt::Received(ResultMessage::Stop)));
    assert!(matches!(try_recv(&result_rx), RecvAttempt::Received(ResultMessage::Stop)));
    assert!(matches!(try_recv(&result_rx), RecvAttempt::Empty));
    assert!(matches!(try_recv(&done_rx), RecvAttempt::Received(Signal::Stop)));
    assert!(matches!(try_recv(&done_rx), RecvAttempt::Empty));

    coord.drain(2, &sched_tx, &ticker_tx, &work_tx, &result_tx, &done_tx);
    assert_eq!(coord.state, CoordinatorState::Terminated);
    assert!(matches!(try_recv(&done_rx), RecvAttempt::Empty));
    assert!(matches!(try_recv(&sched_rx), RecvAttempt::Empty));
}

#[test]
fn coordinator_drain_survives_gone_receivers() {
    // Shutdown may find some components already gone; the fan-out still
    // completes and the done signal is still delivered.
    let (sched_tx, sched_rx) = sync_channel_pair::<Signal>(4);
    let (ticker_tx, ticker_rx) = sync_channel_pair::<Signal>(4);
    let (work_tx, work_rx) = sync_channel_pair::<WorkMessage>(16);
    let (result_tx, result_rx) = sync_channel_pair::<ResultMessage>(16);
    let (done_tx, done_rx) = sync_channel_pair::<Signal>(4);
    drop(sched_rx);
    drop(work_rx);
    drop(result_rx);

    let mut coord = Coordinator::new();
    coord.drain(2, &sched_tx, &ticker_tx, &work_tx, &result_tx, &done_tx);
    assert_eq!(coord.state, CoordinatorState::Terminated);
    assert!(matches!(try_recv(&ticker_rx), RecvAttempt::Received(Signal::Stop)));
    assert!(matches!(try_recv(&done_rx), RecvAttempt::Received(Signal::Stop)));
}
