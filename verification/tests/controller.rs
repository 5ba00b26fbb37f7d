use twis_dma::controller::{send_twi_cmds, TwimCommand};
use twis_dma::event::Event;
use twis_dma::handlers::{init, on_gpiote, on_twis};
use twis_dma::model::Phase;
use twis_dma::queue::{SpawnError, TaskQueue};
use twis_dma::transfer::RESPONDER_ADDRESS;

#[test]
fn task_program_is_read_then_write() {
    let commands = send_twi_cmds();
    assert_eq!(commands.len(), 2);
    assert_eq!(commands[0], TwimCommand::Read { address: 0x1A, len: 8 });
    assert_eq!(
        commands[1],
        TwimCommand::Write { address: 0x1A, payload: [1, 2, 3, 4, 5, 6, 7, 8] }
    );
}

#[test]
fn controller_task_against_the_responder() {
    let (mut shared, mut tasks) = init();
    assert_eq!(on_gpiote(&mut shared, &mut tasks), Ok(()));
    assert!(tasks.dispatch());

    let mut read_result = None;
    for command in send_twi_cmds() {
        match command {
            TwimCommand::Read { address, len } => {
                assert_eq!(address, RESPONDER_ADDRESS);
                assert_eq!(len, 8);
                assert_eq!(on_twis(&mut shared, true, false), Event::IncomingRead);
                read_result = shared.outgoing();
                assert_eq!(on_twis(&mut shared, false, false), Event::BusStopped);
            }
            TwimCommand::Write { address, payload } => {
                assert_eq!(address, RESPONDER_ADDRESS);
                assert_eq!(on_twis(&mut shared, false, true), Event::IncomingWrite);
                assert!(shared.deliver(&payload));
                assert_eq!(on_twis(&mut shared, false, false), Event::BusStopped);
            }
        }
    }
    assert_eq!(read_result, Some([0, 0, 0, 0, 0, 0, 0, 0]));
    assert_eq!(shared.phase(), Some(Phase::Idle));
    assert_eq!(shared.buffer(), Some([1, 2, 3, 4, 5, 6, 7, 8]));
}

#[test]
fn one_task_per_reset_edge() {
    let (mut shared, mut tasks) = init();
    let mut executions = 0;
    for edge in 1..=25 {
        assert!(!tasks.is_pending());
        assert_eq!(on_gpiote(&mut shared, &mut tasks), Ok(()));
        assert!(tasks.is_pending());
        // bus traffic in between neither queues nor runs the task
        on_twis(&mut shared, edge % 2 == 0, edge % 3 == 0);
        assert!(tasks.is_pending());
        if tasks.dispatch() {
            executions += 1;
        }
        // nothing is left to run a second time
        if tasks.dispatch() {
            executions += 1;
        }
        assert_eq!(executions, edge);
    }
    assert_eq!(executions, 25);
}

#[test]
fn bus_events_queue_no_task() {
    let (mut shared, mut tasks) = init();
    on_twis(&mut shared, true, false);
    on_twis(&mut shared, false, true);
    on_twis(&mut shared, false, false);
    assert!(!tasks.is_pending());
    assert!(!tasks.dispatch());
}

#[test]
fn second_spawn_is_rejected() {
    let mut tasks = TaskQueue::new();
    assert_eq!(tasks.spawn(), Ok(()));
    assert!(tasks.is_pending());
    assert_eq!(tasks.spawn(), Err(SpawnError::AlreadyQueued));
    assert!(tasks.is_pending());
    assert!(tasks.dispatch());
    assert_eq!(tasks.spawn(), Ok(()));
}

#[test]
fn dispatch_on_an_empty_queue_runs_nothing() {
    let mut tasks = TaskQueue::new();
    assert!(!tasks.is_pending());
    assert!(!tasks.dispatch());
    assert!(!tasks.is_pending());
}

#[test]
fn controller_task_leaves_the_responder_alone() {
    let (mut shared, mut tasks) = init();
    on_twis(&mut shared, false, true);
    shared.deliver(&[6, 6, 6, 6, 6, 6, 6, 6]);
    on_twis(&mut shared, false, false);
    tasks.spawn().expect("the queue was empty");
    assert!(tasks.dispatch());
    let _ = send_twi_cmds();
    assert_eq!(shared.phase(), Some(Phase::Idle));
    assert_eq!(shared.buffer(), Some([6, 6, 6, 6, 6, 6, 6, 6]));
}

#[test]
fn reset_with_a_task_still_queued_is_turned_down() {
    let (mut shared, mut tasks) = init();
    on_twis(&mut shared, false, true);
    shared.deliver(&[4, 4, 4, 4, 4, 4, 4, 4]);
    assert_eq!(on_gpiote(&mut shared, &mut tasks), Ok(()));
    on_twis(&mut shared, false, true);
    shared.deliver(&[5, 5, 5, 5, 5, 5, 5, 5]);
    // the second edge comes before the task has run
    assert_eq!(on_gpiote(&mut shared, &mut tasks), Err(SpawnError::AlreadyQueued));
    // the buffer is cleared and idle all the same, and one instance is queued
    assert_eq!(shared.phase(), Some(Phase::Idle));
    assert_eq!(shared.buffer(), Some([0u8; 8]));
    assert!(tasks.dispatch());
    assert!(!tasks.dispatch());
}
