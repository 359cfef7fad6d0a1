use compass_lsm303agr::bringup::{BringUp, BringUpAction, Outcome, STEPS};
use compass_lsm303agr::claim::Board;
use compass_lsm303agr::fault::Fault;
use compass_lsm303agr::handles::Handles;
use compass_lsm303agr::runloop::{Event, LoopAction, Phase, RunLoop, PERIOD_MS};
use compass_lsm303agr::sensor::Reading;

fn brought_up() -> Handles {
    let mut board = Board::power_on();
    let mut bring_up = BringUp::begin(&mut board);
    for _ in 0..STEPS {
        bring_up.advance(Outcome::Done);
    }
    bring_up.finish().expect("bring-up is ready")
}

fn trace(line: &str) -> LoopAction {
    LoopAction::Trace { channel: 0, line: String::from(line) }
}

#[test]
fn the_period_is_one_second() {
    assert_eq!(PERIOD_MS, 1000);
}

#[test]
fn the_cycle_starts_with_a_read() {
    let run_loop = RunLoop::start(brought_up());
    assert_eq!(run_loop.phase(), Phase::Sampling);
    assert_eq!(run_loop.action(), LoopAction::ReadSample);
}

#[test]
fn one_iteration_reads_writes_and_waits() {
    let mut run_loop = RunLoop::start(brought_up());
    let reading = Reading { x: 150, y: -300, z: 450 };

    assert_eq!(run_loop.action(), LoopAction::ReadSample);
    assert_eq!(
        run_loop.advance(Event::Sample(reading)),
        trace("Measurement { x: 150, y: -300, z: 450 }\n")
    );
    assert_eq!(run_loop.phase(), Phase::Tracing(reading));
    assert_eq!(run_loop.advance(Event::Done), LoopAction::Delay { ms: 1000 });
    assert_eq!(run_loop.phase(), Phase::Waiting);
    assert_eq!(run_loop.advance(Event::Done), LoopAction::ReadSample);
    assert_eq!(run_loop.phase(), Phase::Sampling);
}

#[test]
fn power_on_to_a_reading_every_second() {
    let mut board = Board::power_on();
    let mut bring_up = BringUp::begin(&mut board);
    let mut action = bring_up.action();
    let mut steps = 0;
    while action != BringUpAction::Finish {
        assert!(!matches!(action, BringUpAction::Halt { .. }));
        action = bring_up.advance(Outcome::Done);
        steps += 1;
    }
    assert_eq!(steps, 11);
    let handles = bring_up.finish().expect("bring-up is ready");

    let mut run_loop = RunLoop::start(handles);
    let mut performed = vec![run_loop.action()];
    let mut reads = 0;
    let mut writes = 0;
    let mut waited_ms: u32 = 0;
    for n in 0..50 {
        let reading = Reading { x: 150 * n, y: -150 * n, z: 150 };
        assert_eq!(run_loop.action(), LoopAction::ReadSample);
        reads += 1;
        let write = run_loop.advance(Event::Sample(reading));
        assert_eq!(
            write,
            trace(&format!("Measurement {{ x: {}, y: {}, z: 150 }}\n", 150 * n, -150 * n))
        );
        writes += 1;
        performed.push(write);
        let wait = run_loop.advance(Event::Done);
        assert_eq!(wait, LoopAction::Delay { ms: 1000 });
        waited_ms += 1000;
        performed.push(wait);
        performed.push(run_loop.advance(Event::Done));
    }
    assert_eq!(reads, 50);
    assert_eq!(writes, 50);
    assert_eq!(waited_ms, 50_000);
    assert_eq!(performed.len(), 151);
    for (j, action) in performed.iter().enumerate() {
        match j % 3 {
            0 => assert_eq!(*action, LoopAction::ReadSample),
            1 => assert!(matches!(action, LoopAction::Trace { channel: 0, .. })),
            _ => assert_eq!(*action, LoopAction::Delay { ms: 1000 }),
        }
    }
}

#[test]
fn a_failed_first_read_halts_with_nothing_written() {
    let mut run_loop = RunLoop::start(brought_up());
    assert_eq!(run_loop.action(), LoopAction::ReadSample);
    assert_eq!(
        run_loop.advance(Event::ReadFailed),
        LoopAction::Halt { fault: Fault::SampleRead }
    );
    assert_eq!(run_loop.phase(), Phase::Halted);
}

#[test]
fn a_failed_read_in_a_later_iteration_halts_before_its_write_and_delay() {
    let mut run_loop = RunLoop::start(brought_up());
    let mut writes = 0;
    let mut delays = 0;
    for n in 0..3 {
        let after_read = run_loop.advance(Event::Sample(Reading { x: n, y: n, z: n }));
        assert!(matches!(after_read, LoopAction::Trace { .. }));
        writes += 1;
        let after_write = run_loop.advance(Event::Done);
        assert!(matches!(after_write, LoopAction::Delay { .. }));
        delays += 1;
        assert_eq!(run_loop.advance(Event::Done), LoopAction::ReadSample);
    }
    let halt = LoopAction::Halt { fault: Fault::SampleRead };
    assert_eq!(run_loop.advance(Event::ReadFailed), halt);
    assert_eq!(writes, 3);
    assert_eq!(delays, 3);
    assert_eq!(run_loop.phase(), Phase::Halted);
}

#[test]
fn a_halted_cycle_stays_halted() {
    let mut run_loop = RunLoop::start(brought_up());
    let halt = LoopAction::Halt { fault: Fault::SampleRead };
    assert_eq!(run_loop.advance(Event::ReadFailed), halt);
    for n in 0..10 {
        assert_eq!(run_loop.advance(Event::Done), halt);
        assert_eq!(run_loop.advance(Event::Sample(Reading { x: n, y: 0, z: 0 })), halt);
        assert_eq!(run_loop.advance(Event::ReadFailed), halt);
        assert_eq!(run_loop.action(), halt);
        assert_eq!(run_loop.phase(), Phase::Halted);
    }
}

#[test]
fn a_report_that_answers_nothing_is_ignored() {
    let mut run_loop = RunLoop::start(brought_up());
    assert_eq!(run_loop.advance(Event::Done), LoopAction::ReadSample);
    assert_eq!(run_loop.phase(), Phase::Sampling);

    let first = Reading { x: 1, y: 2, z: 3 };
    let second = Reading { x: 4, y: 5, z: 6 };
    let write = trace("Measurement { x: 1, y: 2, z: 3 }\n");
    assert_eq!(run_loop.advance(Event::Sample(first)), write);
    assert_eq!(run_loop.advance(Event::Sample(second)), write);
    assert_eq!(run_loop.advance(Event::ReadFailed), write);
    assert_eq!(run_loop.phase(), Phase::Tracing(first));

    let wait = LoopAction::Delay { ms: 1000 };
    assert_eq!(run_loop.advance(Event::Done), wait);
    assert_eq!(run_loop.advance(Event::Sample(second)), wait);
    assert_eq!(run_loop.advance(Event::ReadFailed), wait);
    assert_eq!(run_loop.phase(), Phase::Waiting);
    assert_eq!(run_loop.advance(Event::Done), LoopAction::ReadSample);
}

#[test]
fn asking_for_the_action_changes_nothing() {
    let mut run_loop = RunLoop::start(brought_up());
    run_loop.advance(Event::Sample(Reading { x: -1, y: -2, z: -3 }));
    let write = trace("Measurement { x: -1, y: -2, z: -3 }\n");
    assert_eq!(run_loop.action(), write);
    assert_eq!(run_loop.action(), write);
    assert_eq!(run_loop.phase(), Phase::Tracing(Reading { x: -1, y: -2, z: -3 }));
}
