use board_core::control::{ControlLoop, LoopAction, GREETING};
use board_core::handlers::{exti0, LineAction};
use board_core::heap::{AllocLayout, AllocatorManager, HEAP_SIZE};
use board_core::fault::{EscalationAction, FaultKind};
use board_core::line::InterruptLine;
use board_core::sink::{DiagnosticSink, SinkEvent};

const QUIET: LoopAction = LoopAction { toggle_output: false, raise_interrupt: false };
const PRESS: LoopAction = LoopAction { toggle_output: true, raise_interrupt: true };
const RELEASE: LoopAction = LoopAction { toggle_output: false, raise_interrupt: true };

#[test]
fn the_greeting_is_one_line() {
    assert_eq!(GREETING, "Hello, world!\n");
}

#[test]
fn the_loop_starts_from_the_levels_it_is_given() {
    let control = ControlLoop::start(true, false);
    assert!(control.previous_input());
    assert!(!control.output());
    let control = ControlLoop::start(false, true);
    assert!(!control.previous_input());
    assert!(control.output());
}

#[test]
fn a_steady_input_does_nothing() {
    let mut low = ControlLoop::start(false, true);
    let mut high = ControlLoop::start(true, false);
    for _ in 0..5 {
        assert_eq!(low.step(false), QUIET);
        assert_eq!(high.step(true), QUIET);
    }
    assert!(low.output());
    assert!(!high.output());
}

#[test]
fn a_press_toggles_and_signals() {
    let mut control = ControlLoop::start(false, false);
    assert_eq!(control.step(true), PRESS);
    assert!(control.output());
    assert!(control.previous_input());
}

#[test]
fn a_release_signals_without_toggling() {
    let mut control = ControlLoop::start(true, true);
    assert_eq!(control.step(false), RELEASE);
    assert!(control.output());
    assert!(!control.previous_input());
}

#[test]
fn the_output_never_changes_on_a_release() {
    for code in 0..256u32 {
        let mut control = ControlLoop::start(code & 1 == 1, false);
        for bit in 1..8 {
            let level = (code >> bit) & 1 == 1;
            let before = control.output();
            let was = control.previous_input();
            let action = control.step(level);
            assert_eq!(action.toggle_output, level && !was);
            assert_eq!(action.raise_interrupt, level != was);
            assert_eq!(control.output() != before, level && !was);
        }
    }
}

#[test]
fn press_release_press_toggles_twice() {
    let mut control = ControlLoop::start(false, false);
    let mut line = InterruptLine::new();
    line.enable();
    let mut sink = DiagnosticSink::new();
    let mut toggles = 0;
    let mut signals = 0;
    let mut entries = 0;
    let mut written = String::new();
    let expected = [(true, PRESS, true), (false, RELEASE, true), (true, PRESS, false)];
    for (level, action, output) in expected {
        assert_eq!(control.step(level), action);
        assert_eq!(control.output(), output);
        if action.toggle_output {
            toggles += 1;
        }
        if action.raise_interrupt {
            line.set_pending();
            signals += 1;
        }
        if line.dispatch() {
            entries += 1;
            let mut asked = exti0(&mut sink, SinkEvent::Emit);
            if asked == LineAction::OpenChannel {
                asked = exti0(&mut sink, SinkEvent::Opened);
            }
            if let LineAction::Emit(mark) = asked {
                written.push(mark);
            }
        }
        assert!(!line.is_pending());
    }
    assert_eq!(toggles, 2);
    assert_eq!(signals, 3);
    assert_eq!(entries, 3);
    assert_eq!(written, "iii");
}

#[test]
fn exhausting_the_arena_halts_the_process() {
    let mut manager = AllocatorManager::empty();
    assert!(manager.initialize(0x2000_0000, HEAP_SIZE).is_ok());
    assert_eq!(manager.capacity(), 1024);
    assert!(manager.allocate(AllocLayout { size: 1000, align: 4 }).is_ok());
    let mut escalation = manager.allocate(AllocLayout { size: 100, align: 4 }).unwrap_err();
    assert_eq!(escalation.kind(), FaultKind::OutOfMemory);
    assert_eq!(manager.in_use(), 1000);
    let mut issued = Vec::new();
    let mut passes = 0;
    while !escalation.is_halted() {
        issued.push(escalation.advance(true));
        passes += 1;
        assert!(passes <= 5);
    }
    assert_eq!(
        issued,
        vec![
            EscalationAction::DisableInterrupts,
            EscalationAction::OpenChannel,
            EscalationAction::Write,
            EscalationAction::DebugBreak,
            EscalationAction::Idle,
        ]
    );
    assert_eq!(escalation.report(), "out of memory");
    for _ in 0..16 {
        assert_eq!(escalation.advance(true), EscalationAction::Idle);
        assert!(escalation.is_halted());
    }
}
