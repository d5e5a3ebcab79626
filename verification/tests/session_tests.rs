use scorefall_studio::command::Command;
use scorefall_studio::input::KeyState;
use scorefall_studio::session::{tick, FramePhase, Scheduler, Session};

fn down(s: &mut Session, key: &str, code: &str) {
    s.input.update(key.to_string(), code.to_string(), false, true);
}

fn up(s: &mut Session, key: &str, code: &str) {
    s.input.update(key.to_string(), code.to_string(), false, false);
}

#[test]
fn fresh_session_is_quiet() {
    let s = Session::new();
    assert!(!s.input.has_input);
    assert_eq!(s.input.text, '\0');
    for k in &s.input.keys {
        assert_eq!(*k, KeyState::Idle);
    }
    assert_eq!(s.time_old, 0);
    assert_eq!(s.command, "");
    assert!(s.surface.nodes.is_empty());
}

#[test]
fn scheduler_starts_scheduled_and_rearms() {
    let mut sched = Scheduler::new();
    assert_eq!(sched.phase, FramePhase::Scheduled);
    sched.begin_tick();
    assert_eq!(sched.phase, FramePhase::Running);
    sched.end_tick();
    assert_eq!(sched.phase, FramePhase::Scheduled);
}

#[test]
fn one_down_one_tick_one_left_call() {
    let mut s = Session::new();
    let mut sched = Scheduler::new();
    down(&mut s, "ArrowLeft", "ArrowLeft");
    let cmds = tick(&mut s, &mut sched, 16);
    assert_eq!(cmds, vec![Command::Left]);
    assert!(!s.input.has_input);
    assert_eq!(s.time_old, 16);
    assert_eq!(sched.phase, FramePhase::Scheduled);
}

#[test]
fn second_tick_without_up_fires_nothing() {
    let mut s = Session::new();
    let mut sched = Scheduler::new();
    down(&mut s, "ArrowLeft", "ArrowLeft");
    let first = tick(&mut s, &mut sched, 16);
    assert_eq!(first, vec![Command::Left]);
    let second = tick(&mut s, &mut sched, 32);
    assert_eq!(second, vec![]);
    assert_eq!(s.time_old, 32);
}

#[test]
fn down_and_up_before_tick_loses_the_edge() {
    let mut s = Session::new();
    let mut sched = Scheduler::new();
    down(&mut s, "ArrowLeft", "ArrowLeft");
    up(&mut s, "ArrowLeft", "ArrowLeft");
    let cmds = tick(&mut s, &mut sched, 16);
    assert_eq!(cmds, vec![]);
}

#[test]
fn modifier_held_across_ticks_keeps_half_steps() {
    let mut s = Session::new();
    let mut sched = Scheduler::new();
    down(&mut s, "Shift", "ShiftLeft");
    let cmds = tick(&mut s, &mut sched, 1);
    assert_eq!(cmds, vec![]);
    down(&mut s, "j", "KeyJ");
    let cmds = tick(&mut s, &mut sched, 2);
    assert_eq!(cmds, vec![Command::DownHalfStep]);
    up(&mut s, "Shift", "ShiftLeft");
    let cmds = tick(&mut s, &mut sched, 3);
    assert_eq!(cmds, vec![]);
    down(&mut s, "j", "KeyJ");
    let cmds = tick(&mut s, &mut sched, 4);
    assert_eq!(cmds, vec![Command::DownStep]);
}

#[test]
fn tick_resets_edge_detector_after_dispatch() {
    let mut s = Session::new();
    let mut sched = Scheduler::new();
    down(&mut s, "q", "KeyQ");
    let cmds = tick(&mut s, &mut sched, 16);
    assert_eq!(cmds.len(), 1);
    for k in &s.input.keys {
        assert!(*k == KeyState::Idle || *k == KeyState::Held);
    }
}

#[test]
fn text_capture_survives_ticks() {
    let mut s = Session::new();
    let mut sched = Scheduler::new();
    down(&mut s, "x", "KeyX");
    let cmds = tick(&mut s, &mut sched, 16);
    assert_eq!(cmds, vec![]);
    assert_eq!(s.input.text, 'x');
}
