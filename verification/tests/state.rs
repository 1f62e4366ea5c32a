use timebreak::state::{AppState, StateMachine, StateTransitionError};

#[test]
fn test_valid_break_flow() {
    let mut sm = StateMachine::new();
    assert_eq!(sm.current(), AppState::Idle);

    sm.transition(AppState::Scheduled).unwrap();
    sm.transition(AppState::PreparingBreak).unwrap();
    sm.transition(AppState::Countdown).unwrap();
    sm.transition(AppState::Playing).unwrap();
    sm.transition(AppState::Results).unwrap();
    sm.transition(AppState::ReturningToWork).unwrap();
    sm.transition(AppState::Idle).unwrap();
}

#[test]
fn test_emergency_escape_during_play() {
    let mut sm = StateMachine::new();
    sm.transition(AppState::Countdown).unwrap();
    sm.transition(AppState::Playing).unwrap();
    sm.transition(AppState::ReturningToWork).unwrap();
    assert_eq!(sm.current(), AppState::ReturningToWork);
    sm.transition(AppState::Idle).unwrap();
    assert_eq!(sm.current(), AppState::Idle);
}

#[test]
fn test_invalid_transition() {
    let mut sm = StateMachine::new();
    let err = sm.transition(AppState::Playing).unwrap_err();
    assert!(matches!(err, StateTransitionError::InvalidTransition { .. }));
}

#[test]
fn refused_transition_keeps_state_and_names_the_pair() {
    let mut sm = StateMachine::default();
    let err = sm.transition(AppState::Results).unwrap_err();
    assert_eq!(
        err,
        StateTransitionError::InvalidTransition { from: AppState::Idle, to: AppState::Results }
    );
    assert_eq!(sm.current(), AppState::Idle);
}

#[test]
fn escape_from_pause_and_countdown() {
    for start in [AppState::Countdown, AppState::Paused] {
        let mut sm = StateMachine::new();
        sm.transition(AppState::Countdown).unwrap();
        if start == AppState::Paused {
            sm.transition(AppState::Playing).unwrap();
            sm.transition(AppState::Paused).unwrap();
        }
        sm.transition(AppState::ReturningToWork).unwrap();
        sm.transition(AppState::Idle).unwrap();
        assert_eq!(sm.current(), AppState::Idle);
    }
}

#[test]
fn reentering_current_state_is_accepted() {
    let mut sm = StateMachine::new();
    sm.transition(AppState::Idle).unwrap();
    sm.transition(AppState::Scheduled).unwrap();
    sm.transition(AppState::Scheduled).unwrap();
    assert_eq!(sm.current(), AppState::Scheduled);
}

#[test]
fn play_needs_countdown() {
    let mut sm = StateMachine::new();
    sm.transition(AppState::Scheduled).unwrap();
    assert!(sm.transition(AppState::Playing).is_err());
    sm.transition(AppState::PreparingBreak).unwrap();
    assert!(sm.transition(AppState::Playing).is_err());
    sm.transition(AppState::Countdown).unwrap();
    assert!(sm.transition(AppState::Playing).is_ok());
}

#[test]
fn results_only_after_play() {
    let mut sm = StateMachine::new();
    sm.transition(AppState::Countdown).unwrap();
    assert!(sm.transition(AppState::Results).is_err());
    sm.transition(AppState::Playing).unwrap();
    sm.transition(AppState::Paused).unwrap();
    assert!(sm.transition(AppState::Results).is_ok());
}

#[test]
fn every_state_gets_back_to_idle() {
    let routes: Vec<(AppState, Vec<AppState>)> = vec![
        (AppState::Scheduled, vec![AppState::Countdown, AppState::ReturningToWork, AppState::Idle]),
        (AppState::PreparingBreak, vec![AppState::Idle]),
        (AppState::Results, vec![AppState::ReturningToWork, AppState::Idle]),
    ];
    for (start, route) in routes {
        let mut sm = StateMachine::new();
        match start {
            AppState::Scheduled => sm.transition(AppState::Scheduled).unwrap(),
            AppState::PreparingBreak => sm.transition(AppState::PreparingBreak).unwrap(),
            _ => {
                sm.transition(AppState::Countdown).unwrap();
                sm.transition(AppState::Playing).unwrap();
                sm.transition(AppState::Results).unwrap();
            }
        }
        for s in route {
            sm.transition(s).unwrap();
        }
        assert_eq!(sm.current(), AppState::Idle);
    }
}

#[test]
fn scheduled_cannot_escape_directly() {
    let mut sm = StateMachine::new();
    sm.transition(AppState::Scheduled).unwrap();
    assert!(sm.transition(AppState::ReturningToWork).is_err());
    assert!(sm.transition(AppState::Idle).is_err());
    assert_eq!(sm.current(), AppState::Scheduled);
}

#[test]
fn escape_key_returns_to_idle() {
    let mut sm = StateMachine::new();
    sm.transition(AppState::Countdown).unwrap();
    sm.transition(AppState::Playing).unwrap();
    sm.transition(AppState::Paused).unwrap();
    sm.emergency_escape();
    assert_eq!(sm.current(), AppState::Idle);
    sm.transition(AppState::PreparingBreak).unwrap();
    sm.emergency_escape();
    assert_eq!(sm.current(), AppState::Idle);
    sm.transition(AppState::Scheduled).unwrap();
    sm.emergency_escape();
    assert_eq!(sm.current(), AppState::Scheduled);
}
