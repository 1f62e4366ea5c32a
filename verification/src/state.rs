//! The break lifecycle state machine.
use vstd::prelude::*;

verus! {

/// Phases of a micro-break, from the idle background monitor to the
/// return to work.
#[derive(Debug, Clone, Copy, PartialEq, Eq, Structural)]
pub enum AppState {
    Idle,
    Scheduled,
    PreparingBreak,
    Countdown,
    Playing,
    Paused,
    Results,
    ReturningToWork,
}

/// A refused transition, carrying the state it was asked from and the
/// state it was asked to reach.
#[derive(Debug, Clone, Copy, PartialEq, Eq, Structural)]
pub enum StateTransitionError {
    InvalidTransition { from: AppState, to: AppState },
}

/// Whether the lifecycle allows going from `from` to `to`: the normal
/// break flow, the emergency exits, and re-entering the current state.
pub open spec fn valid_transition(from: AppState, to: AppState) -> bool {
    ||| from == to
    ||| match (from, to) {
        (AppState::Idle, AppState::Scheduled) => true,
        (AppState::Idle, AppState::PreparingBreak) => true,
        (AppState::Idle, AppState::Countdown) => true,
        (AppState::Scheduled, AppState::PreparingBreak) => true,
        (AppState::Scheduled, AppState::Countdown) => true,
        (AppState::PreparingBreak, AppState::Countdown) => true,
        (AppState::Countdown, AppState::Playing) => true,
        (AppState::Playing, AppState::Paused) => true,
        (AppState::Paused, AppState::Playing) => true,
        (AppState::Playing, AppState::Results) => true,
        (AppState::Paused, AppState::Results) => true,
        (AppState::Results, AppState::ReturningToWork) => true,
        (AppState::ReturningToWork, AppState::Idle) => true,
        (AppState::ReturningToWork, AppState::Scheduled) => true,
        (AppState::Countdown, AppState::ReturningToWork) => true,
        (AppState::Playing, AppState::ReturningToWork) => true,
        (AppState::Paused, AppState::ReturningToWork) => true,
        (AppState::PreparingBreak, AppState::Idle) => true,
        _ => false,
    }
}

/// The states in which a session holds the overlay: the countdown, play and
/// the pause.
pub open spec fn is_session_active(s: AppState) -> bool {
    s == AppState::Countdown || s == AppState::Playing || s == AppState::Paused
}

/// Whether `path` is a sequence of states, each reachable from the one
/// before it (the first from `start`) by one accepted transition.
pub open spec fn is_valid_route(start: AppState, path: Seq<AppState>) -> bool
    decreases path.len(),
{
    if path.len() == 0 {
        true
    } else {
        valid_transition(start, path[0]) && is_valid_route(path[0], path.drop_first())
    }
}

/// The state a route ends in.
pub open spec fn route_end(start: AppState, path: Seq<AppState>) -> AppState {
    if path.len() == 0 {
        start
    } else {
        path.last()
    }
}

/// Emergency escape: during a countdown, play or pause the session can be
/// abandoned at once, and from there the machine goes back to idle.
pub proof fn lemma_escape_from_active_session(s: AppState)
    requires
        is_session_active(s),
    ensures
        valid_transition(s, AppState::ReturningToWork),
        valid_transition(AppState::ReturningToWork, AppState::Idle),
{
}

/// Re-triggering the current state is always accepted.
pub proof fn lemma_reentry_accepted(s: AppState)
    ensures
        valid_transition(s, s),
{
}

/// Play is entered only from the countdown or a pause.
pub proof fn lemma_play_entered_from_countdown_or_pause(from: AppState)
    requires
        valid_transition(from, AppState::Playing),
    ensures
        from == AppState::Countdown || from == AppState::Paused || from == AppState::Playing,
{
}

/// Results are shown only after play or a pause.
pub proof fn lemma_results_follow_play(from: AppState)
    requires
        valid_transition(from, AppState::Results),
    ensures
        from == AppState::Playing || from == AppState::Paused || from == AppState::Results,
{
}

/// A pause can always be undone: every state that may be paused from is
/// accepted again straight from the pause, so pausing and resuming is a
/// route that ends where it began.
pub proof fn lemma_pause_can_be_resumed(from: AppState)
    requires
        from != AppState::Paused,
        valid_transition(from, AppState::Paused),
    ensures
        valid_transition(AppState::Paused, from),
        is_valid_route(from, seq![AppState::Paused, from]),
        route_end(from, seq![AppState::Paused, from]) == from,
{
    let path = seq![AppState::Paused, from];
    let rest = seq![from];
    assert(path.drop_first() =~= rest);
    assert(rest.drop_first() =~= Seq::<AppState>::empty());
    assert(is_valid_route(from, Seq::<AppState>::empty()));
    assert(is_valid_route(AppState::Paused, rest));
    assert(is_valid_route(from, path));
}

/// From every state some sequence of accepted transitions leads back to idle.
pub proof fn lemma_idle_reachable(s: AppState)
    ensures
        exists|path: Seq<AppState>| is_valid_route(s, path) && route_end(s, path) == AppState::Idle,
{
    let path: Seq<AppState> = match s {
        AppState::Idle => seq![],
        AppState::Scheduled => seq![AppState::Countdown, AppState::ReturningToWork, AppState::Idle],
        AppState::PreparingBreak => seq![AppState::Idle],
        AppState::Countdown => seq![AppState::ReturningToWork, AppState::Idle],
        AppState::Playing => seq![AppState::ReturningToWork, AppState::Idle],
        AppState::Paused => seq![AppState::ReturningToWork, AppState::Idle],
        AppState::Results => seq![AppState::ReturningToWork, AppState::Idle],
        AppState::ReturningToWork => seq![AppState::Idle],
    };
    reveal_with_fuel(is_valid_route, 4);
    assert(is_valid_route(s, path) && route_end(s, path) == AppState::Idle);
}

/// Every phase of a break can be reached from idle by accepted transitions:
/// no state of the lifecycle is cut off.
pub proof fn lemma_every_state_reachable_from_idle(s: AppState)
    ensures
        exists|path: Seq<AppState>| is_valid_route(AppState::Idle, path) && route_end(AppState::Idle, path) == s,
{
    let path: Seq<AppState> = match s {
        AppState::Idle => seq![],
        AppState::Scheduled => seq![AppState::Scheduled],
        AppState::PreparingBreak => seq![AppState::PreparingBreak],
        AppState::Countdown => seq![AppState::Countdown],
        AppState::Playing => seq![AppState::Countdown, AppState::Playing],
        AppState::Paused => seq![AppState::Countdown, AppState::Playing, AppState::Paused],
        AppState::Results => seq![AppState::Countdown, AppState::Playing, AppState::Results],
        AppState::ReturningToWork => seq![AppState::Countdown, AppState::Playing, AppState::Results, AppState::ReturningToWork],
    };
    reveal_with_fuel(is_valid_route, 5);
    assert(is_valid_route(AppState::Idle, path) && route_end(AppState::Idle, path) == s);
}

/// No play without a countdown: every accepted route from a state outside
/// a session into play passes through the countdown.
pub proof fn lemma_play_requires_countdown(start: AppState, path: Seq<AppState>)
    requires
        !is_session_active(start),
        is_valid_route(start, path),
        route_end(start, path) == AppState::Playing,
    ensures
        path.contains(AppState::Countdown),
    decreases path.len(),
{
    assert(path.len() > 0);
    if path[0] == AppState::Countdown {
        assert(path[0] == AppState::Countdown);
    } else {
        let rest = path.drop_first();
        assert(!is_session_active(path[0]));
        if rest.len() == 0 {
            assert(path.last() == path[0]);
        } else {
            assert(rest.last() == path.last());
        }
        lemma_play_requires_countdown(path[0], rest);
        let k = choose|k: int| 0 <= k < rest.len() && rest[k] == AppState::Countdown;
        assert(path[k + 1] == AppState::Countdown);
    }
}

pub struct StateMachine {
    current: AppState,
}

impl View for StateMachine {
    type V = AppState;

    closed spec fn view(&self) -> AppState {
        self.current
    }
}

impl StateMachine {
    /// A machine in the `Idle` state.
    pub fn new() -> (sm: Self)
        ensures
            sm@ == AppState::Idle,
    {
        StateMachine { current: AppState::Idle }
    }

    /// The current state.
    pub fn current(&self) -> (s: AppState)
        ensures
            s == self@,
    {
        self.current
    }

    /// Moves to `next` when the lifecycle allows it; otherwise leaves the
    /// state unchanged and reports the refused pair.
    pub fn transition(&mut self, next: AppState) -> (r: Result<(), StateTransitionError>)
        ensures
            r is Ok <==> valid_transition(old(self)@, next),
            r is Ok ==> final(self)@ == next,
            r is Err ==> final(self)@ == old(self)@,
            r is Err ==> r == Err::<(), StateTransitionError>(
                StateTransitionError::InvalidTransition { from: old(self)@, to: next },
            ),
    {
        let from = self.current;
        let valid = match (from, next) {
            (AppState::Idle, AppState::Scheduled) => true,
            (AppState::Idle, AppState::PreparingBreak) => true,
            (AppState::Idle, AppState::Countdown) => true,
            (AppState::Scheduled, AppState::PreparingBreak) => true,
            (AppState::Scheduled, AppState::Countdown) => true,
            (AppState::PreparingBreak, AppState::Countdown) => true,
            (AppState::Countdown, AppState::Playing) => true,
            (AppState::Playing, AppState::Paused) => true,
            (AppState::Paused, AppState::Playing) => true,
            (AppState::Playing, AppState::Results) => true,
            (AppState::Paused, AppState::Results) => true,
            (AppState::Results, AppState::ReturningToWork) => true,
            (AppState::ReturningToWork, AppState::Idle) => true,
            (AppState::ReturningToWork, AppState::Scheduled) => true,
            (AppState::Countdown, AppState::ReturningToWork) => true,
            (AppState::Playing, AppState::ReturningToWork) => true,
            (AppState::Paused, AppState::ReturningToWork) => true,
            (AppState::PreparingBreak, AppState::Idle) => true,
            (current, target) => current == target,
        };
        if valid {
            self.current = next;
            Ok(())
        } else {
            Err(StateTransitionError::InvalidTransition { from, to: next })
        }
    }
}

/// Where an emergency escape leaves the machine: the escape first asks
/// for the return to work and then for idle, each request taking effect
/// only where the lifecycle allows it.
pub open spec fn escape_target(s: AppState) -> AppState {
    let mid = if valid_transition(s, AppState::ReturningToWork) {
        AppState::ReturningToWork
    } else {
        s
    };
    if valid_transition(mid, AppState::Idle) {
        AppState::Idle
    } else {
        mid
    }
}

impl StateMachine {
    /// The escape key: abandons the break by asking for the return to work
    /// and then for idle; a refused request leaves the state as it is.
    pub fn emergency_escape(&mut self)
        ensures
            final(self)@ == escape_target(old(self)@),
    {
        let _ = self.transition(AppState::ReturningToWork);
        let _ = self.transition(AppState::Idle);
    }
}

/// Escape always ends in idle, except from a scheduled break, which the
/// escape leaves scheduled.
pub proof fn lemma_escape_reaches_idle(s: AppState)
    ensures
        s != AppState::Scheduled ==> escape_target(s) == AppState::Idle,
        s == AppState::Scheduled ==> escape_target(s) == AppState::Scheduled,
{
}

impl Default for StateMachine {
    fn default() -> (sm: Self)
        ensures
            sm@ == AppState::Idle,
    {
        Self::new()
    }
}

} // verus!
