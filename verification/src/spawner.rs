//! The spawn schedule: when a new target may appear, how it is numbered,
//! and which pose and behaviour a random roll in 0..100 gives it.
use vstd::prelude::*;
use crate::target::{TargetBehaviour, TargetPose};

verus! {

/// The integer settings of the spawner: target lifetimes, the interval
/// between spawns and the number of targets allowed at once.
#[derive(Debug, Clone, Copy, PartialEq, Eq, Structural)]
pub struct SpawnTiming {
    pub min_lifetime_ms: u64,
    pub max_lifetime_ms: u64,
    pub spawn_interval_ms: u64,
    pub max_concurrent_targets: usize,
}

impl Default for SpawnTiming {
    fn default() -> (t: Self)
        ensures
            t.min_lifetime_ms == 1800,
            t.max_lifetime_ms == 3200,
            t.spawn_interval_ms == 1200,
            t.max_concurrent_targets == 3,
    {
        SpawnTiming {
            min_lifetime_ms: 1800,
            max_lifetime_ms: 3200,
            spawn_interval_ms: 1200,
            max_concurrent_targets: 3,
        }
    }
}

/// What a spawner holds: its timing, the time of its last spawn and the
/// number of targets it has spawned.
pub struct SpawnerView {
    pub timing: SpawnTiming,
    pub last_spawn_ms: u64,
    pub target_counter: u64,
}

pub struct TargetSpawner {
    timing: SpawnTiming,
    last_spawn_ms: u64,
    target_counter: u64,
}

impl View for TargetSpawner {
    type V = SpawnerView;

    closed spec fn view(&self) -> SpawnerView {
        SpawnerView {
            timing: self.timing,
            last_spawn_ms: self.last_spawn_ms,
            target_counter: self.target_counter,
        }
    }
}

/// Whether a spawner in state `s` spawns at `now` with `active` targets alive.
pub open spec fn spawn_due(s: SpawnerView, now: u64, active: usize) -> bool {
    active < s.timing.max_concurrent_targets && now >= s.last_spawn_ms + s.timing.spawn_interval_ms
}

/// The pose a roll in 0..100 gives: standing for 0..50, crouched for
/// 50..75, head and shoulders for 75..88, the head alone above.
pub open spec fn pose_of_roll(roll: u32) -> TargetPose {
    if roll < 50 {
        TargetPose::Standing
    } else if roll < 75 {
        TargetPose::Crouched
    } else if roll < 88 {
        TargetPose::HeadShoulder
    } else {
        TargetPose::HeadOnly
    }
}

/// The behaviour a roll in 0..100 gives: static for 0..55, strafing for
/// 55..80, popping up above.
pub open spec fn behaviour_of_roll(roll: u32) -> TargetBehaviour {
    if roll < 55 {
        TargetBehaviour::Static
    } else if roll < 80 {
        TargetBehaviour::Strafe
    } else {
        TargetBehaviour::PopUp
    }
}

/// The decimal digit character of a value below ten.
pub open spec fn digit_char(d: nat) -> char {
    seq!['0', '1', '2', '3', '4', '5', '6', '7', '8', '9'][d as int]
}

/// The decimal text of `n`, without leading zeros.
pub open spec fn decimal(n: nat) -> Seq<char>
    decreases n,
{
    if n < 10 {
        seq![digit_char(n)]
    } else {
        decimal(n / 10).push(digit_char(n % 10))
    }
}

/// The id of the target with number `n`.
pub open spec fn target_id_text(n: u64) -> Seq<char> {
    "target_"@ + decimal(n as nat)
}

/// The one-character text of a decimal digit.
fn digit_str(d: u64) -> (s: &'static str)
    requires
        d < 10,
    ensures
        s@ == seq![digit_char(d as nat)],
{
    proof {
        reveal_strlit("0");
        reveal_strlit("1");
        reveal_strlit("2");
        reveal_strlit("3");
        reveal_strlit("4");
        reveal_strlit("5");
        reveal_strlit("6");
        reveal_strlit("7");
        reveal_strlit("8");
        reveal_strlit("9");
    }
    let s = match d {
        0 => "0",
        1 => "1",
        2 => "2",
        3 => "3",
        4 => "4",
        5 => "5",
        6 => "6",
        7 => "7",
        8 => "8",
        _ => "9",
    };
    assert(s@ =~= seq![digit_char(d as nat)]);
    s
}

/// Appends the decimal text of `n`.
fn append_decimal(s: &mut String, n: u64)
    ensures
        final(s)@ == old(s)@ + decimal(n as nat),
    decreases n,
{
    if n >= 10 {
        append_decimal(s, n / 10);
    }
    let ghost before = s@;
    s.append(digit_str(n % 10));
    proof {
        if n >= 10 {
            assert(s@ =~= old(s)@ + decimal(n as nat));
        } else {
            assert(s@ =~= old(s)@ + decimal(n as nat));
        }
    }
}

impl TargetSpawner {
    /// The id of the target with number `counter`: `target_` followed by
    /// the number in decimal.
    pub fn target_id(counter: u64) -> (id: String)
        ensures
            id@ == target_id_text(counter),
    {
        let mut id = String::from_str("target_");
        append_decimal(&mut id, counter);
        id
    }

    /// A spawner that has not spawned yet.
    pub fn new(timing: SpawnTiming) -> (s: Self)
        ensures
            s@.timing == timing,
            s@.last_spawn_ms == 0,
            s@.target_counter == 0,
    {
        TargetSpawner { timing, last_spawn_ms: 0, target_counter: 0 }
    }

    pub fn timing(&self) -> (t: SpawnTiming)
        ensures
            t == self@.timing,
    {
        self.timing
    }

    pub fn last_spawn_ms(&self) -> (t: u64)
        ensures
            t == self@.last_spawn_ms,
    {
        self.last_spawn_ms
    }

    pub fn target_counter(&self) -> (n: u64)
        ensures
            n == self@.target_counter,
    {
        self.target_counter
    }

    /// Decides whether a target spawns at `current_time_ms` while
    /// `active_target_count` targets are alive: not when the limit is
    /// reached, not before the interval has passed since the last spawn.
    /// A spawn records the time and returns the new target's number.
    pub fn begin_spawn(&mut self, current_time_ms: u64, active_target_count: usize) -> (r: Option<u64>)
        requires
            active_target_count < old(self)@.timing.max_concurrent_targets ==> old(self)@.last_spawn_ms
                + old(self)@.timing.spawn_interval_ms <= u64::MAX,
            spawn_due(old(self)@, current_time_ms, active_target_count) ==> old(self)@.target_counter
                < u64::MAX,
        ensures
            r is Some <==> spawn_due(old(self)@, current_time_ms, active_target_count),
            r is Some ==> {
                &&& r == Some((old(self)@.target_counter + 1) as u64)
                &&& final(self)@.timing == old(self)@.timing
                &&& final(self)@.last_spawn_ms == current_time_ms
                &&& final(self)@.target_counter == old(self)@.target_counter + 1
            },
            r is None ==> final(self)@ == old(self)@,
    {
        if active_target_count >= self.timing.max_concurrent_targets {
            return None;
        }
        if current_time_ms < self.last_spawn_ms + self.timing.spawn_interval_ms {
            return None;
        }
        self.last_spawn_ms = current_time_ms;
        self.target_counter = self.target_counter + 1;
        Some(self.target_counter)
    }

    /// The pose a roll in 0..100 gives.
    pub fn pose_for_roll(roll: u32) -> (p: TargetPose)
        ensures
            p == pose_of_roll(roll),
    {
        if roll < 50 {
            TargetPose::Standing
        } else if roll < 75 {
            TargetPose::Crouched
        } else if roll < 88 {
            TargetPose::HeadShoulder
        } else {
            TargetPose::HeadOnly
        }
    }

    /// The behaviour a roll in 0..100 gives.
    pub fn behaviour_for_roll(roll: u32) -> (b: TargetBehaviour)
        ensures
            b == behaviour_of_roll(roll),
    {
        if roll < 55 {
            TargetBehaviour::Static
        } else if roll < 80 {
            TargetBehaviour::Strafe
        } else {
            TargetBehaviour::PopUp
        }
    }
}

/// Spawns are spaced: after a spawn at `t`, nothing spawns before
/// `t` plus the interval.
pub proof fn lemma_spawns_spaced(s: SpawnerView, t: u64, later: u64, active: usize)
    requires
        later < t + s.timing.spawn_interval_ms,
    ensures
        !spawn_due(SpawnerView { timing: s.timing, last_spawn_ms: t, target_counter: (s.target_counter + 1) as u64 }, later, active),
{
}

/// The limit on live targets is never exceeded.
pub proof fn lemma_spawn_respects_limit(s: SpawnerView, now: u64, active: usize)
    requires
        spawn_due(s, now, active),
    ensures
        active + 1 <= s.timing.max_concurrent_targets,
{
}

proof fn lemma_decimal_len(n: nat)
    ensures
        decimal(n).len() >= 1,
        n >= 10 ==> decimal(n).len() >= 2,
    decreases n,
{
    if n >= 10 {
        lemma_decimal_len(n / 10);
    }
}

proof fn lemma_digit_char_injective(a: nat, b: nat)
    requires
        a < 10,
        b < 10,
        digit_char(a) == digit_char(b),
    ensures
        a == b,
{
    let t = seq!['0', '1', '2', '3', '4', '5', '6', '7', '8', '9'];
    assert(t[0] == '0' && t[1] == '1' && t[2] == '2' && t[3] == '3' && t[4] == '4');
    assert(t[5] == '5' && t[6] == '6' && t[7] == '7' && t[8] == '8' && t[9] == '9');
}

/// Different numbers have different decimal texts.
pub proof fn lemma_decimal_injective(n: nat, m: nat)
    requires
        decimal(n) == decimal(m),
    ensures
        n == m,
    decreases n,
{
    lemma_decimal_len(n);
    lemma_decimal_len(m);
    if n < 10 && m < 10 {
        assert(decimal(n) == seq![digit_char(n)]);
        assert(decimal(m) == seq![digit_char(m)]);
        assert(decimal(n)[0] == digit_char(n));
        assert(decimal(m)[0] == digit_char(m));
        lemma_digit_char_injective(n, m);
    } else if n >= 10 && m >= 10 {
        assert(decimal(n).drop_last() =~= decimal(n / 10));
        assert(decimal(m).drop_last() =~= decimal(m / 10));
        lemma_decimal_injective(n / 10, m / 10);
        assert(decimal(n) == decimal(n / 10).push(digit_char(n % 10)));
        assert(decimal(m) == decimal(m / 10).push(digit_char(m % 10)));
        assert(decimal(n).last() == digit_char(n % 10));
        assert(decimal(m).last() == digit_char(m % 10));
        lemma_digit_char_injective(n % 10, m % 10);
    } else {
        assert(decimal(n).len() != decimal(m).len());
    }
}

/// Target ids are never reused: targets with different numbers get
/// different ids.
pub proof fn lemma_target_ids_distinct(a: u64, b: u64)
    requires
        a != b,
    ensures
        target_id_text(a) != target_id_text(b),
{
    if target_id_text(a) == target_id_text(b) {
        reveal_strlit("target_");
        let p = "target_"@;
        assert(target_id_text(a).skip(p.len() as int) =~= decimal(a as nat));
        assert(target_id_text(b).skip(p.len() as int) =~= decimal(b as nat));
        lemma_decimal_injective(a as nat, b as nat);
    }
}

} // verus!
