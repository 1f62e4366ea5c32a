use timebreak::metrics::MetricsCalculator;
use timebreak::telemetry::{DirectionBias, ShotOutcome};

fn shot(hit: bool, headshot: bool, ammo_before: u32, rt: Option<u32>, moving: bool) -> ShotOutcome {
    ShotOutcome { hit, headshot, ammo_before, reaction_time_ms: rt, moving, has_aim_error: true }
}

fn bias_from_means(mean_x: f32, mean_y: f32) -> DirectionBias {
    let tau = 8.0f32;
    MetricsCalculator::classify_direction_bias(mean_y < -tau, mean_y > tau, mean_x < -tau, mean_x > tau)
}

#[test]
fn test_synthetic_right_bias_detection() {
    let mut shots = Vec::new();
    let mut errors_x: Vec<f32> = Vec::new();
    let mut errors_y: Vec<f32> = Vec::new();
    for _ in 0..100 {
        shots.push(ShotOutcome {
            hit: true,
            headshot: false,
            ammo_before: 30,
            reaction_time_ms: Some(240),
            moving: 0.0f32 > 0.34 * 215.0,
            has_aim_error: true,
        });
        errors_x.push(20.0);
        errors_y.push(0.0);
    }
    let counts = MetricsCalculator::compute_session_metrics(
        "s1".to_string(),
        "weapon_ak47".to_string(),
        1000,
        11000,
        &shots,
    );
    assert_eq!(counts.aimed_shots, 100);
    let mean_x = errors_x.iter().sum::<f32>() / counts.aimed_shots as f32;
    let mean_y = errors_y.iter().sum::<f32>() / counts.aimed_shots as f32;
    assert_eq!(bias_from_means(mean_x, mean_y), DirectionBias::Right);
    assert!((mean_x - 20.0).abs() < 0.001);
    assert_eq!(counts.duration_seconds, 10);
    assert_eq!(counts.hits, 100);
    assert_eq!(counts.kills, 100);
}

#[test]
fn tally_counts_hits_kills_and_moving_shots() {
    let shots = vec![
        shot(true, true, 29, Some(300), false),
        shot(true, false, 27, None, true),
        shot(true, false, 28, Some(100), false),
        shot(false, false, 30, Some(500), true),
        shot(false, true, 26, None, false),
    ];
    let c = MetricsCalculator::compute_session_metrics("s".to_string(), "w".to_string(), 0, 2999, &shots);
    assert_eq!(c.shots_fired, 5);
    assert_eq!(c.hits, 3);
    assert_eq!(c.misses, 2);
    assert_eq!(c.headshots, 2);
    assert_eq!(c.kills, 3);
    assert_eq!(c.moving_shots, 2);
    assert_eq!(c.duration_seconds, 2);
    assert_eq!(c.reaction_times_ms, vec![100, 300, 500]);
    assert_eq!(c.median_reaction_time_x2, 600);
    assert_eq!(c.p90_reaction_time_ms, 500);
    assert_eq!(c.session_id, "s");
    assert_eq!(c.weapon_id, "w");
}

#[test]
fn empty_session_is_all_zero() {
    let c = MetricsCalculator::compute_session_metrics("e".to_string(), "w".to_string(), 5000, 5000, &[]);
    assert_eq!(c.shots_fired, 0);
    assert_eq!(c.hits, 0);
    assert_eq!(c.misses, 0);
    assert_eq!(c.median_reaction_time_x2, 0);
    assert_eq!(c.p90_reaction_time_ms, 0);
    assert!(c.reaction_times_ms.is_empty());
    assert_eq!(c.duration_seconds, 0);
}

#[test]
fn order_statistics_of_reaction_times() {
    let times = [900u32, 100, 800, 200, 700, 300, 600, 400, 500, 1000, 50];
    let shots: Vec<ShotOutcome> = times.iter().map(|&t| shot(false, false, 1, Some(t), false)).collect();
    let c = MetricsCalculator::compute_session_metrics("s".to_string(), "w".to_string(), 0, 0, &shots);
    assert_eq!(c.reaction_times_ms, vec![50, 100, 200, 300, 400, 500, 600, 700, 800, 900, 1000]);
    // eleven times: median at index 5, ninetieth percentile at index 9
    assert_eq!(c.median_reaction_time_x2, 1000);
    assert_eq!(c.p90_reaction_time_ms, 900);
    let mut sorted = times.to_vec();
    sorted.sort_by(|a, b| (*a as f32).partial_cmp(&(*b as f32)).unwrap());
    let idx = ((sorted.len() as f32 * 0.90).floor() as usize).min(sorted.len() - 1);
    assert_eq!(c.p90_reaction_time_ms, sorted[idx]);
    assert_eq!(c.median_reaction_time_x2 as f32 / 2.0, sorted[sorted.len() / 2] as f32);
}

#[test]
fn median_of_even_count_is_mean_of_middle_values() {
    let shots: Vec<ShotOutcome> = [40u32, 10, 30, 20].iter().map(|&t| shot(true, false, 2, Some(t), false)).collect();
    let c = MetricsCalculator::compute_session_metrics("s".to_string(), "w".to_string(), 0, 0, &shots);
    assert_eq!(c.median_reaction_time_x2, 50);
    assert_eq!(c.median_reaction_time_x2 as f32 / 2.0, 25.0);
    assert_eq!(c.p90_reaction_time_ms, 40);
    let odd: Vec<ShotOutcome> = [15u32, 10, 20].iter().map(|&t| shot(true, false, 2, Some(t), false)).collect();
    let c = MetricsCalculator::compute_session_metrics("s".to_string(), "w".to_string(), 0, 0, &odd);
    assert_eq!(c.median_reaction_time_x2, 30);
}

#[test]
fn tally_ignores_shot_order() {
    let shots = vec![
        shot(true, true, 29, Some(300), false),
        shot(true, false, 27, None, true),
        shot(false, false, 30, Some(500), true),
        shot(true, false, 28, Some(100), false),
    ];
    let mut reversed = shots.clone();
    reversed.reverse();
    let a = MetricsCalculator::compute_session_metrics("s".to_string(), "w".to_string(), 0, 1000, &shots);
    let b = MetricsCalculator::compute_session_metrics("s".to_string(), "w".to_string(), 0, 1000, &reversed);
    assert_eq!((a.hits, a.misses, a.headshots, a.kills, a.moving_shots), (b.hits, b.misses, b.headshots, b.kills, b.moving_shots));
    assert_eq!(a.reaction_times_ms, b.reaction_times_ms);
    assert_eq!(a.median_reaction_time_x2, b.median_reaction_time_x2);
    assert_eq!(a.p90_reaction_time_ms, b.p90_reaction_time_ms);
}

#[test]
fn bias_classification_table() {
    let cases = [
        ((true, false, true, false), DirectionBias::HighLeft),
        ((true, false, false, true), DirectionBias::HighRight),
        ((true, false, false, false), DirectionBias::High),
        ((false, true, true, false), DirectionBias::LowLeft),
        ((false, true, false, true), DirectionBias::LowRight),
        ((false, true, false, false), DirectionBias::Low),
        ((false, false, true, false), DirectionBias::Left),
        ((false, false, false, true), DirectionBias::Right),
        ((false, false, false, false), DirectionBias::Center),
        ((true, true, false, false), DirectionBias::Center),
        ((true, false, true, true), DirectionBias::Center),
    ];
    for ((h, l, le, r), expected) in cases {
        assert_eq!(MetricsCalculator::classify_direction_bias(h, l, le, r), expected);
    }
    assert_eq!(bias_from_means(-10.0, -12.0), DirectionBias::HighLeft);
    assert_eq!(bias_from_means(0.0, 9.0), DirectionBias::Low);
    assert_eq!(bias_from_means(8.0, -8.0), DirectionBias::Center);
}

#[test]
fn bias_names_round_trip() {
    for b in [DirectionBias::Center, DirectionBias::High, DirectionBias::Low, DirectionBias::Left, DirectionBias::Right, DirectionBias::HighLeft, DirectionBias::HighRight, DirectionBias::LowLeft, DirectionBias::LowRight] {
        assert_eq!(DirectionBias::from_name(b.name()), b);
        assert_eq!(b.name(), format!("{:?}", b));
    }
    assert_eq!(DirectionBias::from_name("sideways"), DirectionBias::Center);
}
