use timebreak::recommender::{CoachingSignals, RecommendationKind, Recommender};
use timebreak::telemetry::DirectionBias;

fn fresh_id() -> String {
    Recommender::new_advice_id().expect("the system random source is available")
}

fn signals(moving_pct: f32, bias: DirectionBias, avg_rt: f32, accuracy: f32) -> CoachingSignals {
    CoachingSignals {
        moving_shots_over_limit: moving_pct > 25.0,
        direction_bias: bias,
        slow_but_accurate: avg_rt > 450.0 && accuracy > 65.0,
    }
}

#[test]
fn test_counter_strafe_recommendation() {
    let s = signals(40.0, DirectionBias::Center, 300.0, 50.0);
    let kind = Recommender::select(&s);
    let rec = Recommender::build(kind, fresh_id(), "s_test".to_string(), String::new(), String::new());
    assert_eq!(rec.suggested_drill, "counter_strafe");
    assert_eq!(rec.session_id, "s_test");
}

#[test]
fn priority_of_advice() {
    assert_eq!(Recommender::select(&signals(30.0, DirectionBias::Low, 600.0, 90.0)), RecommendationKind::CounterStrafe);
    assert_eq!(Recommender::select(&signals(10.0, DirectionBias::LowLeft, 600.0, 90.0)), RecommendationKind::CrosshairPlacement);
    assert_eq!(Recommender::select(&signals(10.0, DirectionBias::HighRight, 600.0, 90.0)), RecommendationKind::SprayControl);
    assert_eq!(Recommender::select(&signals(10.0, DirectionBias::Left, 600.0, 90.0)), RecommendationKind::ReactionSpeed);
    assert_eq!(Recommender::select(&signals(10.0, DirectionBias::Right, 600.0, 50.0)), RecommendationKind::QuickBreak);
    assert_eq!(Recommender::select(&signals(25.0, DirectionBias::Center, 100.0, 100.0)), RecommendationKind::QuickBreak);
}

#[test]
fn advice_texts_and_durations() {
    let cases = [
        (RecommendationKind::CounterStrafe, "counter_strafe", 3u32),
        (RecommendationKind::CrosshairPlacement, "headshot", 3),
        (RecommendationKind::SprayControl, "spray_control", 4),
        (RecommendationKind::ReactionSpeed, "reaction", 3),
        (RecommendationKind::QuickBreak, "quick_break", 5),
    ];
    for (kind, drill, minutes) in cases {
        let r = Recommender::build(kind, fresh_id(), "s".to_string(), "obs".to_string(), "ev".to_string());
        assert_eq!(r.suggested_drill, drill);
        assert_eq!(r.suggested_duration_minutes, minutes);
        assert_eq!(r.observation, "obs");
        assert_eq!(r.evidence, "ev");
    }
    let r = Recommender::build(RecommendationKind::SprayControl, fresh_id(), "s".to_string(), String::new(), String::new());
    assert_eq!(r.title, "Otish paytida qaytish (recoil) kompensatsiyasi kam");
    assert_eq!(r.likely_cause, "Sprey paytida sichqonchani yetarli darajada pastga tortmaslik.");
}

#[test]
fn advice_ids_are_fresh_v4_uuids() {
    let a = Recommender::build(RecommendationKind::QuickBreak, fresh_id(), "s".to_string(), String::new(), String::new());
    let b = Recommender::build(RecommendationKind::QuickBreak, fresh_id(), "s".to_string(), String::new(), String::new());
    assert_ne!(a.id, b.id);
    let chars: Vec<char> = a.id.chars().collect();
    assert_eq!(chars.len(), 36);
    for (i, c) in chars.iter().enumerate() {
        if [8, 13, 18, 23].contains(&i) {
            assert_eq!(*c, '-');
        } else {
            assert!(c.is_ascii_hexdigit() && !c.is_ascii_uppercase());
        }
    }
    assert_eq!(chars[14], '4');
    assert!(['8', '9', 'a', 'b'].contains(&chars[19]));
}

#[test]
fn advice_keeps_the_id_it_is_given() {
    let r = Recommender::build(RecommendationKind::ReactionSpeed, "advice-1".to_string(), "s".to_string(), String::new(), String::new());
    assert_eq!(r.id, "advice-1");
    assert_eq!(r.suggested_drill, "reaction");
}

#[test]
fn advice_id_is_the_uuid_text_of_random_bytes() {
    let id = fresh_id();
    assert_eq!(id.len(), 36);
    let hex: String = id.chars().filter(|c| *c != '-').collect();
    assert_eq!(hex.len(), 32);
    assert!(hex.chars().all(|c| c.is_ascii_hexdigit() && !c.is_ascii_uppercase()));
    assert_eq!(hex.chars().nth(12), Some('4'));
}
