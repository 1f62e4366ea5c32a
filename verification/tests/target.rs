use timebreak::player::{MotionReading, PlayerStance};
use timebreak::spawner::{SpawnTiming, TargetSpawner};
use timebreak::spread::{SpreadSimulator, StancePenalty};
use timebreak::target::{HitboxType, TargetBehaviour, TargetPose};

#[test]
fn layouts_test_the_head_first() {
    for pose in [
        TargetPose::Standing,
        TargetPose::Crouched,
        TargetPose::HeadOnly,
        TargetPose::HeadShoulder,
        TargetPose::HalfBodyLeft,
        TargetPose::HalfBodyRight,
    ] {
        let l = pose.hitbox_layout();
        assert_eq!(l[0].hitbox_type, HitboxType::Head);
        assert_eq!(l[0].damage_multiplier_x100, 400);
        assert_eq!(l.iter().filter(|h| h.hitbox_type == HitboxType::Head).count(), 1);
        for h in &l {
            assert!(h.rel_x_pct + h.width_pct <= 100);
            assert!(h.rel_y_pct + h.height_pct <= 100);
        }
    }
    assert_eq!(TargetPose::Standing.hitbox_layout().len(), 5);
    assert_eq!(TargetPose::Standing.hitbox_layout()[2].damage_multiplier_x100, 125);
    assert_eq!(TargetPose::Standing.height(), 140);
    assert_eq!(TargetPose::HeadOnly.height(), 35);
}

#[test]
fn behaviours_start_moving() {
    assert_eq!(TargetBehaviour::Strafe.initial_velocity(), (80, 0));
    assert_eq!(TargetBehaviour::PeekLeft.initial_velocity(), (-120, 0));
    assert_eq!(TargetBehaviour::PeekRight.initial_velocity(), (120, 0));
    assert_eq!(TargetBehaviour::Static.initial_velocity(), (0, 0));
}

#[test]
fn spawner_respects_interval_and_limit() {
    let mut s = TargetSpawner::new(SpawnTiming::default());
    assert_eq!(s.begin_spawn(1000, 0), None);
    assert_eq!(s.begin_spawn(1200, 0), Some(1));
    assert_eq!(s.last_spawn_ms(), 1200);
    assert_eq!(s.begin_spawn(2399, 0), None);
    assert_eq!(s.begin_spawn(2400, 3), None);
    assert_eq!(s.begin_spawn(2400, 2), Some(2));
    assert_eq!(s.target_counter(), 2);
    assert_eq!(s.timing().max_concurrent_targets, 3);
}

#[test]
fn rolls_pick_pose_and_behaviour() {
    assert_eq!(TargetSpawner::pose_for_roll(0), TargetPose::Standing);
    assert_eq!(TargetSpawner::pose_for_roll(49), TargetPose::Standing);
    assert_eq!(TargetSpawner::pose_for_roll(50), TargetPose::Crouched);
    assert_eq!(TargetSpawner::pose_for_roll(87), TargetPose::HeadShoulder);
    assert_eq!(TargetSpawner::pose_for_roll(88), TargetPose::HeadOnly);
    assert_eq!(TargetSpawner::behaviour_for_roll(54), TargetBehaviour::Static);
    assert_eq!(TargetSpawner::behaviour_for_roll(55), TargetBehaviour::Strafe);
    assert_eq!(TargetSpawner::behaviour_for_roll(99), TargetBehaviour::PopUp);
    let standing = (0..100).filter(|r| TargetSpawner::pose_for_roll(*r) == TargetPose::Standing).count();
    assert_eq!(standing, 50);
}

#[test]
fn stances_and_penalties() {
    assert_eq!(SpreadSimulator::stance_penalty(PlayerStance::Crouching), StancePenalty::Crouch);
    assert_eq!(SpreadSimulator::stance_penalty(PlayerStance::Jumping), StancePenalty::Air);
    assert_eq!(SpreadSimulator::stance_penalty(PlayerStance::Landing), StancePenalty::Landing);
    assert_eq!(SpreadSimulator::stance_penalty(PlayerStance::Running), StancePenalty::Stand);
    assert_eq!(PlayerStance::CounterStrafing.name(), "CounterStrafing");
    assert_eq!(PlayerStance::Airborne.name(), format!("{:?}", PlayerStance::Airborne));
}

#[test]
fn stance_settles_after_a_step() {
    let ground = MotionReading {
        is_airborne: false,
        is_crouching: false,
        braked_against_velocity: false,
        above_still_speed: true,
        below_still_speed: false,
        below_run_speed: true,
        landed_recently: false,
    };
    assert_eq!(PlayerStance::settle(&ground), PlayerStance::Walking);
    assert_eq!(PlayerStance::settle(&MotionReading { below_run_speed: false, ..ground }), PlayerStance::Running);
    assert_eq!(
        PlayerStance::settle(&MotionReading { above_still_speed: false, below_still_speed: true, ..ground }),
        PlayerStance::Standing
    );
    assert_eq!(PlayerStance::settle(&MotionReading { is_crouching: true, ..ground }), PlayerStance::Crouching);
    assert_eq!(
        PlayerStance::settle(&MotionReading { is_crouching: true, above_still_speed: false, ..ground }),
        PlayerStance::Crouched
    );
    assert_eq!(PlayerStance::settle(&MotionReading { landed_recently: true, ..ground }), PlayerStance::Landing);
    assert_eq!(
        PlayerStance::settle(&MotionReading { braked_against_velocity: true, ..ground }),
        PlayerStance::CounterStrafing
    );
    assert_eq!(
        PlayerStance::settle(&MotionReading { braked_against_velocity: true, is_crouching: true, ..ground }),
        PlayerStance::CounterStrafing
    );
    assert_eq!(
        PlayerStance::settle(&MotionReading { braked_against_velocity: true, landed_recently: true, ..ground }),
        PlayerStance::Landing
    );
    assert_eq!(
        PlayerStance::settle(&MotionReading { is_airborne: true, landed_recently: true, ..ground }),
        PlayerStance::Airborne
    );
}

#[test]
fn target_ids_are_numbered_in_decimal() {
    assert_eq!(TargetSpawner::target_id(0), "target_0");
    assert_eq!(TargetSpawner::target_id(1), "target_1");
    assert_eq!(TargetSpawner::target_id(42), "target_42");
    assert_eq!(TargetSpawner::target_id(u64::MAX), "target_18446744073709551615");
    assert_ne!(TargetSpawner::target_id(10), TargetSpawner::target_id(100));
}
