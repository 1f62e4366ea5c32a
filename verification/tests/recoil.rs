use timebreak::recoil::{RecoilState, RecoveryStep};
use timebreak::weapon::WeaponDefinition;

fn px(v: i32) -> f32 {
    v as f32 / 100.0
}

#[test]
fn test_ak47_recoil_progression_and_recovery() {
    let weapon = WeaponDefinition::ak47();
    let mut recoil = RecoilState::new();

    let (rx0, ry0) = recoil.advance_shot(&weapon, 1000);
    assert_eq!(px(rx0), 0.0);
    assert_eq!(px(ry0), 0.0);

    let (rx1, ry1) = recoil.advance_shot(&weapon, 1100);
    assert_eq!(px(rx1), 0.0);
    assert_eq!(px(ry1), -4.0);

    let (rx2, ry2) = recoil.advance_shot(&weapon, 1200);
    assert_eq!(px(rx2), 0.5);
    assert_eq!(px(ry2), -9.0);

    let step = recoil.update_recovery(&weapon, 1200 + 500, false);
    assert_eq!(recoil.shot_index, 0);
    assert_eq!(step, RecoveryStep::Recovered);
}

#[test]
fn full_ak47_spray_follows_the_pattern() {
    let weapon = WeaponDefinition::ak47();
    let mut recoil = RecoilState::default();
    for k in 0..35u64 {
        let (dx, dy) = recoil.advance_shot(&weapon, 1000 + k * 100);
        let p = weapon.recoil_pattern[(k as usize).min(29)];
        assert_eq!((dx, dy), (p.dx_x100, p.dy_x100));
    }
    assert_eq!(recoil.shot_index, 35);
    assert_eq!(recoil.last_shot_time_ms, 4400);
}

#[test]
fn recovery_decays_then_resets() {
    let weapon = WeaponDefinition::ak47();
    let mut recoil = RecoilState::new();
    assert_eq!(recoil.update_recovery(&weapon, 50, false), RecoveryStep::Idle);
    recoil.advance_shot(&weapon, 1000);
    recoil.advance_shot(&weapon, 1100);
    assert_eq!(
        recoil.update_recovery(&weapon, 1300, false),
        RecoveryStep::Decaying { elapsed_ms: 200, recovery_time_ms: 380 }
    );
    assert_eq!(recoil.shot_index, 2);
    // crouching recovers in 300 ms
    assert_eq!(recoil.update_recovery(&weapon, 1400, true), RecoveryStep::Recovered);
    assert_eq!(recoil.shot_index, 0);
    let (_, dy) = recoil.advance_shot(&weapon, 1500);
    assert_eq!(dy, 0);
}

#[test]
fn clock_behind_last_shot_counts_as_no_time() {
    let weapon = WeaponDefinition::deagle();
    let mut recoil = RecoilState::new();
    recoil.advance_shot(&weapon, 5000);
    assert_eq!(
        recoil.update_recovery(&weapon, 4000, false),
        RecoveryStep::Decaying { elapsed_ms: 0, recovery_time_ms: 800 }
    );
}
