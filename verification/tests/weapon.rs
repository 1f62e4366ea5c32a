use timebreak::weapon::{FireMode, WeaponDefinition};

#[test]
fn lookup_by_id_and_short_name() {
    let a = WeaponDefinition::get_by_id("weapon_ak47").unwrap();
    let b = WeaponDefinition::get_by_id("ak47").unwrap();
    assert_eq!(a.id, "weapon_ak47");
    assert_eq!(b.display_name, "AK-47");
    assert_eq!(WeaponDefinition::get_by_id("usps").unwrap().id, "weapon_usp_silencer");
    assert_eq!(WeaponDefinition::get_by_id("m4a1_s").unwrap().magazine_size, 20);
    assert!(WeaponDefinition::get_by_id("weapon_negev").is_none());
    assert!(WeaponDefinition::get_by_id("").is_none());
}

#[test]
fn catalogue_order_and_round_trip() {
    let all = WeaponDefinition::all_initial();
    let ids: Vec<&str> = all.iter().map(|w| w.id.as_str()).collect();
    assert_eq!(
        ids,
        vec![
            "weapon_ak47",
            "weapon_m4a4",
            "weapon_m4a1_silencer",
            "weapon_awp",
            "weapon_deagle",
            "weapon_usp_silencer",
            "weapon_glock",
            "weapon_mp9",
            "weapon_mac10",
            "weapon_galilar"
        ]
    );
    for w in &all {
        let again = WeaponDefinition::get_by_id(&w.id).unwrap();
        assert_eq!(again.display_name, w.display_name);
        assert_eq!(w.cycle_time_ms, 60000 / w.rpm as u64);
        for (k, p) in w.recoil_pattern.iter().enumerate() {
            assert_eq!(p.shot_index, k);
        }
        assert!(w.inaccuracy_crouch_x100 < w.inaccuracy_stand_x100);
        assert!(w.inaccuracy_stand_x100 < w.inaccuracy_air_x100);
    }
}

#[test]
fn ak47_and_awp_profiles() {
    let ak = WeaponDefinition::ak47();
    assert_eq!(ak.fire_mode, FireMode::FullAuto);
    assert_eq!(ak.rpm, 600);
    assert_eq!(ak.recoil_pattern.len(), 30);
    assert_eq!(ak.inaccuracy_crouch_x100 as f32 / 100.0, 3.41);
    assert_eq!(ak.armor_ratio_x1000 as f32 / 1000.0, 1.55);
    assert_eq!(ak.recoil_pattern[3].dy_x100 as f32 / 100.0, -14.5);
    let deagle = WeaponDefinition::deagle();
    assert_eq!(deagle.armor_ratio_x1000, 1864);
    assert_eq!(deagle.armor_ratio_x1000 as f32 / 1000.0, 1.864);
    assert_eq!(deagle.damage_x100 as f32 / 100.0, 53.0);
    assert_eq!(deagle.rpm, 267);
    let awp = WeaponDefinition::awp();
    assert!(awp.scoped);
    assert_eq!(awp.zoom_fov_multiplier_x100, Some(35));
    assert_eq!(awp.fire_mode, FireMode::SemiAuto);
    assert_eq!(awp.recoil_pattern[0].dy_x100, -1500);
}
