//! The weapon catalogue. Real-valued quantities are held exactly in
//! hundredths (a field ending in `_x100` of 420 means 4.20), the armour
//! ratio in thousandths (`_x1000`, twice the armour penetration); recoil
//! offsets are in hundredths of a virtual pixel, negative y pulling upwards.
use vstd::prelude::*;
use crate::telemetry::same_text;

verus! {

#[derive(Debug, Clone, Copy, PartialEq, Eq, Structural)]
pub enum FireMode {
    SemiAuto,
    FullAuto,
    Burst,
}

/// The muzzle offset applied to one shot of a spray.
#[derive(Debug, Clone, Copy, PartialEq, Eq, Structural)]
pub struct RecoilPoint {
    pub shot_index: usize,
    pub dx_x100: i32,
    pub dy_x100: i32,
}

/// A weapon profile.
#[derive(Debug, Clone)]
pub struct WeaponDefinition {
    pub id: String,
    pub display_name: String,
    pub category: String,
    pub fire_mode: FireMode,
    pub cycle_time_ms: u64,
    pub rpm: u32,
    pub magazine_size: u32,
    pub reload_time_ms: u64,
    pub damage_x100: u32,
    pub headshot_multiplier_x100: u32,
    pub armor_ratio_x1000: u32,
    pub max_player_speed_x100: u32,
    pub base_spread_x100: u32,
    pub inaccuracy_stand_x100: u32,
    pub inaccuracy_crouch_x100: u32,
    pub inaccuracy_move_x100: u32,
    pub inaccuracy_jump_x100: u32,
    pub inaccuracy_air_x100: u32,
    pub recovery_time_stand_ms: u64,
    pub recovery_time_crouch_ms: u64,
    pub recoil_magnitude_x100: u32,
    pub recoil_pattern: Vec<RecoilPoint>,
    pub scoped: bool,
    pub zoom_fov_multiplier_x100: Option<u32>,
    pub source_version: String,
    pub source_status: String,
}

/// The mathematical content of a weapon profile: its texts as character
/// sequences and its spray pattern as a sequence.
pub struct WeaponView {
    pub id: Seq<char>,
    pub display_name: Seq<char>,
    pub category: Seq<char>,
    pub fire_mode: FireMode,
    pub cycle_time_ms: u64,
    pub rpm: u32,
    pub magazine_size: u32,
    pub reload_time_ms: u64,
    pub damage_x100: u32,
    pub headshot_multiplier_x100: u32,
    pub armor_ratio_x1000: u32,
    pub max_player_speed_x100: u32,
    pub base_spread_x100: u32,
    pub inaccuracy_stand_x100: u32,
    pub inaccuracy_crouch_x100: u32,
    pub inaccuracy_move_x100: u32,
    pub inaccuracy_jump_x100: u32,
    pub inaccuracy_air_x100: u32,
    pub recovery_time_stand_ms: u64,
    pub recovery_time_crouch_ms: u64,
    pub recoil_magnitude_x100: u32,
    pub recoil_pattern: Seq<RecoilPoint>,
    pub scoped: bool,
    pub zoom_fov_multiplier_x100: Option<u32>,
    pub source_version: Seq<char>,
    pub source_status: Seq<char>,
}

/// A recoil step given by its index and offsets in hundredths.
pub open spec fn point(shot_index: usize, dx: int, dy: int) -> RecoilPoint {
    RecoilPoint { shot_index, dx_x100: dx as i32, dy_x100: dy as i32 }
}

impl View for WeaponDefinition {
    type V = WeaponView;

    open spec fn view(&self) -> WeaponView {
        WeaponView {
            id: self.id@,
            display_name: self.display_name@,
            category: self.category@,
            fire_mode: self.fire_mode,
            cycle_time_ms: self.cycle_time_ms,
            rpm: self.rpm,
            magazine_size: self.magazine_size,
            reload_time_ms: self.reload_time_ms,
            damage_x100: self.damage_x100,
            headshot_multiplier_x100: self.headshot_multiplier_x100,
            armor_ratio_x1000: self.armor_ratio_x1000,
            max_player_speed_x100: self.max_player_speed_x100,
            base_spread_x100: self.base_spread_x100,
            inaccuracy_stand_x100: self.inaccuracy_stand_x100,
            inaccuracy_crouch_x100: self.inaccuracy_crouch_x100,
            inaccuracy_move_x100: self.inaccuracy_move_x100,
            inaccuracy_jump_x100: self.inaccuracy_jump_x100,
            inaccuracy_air_x100: self.inaccuracy_air_x100,
            recovery_time_stand_ms: self.recovery_time_stand_ms,
            recovery_time_crouch_ms: self.recovery_time_crouch_ms,
            recoil_magnitude_x100: self.recoil_magnitude_x100,
            recoil_pattern: self.recoil_pattern@,
            scoped: self.scoped,
            zoom_fov_multiplier_x100: self.zoom_fov_multiplier_x100,
            source_version: self.source_version@,
            source_status: self.source_status@,
        }
    }
}

/// The AK-47 profile.
pub open spec fn ak47_view() -> WeaponView {
    WeaponView {
        id: "weapon_ak47"@,
        display_name: "AK-47"@,
        category: "Rifle"@,
        fire_mode: FireMode::FullAuto,
        cycle_time_ms: 100,
        rpm: 600,
        magazine_size: 30,
        reload_time_ms: 2433,
        damage_x100: 3600,
        headshot_multiplier_x100: 400,
        armor_ratio_x1000: 1550,
        max_player_speed_x100: 21500,
        base_spread_x100: 60,
        inaccuracy_stand_x100: 420,
        inaccuracy_crouch_x100: 341,
        inaccuracy_move_x100: 17500,
        inaccuracy_jump_x100: 18000,
        inaccuracy_air_x100: 21000,
        recovery_time_stand_ms: 380,
        recovery_time_crouch_ms: 300,
        recoil_magnitude_x100: 3000,
        recoil_pattern: seq![
            point(0, 0, 0),
            point(1, 0, -400),
            point(2, 50, -900),
            point(3, 20, -1450),
            point(4, -80, -2000),
            point(5, -250, -2400),
            point(6, -400, -2650),
            point(7, -480, -2750),
            point(8, -350, -2700),
            point(9, -100, -2700),
            point(10, 200, -2650),
            point(11, 420, -2600),
            point(12, 550, -2550),
            point(13, 580, -2500),
            point(14, 480, -2500),
            point(15, 250, -2550),
            point(16, -100, -2600),
            point(17, -380, -2650),
            point(18, -550, -2700),
            point(19, -600, -2700),
            point(20, -500, -2700),
            point(21, -300, -2650),
            point(22, 0, -2600),
            point(23, 350, -2550),
            point(24, 550, -2500),
            point(25, 600, -2500),
            point(26, 500, -2500),
            point(27, 300, -2550),
            point(28, 0, -2600),
            point(29, -200, -2600),
        ],
        scoped: false,
        zoom_fov_multiplier_x100: None,
        source_version: "CS2-2024.1"@,
        source_status: "verified"@,
    }
}

/// The M4A4 profile.
pub open spec fn m4a4_view() -> WeaponView {
    WeaponView {
        id: "weapon_m4a4"@,
        display_name: "M4A4"@,
        category: "Rifle"@,
        fire_mode: FireMode::FullAuto,
        cycle_time_ms: 90,
        rpm: 666,
        magazine_size: 30,
        reload_time_ms: 3100,
        damage_x100: 3300,
        headshot_multiplier_x100: 400,
        armor_ratio_x1000: 1400,
        max_player_speed_x100: 22500,
        base_spread_x100: 60,
        inaccuracy_stand_x100: 360,
        inaccuracy_crouch_x100: 290,
        inaccuracy_move_x100: 14000,
        inaccuracy_jump_x100: 16000,
        inaccuracy_air_x100: 18500,
        recovery_time_stand_ms: 340,
        recovery_time_crouch_ms: 270,
        recoil_magnitude_x100: 2700,
        recoil_pattern: seq![
            point(0, 0, 0),
            point(1, 0, -350),
            point(2, 30, -750),
            point(3, 0, -1200),
            point(4, -50, -1650),
            point(5, -150, -2000),
            point(6, -250, -2200),
            point(7, -300, -2300),
            point(8, -200, -2300),
            point(9, 0, -2250),
            point(10, 200, -2200),
            point(11, 350, -2150),
            point(12, 420, -2100),
            point(13, 380, -2100),
            point(14, 200, -2150),
        ],
        scoped: false,
        zoom_fov_multiplier_x100: None,
        source_version: "CS2-2024.1"@,
        source_status: "verified"@,
    }
}

/// The M4A1-S profile.
pub open spec fn m4a1_s_view() -> WeaponView {
    WeaponView {
        id: "weapon_m4a1_silencer"@,
        display_name: "M4A1-S"@,
        category: "Rifle"@,
        fire_mode: FireMode::FullAuto,
        cycle_time_ms: 100,
        rpm: 600,
        magazine_size: 20,
        reload_time_ms: 3100,
        damage_x100: 3800,
        headshot_multiplier_x100: 400,
        armor_ratio_x1000: 1400,
        max_player_speed_x100: 22500,
        base_spread_x100: 50,
        inaccuracy_stand_x100: 330,
        inaccuracy_crouch_x100: 260,
        inaccuracy_move_x100: 12500,
        inaccuracy_jump_x100: 15000,
        inaccuracy_air_x100: 17500,
        recovery_time_stand_ms: 310,
        recovery_time_crouch_ms: 250,
        recoil_magnitude_x100: 2300,
        recoil_pattern: seq![
            point(0, 0, 0),
            point(1, 0, -300),
            point(2, 20, -650),
            point(3, -10, -1050),
            point(4, -80, -1400),
            point(5, -180, -1700),
            point(6, -250, -1850),
            point(7, -220, -1900),
            point(8, -50, -1900),
            point(9, 150, -1850),
        ],
        scoped: false,
        zoom_fov_multiplier_x100: None,
        source_version: "CS2-2024.1"@,
        source_status: "verified"@,
    }
}

/// The AWP profile.
pub open spec fn awp_view() -> WeaponView {
    WeaponView {
        id: "weapon_awp"@,
        display_name: "AWP"@,
        category: "Sniper"@,
        fire_mode: FireMode::SemiAuto,
        cycle_time_ms: 1463,
        rpm: 41,
        magazine_size: 5,
        reload_time_ms: 3667,
        damage_x100: 11500,
        headshot_multiplier_x100: 400,
        armor_ratio_x1000: 1950,
        max_player_speed_x100: 20000,
        base_spread_x100: 20,
        inaccuracy_stand_x100: 110,
        inaccuracy_crouch_x100: 80,
        inaccuracy_move_x100: 35000,
        inaccuracy_jump_x100: 40000,
        inaccuracy_air_x100: 45000,
        recovery_time_stand_ms: 1200,
        recovery_time_crouch_ms: 900,
        recoil_magnitude_x100: 8000,
        recoil_pattern: seq![
            point(0, 0, -1500),
        ],
        scoped: true,
        zoom_fov_multiplier_x100: Some(35u32),
        source_version: "CS2-2024.1"@,
        source_status: "verified"@,
    }
}

/// The Desert Eagle profile.
pub open spec fn deagle_view() -> WeaponView {
    WeaponView {
        id: "weapon_deagle"@,
        display_name: "Desert Eagle"@,
        category: "Pistol"@,
        fire_mode: FireMode::SemiAuto,
        cycle_time_ms: 224,
        rpm: 267,
        magazine_size: 7,
        reload_time_ms: 2200,
        damage_x100: 5300,
        headshot_multiplier_x100: 400,
        armor_ratio_x1000: 1864,
        max_player_speed_x100: 23000,
        base_spread_x100: 160,
        inaccuracy_stand_x100: 620,
        inaccuracy_crouch_x100: 450,
        inaccuracy_move_x100: 11000,
        inaccuracy_jump_x100: 15000,
        inaccuracy_air_x100: 19000,
        recovery_time_stand_ms: 800,
        recovery_time_crouch_ms: 600,
        recoil_magnitude_x100: 5200,
        recoil_pattern: seq![
            point(0, 0, -1200),
        ],
        scoped: false,
        zoom_fov_multiplier_x100: None,
        source_version: "CS2-2024.1"@,
        source_status: "verified"@,
    }
}

/// The USP-S profile.
pub open spec fn usps_view() -> WeaponView {
    WeaponView {
        id: "weapon_usp_silencer"@,
        display_name: "USP-S"@,
        category: "Pistol"@,
        fire_mode: FireMode::SemiAuto,
        cycle_time_ms: 170,
        rpm: 352,
        magazine_size: 12,
        reload_time_ms: 2200,
        damage_x100: 3500,
        headshot_multiplier_x100: 400,
        armor_ratio_x1000: 1010,
        max_player_speed_x100: 24000,
        base_spread_x100: 140,
        inaccuracy_stand_x100: 490,
        inaccuracy_crouch_x100: 380,
        inaccuracy_move_x100: 8500,
        inaccuracy_jump_x100: 11000,
        inaccuracy_air_x100: 14000,
        recovery_time_stand_ms: 450,
        recovery_time_crouch_ms: 350,
        recoil_magnitude_x100: 1800,
        recoil_pattern: seq![
            point(0, 0, -500),
        ],
        scoped: false,
        zoom_fov_multiplier_x100: None,
        source_version: "CS2-2024.1"@,
        source_status: "verified"@,
    }
}

/// The Glock-18 profile.
pub open spec fn glock_view() -> WeaponView {
    WeaponView {
        id: "weapon_glock"@,
        display_name: "Glock-18"@,
        category: "Pistol"@,
        fire_mode: FireMode::SemiAuto,
        cycle_time_ms: 150,
        rpm: 400,
        magazine_size: 20,
        reload_time_ms: 2200,
        damage_x100: 3000,
        headshot_multiplier_x100: 400,
        armor_ratio_x1000: 940,
        max_player_speed_x100: 24000,
        base_spread_x100: 180,
        inaccuracy_stand_x100: 760,
        inaccuracy_crouch_x100: 590,
        inaccuracy_move_x100: 9500,
        inaccuracy_jump_x100: 12000,
        inaccuracy_air_x100: 15000,
        recovery_time_stand_ms: 400,
        recovery_time_crouch_ms: 320,
        recoil_magnitude_x100: 1900,
        recoil_pattern: seq![
            point(0, 0, -500),
        ],
        scoped: false,
        zoom_fov_multiplier_x100: None,
        source_version: "CS2-2024.1"@,
        source_status: "verified"@,
    }
}

/// The MP9 profile.
pub open spec fn mp9_view() -> WeaponView {
    WeaponView {
        id: "weapon_mp9"@,
        display_name: "MP9"@,
        category: "SMG"@,
        fire_mode: FireMode::FullAuto,
        cycle_time_ms: 70,
        rpm: 857,
        magazine_size: 30,
        reload_time_ms: 2100,
        damage_x100: 2600,
        headshot_multiplier_x100: 400,
        armor_ratio_x1000: 1200,
        max_player_speed_x100: 24000,
        base_spread_x100: 150,
        inaccuracy_stand_x100: 780,
        inaccuracy_crouch_x100: 620,
        inaccuracy_move_x100: 8000,
        inaccuracy_jump_x100: 10500,
        inaccuracy_air_x100: 13000,
        recovery_time_stand_ms: 280,
        recovery_time_crouch_ms: 220,
        recoil_magnitude_x100: 2200,
        recoil_pattern: seq![
            point(0, 0, 0),
            point(1, -20, -300),
            point(2, 30, -650),
            point(3, 120, -1000),
            point(4, 200, -1300),
        ],
        scoped: false,
        zoom_fov_multiplier_x100: None,
        source_version: "CS2-2024.1"@,
        source_status: "verified"@,
    }
}

/// The MAC-10 profile.
pub open spec fn mac10_view() -> WeaponView {
    WeaponView {
        id: "weapon_mac10"@,
        display_name: "MAC-10"@,
        category: "SMG"@,
        fire_mode: FireMode::FullAuto,
        cycle_time_ms: 75,
        rpm: 800,
        magazine_size: 30,
        reload_time_ms: 2567,
        damage_x100: 2900,
        headshot_multiplier_x100: 400,
        armor_ratio_x1000: 1150,
        max_player_speed_x100: 24000,
        base_spread_x100: 170,
        inaccuracy_stand_x100: 890,
        inaccuracy_crouch_x100: 710,
        inaccuracy_move_x100: 7500,
        inaccuracy_jump_x100: 10000,
        inaccuracy_air_x100: 12500,
        recovery_time_stand_ms: 290,
        recovery_time_crouch_ms: 230,
        recoil_magnitude_x100: 2400,
        recoil_pattern: seq![
            point(0, 0, 0),
            point(1, 10, -320),
            point(2, -40, -700),
            point(3, -150, -1100),
        ],
        scoped: false,
        zoom_fov_multiplier_x100: None,
        source_version: "CS2-2024.1"@,
        source_status: "verified"@,
    }
}

/// The Galil AR profile.
pub open spec fn galilar_view() -> WeaponView {
    WeaponView {
        id: "weapon_galilar"@,
        display_name: "Galil AR"@,
        category: "Rifle"@,
        fire_mode: FireMode::FullAuto,
        cycle_time_ms: 90,
        rpm: 666,
        magazine_size: 35,
        reload_time_ms: 3000,
        damage_x100: 3000,
        headshot_multiplier_x100: 400,
        armor_ratio_x1000: 1550,
        max_player_speed_x100: 21500,
        base_spread_x100: 90,
        inaccuracy_stand_x100: 580,
        inaccuracy_crouch_x100: 460,
        inaccuracy_move_x100: 16000,
        inaccuracy_jump_x100: 17500,
        inaccuracy_air_x100: 20000,
        recovery_time_stand_ms: 360,
        recovery_time_crouch_ms: 290,
        recoil_magnitude_x100: 2900,
        recoil_pattern: seq![
            point(0, 0, 0),
            point(1, 0, -380),
            point(2, 40, -800),
            point(3, 20, -1300),
        ],
        scoped: false,
        zoom_fov_multiplier_x100: None,
        source_version: "CS2-2024.1"@,
        source_status: "verified"@,
    }
}

/// The ten profiles in catalogue order.
pub open spec fn catalog() -> Seq<WeaponView> {
    seq![ak47_view(), m4a4_view(), m4a1_s_view(), awp_view(), deagle_view(), usps_view(), glock_view(), mp9_view(), mac10_view(), galilar_view()]
}

/// The profile a weapon id or short name selects, if any.
pub open spec fn catalog_lookup(id: Seq<char>) -> Option<WeaponView> {
    if id == "weapon_ak47"@ || id == "ak47"@ {
        Some(ak47_view())
    } else if id == "weapon_m4a4"@ || id == "m4a4"@ {
        Some(m4a4_view())
    } else if id == "weapon_m4a1_silencer"@ || id == "m4a1_s"@ {
        Some(m4a1_s_view())
    } else if id == "weapon_awp"@ || id == "awp"@ {
        Some(awp_view())
    } else if id == "weapon_deagle"@ || id == "deagle"@ {
        Some(deagle_view())
    } else if id == "weapon_usp_silencer"@ || id == "usps"@ {
        Some(usps_view())
    } else if id == "weapon_glock"@ || id == "glock"@ {
        Some(glock_view())
    } else if id == "weapon_mp9"@ || id == "mp9"@ {
        Some(mp9_view())
    } else if id == "weapon_mac10"@ || id == "mac10"@ {
        Some(mac10_view())
    } else if id == "weapon_galilar"@ || id == "galilar"@ {
        Some(galilar_view())
    } else {
        None
    }
}

impl WeaponDefinition {
    /// The AK-47 profile.
    pub fn ak47() -> (w: Self)
        ensures
            w@ == ak47_view(),
    {
        let w = WeaponDefinition {
            id: "weapon_ak47".to_owned(),
            display_name: "AK-47".to_owned(),
            category: "Rifle".to_owned(),
            fire_mode: FireMode::FullAuto,
            cycle_time_ms: 100,
            rpm: 600,
            magazine_size: 30,
            reload_time_ms: 2433,
            damage_x100: 3600,
            headshot_multiplier_x100: 400,
            armor_ratio_x1000: 1550,
            max_player_speed_x100: 21500,
            base_spread_x100: 60,
            inaccuracy_stand_x100: 420,
            inaccuracy_crouch_x100: 341,
            inaccuracy_move_x100: 17500,
            inaccuracy_jump_x100: 18000,
            inaccuracy_air_x100: 21000,
            recovery_time_stand_ms: 380,
            recovery_time_crouch_ms: 300,
            recoil_magnitude_x100: 3000,
            recoil_pattern: vec![
                RecoilPoint { shot_index: 0, dx_x100: 0, dy_x100: 0 },
                RecoilPoint { shot_index: 1, dx_x100: 0, dy_x100: -400 },
                RecoilPoint { shot_index: 2, dx_x100: 50, dy_x100: -900 },
                RecoilPoint { shot_index: 3, dx_x100: 20, dy_x100: -1450 },
                RecoilPoint { shot_index: 4, dx_x100: -80, dy_x100: -2000 },
                RecoilPoint { shot_index: 5, dx_x100: -250, dy_x100: -2400 },
                RecoilPoint { shot_index: 6, dx_x100: -400, dy_x100: -2650 },
                RecoilPoint { shot_index: 7, dx_x100: -480, dy_x100: -2750 },
                RecoilPoint { shot_index: 8, dx_x100: -350, dy_x100: -2700 },
                RecoilPoint { shot_index: 9, dx_x100: -100, dy_x100: -2700 },
                RecoilPoint { shot_index: 10, dx_x100: 200, dy_x100: -2650 },
                RecoilPoint { shot_index: 11, dx_x100: 420, dy_x100: -2600 },
                RecoilPoint { shot_index: 12, dx_x100: 550, dy_x100: -2550 },
                RecoilPoint { shot_index: 13, dx_x100: 580, dy_x100: -2500 },
                RecoilPoint { shot_index: 14, dx_x100: 480, dy_x100: -2500 },
                RecoilPoint { shot_index: 15, dx_x100: 250, dy_x100: -2550 },
                RecoilPoint { shot_index: 16, dx_x100: -100, dy_x100: -2600 },
                RecoilPoint { shot_index: 17, dx_x100: -380, dy_x100: -2650 },
                RecoilPoint { shot_index: 18, dx_x100: -550, dy_x100: -2700 },
                RecoilPoint { shot_index: 19, dx_x100: -600, dy_x100: -2700 },
                RecoilPoint { shot_index: 20, dx_x100: -500, dy_x100: -2700 },
                RecoilPoint { shot_index: 21, dx_x100: -300, dy_x100: -2650 },
                RecoilPoint { shot_index: 22, dx_x100: 0, dy_x100: -2600 },
                RecoilPoint { shot_index: 23, dx_x100: 350, dy_x100: -2550 },
                RecoilPoint { shot_index: 24, dx_x100: 550, dy_x100: -2500 },
                RecoilPoint { shot_index: 25, dx_x100: 600, dy_x100: -2500 },
                RecoilPoint { shot_index: 26, dx_x100: 500, dy_x100: -2500 },
                RecoilPoint { shot_index: 27, dx_x100: 300, dy_x100: -2550 },
                RecoilPoint { shot_index: 28, dx_x100: 0, dy_x100: -2600 },
                RecoilPoint { shot_index: 29, dx_x100: -200, dy_x100: -2600 },
            ],
            scoped: false,
            zoom_fov_multiplier_x100: None,
            source_version: "CS2-2024.1".to_owned(),
            source_status: "verified".to_owned(),
        };
        proof {
            assert(w.recoil_pattern@ =~= ak47_view().recoil_pattern);
        }
        w
    }

    /// The M4A4 profile.
    pub fn m4a4() -> (w: Self)
        ensures
            w@ == m4a4_view(),
    {
        let w = WeaponDefinition {
            id: "weapon_m4a4".to_owned(),
            display_name: "M4A4".to_owned(),
            category: "Rifle".to_owned(),
            fire_mode: FireMode::FullAuto,
            cycle_time_ms: 90,
            rpm: 666,
            magazine_size: 30,
            reload_time_ms: 3100,
            damage_x100: 3300,
            headshot_multiplier_x100: 400,
            armor_ratio_x1000: 1400,
            max_player_speed_x100: 22500,
            base_spread_x100: 60,
            inaccuracy_stand_x100: 360,
            inaccuracy_crouch_x100: 290,
            inaccuracy_move_x100: 14000,
            inaccuracy_jump_x100: 16000,
            inaccuracy_air_x100: 18500,
            recovery_time_stand_ms: 340,
            recovery_time_crouch_ms: 270,
            recoil_magnitude_x100: 2700,
            recoil_pattern: vec![
                RecoilPoint { shot_index: 0, dx_x100: 0, dy_x100: 0 },
                RecoilPoint { shot_index: 1, dx_x100: 0, dy_x100: -350 },
                RecoilPoint { shot_index: 2, dx_x100: 30, dy_x100: -750 },
                RecoilPoint { shot_index: 3, dx_x100: 0, dy_x100: -1200 },
                RecoilPoint { shot_index: 4, dx_x100: -50, dy_x100: -1650 },
                RecoilPoint { shot_index: 5, dx_x100: -150, dy_x100: -2000 },
                RecoilPoint { shot_index: 6, dx_x100: -250, dy_x100: -2200 },
                RecoilPoint { shot_index: 7, dx_x100: -300, dy_x100: -2300 },
                RecoilPoint { shot_index: 8, dx_x100: -200, dy_x100: -2300 },
                RecoilPoint { shot_index: 9, dx_x100: 0, dy_x100: -2250 },
                RecoilPoint { shot_index: 10, dx_x100: 200, dy_x100: -2200 },
                RecoilPoint { shot_index: 11, dx_x100: 350, dy_x100: -2150 },
                RecoilPoint { shot_index: 12, dx_x100: 420, dy_x100: -2100 },
                RecoilPoint { shot_index: 13, dx_x100: 380, dy_x100: -2100 },
                RecoilPoint { shot_index: 14, dx_x100: 200, dy_x100: -2150 },
            ],
            scoped: false,
            zoom_fov_multiplier_x100: None,
            source_version: "CS2-2024.1".to_owned(),
            source_status: "verified".to_owned(),
        };
        proof {
            assert(w.recoil_pattern@ =~= m4a4_view().recoil_pattern);
        }
        w
    }

    /// The M4A1-S profile.
    pub fn m4a1_s() -> (w: Self)
        ensures
            w@ == m4a1_s_view(),
    {
        let w = WeaponDefinition {
            id: "weapon_m4a1_silencer".to_owned(),
            display_name: "M4A1-S".to_owned(),
            category: "Rifle".to_owned(),
            fire_mode: FireMode::FullAuto,
            cycle_time_ms: 100,
            rpm: 600,
            magazine_size: 20,
            reload_time_ms: 3100,
            damage_x100: 3800,
            headshot_multiplier_x100: 400,
            armor_ratio_x1000: 1400,
            max_player_speed_x100: 22500,
            base_spread_x100: 50,
            inaccuracy_stand_x100: 330,
            inaccuracy_crouch_x100: 260,
            inaccuracy_move_x100: 12500,
            inaccuracy_jump_x100: 15000,
            inaccuracy_air_x100: 17500,
            recovery_time_stand_ms: 310,
            recovery_time_crouch_ms: 250,
            recoil_magnitude_x100: 2300,
            recoil_pattern: vec![
                RecoilPoint { shot_index: 0, dx_x100: 0, dy_x100: 0 },
                RecoilPoint { shot_index: 1, dx_x100: 0, dy_x100: -300 },
                RecoilPoint { shot_index: 2, dx_x100: 20, dy_x100: -650 },
                RecoilPoint { shot_index: 3, dx_x100: -10, dy_x100: -1050 },
                RecoilPoint { shot_index: 4, dx_x100: -80, dy_x100: -1400 },
                RecoilPoint { shot_index: 5, dx_x100: -180, dy_x100: -1700 },
                RecoilPoint { shot_index: 6, dx_x100: -250, dy_x100: -1850 },
                RecoilPoint { shot_index: 7, dx_x100: -220, dy_x100: -1900 },
                RecoilPoint { shot_index: 8, dx_x100: -50, dy_x100: -1900 },
                RecoilPoint { shot_index: 9, dx_x100: 150, dy_x100: -1850 },
            ],
            scoped: false,
            zoom_fov_multiplier_x100: None,
            source_version: "CS2-2024.1".to_owned(),
            source_status: "verified".to_owned(),
        };
        proof {
            assert(w.recoil_pattern@ =~= m4a1_s_view().recoil_pattern);
        }
        w
    }

    /// The AWP profile.
    pub fn awp() -> (w: Self)
        ensures
            w@ == awp_view(),
    {
        let w = WeaponDefinition {
            id: "weapon_awp".to_owned(),
            display_name: "AWP".to_owned(),
            category: "Sniper".to_owned(),
            fire_mode: FireMode::SemiAuto,
            cycle_time_ms: 1463,
            rpm: 41,
            magazine_size: 5,
            reload_time_ms: 3667,
            damage_x100: 11500,
            headshot_multiplier_x100: 400,
            armor_ratio_x1000: 1950,
            max_player_speed_x100: 20000,
            base_spread_x100: 20,
            inaccuracy_stand_x100: 110,
            inaccuracy_crouch_x100: 80,
            inaccuracy_move_x100: 35000,
            inaccuracy_jump_x100: 40000,
            inaccuracy_air_x100: 45000,
            recovery_time_stand_ms: 1200,
            recovery_time_crouch_ms: 900,
            recoil_magnitude_x100: 8000,
            recoil_pattern: vec![
                RecoilPoint { shot_index: 0, dx_x100: 0, dy_x100: -1500 },
            ],
            scoped: true,
            zoom_fov_multiplier_x100: Some(35),
            source_version: "CS2-2024.1".to_owned(),
            source_status: "verified".to_owned(),
        };
        proof {
            assert(w.recoil_pattern@ =~= awp_view().recoil_pattern);
        }
        w
    }

    /// The Desert Eagle profile.
    pub fn deagle() -> (w: Self)
        ensures
            w@ == deagle_view(),
    {
        let w = WeaponDefinition {
            id: "weapon_deagle".to_owned(),
            display_name: "Desert Eagle".to_owned(),
            category: "Pistol".to_owned(),
            fire_mode: FireMode::SemiAuto,
            cycle_time_ms: 224,
            rpm: 267,
            magazine_size: 7,
            reload_time_ms: 2200,
            damage_x100: 5300,
            headshot_multiplier_x100: 400,
            armor_ratio_x1000: 1864,
            max_player_speed_x100: 23000,
            base_spread_x100: 160,
            inaccuracy_stand_x100: 620,
            inaccuracy_crouch_x100: 450,
            inaccuracy_move_x100: 11000,
            inaccuracy_jump_x100: 15000,
            inaccuracy_air_x100: 19000,
            recovery_time_stand_ms: 800,
            recovery_time_crouch_ms: 600,
            recoil_magnitude_x100: 5200,
            recoil_pattern: vec![
                RecoilPoint { shot_index: 0, dx_x100: 0, dy_x100: -1200 },
            ],
            scoped: false,
            zoom_fov_multiplier_x100: None,
            source_version: "CS2-2024.1".to_owned(),
            source_status: "verified".to_owned(),
        };
        proof {
            assert(w.recoil_pattern@ =~= deagle_view().recoil_pattern);
        }
        w
    }

    /// The USP-S profile.
    pub fn usps() -> (w: Self)
        ensures
            w@ == usps_view(),
    {
        let w = WeaponDefinition {
            id: "weapon_usp_silencer".to_owned(),
            display_name: "USP-S".to_owned(),
            category: "Pistol".to_owned(),
            fire_mode: FireMode::SemiAuto,
            cycle_time_ms: 170,
            rpm: 352,
            magazine_size: 12,
            reload_time_ms: 2200,
            damage_x100: 3500,
            headshot_multiplier_x100: 400,
            armor_ratio_x1000: 1010,
            max_player_speed_x100: 24000,
            base_spread_x100: 140,
            inaccuracy_stand_x100: 490,
            inaccuracy_crouch_x100: 380,
            inaccuracy_move_x100: 8500,
            inaccuracy_jump_x100: 11000,
            inaccuracy_air_x100: 14000,
            recovery_time_stand_ms: 450,
            recovery_time_crouch_ms: 350,
            recoil_magnitude_x100: 1800,
            recoil_pattern: vec![
                RecoilPoint { shot_index: 0, dx_x100: 0, dy_x100: -500 },
            ],
            scoped: false,
            zoom_fov_multiplier_x100: None,
            source_version: "CS2-2024.1".to_owned(),
            source_status: "verified".to_owned(),
        };
        proof {
            assert(w.recoil_pattern@ =~= usps_view().recoil_pattern);
        }
        w
    }

    /// The Glock-18 profile.
    pub fn glock() -> (w: Self)
        ensures
            w@ == glock_view(),
    {
        let w = WeaponDefinition {
            id: "weapon_glock".to_owned(),
            display_name: "Glock-18".to_owned(),
            category: "Pistol".to_owned(),
            fire_mode: FireMode::SemiAuto,
            cycle_time_ms: 150,
            rpm: 400,
            magazine_size: 20,
            reload_time_ms: 2200,
            damage_x100: 3000,
            headshot_multiplier_x100: 400,
            armor_ratio_x1000: 940,
            max_player_speed_x100: 24000,
            base_spread_x100: 180,
            inaccuracy_stand_x100: 760,
            inaccuracy_crouch_x100: 590,
            inaccuracy_move_x100: 9500,
            inaccuracy_jump_x100: 12000,
            inaccuracy_air_x100: 15000,
            recovery_time_stand_ms: 400,
            recovery_time_crouch_ms: 320,
            recoil_magnitude_x100: 1900,
            recoil_pattern: vec![
                RecoilPoint { shot_index: 0, dx_x100: 0, dy_x100: -500 },
            ],
            scoped: false,
            zoom_fov_multiplier_x100: None,
            source_version: "CS2-2024.1".to_owned(),
            source_status: "verified".to_owned(),
        };
        proof {
            assert(w.recoil_pattern@ =~= glock_view().recoil_pattern);
        }
        w
    }

    /// The MP9 profile.
    pub fn mp9() -> (w: Self)
        ensures
            w@ == mp9_view(),
    {
        let w = WeaponDefinition {
            id: "weapon_mp9".to_owned(),
            display_name: "MP9".to_owned(),
            category: "SMG".to_owned(),
            fire_mode: FireMode::FullAuto,
            cycle_time_ms: 70,
            rpm: 857,
            magazine_size: 30,
            reload_time_ms: 2100,
            damage_x100: 2600,
            headshot_multiplier_x100: 400,
            armor_ratio_x1000: 1200,
            max_player_speed_x100: 24000,
            base_spread_x100: 150,
            inaccuracy_stand_x100: 780,
            inaccuracy_crouch_x100: 620,
            inaccuracy_move_x100: 8000,
            inaccuracy_jump_x100: 10500,
            inaccuracy_air_x100: 13000,
            recovery_time_stand_ms: 280,
            recovery_time_crouch_ms: 220,
            recoil_magnitude_x100: 2200,
            recoil_pattern: vec![
                RecoilPoint { shot_index: 0, dx_x100: 0, dy_x100: 0 },
                RecoilPoint { shot_index: 1, dx_x100: -20, dy_x100: -300 },
                RecoilPoint { shot_index: 2, dx_x100: 30, dy_x100: -650 },
                RecoilPoint { shot_index: 3, dx_x100: 120, dy_x100: -1000 },
                RecoilPoint { shot_index: 4, dx_x100: 200, dy_x100: -1300 },
            ],
            scoped: false,
            zoom_fov_multiplier_x100: None,
            source_version: "CS2-2024.1".to_owned(),
            source_status: "verified".to_owned(),
        };
        proof {
            assert(w.recoil_pattern@ =~= mp9_view().recoil_pattern);
        }
        w
    }

    /// The MAC-10 profile.
    pub fn mac10() -> (w: Self)
        ensures
            w@ == mac10_view(),
    {
        let w = WeaponDefinition {
            id: "weapon_mac10".to_owned(),
            display_name: "MAC-10".to_owned(),
            category: "SMG".to_owned(),
            fire_mode: FireMode::FullAuto,
            cycle_time_ms: 75,
            rpm: 800,
            magazine_size: 30,
            reload_time_ms: 2567,
            damage_x100: 2900,
            headshot_multiplier_x100: 400,
            armor_ratio_x1000: 1150,
            max_player_speed_x100: 24000,
            base_spread_x100: 170,
            inaccuracy_stand_x100: 890,
            inaccuracy_crouch_x100: 710,
            inaccuracy_move_x100: 7500,
            inaccuracy_jump_x100: 10000,
            inaccuracy_air_x100: 12500,
            recovery_time_stand_ms: 290,
            recovery_time_crouch_ms: 230,
            recoil_magnitude_x100: 2400,
            recoil_pattern: vec![
                RecoilPoint { shot_index: 0, dx_x100: 0, dy_x100: 0 },
                RecoilPoint { shot_index: 1, dx_x100: 10, dy_x100: -320 },
                RecoilPoint { shot_index: 2, dx_x100: -40, dy_x100: -700 },
                RecoilPoint { shot_index: 3, dx_x100: -150, dy_x100: -1100 },
            ],
            scoped: false,
            zoom_fov_multiplier_x100: None,
            source_version: "CS2-2024.1".to_owned(),
            source_status: "verified".to_owned(),
        };
        proof {
            assert(w.recoil_pattern@ =~= mac10_view().recoil_pattern);
        }
        w
    }

    /// The Galil AR profile.
    pub fn galilar() -> (w: Self)
        ensures
            w@ == galilar_view(),
    {
        let w = WeaponDefinition {
            id: "weapon_galilar".to_owned(),
            display_name: "Galil AR".to_owned(),
            category: "Rifle".to_owned(),
            fire_mode: FireMode::FullAuto,
            cycle_time_ms: 90,
            rpm: 666,
            magazine_size: 35,
            reload_time_ms: 3000,
            damage_x100: 3000,
            headshot_multiplier_x100: 400,
            armor_ratio_x1000: 1550,
            max_player_speed_x100: 21500,
            base_spread_x100: 90,
            inaccuracy_stand_x100: 580,
            inaccuracy_crouch_x100: 460,
            inaccuracy_move_x100: 16000,
            inaccuracy_jump_x100: 17500,
            inaccuracy_air_x100: 20000,
            recovery_time_stand_ms: 360,
            recovery_time_crouch_ms: 290,
            recoil_magnitude_x100: 2900,
            recoil_pattern: vec![
                RecoilPoint { shot_index: 0, dx_x100: 0, dy_x100: 0 },
                RecoilPoint { shot_index: 1, dx_x100: 0, dy_x100: -380 },
                RecoilPoint { shot_index: 2, dx_x100: 40, dy_x100: -800 },
                RecoilPoint { shot_index: 3, dx_x100: 20, dy_x100: -1300 },
            ],
            scoped: false,
            zoom_fov_multiplier_x100: None,
            source_version: "CS2-2024.1".to_owned(),
            source_status: "verified".to_owned(),
        };
        proof {
            assert(w.recoil_pattern@ =~= galilar_view().recoil_pattern);
        }
        w
    }

    /// Looks a profile up by its id or its short name.
    pub fn get_by_id(id: &str) -> (w: Option<Self>)
        ensures
            match catalog_lookup(id@) {
                Some(v) => w is Some && w.unwrap()@ == v,
                None => w is None,
            },
    {
        if same_text(id, "weapon_ak47") || same_text(id, "ak47") {
            Some(Self::ak47())
        } else if same_text(id, "weapon_m4a4") || same_text(id, "m4a4") {
            Some(Self::m4a4())
        } else if same_text(id, "weapon_m4a1_silencer") || same_text(id, "m4a1_s") {
            Some(Self::m4a1_s())
        } else if same_text(id, "weapon_awp") || same_text(id, "awp") {
            Some(Self::awp())
        } else if same_text(id, "weapon_deagle") || same_text(id, "deagle") {
            Some(Self::deagle())
        } else if same_text(id, "weapon_usp_silencer") || same_text(id, "usps") {
            Some(Self::usps())
        } else if same_text(id, "weapon_glock") || same_text(id, "glock") {
            Some(Self::glock())
        } else if same_text(id, "weapon_mp9") || same_text(id, "mp9") {
            Some(Self::mp9())
        } else if same_text(id, "weapon_mac10") || same_text(id, "mac10") {
            Some(Self::mac10())
        } else if same_text(id, "weapon_galilar") || same_text(id, "galilar") {
            Some(Self::galilar())
        } else {
            None
        }
    }

    /// Every profile, in catalogue order.
    pub fn all_initial() -> (ws: Vec<Self>)
        ensures
            ws@.len() == catalog().len(),
            forall|i: int| 0 <= i < ws@.len() ==> #[trigger] ws@[i]@ == catalog()[i],
    {
        let ws = vec![
            Self::ak47(),
            Self::m4a4(),
            Self::m4a1_s(),
            Self::awp(),
            Self::deagle(),
            Self::usps(),
            Self::glock(),
            Self::mp9(),
            Self::mac10(),
            Self::galilar(),
        ];
        ws
    }
}

/// Every catalogued weapon is found again by its own id.
pub proof fn lemma_catalog_ids_resolve(i: int)
    requires
        0 <= i < catalog().len(),
    ensures
        catalog_lookup(catalog()[i].id) == Some(catalog()[i]),
{
    reveal_strlit("weapon_ak47");
    reveal_strlit("ak47");
    reveal_strlit("weapon_m4a4");
    reveal_strlit("m4a4");
    reveal_strlit("weapon_m4a1_silencer");
    reveal_strlit("m4a1_s");
    reveal_strlit("weapon_awp");
    reveal_strlit("awp");
    reveal_strlit("weapon_deagle");
    reveal_strlit("deagle");
    reveal_strlit("weapon_usp_silencer");
    reveal_strlit("usps");
    reveal_strlit("weapon_glock");
    reveal_strlit("glock");
    reveal_strlit("weapon_mp9");
    reveal_strlit("mp9");
    reveal_strlit("weapon_mac10");
    reveal_strlit("mac10");
    reveal_strlit("weapon_galilar");
    reveal_strlit("galilar");
    assert("weapon_ak47"@.len() == 11 && "weapon_ak47"@[0] == 'w' && "weapon_ak47"@[1] == 'e' && "weapon_ak47"@[2] == 'a' && "weapon_ak47"@[3] == 'p' && "weapon_ak47"@[4] == 'o' && "weapon_ak47"@[5] == 'n' && "weapon_ak47"@[6] == '_' && "weapon_ak47"@[7] == 'a' && "weapon_ak47"@[8] == 'k' && "weapon_ak47"@[9] == '4' && "weapon_ak47"@[10] == '7');
    assert("ak47"@.len() == 4 && "ak47"@[0] == 'a' && "ak47"@[1] == 'k' && "ak47"@[2] == '4' && "ak47"@[3] == '7');
    assert("weapon_m4a4"@.len() == 11 && "weapon_m4a4"@[0] == 'w' && "weapon_m4a4"@[1] == 'e' && "weapon_m4a4"@[2] == 'a' && "weapon_m4a4"@[3] == 'p' && "weapon_m4a4"@[4] == 'o' && "weapon_m4a4"@[5] == 'n' && "weapon_m4a4"@[6] == '_' && "weapon_m4a4"@[7] == 'm' && "weapon_m4a4"@[8] == '4' && "weapon_m4a4"@[9] == 'a' && "weapon_m4a4"@[10] == '4');
    assert("m4a4"@.len() == 4 && "m4a4"@[0] == 'm' && "m4a4"@[1] == '4' && "m4a4"@[2] == 'a' && "m4a4"@[3] == '4');
    assert("weapon_m4a1_silencer"@.len() == 20 && "weapon_m4a1_silencer"@[0] == 'w' && "weapon_m4a1_silencer"@[1] == 'e' && "weapon_m4a1_silencer"@[2] == 'a' && "weapon_m4a1_silencer"@[3] == 'p' && "weapon_m4a1_silencer"@[4] == 'o' && "weapon_m4a1_silencer"@[5] == 'n' && "weapon_m4a1_silencer"@[6] == '_' && "weapon_m4a1_silencer"@[7] == 'm' && "weapon_m4a1_silencer"@[8] == '4' && "weapon_m4a1_silencer"@[9] == 'a' && "weapon_m4a1_silencer"@[10] == '1' && "weapon_m4a1_silencer"@[11] == '_' && "weapon_m4a1_silencer"@[12] == 's' && "weapon_m4a1_silencer"@[13] == 'i' && "weapon_m4a1_silencer"@[14] == 'l' && "weapon_m4a1_silencer"@[15] == 'e' && "weapon_m4a1_silencer"@[16] == 'n' && "weapon_m4a1_silencer"@[17] == 'c' && "weapon_m4a1_silencer"@[18] == 'e' && "weapon_m4a1_silencer"@[19] == 'r');
    assert("m4a1_s"@.len() == 6 && "m4a1_s"@[0] == 'm' && "m4a1_s"@[1] == '4' && "m4a1_s"@[2] == 'a' && "m4a1_s"@[3] == '1' && "m4a1_s"@[4] == '_' && "m4a1_s"@[5] == 's');
    assert("weapon_awp"@.len() == 10 && "weapon_awp"@[0] == 'w' && "weapon_awp"@[1] == 'e' && "weapon_awp"@[2] == 'a' && "weapon_awp"@[3] == 'p' && "weapon_awp"@[4] == 'o' && "weapon_awp"@[5] == 'n' && "weapon_awp"@[6] == '_' && "weapon_awp"@[7] == 'a' && "weapon_awp"@[8] == 'w' && "weapon_awp"@[9] == 'p');
    assert("awp"@.len() == 3 && "awp"@[0] == 'a' && "awp"@[1] == 'w' && "awp"@[2] == 'p');
    assert("weapon_deagle"@.len() == 13 && "weapon_deagle"@[0] == 'w' && "weapon_deagle"@[1] == 'e' && "weapon_deagle"@[2] == 'a' && "weapon_deagle"@[3] == 'p' && "weapon_deagle"@[4] == 'o' && "weapon_deagle"@[5] == 'n' && "weapon_deagle"@[6] == '_' && "weapon_deagle"@[7] == 'd' && "weapon_deagle"@[8] == 'e' && "weapon_deagle"@[9] == 'a' && "weapon_deagle"@[10] == 'g' && "weapon_deagle"@[11] == 'l' && "weapon_deagle"@[12] == 'e');
    assert("deagle"@.len() == 6 && "deagle"@[0] == 'd' && "deagle"@[1] == 'e' && "deagle"@[2] == 'a' && "deagle"@[3] == 'g' && "deagle"@[4] == 'l' && "deagle"@[5] == 'e');
    assert("weapon_usp_silencer"@.len() == 19 && "weapon_usp_silencer"@[0] == 'w' && "weapon_usp_silencer"@[1] == 'e' && "weapon_usp_silencer"@[2] == 'a' && "weapon_usp_silencer"@[3] == 'p' && "weapon_usp_silencer"@[4] == 'o' && "weapon_usp_silencer"@[5] == 'n' && "weapon_usp_silencer"@[6] == '_' && "weapon_usp_silencer"@[7] == 'u' && "weapon_usp_silencer"@[8] == 's' && "weapon_usp_silencer"@[9] == 'p' && "weapon_usp_silencer"@[10] == '_' && "weapon_usp_silencer"@[11] == 's' && "weapon_usp_silencer"@[12] == 'i' && "weapon_usp_silencer"@[13] == 'l' && "weapon_usp_silencer"@[14] == 'e' && "weapon_usp_silencer"@[15] == 'n' && "weapon_usp_silencer"@[16] == 'c' && "weapon_usp_silencer"@[17] == 'e' && "weapon_usp_silencer"@[18] == 'r');
    assert("usps"@.len() == 4 && "usps"@[0] == 'u' && "usps"@[1] == 's' && "usps"@[2] == 'p' && "usps"@[3] == 's');
    assert("weapon_glock"@.len() == 12 && "weapon_glock"@[0] == 'w' && "weapon_glock"@[1] == 'e' && "weapon_glock"@[2] == 'a' && "weapon_glock"@[3] == 'p' && "weapon_glock"@[4] == 'o' && "weapon_glock"@[5] == 'n' && "weapon_glock"@[6] == '_' && "weapon_glock"@[7] == 'g' && "weapon_glock"@[8] == 'l' && "weapon_glock"@[9] == 'o' && "weapon_glock"@[10] == 'c' && "weapon_glock"@[11] == 'k');
    assert("glock"@.len() == 5 && "glock"@[0] == 'g' && "glock"@[1] == 'l' && "glock"@[2] == 'o' && "glock"@[3] == 'c' && "glock"@[4] == 'k');
    assert("weapon_mp9"@.len() == 10 && "weapon_mp9"@[0] == 'w' && "weapon_mp9"@[1] == 'e' && "weapon_mp9"@[2] == 'a' && "weapon_mp9"@[3] == 'p' && "weapon_mp9"@[4] == 'o' && "weapon_mp9"@[5] == 'n' && "weapon_mp9"@[6] == '_' && "weapon_mp9"@[7] == 'm' && "weapon_mp9"@[8] == 'p' && "weapon_mp9"@[9] == '9');
    assert("mp9"@.len() == 3 && "mp9"@[0] == 'm' && "mp9"@[1] == 'p' && "mp9"@[2] == '9');
    assert("weapon_mac10"@.len() == 12 && "weapon_mac10"@[0] == 'w' && "weapon_mac10"@[1] == 'e' && "weapon_mac10"@[2] == 'a' && "weapon_mac10"@[3] == 'p' && "weapon_mac10"@[4] == 'o' && "weapon_mac10"@[5] == 'n' && "weapon_mac10"@[6] == '_' && "weapon_mac10"@[7] == 'm' && "weapon_mac10"@[8] == 'a' && "weapon_mac10"@[9] == 'c' && "weapon_mac10"@[10] == '1' && "weapon_mac10"@[11] == '0');
    assert("mac10"@.len() == 5 && "mac10"@[0] == 'm' && "mac10"@[1] == 'a' && "mac10"@[2] == 'c' && "mac10"@[3] == '1' && "mac10"@[4] == '0');
    assert("weapon_galilar"@.len() == 14 && "weapon_galilar"@[0] == 'w' && "weapon_galilar"@[1] == 'e' && "weapon_galilar"@[2] == 'a' && "weapon_galilar"@[3] == 'p' && "weapon_galilar"@[4] == 'o' && "weapon_galilar"@[5] == 'n' && "weapon_galilar"@[6] == '_' && "weapon_galilar"@[7] == 'g' && "weapon_galilar"@[8] == 'a' && "weapon_galilar"@[9] == 'l' && "weapon_galilar"@[10] == 'i' && "weapon_galilar"@[11] == 'l' && "weapon_galilar"@[12] == 'a' && "weapon_galilar"@[13] == 'r');
    assert("galilar"@.len() == 7 && "galilar"@[0] == 'g' && "galilar"@[1] == 'a' && "galilar"@[2] == 'l' && "galilar"@[3] == 'i' && "galilar"@[4] == 'l' && "galilar"@[5] == 'a' && "galilar"@[6] == 'r');
}

/// The spelling of the catalogue's names, character by character.
proof fn lemma_catalog_names_spelled()
    ensures
        "weapon_"@.len() == 7 && "weapon_"@[0] == 'w' && "weapon_"@[1] == 'e' && "weapon_"@[2] == 'a' && "weapon_"@[3] == 'p' && "weapon_"@[4] == 'o' && "weapon_"@[5] == 'n' && "weapon_"@[6] == '_',
        "ak47"@.len() == 4 && "ak47"@[0] == 'a' && "ak47"@[1] == 'k' && "ak47"@[2] == '4' && "ak47"@[3] == '7',
        "weapon_ak47"@.len() == 11 && "weapon_ak47"@[0] == 'w' && "weapon_ak47"@[1] == 'e' && "weapon_ak47"@[2] == 'a' && "weapon_ak47"@[3] == 'p' && "weapon_ak47"@[4] == 'o' && "weapon_ak47"@[5] == 'n' && "weapon_ak47"@[6] == '_' && "weapon_ak47"@[7] == 'a' && "weapon_ak47"@[8] == 'k' && "weapon_ak47"@[9] == '4' && "weapon_ak47"@[10] == '7',
        "m4a4"@.len() == 4 && "m4a4"@[0] == 'm' && "m4a4"@[1] == '4' && "m4a4"@[2] == 'a' && "m4a4"@[3] == '4',
        "weapon_m4a4"@.len() == 11 && "weapon_m4a4"@[0] == 'w' && "weapon_m4a4"@[1] == 'e' && "weapon_m4a4"@[2] == 'a' && "weapon_m4a4"@[3] == 'p' && "weapon_m4a4"@[4] == 'o' && "weapon_m4a4"@[5] == 'n' && "weapon_m4a4"@[6] == '_' && "weapon_m4a4"@[7] == 'm' && "weapon_m4a4"@[8] == '4' && "weapon_m4a4"@[9] == 'a' && "weapon_m4a4"@[10] == '4',
        "m4a1_s"@.len() == 6 && "m4a1_s"@[0] == 'm' && "m4a1_s"@[1] == '4' && "m4a1_s"@[2] == 'a' && "m4a1_s"@[3] == '1' && "m4a1_s"@[4] == '_' && "m4a1_s"@[5] == 's',
        "weapon_m4a1_silencer"@.len() == 20 && "weapon_m4a1_silencer"@[0] == 'w' && "weapon_m4a1_silencer"@[1] == 'e' && "weapon_m4a1_silencer"@[2] == 'a' && "weapon_m4a1_silencer"@[3] == 'p' && "weapon_m4a1_silencer"@[4] == 'o' && "weapon_m4a1_silencer"@[5] == 'n' && "weapon_m4a1_silencer"@[6] == '_' && "weapon_m4a1_silencer"@[7] == 'm' && "weapon_m4a1_silencer"@[8] == '4' && "weapon_m4a1_silencer"@[9] == 'a' && "weapon_m4a1_silencer"@[10] == '1' && "weapon_m4a1_silencer"@[11] == '_' && "weapon_m4a1_silencer"@[12] == 's' && "weapon_m4a1_silencer"@[13] == 'i' && "weapon_m4a1_silencer"@[14] == 'l' && "weapon_m4a1_silencer"@[15] == 'e' && "weapon_m4a1_silencer"@[16] == 'n' && "weapon_m4a1_silencer"@[17] == 'c' && "weapon_m4a1_silencer"@[18] == 'e' && "weapon_m4a1_silencer"@[19] == 'r',
        "awp"@.len() == 3 && "awp"@[0] == 'a' && "awp"@[1] == 'w' && "awp"@[2] == 'p',
        "weapon_awp"@.len() == 10 && "weapon_awp"@[0] == 'w' && "weapon_awp"@[1] == 'e' && "weapon_awp"@[2] == 'a' && "weapon_awp"@[3] == 'p' && "weapon_awp"@[4] == 'o' && "weapon_awp"@[5] == 'n' && "weapon_awp"@[6] == '_' && "weapon_awp"@[7] == 'a' && "weapon_awp"@[8] == 'w' && "weapon_awp"@[9] == 'p',
        "deagle"@.len() == 6 && "deagle"@[0] == 'd' && "deagle"@[1] == 'e' && "deagle"@[2] == 'a' && "deagle"@[3] == 'g' && "deagle"@[4] == 'l' && "deagle"@[5] == 'e',
        "weapon_deagle"@.len() == 13 && "weapon_deagle"@[0] == 'w' && "weapon_deagle"@[1] == 'e' && "weapon_deagle"@[2] == 'a' && "weapon_deagle"@[3] == 'p' && "weapon_deagle"@[4] == 'o' && "weapon_deagle"@[5] == 'n' && "weapon_deagle"@[6] == '_' && "weapon_deagle"@[7] == 'd' && "weapon_deagle"@[8] == 'e' && "weapon_deagle"@[9] == 'a' && "weapon_deagle"@[10] == 'g' && "weapon_deagle"@[11] == 'l' && "weapon_deagle"@[12] == 'e',
        "usps"@.len() == 4 && "usps"@[0] == 'u' && "usps"@[1] == 's' && "usps"@[2] == 'p' && "usps"@[3] == 's',
        "weapon_usp_silencer"@.len() == 19 && "weapon_usp_silencer"@[0] == 'w' && "weapon_usp_silencer"@[1] == 'e' && "weapon_usp_silencer"@[2] == 'a' && "weapon_usp_silencer"@[3] == 'p' && "weapon_usp_silencer"@[4] == 'o' && "weapon_usp_silencer"@[5] == 'n' && "weapon_usp_silencer"@[6] == '_' && "weapon_usp_silencer"@[7] == 'u' && "weapon_usp_silencer"@[8] == 's' && "weapon_usp_silencer"@[9] == 'p' && "weapon_usp_silencer"@[10] == '_' && "weapon_usp_silencer"@[11] == 's' && "weapon_usp_silencer"@[12] == 'i' && "weapon_usp_silencer"@[13] == 'l' && "weapon_usp_silencer"@[14] == 'e' && "weapon_usp_silencer"@[15] == 'n' && "weapon_usp_silencer"@[16] == 'c' && "weapon_usp_silencer"@[17] == 'e' && "weapon_usp_silencer"@[18] == 'r',
        "glock"@.len() == 5 && "glock"@[0] == 'g' && "glock"@[1] == 'l' && "glock"@[2] == 'o' && "glock"@[3] == 'c' && "glock"@[4] == 'k',
        "weapon_glock"@.len() == 12 && "weapon_glock"@[0] == 'w' && "weapon_glock"@[1] == 'e' && "weapon_glock"@[2] == 'a' && "weapon_glock"@[3] == 'p' && "weapon_glock"@[4] == 'o' && "weapon_glock"@[5] == 'n' && "weapon_glock"@[6] == '_' && "weapon_glock"@[7] == 'g' && "weapon_glock"@[8] == 'l' && "weapon_glock"@[9] == 'o' && "weapon_glock"@[10] == 'c' && "weapon_glock"@[11] == 'k',
        "mp9"@.len() == 3 && "mp9"@[0] == 'm' && "mp9"@[1] == 'p' && "mp9"@[2] == '9',
        "weapon_mp9"@.len() == 10 && "weapon_mp9"@[0] == 'w' && "weapon_mp9"@[1] == 'e' && "weapon_mp9"@[2] == 'a' && "weapon_mp9"@[3] == 'p' && "weapon_mp9"@[4] == 'o' && "weapon_mp9"@[5] == 'n' && "weapon_mp9"@[6] == '_' && "weapon_mp9"@[7] == 'm' && "weapon_mp9"@[8] == 'p' && "weapon_mp9"@[9] == '9',
        "mac10"@.len() == 5 && "mac10"@[0] == 'm' && "mac10"@[1] == 'a' && "mac10"@[2] == 'c' && "mac10"@[3] == '1' && "mac10"@[4] == '0',
        "weapon_mac10"@.len() == 12 && "weapon_mac10"@[0] == 'w' && "weapon_mac10"@[1] == 'e' && "weapon_mac10"@[2] == 'a' && "weapon_mac10"@[3] == 'p' && "weapon_mac10"@[4] == 'o' && "weapon_mac10"@[5] == 'n' && "weapon_mac10"@[6] == '_' && "weapon_mac10"@[7] == 'm' && "weapon_mac10"@[8] == 'a' && "weapon_mac10"@[9] == 'c' && "weapon_mac10"@[10] == '1' && "weapon_mac10"@[11] == '0',
        "galilar"@.len() == 7 && "galilar"@[0] == 'g' && "galilar"@[1] == 'a' && "galilar"@[2] == 'l' && "galilar"@[3] == 'i' && "galilar"@[4] == 'l' && "galilar"@[5] == 'a' && "galilar"@[6] == 'r',
        "weapon_galilar"@.len() == 14 && "weapon_galilar"@[0] == 'w' && "weapon_galilar"@[1] == 'e' && "weapon_galilar"@[2] == 'a' && "weapon_galilar"@[3] == 'p' && "weapon_galilar"@[4] == 'o' && "weapon_galilar"@[5] == 'n' && "weapon_galilar"@[6] == '_' && "weapon_galilar"@[7] == 'g' && "weapon_galilar"@[8] == 'a' && "weapon_galilar"@[9] == 'l' && "weapon_galilar"@[10] == 'i' && "weapon_galilar"@[11] == 'l' && "weapon_galilar"@[12] == 'a' && "weapon_galilar"@[13] == 'r',
{
    reveal_strlit("weapon_");
    reveal_strlit("ak47");
    reveal_strlit("weapon_ak47");
    reveal_strlit("m4a4");
    reveal_strlit("weapon_m4a4");
    reveal_strlit("m4a1_s");
    reveal_strlit("weapon_m4a1_silencer");
    reveal_strlit("awp");
    reveal_strlit("weapon_awp");
    reveal_strlit("deagle");
    reveal_strlit("weapon_deagle");
    reveal_strlit("usps");
    reveal_strlit("weapon_usp_silencer");
    reveal_strlit("glock");
    reveal_strlit("weapon_glock");
    reveal_strlit("mp9");
    reveal_strlit("weapon_mp9");
    reveal_strlit("mac10");
    reveal_strlit("weapon_mac10");
    reveal_strlit("galilar");
    reveal_strlit("weapon_galilar");
}

/// A lookup finds only the profile a name designates: the profile found for
/// `id` carries `id` itself as its id, or `id` is its short name, which is
/// the id without the `weapon_` prefix (`m4a1_s` and `usps` abbreviate the
/// two silenced weapons).
pub proof fn lemma_lookup_finds_the_named_profile(id: Seq<char>)
    ensures
        catalog_lookup(id) matches Some(w) ==> {
            ||| w.id == id
            ||| w.id == "weapon_"@ + id
            ||| id == "m4a1_s"@ && w.id == "weapon_m4a1_silencer"@
            ||| id == "usps"@ && w.id == "weapon_usp_silencer"@
        },
{
    lemma_catalog_names_spelled();
    assert("weapon_"@ + "ak47"@ =~= "weapon_ak47"@);
    assert("weapon_"@ + "m4a4"@ =~= "weapon_m4a4"@);
    assert("weapon_"@ + "awp"@ =~= "weapon_awp"@);
    assert("weapon_"@ + "deagle"@ =~= "weapon_deagle"@);
    assert("weapon_"@ + "glock"@ =~= "weapon_glock"@);
    assert("weapon_"@ + "mp9"@ =~= "weapon_mp9"@);
    assert("weapon_"@ + "mac10"@ =~= "weapon_mac10"@);
    assert("weapon_"@ + "galilar"@ =~= "weapon_galilar"@);
}

/// A short name finds the same profile as the full id it abbreviates:
/// whenever `weapon_` followed by a name is a catalogued id, the name alone
/// finds that same profile (the silenced weapons go by `m4a1_s` and `usps`
/// instead of the rest of their ids).
pub proof fn lemma_short_names_agree_with_ids(name: Seq<char>)
    ensures
        name != "m4a1_silencer"@ && name != "usp_silencer"@ && catalog_lookup("weapon_"@ + name) is Some
            ==> catalog_lookup(name) == catalog_lookup("weapon_"@ + name),
        catalog_lookup("m4a1_s"@) == catalog_lookup("weapon_m4a1_silencer"@),
        catalog_lookup("usps"@) == catalog_lookup("weapon_usp_silencer"@),
        catalog_lookup("m4a1_s"@) is Some && catalog_lookup("usps"@) is Some,
{
    lemma_catalog_names_spelled();
    let full = "weapon_"@ + name;
    assert(full[0] == 'w');
    if full == "weapon_ak47"@ {
        assert(name =~= "ak47"@) by {
            assert forall|k: int| 0 <= k < name.len() implies name[k] == "ak47"@[k] by {
                assert(full[k + 7] == name[k]);
            }
        }
    }
    if full == "weapon_m4a4"@ {
        assert(name =~= "m4a4"@) by {
            assert forall|k: int| 0 <= k < name.len() implies name[k] == "m4a4"@[k] by {
                assert(full[k + 7] == name[k]);
            }
        }
    }
    if full == "weapon_m4a1_silencer"@ {
        assert(name =~= "m4a1_silencer"@) by {
            reveal_strlit("m4a1_silencer");
            assert forall|k: int| 0 <= k < name.len() implies name[k] == "m4a1_silencer"@[k] by {
                assert(full[k + 7] == name[k]);
            }
        }
    }
    if full == "weapon_awp"@ {
        assert(name =~= "awp"@) by {
            assert forall|k: int| 0 <= k < name.len() implies name[k] == "awp"@[k] by {
                assert(full[k + 7] == name[k]);
            }
        }
    }
    if full == "weapon_deagle"@ {
        assert(name =~= "deagle"@) by {
            assert forall|k: int| 0 <= k < name.len() implies name[k] == "deagle"@[k] by {
                assert(full[k + 7] == name[k]);
            }
        }
    }
    if full == "weapon_usp_silencer"@ {
        assert(name =~= "usp_silencer"@) by {
            reveal_strlit("usp_silencer");
            assert forall|k: int| 0 <= k < name.len() implies name[k] == "usp_silencer"@[k] by {
                assert(full[k + 7] == name[k]);
            }
        }
    }
    if full == "weapon_glock"@ {
        assert(name =~= "glock"@) by {
            assert forall|k: int| 0 <= k < name.len() implies name[k] == "glock"@[k] by {
                assert(full[k + 7] == name[k]);
            }
        }
    }
    if full == "weapon_mp9"@ {
        assert(name =~= "mp9"@) by {
            assert forall|k: int| 0 <= k < name.len() implies name[k] == "mp9"@[k] by {
                assert(full[k + 7] == name[k]);
            }
        }
    }
    if full == "weapon_mac10"@ {
        assert(name =~= "mac10"@) by {
            assert forall|k: int| 0 <= k < name.len() implies name[k] == "mac10"@[k] by {
                assert(full[k + 7] == name[k]);
            }
        }
    }
    if full == "weapon_galilar"@ {
        assert(name =~= "galilar"@) by {
            assert forall|k: int| 0 <= k < name.len() implies name[k] == "galilar"@[k] by {
                assert(full[k + 7] == name[k]);
            }
        }
    }
}

/// No two catalogued weapons share an id.
pub proof fn lemma_catalog_ids_distinct(i: int, j: int)
    requires
        0 <= i < catalog().len(),
        0 <= j < catalog().len(),
        i != j,
    ensures
        catalog()[i].id != catalog()[j].id,
{
    lemma_catalog_ids_resolve(i);
    lemma_catalog_ids_resolve(j);
    assert(catalog()[i] != catalog()[j]) by {
        assert(catalog()[i].id.len() != catalog()[j].id.len() || catalog()[i].id != catalog()[j].id || catalog()[i].display_name != catalog()[j].display_name || catalog()[i].rpm != catalog()[j].rpm || catalog()[i].damage_x100 != catalog()[j].damage_x100);
    }
}

/// Every spray pattern is non-empty and each step carries its own position
/// as its shot index.
pub proof fn lemma_recoil_patterns_indexed(i: int)
    requires
        0 <= i < catalog().len(),
    ensures
        catalog()[i].recoil_pattern.len() >= 1,
        forall|k: int| 0 <= k < catalog()[i].recoil_pattern.len() ==> #[trigger] catalog()[i].recoil_pattern[k].shot_index == k,
{
}

/// Each weapon's cycle time is the whole milliseconds of one round at its
/// rate of fire.
pub proof fn lemma_cycle_time_from_rpm(i: int)
    requires
        0 <= i < catalog().len(),
    ensures
        catalog()[i].rpm > 0,
        catalog()[i].cycle_time_ms == 60000int / (catalog()[i].rpm as int),
{
    if i == 0 {
        assert(catalog()[i] == ak47_view());
    }
    if i == 1 {
        assert(catalog()[i] == m4a4_view());
    }
    if i == 2 {
        assert(catalog()[i] == m4a1_s_view());
    }
    if i == 3 {
        assert(catalog()[i] == awp_view());
    }
    if i == 4 {
        assert(catalog()[i] == deagle_view());
    }
    if i == 5 {
        assert(catalog()[i] == usps_view());
    }
    if i == 6 {
        assert(catalog()[i] == glock_view());
    }
    if i == 7 {
        assert(catalog()[i] == mp9_view());
    }
    if i == 8 {
        assert(catalog()[i] == mac10_view());
    }
    if i == 9 {
        assert(catalog()[i] == galilar_view());
    }
}

/// Stance penalties are ordered for every weapon: crouching is more
/// accurate than standing, and standing more accurate than moving or being
/// airborne.
pub proof fn lemma_stance_penalties_ordered(i: int)
    requires
        0 <= i < catalog().len(),
    ensures
        catalog()[i].inaccuracy_crouch_x100 < catalog()[i].inaccuracy_stand_x100,
        catalog()[i].inaccuracy_stand_x100 < catalog()[i].inaccuracy_move_x100,
        catalog()[i].inaccuracy_stand_x100 < catalog()[i].inaccuracy_air_x100,
{
}

} // verus!
