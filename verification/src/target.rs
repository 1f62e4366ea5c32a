//! Target silhouettes: poses, behaviours and the hitbox layout of each
//! pose, given as hundredths of the silhouette's width and height.
use vstd::prelude::*;

verus! {

#[derive(Debug, Clone, Copy, PartialEq, Eq, Structural)]
pub enum HitboxType {
    Head,
    UpperChest,
    LowerChest,
    Stomach,
    LeftArm,
    RightArm,
    LeftLeg,
    RightLeg,
}

#[derive(Debug, Clone, Copy, PartialEq, Eq, Structural)]
pub enum TargetPose {
    Standing,
    Crouched,
    HeadOnly,
    HeadShoulder,
    HalfBodyLeft,
    HalfBodyRight,
}

#[derive(Debug, Clone, Copy, PartialEq, Eq, Structural)]
pub enum TargetBehaviour {
    Static,
    PopUp,
    Strafe,
    PeekLeft,
    PeekRight,
    Reaction,
}

/// One hitbox of a silhouette: its offset and size in hundredths of the
/// silhouette's width (x) and height (y), and its damage multiplier in
/// hundredths.
#[derive(Debug, Clone, Copy, PartialEq, Eq, Structural)]
pub struct HitboxSpec {
    pub hitbox_type: HitboxType,
    pub rel_x_pct: u32,
    pub rel_y_pct: u32,
    pub width_pct: u32,
    pub height_pct: u32,
    pub damage_multiplier_x100: u32,
}

/// Width of every silhouette, in virtual pixels.
pub const TARGET_WIDTH: u32 = 60;

pub open spec fn hb(t: HitboxType, x: u32, y: u32, w: u32, h: u32, m: u32) -> HitboxSpec {
    HitboxSpec { hitbox_type: t, rel_x_pct: x, rel_y_pct: y, width_pct: w, height_pct: h, damage_multiplier_x100: m }
}

/// Silhouette height of each pose, in virtual pixels.
pub open spec fn pose_height(p: TargetPose) -> u32 {
    match p {
        TargetPose::Standing => 140,
        TargetPose::Crouched => 95,
        TargetPose::HeadOnly => 35,
        TargetPose::HeadShoulder => 55,
        TargetPose::HalfBodyLeft => 110,
        TargetPose::HalfBodyRight => 110,
    }
}

/// The hitboxes of each pose, in the order a shot is tested against them.
pub open spec fn pose_layout(p: TargetPose) -> Seq<HitboxSpec> {
    match p {
        TargetPose::HeadOnly => seq![hb(HitboxType::Head, 0, 0, 100, 100, 400)],
        TargetPose::HeadShoulder => seq![
            hb(HitboxType::Head, 20, 0, 60, 50, 400),
            hb(HitboxType::UpperChest, 0, 50, 100, 50, 100),
        ],
        TargetPose::Crouched => seq![
            hb(HitboxType::Head, 22, 0, 56, 30, 400),
            hb(HitboxType::UpperChest, 10, 30, 80, 40, 100),
            hb(HitboxType::LeftLeg, 10, 70, 80, 30, 75),
        ],
        _ => seq![
            hb(HitboxType::Head, 25, 0, 50, 22, 400),
            hb(HitboxType::UpperChest, 15, 22, 70, 25, 100),
            hb(HitboxType::Stomach, 20, 47, 60, 20, 125),
            hb(HitboxType::LeftLeg, 15, 67, 30, 33, 75),
            hb(HitboxType::RightLeg, 55, 67, 30, 33, 75),
        ],
    }
}

/// Initial velocity of each behaviour, in virtual pixels per second.
pub open spec fn behaviour_velocity(b: TargetBehaviour) -> (i32, i32) {
    match b {
        TargetBehaviour::Strafe => (80i32, 0i32),
        TargetBehaviour::PeekLeft => ((-120) as i32, 0i32),
        TargetBehaviour::PeekRight => (120i32, 0i32),
        _ => (0i32, 0i32),
    }
}

impl TargetPose {
    /// The silhouette height of this pose.
    pub fn height(&self) -> (h: u32)
        ensures
            h == pose_height(*self),
    {
        match self {
            TargetPose::Standing => 140,
            TargetPose::Crouched => 95,
            TargetPose::HeadOnly => 35,
            TargetPose::HeadShoulder => 55,
            TargetPose::HalfBodyLeft | TargetPose::HalfBodyRight => 110,
        }
    }

    /// The hitboxes of this pose, head first.
    pub fn hitbox_layout(&self) -> (l: Vec<HitboxSpec>)
        ensures
            l@ == pose_layout(*self),
    {
        let l = match self {
            TargetPose::HeadOnly => vec![
                HitboxSpec { hitbox_type: HitboxType::Head, rel_x_pct: 0, rel_y_pct: 0, width_pct: 100, height_pct: 100, damage_multiplier_x100: 400 },
            ],
            TargetPose::HeadShoulder => vec![
                HitboxSpec { hitbox_type: HitboxType::Head, rel_x_pct: 20, rel_y_pct: 0, width_pct: 60, height_pct: 50, damage_multiplier_x100: 400 },
                HitboxSpec { hitbox_type: HitboxType::UpperChest, rel_x_pct: 0, rel_y_pct: 50, width_pct: 100, height_pct: 50, damage_multiplier_x100: 100 },
            ],
            TargetPose::Standing | TargetPose::HalfBodyLeft | TargetPose::HalfBodyRight => vec![
                HitboxSpec { hitbox_type: HitboxType::Head, rel_x_pct: 25, rel_y_pct: 0, width_pct: 50, height_pct: 22, damage_multiplier_x100: 400 },
                HitboxSpec { hitbox_type: HitboxType::UpperChest, rel_x_pct: 15, rel_y_pct: 22, width_pct: 70, height_pct: 25, damage_multiplier_x100: 100 },
                HitboxSpec { hitbox_type: HitboxType::Stomach, rel_x_pct: 20, rel_y_pct: 47, width_pct: 60, height_pct: 20, damage_multiplier_x100: 125 },
                HitboxSpec { hitbox_type: HitboxType::LeftLeg, rel_x_pct: 15, rel_y_pct: 67, width_pct: 30, height_pct: 33, damage_multiplier_x100: 75 },
                HitboxSpec { hitbox_type: HitboxType::RightLeg, rel_x_pct: 55, rel_y_pct: 67, width_pct: 30, height_pct: 33, damage_multiplier_x100: 75 },
            ],
            TargetPose::Crouched => vec![
                HitboxSpec { hitbox_type: HitboxType::Head, rel_x_pct: 22, rel_y_pct: 0, width_pct: 56, height_pct: 30, damage_multiplier_x100: 400 },
                HitboxSpec { hitbox_type: HitboxType::UpperChest, rel_x_pct: 10, rel_y_pct: 30, width_pct: 80, height_pct: 40, damage_multiplier_x100: 100 },
                HitboxSpec { hitbox_type: HitboxType::LeftLeg, rel_x_pct: 10, rel_y_pct: 70, width_pct: 80, height_pct: 30, damage_multiplier_x100: 75 },
            ],
        };
        proof {
            assert(l@ =~= pose_layout(*self));
        }
        l
    }
}

impl TargetBehaviour {
    /// The velocity a target with this behaviour starts with.
    pub fn initial_velocity(&self) -> (v: (i32, i32))
        ensures
            v == behaviour_velocity(*self),
    {
        match self {
            TargetBehaviour::Strafe => (80, 0),
            TargetBehaviour::PeekLeft => (-120, 0),
            TargetBehaviour::PeekRight => (120, 0),
            _ => (0, 0),
        }
    }
}

/// Head first: every layout tests the head before anything else, and has
/// exactly one head.
pub proof fn lemma_layout_head_first(p: TargetPose)
    ensures
        pose_layout(p).len() >= 1,
        pose_layout(p)[0].hitbox_type == HitboxType::Head,
        forall|i: int| 1 <= i < pose_layout(p).len() ==> #[trigger] pose_layout(p)[i].hitbox_type != HitboxType::Head,
{
}

/// Every hitbox lies within its silhouette's bounding box.
pub proof fn lemma_layout_within_silhouette(p: TargetPose)
    ensures
        forall|i: int| 0 <= i < pose_layout(p).len() ==> {
            &&& #[trigger] pose_layout(p)[i].rel_x_pct + pose_layout(p)[i].width_pct <= 100
            &&& pose_layout(p)[i].rel_y_pct + pose_layout(p)[i].height_pct <= 100
        },
{
}

/// The head multiplies damage by four; no other hitbox multiplies it by more.
pub proof fn lemma_head_deals_most_damage(p: TargetPose)
    ensures
        pose_layout(p)[0].damage_multiplier_x100 == 400,
        forall|i: int| 0 <= i < pose_layout(p).len() ==> #[trigger] pose_layout(p)[i].damage_multiplier_x100 <= 400,
{
}

/// Whether hitbox `h` covers the point `x`, `y` of its silhouette, both in
/// hundredths of the silhouette's width and height.
pub open spec fn covers(h: HitboxSpec, x: int, y: int) -> bool {
    &&& h.rel_x_pct <= x < h.rel_x_pct + h.width_pct
    &&& h.rel_y_pct <= y < h.rel_y_pct + h.height_pct
}

/// No two hitboxes of a silhouette overlap: every point of it belongs to at
/// most one hitbox.
pub proof fn lemma_layout_hitboxes_disjoint(p: TargetPose, x: int, y: int)
    ensures
        forall|i: int, j: int|
            0 <= i < j < pose_layout(p).len() ==> !(covers(#[trigger] pose_layout(p)[i], x, y) && covers(
                #[trigger] pose_layout(p)[j],
                x,
                y,
            )),
{
}

/// A crouched silhouette is compressed into three bands, top to bottom:
/// every point of its central 56 hundredths across the top 30 hundredths
/// is a head hit (times four), every point of its central 80 hundredths
/// from 30 to 70 hundredths down is an upper-chest hit (times one), and
/// below that a leg hit (times three quarters); no other point is hit, and
/// it has no stomach. Its head band is taller, relative to the silhouette,
/// than the standing one.
pub proof fn lemma_crouched_bands(x: int, y: int)
    requires
        0 <= x < 100,
        0 <= y < 100,
    ensures
        pose_layout(TargetPose::Crouched).len() == 3,
        forall|i: int|
            0 <= i < 3 ==> #[trigger] pose_layout(TargetPose::Crouched)[i].hitbox_type != HitboxType::Stomach,
        forall|i: int|
            0 <= i < 3 && covers(#[trigger] pose_layout(TargetPose::Crouched)[i], x, y) ==> {
                let h = pose_layout(TargetPose::Crouched)[i];
                &&& 22 <= x < 78 && y < 30 ==> h.hitbox_type == HitboxType::Head && h.damage_multiplier_x100 == 400
                &&& 30 <= y < 70 ==> h.hitbox_type == HitboxType::UpperChest && h.damage_multiplier_x100 == 100
                &&& 70 <= y ==> (h.hitbox_type == HitboxType::LeftLeg || h.hitbox_type == HitboxType::RightLeg)
                    && h.damage_multiplier_x100 == 75
            },
        (22 <= x < 78 && y < 30) || (10 <= x < 90 && 30 <= y) <==> exists|i: int|
            0 <= i < 3 && covers(#[trigger] pose_layout(TargetPose::Crouched)[i], x, y),
        pose_layout(TargetPose::Crouched)[0].height_pct > pose_layout(TargetPose::Standing)[0].height_pct,
{
    let l = pose_layout(TargetPose::Crouched);
    if (22 <= x < 78 && y < 30) {
        assert(covers(l[0], x, y));
    } else if 10 <= x < 90 && 30 <= y < 70 {
        assert(covers(l[1], x, y));
    } else if 10 <= x < 90 && 70 <= y {
        assert(covers(l[2], x, y));
    }
}

/// A standing or half-body silhouette has five regions, top to bottom: the
/// head (central 50 hundredths, top 22, times four), the upper chest
/// (central 70, down to 47, times one), the stomach (central 60, down to
/// 67, times one and a quarter), then the left leg (15 to 45 across) and
/// the right leg (55 to 85 across), each times three quarters; no other
/// point is hit.
pub proof fn lemma_full_body_regions(p: TargetPose, x: int, y: int)
    requires
        p == TargetPose::Standing || p == TargetPose::HalfBodyLeft || p == TargetPose::HalfBodyRight,
        0 <= x < 100,
        0 <= y < 100,
    ensures
        pose_layout(p).len() == 5,
        forall|i: int|
            0 <= i < 5 && covers(#[trigger] pose_layout(p)[i], x, y) ==> {
                let h = pose_layout(p)[i];
                &&& y < 22 ==> h.hitbox_type == HitboxType::Head && h.damage_multiplier_x100 == 400
                &&& 22 <= y < 47 ==> h.hitbox_type == HitboxType::UpperChest && h.damage_multiplier_x100 == 100
                &&& 47 <= y < 67 ==> h.hitbox_type == HitboxType::Stomach && h.damage_multiplier_x100 == 125
                &&& 67 <= y && x < 50 ==> h.hitbox_type == HitboxType::LeftLeg && h.damage_multiplier_x100 == 75
                &&& 67 <= y && 50 <= x ==> h.hitbox_type == HitboxType::RightLeg && h.damage_multiplier_x100 == 75
            },
        ((25 <= x < 75 && y < 22) || (15 <= x < 85 && 22 <= y < 47) || (20 <= x < 80 && 47 <= y < 67)
            || ((15 <= x < 45 || 55 <= x < 85) && 67 <= y)) <==> (exists|i: int|
            0 <= i < 5 && covers(#[trigger] pose_layout(p)[i], x, y)),
{
    let l = pose_layout(p);
    if 25 <= x < 75 && y < 22 {
        assert(covers(l[0], x, y));
    } else if 15 <= x < 85 && 22 <= y < 47 {
        assert(covers(l[1], x, y));
    } else if 20 <= x < 80 && 47 <= y < 67 {
        assert(covers(l[2], x, y));
    } else if 15 <= x < 45 && 67 <= y {
        assert(covers(l[3], x, y));
    } else if 55 <= x < 85 && 67 <= y {
        assert(covers(l[4], x, y));
    }
}

/// A head-and-shoulders silhouette is a head (central 60 hundredths of the
/// top half, times four) over a full-width upper chest (times one); a
/// head-only silhouette is head everywhere.
pub proof fn lemma_head_poses_regions(x: int, y: int)
    requires
        0 <= x < 100,
        0 <= y < 100,
    ensures
        pose_layout(TargetPose::HeadShoulder).len() == 2,
        forall|i: int|
            0 <= i < 2 && covers(#[trigger] pose_layout(TargetPose::HeadShoulder)[i], x, y) ==> {
                let h = pose_layout(TargetPose::HeadShoulder)[i];
                &&& y < 50 ==> h.hitbox_type == HitboxType::Head && h.damage_multiplier_x100 == 400
                &&& 50 <= y ==> h.hitbox_type == HitboxType::UpperChest && h.damage_multiplier_x100 == 100
            },
        ((20 <= x < 80 && y < 50) || 50 <= y) <==> (exists|i: int|
            0 <= i < 2 && covers(#[trigger] pose_layout(TargetPose::HeadShoulder)[i], x, y)),
        pose_layout(TargetPose::HeadOnly).len() == 1,
        covers(pose_layout(TargetPose::HeadOnly)[0], x, y),
        pose_layout(TargetPose::HeadOnly)[0].hitbox_type == HitboxType::Head,
        pose_layout(TargetPose::HeadOnly)[0].damage_multiplier_x100 == 400,
{
    let l = pose_layout(TargetPose::HeadShoulder);
    if 20 <= x < 80 && y < 50 {
        assert(covers(l[0], x, y));
    } else if 50 <= y {
        assert(covers(l[1], x, y));
    }
}

} // verus!
