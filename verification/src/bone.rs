use vstd::prelude::*;

verus! {

/// The skeleton joints the overlay knows about.
#[derive(Clone, Copy, PartialEq, Eq, Structural, Debug)]
pub enum BoneIndex {
    Head,
    Neck0,
    Spine1,
    Spine2,
    Pelvis,
    ArmUpperL,
    ArmLowerL,
    HandL,
    ArmUpperR,
    ArmLowerR,
    HandR,
    LegUpperL,
    LegLowerL,
    AnkleL,
    LegUpperR,
    LegLowerR,
    AnkleR,
}

impl BoneIndex {
    /// Position of the joint in the game's bone array.
    pub open spec fn slot(self) -> nat {
        match self {
            BoneIndex::Head => 6,
            BoneIndex::Neck0 => 5,
            BoneIndex::Spine1 => 4,
            BoneIndex::Spine2 => 2,
            BoneIndex::Pelvis => 0,
            BoneIndex::ArmUpperL => 8,
            BoneIndex::ArmLowerL => 9,
            BoneIndex::HandL => 10,
            BoneIndex::ArmUpperR => 13,
            BoneIndex::ArmLowerR => 14,
            BoneIndex::HandR => 15,
            BoneIndex::LegUpperL => 22,
            BoneIndex::LegLowerL => 23,
            BoneIndex::AnkleL => 24,
            BoneIndex::LegUpperR => 25,
            BoneIndex::LegLowerR => 26,
            BoneIndex::AnkleR => 27,
        }
    }

    /// The joint's position in the game's bone array.
    pub fn index(self) -> (r: usize)
        ensures
            r == self.slot(),
            r < 30,
    {
        match self {
            BoneIndex::Head => 6,
            BoneIndex::Neck0 => 5,
            BoneIndex::Spine1 => 4,
            BoneIndex::Spine2 => 2,
            BoneIndex::Pelvis => 0,
            BoneIndex::ArmUpperL => 8,
            BoneIndex::ArmLowerL => 9,
            BoneIndex::HandL => 10,
            BoneIndex::ArmUpperR => 13,
            BoneIndex::ArmLowerR => 14,
            BoneIndex::HandR => 15,
            BoneIndex::LegUpperL => 22,
            BoneIndex::LegLowerL => 23,
            BoneIndex::AnkleL => 24,
            BoneIndex::LegUpperR => 25,
            BoneIndex::LegLowerR => 26,
            BoneIndex::AnkleR => 27,
        }
    }
}

/// The joint aimed at for a menu choice: 1 is the neck, 2 the spine,
/// anything else the head.
pub open spec fn aim_bone(aim_position: usize) -> BoneIndex {
    if aim_position == 1 {
        BoneIndex::Neck0
    } else if aim_position == 2 {
        BoneIndex::Spine1
    } else {
        BoneIndex::Head
    }
}

/// Bone array slot of the joint chosen in the aimbot menu.
pub fn aim_position_to_bone_index(aim_position: usize) -> (r: usize)
    ensures
        r == aim_bone(aim_position).slot(),
{
    if aim_position == 1 {
        BoneIndex::Neck0.index()
    } else if aim_position == 2 {
        BoneIndex::Spine1.index()
    } else {
        BoneIndex::Head.index()
    }
}

/// Joints of the trunk, from the head down.
pub fn trunk() -> (r: [BoneIndex; 4])
    ensures
        r@ == seq![BoneIndex::Head, BoneIndex::Neck0, BoneIndex::Spine2, BoneIndex::Pelvis],
{
    [BoneIndex::Head, BoneIndex::Neck0, BoneIndex::Spine2, BoneIndex::Pelvis]
}

/// Joints of the left arm, from the neck out.
pub fn left_arm() -> (r: [BoneIndex; 4])
    ensures
        r@ == seq![BoneIndex::Neck0, BoneIndex::ArmUpperL, BoneIndex::ArmLowerL, BoneIndex::HandL],
{
    [BoneIndex::Neck0, BoneIndex::ArmUpperL, BoneIndex::ArmLowerL, BoneIndex::HandL]
}

/// Joints of the right arm, from the neck out.
pub fn right_arm() -> (r: [BoneIndex; 4])
    ensures
        r@ == seq![BoneIndex::Neck0, BoneIndex::ArmUpperR, BoneIndex::ArmLowerR, BoneIndex::HandR],
{
    [BoneIndex::Neck0, BoneIndex::ArmUpperR, BoneIndex::ArmLowerR, BoneIndex::HandR]
}

/// Joints of the left leg, from the pelvis down.
pub fn left_leg() -> (r: [BoneIndex; 4])
    ensures
        r@ == seq![BoneIndex::Pelvis, BoneIndex::LegUpperL, BoneIndex::LegLowerL, BoneIndex::AnkleL],
{
    [BoneIndex::Pelvis, BoneIndex::LegUpperL, BoneIndex::LegLowerL, BoneIndex::AnkleL]
}

/// Joints of the right leg, from the pelvis down.
pub fn right_leg() -> (r: [BoneIndex; 4])
    ensures
        r@ == seq![BoneIndex::Pelvis, BoneIndex::LegUpperR, BoneIndex::LegLowerR, BoneIndex::AnkleR],
{
    [BoneIndex::Pelvis, BoneIndex::LegUpperR, BoneIndex::LegLowerR, BoneIndex::AnkleR]
}

/// The five limbs drawn as skeleton lines: trunk, arms, legs.
pub fn bone_joint_list() -> (r: [[BoneIndex; 4]; 5])
    ensures
        r@[0]@ == seq![BoneIndex::Head, BoneIndex::Neck0, BoneIndex::Spine2, BoneIndex::Pelvis],
        r@[1]@ == seq![BoneIndex::Neck0, BoneIndex::ArmUpperL, BoneIndex::ArmLowerL, BoneIndex::HandL],
        r@[2]@ == seq![BoneIndex::Neck0, BoneIndex::ArmUpperR, BoneIndex::ArmLowerR, BoneIndex::HandR],
        r@[3]@ == seq![BoneIndex::Pelvis, BoneIndex::LegUpperL, BoneIndex::LegLowerL, BoneIndex::AnkleL],
        r@[4]@ == seq![BoneIndex::Pelvis, BoneIndex::LegUpperR, BoneIndex::LegLowerR, BoneIndex::AnkleR],
{
    [trunk(), left_arm(), right_arm(), left_leg(), right_leg()]
}

} // verus!
