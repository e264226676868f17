//! The entity canonicalizer: the bidirectional mapping between a generic
//! point-mass rig and the compact sled descriptor (position + velocity).
//!
//! The canonical default rig shape is kept here as a constant data table;
//! the values are the binary64 bit patterns of the default sled-and-rider
//! rig that the compact descriptor expands into.

use vstd::prelude::*;

use crate::floats::{add_bits, sub_bits, fadd, fsub};
use crate::model::{
    Vec2, PointIndex, RigPoint, RigBoneType, RigBone, RigJoint, PointPair, Rig, BoshTFEntity,
    spec_find_point,
};

verus! {

/// The ten points of the canonical default rig shape.
pub open spec fn spec_default_points() -> Seq<(PointIndex, RigPoint)> {
    seq![
        (
            PointIndex::SledPeg,
            RigPoint {
                previous_location: Vec2 { x: 0xbfd999999999999au64, y: 0x0000000000000000u64 },
                location: Vec2 { x: 0x0000000000000000u64, y: 0x0000000000000000u64 },
                momentum: Vec2 { x: 0x3fd999999999999au64, y: 0x0000000000000000u64 },
                friction: 0x3fe999999999999au64,
            },
        ),
        (
            PointIndex::SledTail,
            RigPoint {
                previous_location: Vec2 { x: 0xbfd999999999999au64, y: 0x4014000000000000u64 },
                location: Vec2 { x: 0x0000000000000000u64, y: 0x4014000000000000u64 },
                momentum: Vec2 { x: 0x3fd999999999999au64, y: 0x0000000000000000u64 },
                friction: 0x0000000000000000u64,
            },
        ),
        (
            PointIndex::SledNose,
            RigPoint {
                previous_location: Vec2 { x: 0x402d333333333333u64, y: 0x4014000000000000u64 },
                location: Vec2 { x: 0x402e000000000000u64, y: 0x4014000000000000u64 },
                momentum: Vec2 { x: 0x3fd999999999999au64, y: 0x0000000000000000u64 },
                friction: 0x0000000000000000u64,
            },
        ),
        (
            PointIndex::SledRope,
            RigPoint {
                previous_location: Vec2 { x: 0x403119999999999au64, y: 0x0000000000000000u64 },
                location: Vec2 { x: 0x4031800000000000u64, y: 0x0000000000000000u64 },
                momentum: Vec2 { x: 0x3fd999999999999au64, y: 0x0000000000000000u64 },
                friction: 0x0000000000000000u64,
            },
        ),
        (
            PointIndex::BoshLeftFoot,
            RigPoint {
                previous_location: Vec2 { x: 0x4023333333333333u64, y: 0x4014000000000000u64 },
                location: Vec2 { x: 0x4024000000000000u64, y: 0x4014000000000000u64 },
                momentum: Vec2 { x: 0x3fd999999999999au64, y: 0x0000000000000000u64 },
                friction: 0x0000000000000000u64,
            },
        ),
        (
            PointIndex::BoshRightFoot,
            RigPoint {
                previous_location: Vec2 { x: 0x4023333333333333u64, y: 0x4014000000000000u64 },
                location: Vec2 { x: 0x4024000000000000u64, y: 0x4014000000000000u64 },
                momentum: Vec2 { x: 0x3fd999999999999au64, y: 0x0000000000000000u64 },
                friction: 0x0000000000000000u64,
            },
        ),
        (
            PointIndex::BoshLeftHand,
            RigPoint {
                previous_location: Vec2 { x: 0x4026333333333333u64, y: 0xc014000000000000u64 },
                location: Vec2 { x: 0x4027000000000000u64, y: 0xc014000000000000u64 },
                momentum: Vec2 { x: 0x3fd999999999999au64, y: 0x0000000000000000u64 },
                friction: 0x3fb999999999999au64,
            },
        ),
        (
            PointIndex::BoshRightHand,
            RigPoint {
                previous_location: Vec2 { x: 0x4026333333333333u64, y: 0xc014000000000000u64 },
                location: Vec2 { x: 0x4027000000000000u64, y: 0xc014000000000000u64 },
                momentum: Vec2 { x: 0x3fd999999999999au64, y: 0x0000000000000000u64 },
                friction: 0x3fb999999999999au64,
            },
        ),
        (
            PointIndex::BoshShoulder,
            RigPoint {
                previous_location: Vec2 { x: 0x4012666666666666u64, y: 0xc016000000000000u64 },
                location: Vec2 { x: 0x4014000000000000u64, y: 0xc016000000000000u64 },
                momentum: Vec2 { x: 0x3fd999999999999au64, y: 0x0000000000000000u64 },
                friction: 0x3fe999999999999au64,
            },
        ),
        (
            PointIndex::BoshButt,
            RigPoint {
                previous_location: Vec2 { x: 0x4012666666666666u64, y: 0x0000000000000000u64 },
                location: Vec2 { x: 0x4014000000000000u64, y: 0x0000000000000000u64 },
                momentum: Vec2 { x: 0x3fd999999999999au64, y: 0x0000000000000000u64 },
                friction: 0x3fe999999999999au64,
            },
        )
    ]
}

/// The twenty-two constraints of the canonical default rig shape.
pub open spec fn spec_default_bones() -> Seq<RigBone> {
    seq![
        RigBone {
            p1: PointIndex::SledPeg,
            p2: PointIndex::SledTail,
            resting_length: 0x4014000000000000u64,
            bone_type: RigBoneType::Normal,
        },
        RigBone {
            p1: PointIndex::SledTail,
            p2: PointIndex::SledNose,
            resting_length: 0x402e000000000000u64,
            bone_type: RigBoneType::Normal,
        },
        RigBone {
            p1: PointIndex::SledNose,
            p2: PointIndex::SledRope,
            resting_length: 0x40165c55827df1d2u64,
            bone_type: RigBoneType::Normal,
        },
        RigBone {
            p1: PointIndex::SledRope,
            p2: PointIndex::SledPeg,
            resting_length: 0x4031800000000000u64,
            bone_type: RigBoneType::Normal,
        },
        RigBone {
            p1: PointIndex::SledPeg,
            p2: PointIndex::SledNose,
            resting_length: 0x402f9f6e4990f227u64,
            bone_type: RigBoneType::Normal,
        },
        RigBone {
            p1: PointIndex::SledRope,
            p2: PointIndex::SledTail,
            resting_length: 0x40323345344a5d72u64,
            bone_type: RigBoneType::Normal,
        },
        RigBone {
            p1: PointIndex::SledPeg,
            p2: PointIndex::BoshButt,
            resting_length: 0x4014000000000000u64,
            bone_type: RigBoneType::Mount { endurance: 0x3fad2f1a9fbe76c9u64 },
        },
        RigBone {
            p1: PointIndex::SledTail,
            p2: PointIndex::BoshButt,
            resting_length: 0x401c48c6001f0ac0u64,
            bone_type: RigBoneType::Mount { endurance: 0x3fad2f1a9fbe76c9u64 },
        },
        RigBone {
            p1: PointIndex::SledNose,
            p2: PointIndex::BoshButt,
            resting_length: 0x40265c55827df1d2u64,
            bone_type: RigBoneType::Mount { endurance: 0x3fad2f1a9fbe76c9u64 },
        },
        RigBone {
            p1: PointIndex::BoshShoulder,
            p2: PointIndex::BoshButt,
            resting_length: 0x4016000000000000u64,
            bone_type: RigBoneType::Normal,
        },
        RigBone {
            p1: PointIndex::BoshShoulder,
            p2: PointIndex::BoshLeftHand,
            resting_length: 0x401a13a9cb996651u64,
            bone_type: RigBoneType::Normal,
        },
        RigBone {
            p1: PointIndex::BoshShoulder,
            p2: PointIndex::BoshRightHand,
            resting_length: 0x401a13a9cb996651u64,
            bone_type: RigBoneType::Normal,
        },
        RigBone {
            p1: PointIndex::BoshButt,
            p2: PointIndex::BoshLeftFoot,
            resting_length: 0x401c48c6001f0ac0u64,
            bone_type: RigBoneType::Normal,
        },
        RigBone {
            p1: PointIndex::BoshButt,
            p2: PointIndex::BoshRightFoot,
            resting_length: 0x401c48c6001f0ac0u64,
            bone_type: RigBoneType::Normal,
        },
        RigBone {
            p1: PointIndex::BoshShoulder,
            p2: PointIndex::BoshRightHand,
            resting_length: 0x401a13a9cb996651u64,
            bone_type: RigBoneType::Normal,
        },
        RigBone {
            p1: PointIndex::BoshShoulder,
            p2: PointIndex::SledPeg,
            resting_length: 0x401dbb6d5ce3a42fu64,
            bone_type: RigBoneType::Mount { endurance: 0x3fad2f1a9fbe76c9u64 },
        },
        RigBone {
            p1: PointIndex::SledRope,
            p2: PointIndex::BoshLeftHand,
            resting_length: 0x401f3db2174e7468u64,
            bone_type: RigBoneType::Mount { endurance: 0x3fad2f1a9fbe76c9u64 },
        },
        RigBone {
            p1: PointIndex::SledRope,
            p2: PointIndex::BoshRightHand,
            resting_length: 0x401f3db2174e7468u64,
            bone_type: RigBoneType::Mount { endurance: 0x3fad2f1a9fbe76c9u64 },
        },
        RigBone {
            p1: PointIndex::BoshLeftFoot,
            p2: PointIndex::SledNose,
            resting_length: 0x4014000000000000u64,
            bone_type: RigBoneType::Mount { endurance: 0x3fad2f1a9fbe76c9u64 },
        },
        RigBone {
            p1: PointIndex::BoshRightFoot,
            p2: PointIndex::SledNose,
            resting_length: 0x4014000000000000u64,
            bone_type: RigBoneType::Mount { endurance: 0x3fad2f1a9fbe76c9u64 },
        },
        RigBone {
            p1: PointIndex::BoshShoulder,
            p2: PointIndex::BoshLeftFoot,
            resting_length: 0x402742687a3989ffu64,
            bone_type: RigBoneType::Repel { length_factor: 0x3fe0000000000000u64 },
        },
        RigBone {
            p1: PointIndex::BoshShoulder,
            p2: PointIndex::BoshRightFoot,
            resting_length: 0x402742687a3989ffu64,
            bone_type: RigBoneType::Repel { length_factor: 0x3fe0000000000000u64 },
        }
    ]
}

/// The two joints of the canonical default rig shape.
pub open spec fn spec_default_joints() -> Seq<RigJoint> {
    seq![
        RigJoint {
            pair1: PointPair { a: PointIndex::BoshShoulder, b: PointIndex::BoshButt },
            pair2: PointPair { a: PointIndex::SledRope, b: PointIndex::SledPeg },
        },
        RigJoint {
            pair1: PointPair { a: PointIndex::SledPeg, b: PointIndex::SledTail },
            pair2: PointPair { a: PointIndex::SledRope, b: PointIndex::SledPeg },
        }
    ]
}

/// Builds the canonical default rig.
pub fn default_rig() -> (r: Rig)
    ensures
        r.points@ =~= spec_default_points(),
        r.bones@ =~= spec_default_bones(),
        r.joints@ =~= spec_default_joints(),
        r.wf(),
{
    let mut points: Vec<(PointIndex, RigPoint)> = Vec::new();
    points.push(
        (
            PointIndex::SledPeg,
            RigPoint {
                previous_location: Vec2 { x: 0xbfd999999999999au64, y: 0x0000000000000000u64 },
                location: Vec2 { x: 0x0000000000000000u64, y: 0x0000000000000000u64 },
                momentum: Vec2 { x: 0x3fd999999999999au64, y: 0x0000000000000000u64 },
                friction: 0x3fe999999999999au64,
            },
        ),
    );
    points.push(
        (
            PointIndex::SledTail,
            RigPoint {
                previous_location: Vec2 { x: 0xbfd999999999999au64, y: 0x4014000000000000u64 },
                location: Vec2 { x: 0x0000000000000000u64, y: 0x4014000000000000u64 },
                momentum: Vec2 { x: 0x3fd999999999999au64, y: 0x0000000000000000u64 },
                friction: 0x0000000000000000u64,
            },
        ),
    );
    points.push(
        (
            PointIndex::SledNose,
            RigPoint {
                previous_location: Vec2 { x: 0x402d333333333333u64, y: 0x4014000000000000u64 },
                location: Vec2 { x: 0x402e000000000000u64, y: 0x4014000000000000u64 },
                momentum: Vec2 { x: 0x3fd999999999999au64, y: 0x0000000000000000u64 },
                friction: 0x0000000000000000u64,
            },
        ),
    );
    points.push(
        (
            PointIndex::SledRope,
            RigPoint {
                previous_location: Vec2 { x: 0x403119999999999au64, y: 0x0000000000000000u64 },
                location: Vec2 { x: 0x4031800000000000u64, y: 0x0000000000000000u64 },
                momentum: Vec2 { x: 0x3fd999999999999au64, y: 0x0000000000000000u64 },
                friction: 0x0000000000000000u64,
            },
        ),
    );
    points.push(
        (
            PointIndex::BoshLeftFoot,
            RigPoint {
                previous_location: Vec2 { x: 0x4023333333333333u64, y: 0x4014000000000000u64 },
                location: Vec2 { x: 0x4024000000000000u64, y: 0x4014000000000000u64 },
                momentum: Vec2 { x: 0x3fd999999999999au64, y: 0x0000000000000000u64 },
                friction: 0x0000000000000000u64,
            },
        ),
    );
    points.push(
        (
            PointIndex::BoshRightFoot,
            RigPoint {
                previous_location: Vec2 { x: 0x4023333333333333u64, y: 0x4014000000000000u64 },
                location: Vec2 { x: 0x4024000000000000u64, y: 0x4014000000000000u64 },
                momentum: Vec2 { x: 0x3fd999999999999au64, y: 0x0000000000000000u64 },
                friction: 0x0000000000000000u64,
            },
        ),
    );
    points.push(
        (
            PointIndex::BoshLeftHand,
            RigPoint {
                previous_location: Vec2 { x: 0x4026333333333333u64, y: 0xc014000000000000u64 },
                location: Vec2 { x: 0x4027000000000000u64, y: 0xc014000000000000u64 },
                momentum: Vec2 { x: 0x3fd999999999999au64, y: 0x0000000000000000u64 },
                friction: 0x3fb999999999999au64,
            },
        ),
    );
    points.push(
        (
            PointIndex::BoshRightHand,
            RigPoint {
                previous_location: Vec2 { x: 0x4026333333333333u64, y: 0xc014000000000000u64 },
                location: Vec2 { x: 0x4027000000000000u64, y: 0xc014000000000000u64 },
                momentum: Vec2 { x: 0x3fd999999999999au64, y: 0x0000000000000000u64 },
                friction: 0x3fb999999999999au64,
            },
        ),
    );
    points.push(
        (
            PointIndex::BoshShoulder,
            RigPoint {
                previous_location: Vec2 { x: 0x4012666666666666u64, y: 0xc016000000000000u64 },
                location: Vec2 { x: 0x4014000000000000u64, y: 0xc016000000000000u64 },
                momentum: Vec2 { x: 0x3fd999999999999au64, y: 0x0000000000000000u64 },
                friction: 0x3fe999999999999au64,
            },
        ),
    );
    points.push(
        (
            PointIndex::BoshButt,
            RigPoint {
                previous_location: Vec2 { x: 0x4012666666666666u64, y: 0x0000000000000000u64 },
                location: Vec2 { x: 0x4014000000000000u64, y: 0x0000000000000000u64 },
                momentum: Vec2 { x: 0x3fd999999999999au64, y: 0x0000000000000000u64 },
                friction: 0x3fe999999999999au64,
            },
        ),
    );

    let mut bones: Vec<RigBone> = Vec::new();
    bones.push(
        RigBone {
            p1: PointIndex::SledPeg,
            p2: PointIndex::SledTail,
            resting_length: 0x4014000000000000u64,
            bone_type: RigBoneType::Normal,
        },
    );
    bones.push(
        RigBone {
            p1: PointIndex::SledTail,
            p2: PointIndex::SledNose,
            resting_length: 0x402e000000000000u64,
            bone_type: RigBoneType::Normal,
        },
    );
    bones.push(
        RigBone {
            p1: PointIndex::SledNose,
            p2: PointIndex::SledRope,
            resting_length: 0x40165c55827df1d2u64,
            bone_type: RigBoneType::Normal,
        },
    );
    bones.push(
        RigBone {
            p1: PointIndex::SledRope,
            p2: PointIndex::SledPeg,
            resting_length: 0x4031800000000000u64,
            bone_type: RigBoneType::Normal,
        },
    );
    bones.push(
        RigBone {
            p1: PointIndex::SledPeg,
            p2: PointIndex::SledNose,
            resting_length: 0x402f9f6e4990f227u64,
            bone_type: RigBoneType::Normal,
        },
    );
    bones.push(
        RigBone {
            p1: PointIndex::SledRope,
            p2: PointIndex::SledTail,
            resting_length: 0x40323345344a5d72u64,
            bone_type: RigBoneType::Normal,
        },
    );
    bones.push(
        RigBone {
            p1: PointIndex::SledPeg,
            p2: PointIndex::BoshButt,
            resting_length: 0x4014000000000000u64,
            bone_type: RigBoneType::Mount { endurance: 0x3fad2f1a9fbe76c9u64 },
        },
    );
    bones.push(
        RigBone {
            p1: PointIndex::SledTail,
            p2: PointIndex::BoshButt,
            resting_length: 0x401c48c6001f0ac0u64,
            bone_type: RigBoneType::Mount { endurance: 0x3fad2f1a9fbe76c9u64 },
        },
    );
    bones.push(
        RigBone {
            p1: PointIndex::SledNose,
            p2: PointIndex::BoshButt,
            resting_length: 0x40265c55827df1d2u64,
            bone_type: RigBoneType::Mount { endurance: 0x3fad2f1a9fbe76c9u64 },
        },
    );
    bones.push(
        RigBone {
            p1: PointIndex::BoshShoulder,
            p2: PointIndex::BoshButt,
            resting_length: 0x4016000000000000u64,
            bone_type: RigBoneType::Normal,
        },
    );
    bones.push(
        RigBone {
            p1: PointIndex::BoshShoulder,
            p2: PointIndex::BoshLeftHand,
            resting_length: 0x401a13a9cb996651u64,
            bone_type: RigBoneType::Normal,
        },
    );
    bones.push(
        RigBone {
            p1: PointIndex::BoshShoulder,
            p2: PointIndex::BoshRightHand,
            resting_length: 0x401a13a9cb996651u64,
            bone_type: RigBoneType::Normal,
        },
    );
    bones.push(
        RigBone {
            p1: PointIndex::BoshButt,
            p2: PointIndex::BoshLeftFoot,
            resting_length: 0x401c48c6001f0ac0u64,
            bone_type: RigBoneType::Normal,
        },
    );
    bones.push(
        RigBone {
            p1: PointIndex::BoshButt,
            p2: PointIndex::BoshRightFoot,
            resting_length: 0x401c48c6001f0ac0u64,
            bone_type: RigBoneType::Normal,
        },
    );
    bones.push(
        RigBone {
            p1: PointIndex::BoshShoulder,
            p2: PointIndex::BoshRightHand,
            resting_length: 0x401a13a9cb996651u64,
            bone_type: RigBoneType::Normal,
        },
    );
    bones.push(
        RigBone {
            p1: PointIndex::BoshShoulder,
            p2: PointIndex::SledPeg,
            resting_length: 0x401dbb6d5ce3a42fu64,
            bone_type: RigBoneType::Mount { endurance: 0x3fad2f1a9fbe76c9u64 },
        },
    );
    bones.push(
        RigBone {
            p1: PointIndex::SledRope,
            p2: PointIndex::BoshLeftHand,
            resting_length: 0x401f3db2174e7468u64,
            bone_type: RigBoneType::Mount { endurance: 0x3fad2f1a9fbe76c9u64 },
        },
    );
    bones.push(
        RigBone {
            p1: PointIndex::SledRope,
            p2: PointIndex::BoshRightHand,
            resting_length: 0x401f3db2174e7468u64,
            bone_type: RigBoneType::Mount { endurance: 0x3fad2f1a9fbe76c9u64 },
        },
    );
    bones.push(
        RigBone {
            p1: PointIndex::BoshLeftFoot,
            p2: PointIndex::SledNose,
            resting_length: 0x4014000000000000u64,
            bone_type: RigBoneType::Mount { endurance: 0x3fad2f1a9fbe76c9u64 },
        },
    );
    bones.push(
        RigBone {
            p1: PointIndex::BoshRightFoot,
            p2: PointIndex::SledNose,
            resting_length: 0x4014000000000000u64,
            bone_type: RigBoneType::Mount { endurance: 0x3fad2f1a9fbe76c9u64 },
        },
    );
    bones.push(
        RigBone {
            p1: PointIndex::BoshShoulder,
            p2: PointIndex::BoshLeftFoot,
            resting_length: 0x402742687a3989ffu64,
            bone_type: RigBoneType::Repel { length_factor: 0x3fe0000000000000u64 },
        },
    );
    bones.push(
        RigBone {
            p1: PointIndex::BoshShoulder,
            p2: PointIndex::BoshRightFoot,
            resting_length: 0x402742687a3989ffu64,
            bone_type: RigBoneType::Repel { length_factor: 0x3fe0000000000000u64 },
        },
    );

    let mut joints: Vec<RigJoint> = Vec::new();
    joints.push(
        RigJoint {
            pair1: PointPair { a: PointIndex::BoshShoulder, b: PointIndex::BoshButt },
            pair2: PointPair { a: PointIndex::SledRope, b: PointIndex::SledPeg },
        },
    );
    joints.push(
        RigJoint {
            pair1: PointPair { a: PointIndex::SledPeg, b: PointIndex::SledTail },
            pair2: PointPair { a: PointIndex::SledRope, b: PointIndex::SledPeg },
        },
    );

    let r = Rig { points, bones, joints };
    assert(r.points@ =~= spec_default_points());
    assert(r.wf());
    r
}

/// The implicit velocity of a rig point: `previous_location - location`,
/// componentwise binary64 subtraction.
pub open spec fn spec_point_velocity(p: RigPoint) -> Vec2 {
    Vec2 {
        x: sub_bits(p.previous_location.x, p.location.x),
        y: sub_bits(p.previous_location.y, p.location.y),
    }
}

/// A default-rig point translated by `position`, with its previous
/// location set so that the whole rig moves with `velocity`.
pub open spec fn spec_translate_point(p: RigPoint, position: Vec2, velocity: Vec2) -> RigPoint {
    let loc = Vec2 {
        x: add_bits(p.location.x, position.x),
        y: add_bits(p.location.y, position.y),
    };
    RigPoint {
        previous_location: Vec2 {
            x: sub_bits(loc.x, velocity.x),
            y: sub_bits(loc.y, velocity.y),
        },
        location: loc,
        momentum: p.momentum,
        friction: p.friction,
    }
}

/// A rig point translated back by `origin` (both locations).
pub open spec fn spec_untranslate_point(p: RigPoint, origin: Vec2) -> RigPoint {
    RigPoint {
        previous_location: Vec2 {
            x: sub_bits(p.previous_location.x, origin.x),
            y: sub_bits(p.previous_location.y, origin.y),
        },
        location: Vec2 {
            x: sub_bits(p.location.x, origin.x),
            y: sub_bits(p.location.y, origin.y),
        },
        momentum: p.momentum,
        friction: p.friction,
    }
}

/// Every point of the rig moves with velocity `v`.
pub open spec fn spec_uniform_velocity(s: Seq<(PointIndex, RigPoint)>, v: Vec2) -> bool {
    forall|i: int| 0 <= i < s.len() ==> spec_point_velocity(#[trigger] s[i].1) == v
}

/// The rig's point bound to `idx`, translated back by `origin`, is
/// exactly the default-rig point bound to `idx` (both present, or both
/// absent).
pub open spec fn spec_point_restores_default(rig: Rig, idx: PointIndex, origin: Vec2) -> bool {
    match (spec_find_point(rig.points@, idx), spec_find_point(spec_default_points(), idx)) {
        (Some(p), Some(d)) => spec_untranslate_point(p, origin) == d,
        (None, None) => true,
        _ => false,
    }
}

/// The rig, translated back by `origin`, is structurally identical to the
/// canonical default rig: point for point, bone for bone, joint for joint.
pub open spec fn spec_matches_default(rig: Rig, origin: Vec2) -> bool {
    &&& forall|idx: PointIndex| #[trigger] spec_point_restores_default(rig, idx, origin)
    &&& rig.bones@ == spec_default_bones()
    &&& rig.joints@ == spec_default_joints()
}

/// The canonicalization rule: a rig collapses to the compact sled
/// descriptor exactly when it has the peg point, all of its points move
/// with the peg's velocity, and translating it back by the peg's location
/// restores the default rig shape; any other rig is kept unchanged as a
/// custom entity.
pub open spec fn spec_to_compact(rig: Rig) -> BoshTFEntity {
    match spec_find_point(rig.points@, PointIndex::SledPeg) {
        None => BoshTFEntity::Custom(rig),
        Some(peg) => {
            let velocity = spec_point_velocity(peg);
            if spec_uniform_velocity(rig.points@, velocity) && spec_matches_default(
                rig,
                peg.location,
            ) {
                BoshTFEntity::BoshSled { velocity, position: peg.location }
            } else {
                BoshTFEntity::Custom(rig)
            }
        },
    }
}

fn bones_eq(a: &Vec<RigBone>, b: &Vec<RigBone>) -> (r: bool)
    ensures
        r == (a@ == b@),
{
    if a.len() != b.len() {
        assert(a@ != b@);
        return false;
    }
    let mut i: usize = 0;
    while i < a.len()
        invariant
            0 <= i <= a@.len(),
            a@.len() == b@.len(),
            forall|j: int| 0 <= j < i ==> a@[j] == b@[j],
        decreases a@.len() - i,
    {
        if a[i] != b[i] {
            assert(a@ != b@);
            return false;
        }
        i = i + 1;
    }
    assert(a@ =~= b@);
    true
}

fn joints_eq(a: &Vec<RigJoint>, b: &Vec<RigJoint>) -> (r: bool)
    ensures
        r == (a@ == b@),
{
    if a.len() != b.len() {
        assert(a@ != b@);
        return false;
    }
    let mut i: usize = 0;
    while i < a.len()
        invariant
            0 <= i <= a@.len(),
            a@.len() == b@.len(),
            forall|j: int| 0 <= j < i ==> a@[j] == b@[j],
        decreases a@.len() - i,
    {
        if a[i] != b[i] {
            assert(a@ != b@);
            return false;
        }
        i = i + 1;
    }
    assert(a@ =~= b@);
    true
}

/// True exactly when the rig's point at `idx`, translated back by
/// `origin`, equals the default rig's point at `idx`.
fn point_restores_default(rig: &Rig, idx: PointIndex, origin: Vec2, expected: RigPoint) -> (r:
    bool)
    requires
        spec_find_point(spec_default_points(), idx) == Some(expected),
    ensures
        r == spec_point_restores_default(*rig, idx, origin),
{
    match rig.point_at(idx) {
        None => false,
        Some(p) => {
            let u = RigPoint {
                previous_location: Vec2 {
                    x: fsub(p.previous_location.x, origin.x),
                    y: fsub(p.previous_location.y, origin.y),
                },
                location: Vec2 { x: fsub(p.location.x, origin.x), y: fsub(p.location.y, origin.y) },
                momentum: p.momentum,
                friction: p.friction,
            };
            u == expected
        },
    }
}

/// Where each named point sits in the default table.
proof fn lemma_default_lookup()
    ensures
        forall|idx: PointIndex| #[trigger]
            spec_find_point(spec_default_points(), idx) == Some(
                spec_default_points()[default_slot(idx)].1,
            ),
        forall|idx: PointIndex| spec_default_points()[#[trigger] default_slot(idx)].0 == idx,
{
    reveal_with_fuel(spec_find_point, 11);
    assert forall|idx: PointIndex| #[trigger]
        spec_find_point(spec_default_points(), idx) == Some(
            spec_default_points()[default_slot(idx)].1,
        ) by {
        match idx {
            PointIndex::SledPeg => assert(spec_find_point(spec_default_points(), idx) == Some(
                spec_default_points()[0].1,
            )),
            PointIndex::SledTail => assert(spec_find_point(spec_default_points(), idx) == Some(
                spec_default_points()[1].1,
            )),
            PointIndex::SledNose => assert(spec_find_point(spec_default_points(), idx) == Some(
                spec_default_points()[2].1,
            )),
            PointIndex::SledRope => assert(spec_find_point(spec_default_points(), idx) == Some(
                spec_default_points()[3].1,
            )),
            PointIndex::BoshLeftFoot => assert(spec_find_point(spec_default_points(), idx) == Some(
                spec_default_points()[4].1,
            )),
            PointIndex::BoshRightFoot => assert(spec_find_point(spec_default_points(), idx)
                == Some(spec_default_points()[5].1)),
            PointIndex::BoshLeftHand => assert(spec_find_point(spec_default_points(), idx) == Some(
                spec_default_points()[6].1,
            )),
            PointIndex::BoshRightHand => assert(spec_find_point(spec_default_points(), idx)
                == Some(spec_default_points()[7].1)),
            PointIndex::BoshShoulder => assert(spec_find_point(spec_default_points(), idx) == Some(
                spec_default_points()[8].1,
            )),
            PointIndex::BoshButt => assert(spec_find_point(spec_default_points(), idx) == Some(
                spec_default_points()[9].1,
            )),
        }
    }
}

/// Position of each named point in the default table.
pub open spec fn default_slot(idx: PointIndex) -> int {
    match idx {
        PointIndex::SledPeg => 0,
        PointIndex::SledTail => 1,
        PointIndex::SledNose => 2,
        PointIndex::SledRope => 3,
        PointIndex::BoshLeftFoot => 4,
        PointIndex::BoshRightFoot => 5,
        PointIndex::BoshLeftHand => 6,
        PointIndex::BoshRightHand => 7,
        PointIndex::BoshShoulder => 8,
        PointIndex::BoshButt => 9,
    }
}

/// Encoding direction of the canonicalizer: classify a generic rig,
/// collapsing it to the compact sled descriptor when it is an exact
/// rigid-body translation of the default rig shape, and keeping it
/// unchanged as a custom entity otherwise.
pub fn to_compact(rig: Rig) -> (r: BoshTFEntity)
    requires
        rig.wf(),
    ensures
        r == spec_to_compact(rig),
{
    let peg = match rig.point_at(PointIndex::SledPeg) {
        Some(p) => p,
        None => {
            return BoshTFEntity::Custom(rig);
        },
    };
    let velocity = Vec2 {
        x: fsub(peg.previous_location.x, peg.location.x),
        y: fsub(peg.previous_location.y, peg.location.y),
    };
    let position = peg.location;

    let mut i: usize = 0;
    while i < rig.points.len()
        invariant
            0 <= i <= rig.points@.len(),
            spec_find_point(rig.points@, PointIndex::SledPeg) == Some(peg),
            velocity == spec_point_velocity(peg),
            forall|j: int| 0 <= j < i ==> spec_point_velocity(#[trigger] rig.points@[j].1)
                == velocity,
        decreases rig.points@.len() - i,
    {
        let p = rig.points[i].1;
        let pv = Vec2 {
            x: fsub(p.previous_location.x, p.location.x),
            y: fsub(p.previous_location.y, p.location.y),
        };
        if pv != velocity {
            assert(spec_point_velocity(rig.points@[i as int].1) != velocity);
            assert(!spec_uniform_velocity(rig.points@, velocity));
            return BoshTFEntity::Custom(rig);
        }
        i = i + 1;
    }
    assert(spec_uniform_velocity(rig.points@, velocity));

    proof {
        lemma_default_lookup();
    }
    let def = default_rig();
    let points_ok = point_restores_default(&rig, PointIndex::SledPeg, position, def.points[0].1)
        && point_restores_default(&rig, PointIndex::SledTail, position, def.points[1].1)
        && point_restores_default(&rig, PointIndex::SledNose, position, def.points[2].1)
        && point_restores_default(&rig, PointIndex::SledRope, position, def.points[3].1)
        && point_restores_default(&rig, PointIndex::BoshLeftFoot, position, def.points[4].1)
        && point_restores_default(&rig, PointIndex::BoshRightFoot, position, def.points[5].1)
        && point_restores_default(&rig, PointIndex::BoshLeftHand, position, def.points[6].1)
        && point_restores_default(&rig, PointIndex::BoshRightHand, position, def.points[7].1)
        && point_restores_default(&rig, PointIndex::BoshShoulder, position, def.points[8].1)
        && point_restores_default(&rig, PointIndex::BoshButt, position, def.points[9].1);
    if !points_ok {
        assert(!spec_matches_default(rig, position)) by {
            if spec_matches_default(rig, position) {
                assert(spec_point_restores_default(rig, PointIndex::SledPeg, position));
                assert(spec_point_restores_default(rig, PointIndex::SledTail, position));
                assert(spec_point_restores_default(rig, PointIndex::SledNose, position));
                assert(spec_point_restores_default(rig, PointIndex::SledRope, position));
                assert(spec_point_restores_default(rig, PointIndex::BoshLeftFoot, position));
                assert(spec_point_restores_default(rig, PointIndex::BoshRightFoot, position));
                assert(spec_point_restores_default(rig, PointIndex::BoshLeftHand, position));
                assert(spec_point_restores_default(rig, PointIndex::BoshRightHand, position));
                assert(spec_point_restores_default(rig, PointIndex::BoshShoulder, position));
                assert(spec_point_restores_default(rig, PointIndex::BoshButt, position));
            }
        }
        return BoshTFEntity::Custom(rig);
    }
    let shape_ok = bones_eq(&rig.bones, &def.bones) && joints_eq(&rig.joints, &def.joints);
    if !shape_ok {
        return BoshTFEntity::Custom(rig);
    }
    assert(spec_matches_default(rig, position)) by {
        assert forall|idx: PointIndex| #[trigger]
            spec_point_restores_default(rig, idx, position) by {
            match idx {
                PointIndex::SledPeg => assert(spec_point_restores_default(rig, idx, position)),
                PointIndex::SledTail => assert(spec_point_restores_default(rig, idx, position)),
                PointIndex::SledNose => assert(spec_point_restores_default(rig, idx, position)),
                PointIndex::SledRope => assert(spec_point_restores_default(rig, idx, position)),
                PointIndex::BoshLeftFoot => assert(spec_point_restores_default(
                    rig,
                    idx,
                    position,
                )),
                PointIndex::BoshRightFoot => assert(spec_point_restores_default(
                    rig,
                    idx,
                    position,
                )),
                PointIndex::BoshLeftHand => assert(spec_point_restores_default(
                    rig,
                    idx,
                    position,
                )),
                PointIndex::BoshRightHand => assert(spec_point_restores_default(
                    rig,
                    idx,
                    position,
                )),
                PointIndex::BoshShoulder => assert(spec_point_restores_default(
                    rig,
                    idx,
                    position,
                )),
                PointIndex::BoshButt => assert(spec_point_restores_default(rig, idx, position)),
            }
        }
    }
    BoshTFEntity::BoshSled { velocity, position }
}

/// Decoding direction of the canonicalizer: expand a compact sled
/// descriptor into the full generic rig, translating every default point
/// by `position` and setting every previous location so that the whole
/// rig moves with `velocity`.
pub fn to_rig(position: Vec2, velocity: Vec2) -> (r: Rig)
    ensures
        r.points@ == spec_default_points().map_values(
            (|e: (PointIndex, RigPoint)| (e.0, spec_translate_point(e.1, position, velocity))),
        ),
        r.bones@ == spec_default_bones(),
        r.joints@ == spec_default_joints(),
        r.wf(),
{
    let def = default_rig();
    let mut points: Vec<(PointIndex, RigPoint)> = Vec::new();
    let mut i: usize = 0;
    while i < def.points.len()
        invariant
            0 <= i <= def.points@.len(),
            def.points@ =~= spec_default_points(),
            points@.len() == i,
            forall|j: int| 0 <= j < i ==> #[trigger] points@[j] == (
                def.points@[j].0,
                spec_translate_point(def.points@[j].1, position, velocity),
            ),
        decreases def.points@.len() - i,
    {
        let (k, p) = def.points[i];
        let loc = Vec2 { x: fadd(p.location.x, position.x), y: fadd(p.location.y, position.y) };
        let translated = RigPoint {
            previous_location: Vec2 {
                x: fsub(loc.x, velocity.x),
                y: fsub(loc.y, velocity.y),
            },
            location: loc,
            momentum: p.momentum,
            friction: p.friction,
        };
        points.push((k, translated));
        i = i + 1;
    }
    let r = Rig { points, bones: def.bones, joints: def.joints };
    assert(r.points@ =~= spec_default_points().map_values(
        (|e: (PointIndex, RigPoint)| (e.0, spec_translate_point(e.1, position, velocity))),
    ));
    assert(r.wf());
    r
}

/// The canonicalization rule is a partial function onto the compact
/// form: it yields the compact descriptor exactly for rigs that are
/// rigid-body translations of the default shape (anchored at the peg,
/// moving uniformly), with the descriptor read off the peg point, and it
/// passes every other rig through unchanged as a custom entity.
pub proof fn lemma_to_compact_classification(rig: Rig)
    ensures
        (spec_to_compact(rig) is Custom) ==> spec_to_compact(rig) == BoshTFEntity::Custom(rig),
        (spec_to_compact(rig) is BoshSled) <==> (match spec_find_point(
            rig.points@,
            PointIndex::SledPeg,
        ) {
            Some(peg) => spec_uniform_velocity(rig.points@, spec_point_velocity(peg))
                && spec_matches_default(rig, peg.location),
            None => false,
        }),
        (spec_to_compact(rig) is BoshSled) ==> spec_to_compact(rig) == (BoshTFEntity::BoshSled {
            velocity: spec_point_velocity(spec_find_point(rig.points@, PointIndex::SledPeg)->0),
            position: spec_find_point(rig.points@, PointIndex::SledPeg)->0.location,
        }),
{
}

proof fn lemma_wf_find(s: Seq<(PointIndex, RigPoint)>, i: int)
    requires
        forall|a: int, b: int| 0 <= a < b < s.len() ==> s[a].0 != s[b].0,
        0 <= i < s.len(),
    ensures
        spec_find_point(s, s[i].0) == Some(s[i].1),
    decreases s.len(),
{
    if i == 0 {
    } else {
        assert(s[0].0 != s[i].0);
        assert forall|a: int, b: int|
            0 <= a < b < s.drop_first().len() implies s.drop_first()[a].0 != s.drop_first()[
            b
        ].0 by {
            assert(s.drop_first()[a] == s[a + 1]);
            assert(s.drop_first()[b] == s[b + 1]);
        }
        lemma_wf_find(s.drop_first(), i - 1);
        assert(s.drop_first()[i - 1] == s[i]);
    }
}

proof fn lemma_find_witness(s: Seq<(PointIndex, RigPoint)>, idx: PointIndex)
    ensures
        match spec_find_point(s, idx) {
            Some(p) => exists|j: int| 0 <= j < s.len() && s[j] == (idx, p),
            None => true,
        },
    decreases s.len(),
{
    if s.len() == 0 {
    } else if s[0].0 == idx {
        assert(s[0] == (idx, s[0].1));
    } else {
        lemma_find_witness(s.drop_first(), idx);
        match spec_find_point(s.drop_first(), idx) {
            Some(p) => {
                let j = choose|j: int|
                    0 <= j < s.drop_first().len() && s.drop_first()[j] == (idx, p);
                assert(s[j + 1] == (idx, p));
            },
            None => {},
        }
    }
}

/// The canonicalization rule is a function of the point mapping, the
/// bones and the joints alone: two well-formed rigs that bind the same
/// points to the same states classify alike, however their point entries
/// are ordered, and a collapse yields the same compact descriptor.
pub proof fn lemma_to_compact_order_independent(r1: Rig, r2: Rig)
    requires
        r1.wf(),
        r2.wf(),
        forall|idx: PointIndex| #[trigger] r1.spec_point_at(idx) == r2.spec_point_at(idx),
        r1.bones@ == r2.bones@,
        r1.joints@ == r2.joints@,
    ensures
        (spec_to_compact(r1) is BoshSled) == (spec_to_compact(r2) is BoshSled),
        spec_to_compact(r1) is BoshSled ==> spec_to_compact(r1) == spec_to_compact(r2),
{
    match spec_find_point(r1.points@, PointIndex::SledPeg) {
        None => {
            assert(r2.spec_point_at(PointIndex::SledPeg) is None);
        },
        Some(peg) => {
            assert(r1.spec_point_at(PointIndex::SledPeg) == Some(peg));
            let v = spec_point_velocity(peg);
            assert(spec_uniform_velocity(r1.points@, v) == spec_uniform_velocity(r2.points@, v))
                by {
                if spec_uniform_velocity(r1.points@, v) {
                    assert forall|i: int|
                        0 <= i < r2.points@.len() implies spec_point_velocity(
                        #[trigger] r2.points@[i].1,
                    ) == v by {
                        lemma_wf_find(r2.points@, i);
                        assert(r2.spec_point_at(r2.points@[i].0) == Some(r2.points@[i].1));
                        assert(r1.spec_point_at(r2.points@[i].0) == Some(r2.points@[i].1));
                        lemma_find_witness(r1.points@, r2.points@[i].0);
                        let j = choose|j: int|
                            0 <= j < r1.points@.len() && r1.points@[j] == (
                            r2.points@[i].0,
                            r2.points@[i].1,
                            );
                        assert(spec_point_velocity(r1.points@[j].1) == v);
                    }
                }
                if spec_uniform_velocity(r2.points@, v) {
                    assert forall|i: int|
                        0 <= i < r1.points@.len() implies spec_point_velocity(
                        #[trigger] r1.points@[i].1,
                    ) == v by {
                        lemma_wf_find(r1.points@, i);
                        assert(r1.spec_point_at(r1.points@[i].0) == Some(r1.points@[i].1));
                        assert(r2.spec_point_at(r1.points@[i].0) == Some(r1.points@[i].1));
                        lemma_find_witness(r2.points@, r1.points@[i].0);
                        let j = choose|j: int|
                            0 <= j < r2.points@.len() && r2.points@[j] == (
                            r1.points@[i].0,
                            r1.points@[i].1,
                            );
                        assert(spec_point_velocity(r2.points@[j].1) == v);
                    }
                }
            }
            if spec_matches_default(r1, peg.location) {
                assert forall|idx: PointIndex| #[trigger]
                    spec_point_restores_default(r2, idx, peg.location) by {
                    assert(spec_point_restores_default(r1, idx, peg.location));
                    assert(r1.spec_point_at(idx) == r2.spec_point_at(idx));
                }
            }
            if spec_matches_default(r2, peg.location) {
                assert forall|idx: PointIndex| #[trigger]
                    spec_point_restores_default(r1, idx, peg.location) by {
                    assert(spec_point_restores_default(r2, idx, peg.location));
                    assert(r1.spec_point_at(idx) == r2.spec_point_at(idx));
                }
            }
            assert(spec_matches_default(r1, peg.location) == spec_matches_default(
                r2,
                peg.location,
            ));
        },
    }
}

} // verus!
