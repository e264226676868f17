//! The canonical in-memory track model that every format converts through.
//!
//! Coordinates are IEEE 754 binary64 bit patterns (`u64`); equality of
//! coordinates throughout this crate is equality of bit patterns, which
//! is how the canonical model compares vectors.

use vstd::prelude::*;

verus! {

/// A 2-D vector; both components are binary64 bit patterns.
#[derive(Debug, Clone, Copy, PartialEq, Eq, Structural)]
pub struct Vec2 {
    pub x: u64,
    pub y: u64,
}

/// One end of a line segment: its location and whether the physical
/// hitbox of the segment is artificially lengthened past this end.
#[derive(Debug, Clone, Copy, PartialEq, Eq, Structural)]
pub struct LineEnd {
    pub location: Vec2,
    pub extended: bool,
}

/// The behaviour of a line: plain, cosmetic, or accelerating with an
/// integer multiplier.
#[derive(Debug, Clone, Copy, PartialEq, Eq, Structural)]
pub enum BoshTFLineType {
    Normal,
    Accelerate { amount: u64 },
    Scenery,
}

/// The two ends of a line segment.
#[derive(Debug, Clone, Copy, PartialEq, Eq, Structural)]
pub struct LineEnds {
    pub first: LineEnd,
    pub second: LineEnd,
}

/// A line segment of the canonical model.
#[derive(Debug, Clone, Copy, PartialEq, Eq, Structural)]
pub struct BoshTFLine {
    pub id: i64,
    pub ends: LineEnds,
    pub line_type: BoshTFLineType,
    pub flipped: bool,
}

/// Free-form track metadata of the canonical model.
#[derive(Debug, Clone, Copy, PartialEq, Eq, Structural)]
pub struct BoshTFMeta {
    pub line_extension_ratio: u64,
    pub gravity_well_height: u64,
    pub remount: bool,
    pub cell_size: u64,
}

impl BoshTFMeta {
    /// Extension ratio 0.25, gravity well height 10, cell size 14, no remount.
    pub open spec fn spec_default() -> BoshTFMeta {
        BoshTFMeta {
            line_extension_ratio: 0x3fd0000000000000u64,
            gravity_well_height: 0x4024000000000000u64,
            remount: false,
            cell_size: 0x402c000000000000u64,
        }
    }
}

impl Default for BoshTFMeta {
    fn default() -> (r: BoshTFMeta)
        ensures
            r == BoshTFMeta::spec_default(),
    {
        BoshTFMeta {
            line_extension_ratio: 0x3fd0000000000000u64,
            gravity_well_height: 0x4024000000000000u64,
            remount: false,
            cell_size: 0x402c000000000000u64,
        }
    }
}

/// Named points of a generic point-mass rig. `SledPeg` is the
/// load-bearing point the canonicalizer anchors on.
#[derive(Debug, Clone, Copy, PartialEq, Eq, Hash, Structural)]
pub enum PointIndex {
    BoshLeftFoot,
    BoshRightFoot,
    BoshLeftHand,
    BoshRightHand,
    BoshShoulder,
    BoshButt,
    SledPeg,
    SledTail,
    SledNose,
    SledRope,
}

/// State of one rig point. Velocity is implicit: it is
/// `previous_location - location`, inverted.
#[derive(Debug, Clone, Copy, PartialEq, Eq, Structural)]
pub struct RigPoint {
    pub previous_location: Vec2,
    pub location: Vec2,
    pub momentum: Vec2,
    pub friction: u64,
}

/// Kind of a rig constraint, with its parameter as a binary64 bit pattern.
#[derive(Debug, Clone, Copy, PartialEq, Eq, Structural)]
pub enum RigBoneType {
    Normal,
    Mount { endurance: u64 },
    Repel { length_factor: u64 },
}

/// A distance constraint between two rig points.
#[derive(Debug, Clone, Copy, PartialEq, Eq, Structural)]
pub struct RigBone {
    pub p1: PointIndex,
    pub p2: PointIndex,
    pub resting_length: u64,
    pub bone_type: RigBoneType,
}

/// An ordered pair of rig point indices.
#[derive(Debug, Clone, Copy, PartialEq, Eq, Structural)]
pub struct PointPair {
    pub a: PointIndex,
    pub b: PointIndex,
}

/// A breakable joint between two point pairs.
#[derive(Debug, Clone, Copy, PartialEq, Eq, Structural)]
pub struct RigJoint {
    pub pair1: PointPair,
    pub pair2: PointPair,
}

/// A generic point-mass rig: a mapping from named point indices to point
/// state, plus its constraints. The mapping is kept as a sequence of
/// pairs with pairwise distinct indices.
#[derive(Debug, Clone, PartialEq)]
pub struct Rig {
    pub points: Vec<(PointIndex, RigPoint)>,
    pub bones: Vec<RigBone>,
    pub joints: Vec<RigJoint>,
}

/// First point bound to `idx` in a sequence of rig entries.
pub open spec fn spec_find_point(s: Seq<(PointIndex, RigPoint)>, idx: PointIndex) -> Option<
    RigPoint,
>
    decreases s.len(),
{
    if s.len() == 0 {
        None
    } else if s[0].0 == idx {
        Some(s[0].1)
    } else {
        spec_find_point(s.drop_first(), idx)
    }
}

impl Rig {
    /// The point indices are pairwise distinct, as in a mapping.
    pub open spec fn wf(self) -> bool {
        forall|i: int, j: int|
            0 <= i < j < self.points@.len() ==> self.points@[i].0 != self.points@[j].0
    }

    /// The point bound to `idx`, if any.
    pub open spec fn spec_point_at(self, idx: PointIndex) -> Option<RigPoint> {
        spec_find_point(self.points@, idx)
    }

    /// Linear search for the point bound to `idx`.
    pub fn point_at(&self, idx: PointIndex) -> (r: Option<RigPoint>)
        ensures
            r == self.spec_point_at(idx),
    {
        let mut i: usize = 0;
        assert(self.points@.skip(0) =~= self.points@);
        while i < self.points.len()
            invariant
                0 <= i <= self.points@.len(),
                spec_find_point(self.points@, idx) == spec_find_point(
                    self.points@.skip(i as int),
                    idx,
                ),
            decreases self.points@.len() - i,
        {
            let (k, p) = self.points[i];
            if k == idx {
                assert(self.points@.skip(i as int)[0] == self.points@[i as int]);
                return Some(p);
            }
            assert(self.points@.skip(i as int).drop_first() =~= self.points@.skip(i + 1));
            i = i + 1;
        }
        assert(self.points@.skip(i as int).len() == 0);
        None
    }
}

/// A rider of the canonical model: either the compact sled descriptor or
/// a full generic rig that the compact form cannot represent.
#[derive(Debug, Clone, PartialEq)]
pub enum BoshTFEntity {
    BoshSled { velocity: Vec2, position: Vec2 },
    Custom(Rig),
}

/// A whole track in the canonical model.
#[derive(Debug, Clone, PartialEq)]
pub struct BoshTFTrack {
    pub meta: BoshTFMeta,
    pub entities: Vec<BoshTFEntity>,
    pub lines: Vec<BoshTFLine>,
}

} // verus!
