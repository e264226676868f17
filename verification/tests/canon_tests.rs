use bosh_codec::{default_rig, to_compact, to_rig, BoshTFEntity, PointIndex, Vec2};

fn bosh_index(i: PointIndex) -> bosh_rs::rider::PointIndex {
    match i {
        PointIndex::BoshLeftFoot => bosh_rs::rider::PointIndex::BoshLeftFoot,
        PointIndex::BoshRightFoot => bosh_rs::rider::PointIndex::BoshRightFoot,
        PointIndex::BoshLeftHand => bosh_rs::rider::PointIndex::BoshLeftHand,
        PointIndex::BoshRightHand => bosh_rs::rider::PointIndex::BoshRightHand,
        PointIndex::BoshShoulder => bosh_rs::rider::PointIndex::BoshShoulder,
        PointIndex::BoshButt => bosh_rs::rider::PointIndex::BoshButt,
        PointIndex::SledPeg => bosh_rs::rider::PointIndex::SledPeg,
        PointIndex::SledTail => bosh_rs::rider::PointIndex::SledTail,
        PointIndex::SledNose => bosh_rs::rider::PointIndex::SledNose,
        PointIndex::SledRope => bosh_rs::rider::PointIndex::SledRope,
    }
}

#[test]
fn default_rig_matches_physics_engine() {
    let engine = bosh_rs::rider::Entity::default_boshsled();
    let rig = default_rig();

    assert_eq!(rig.points.len(), engine.points.len());
    for (idx, p) in &rig.points {
        let ep = engine.points.get(&bosh_index(*idx)).expect("point missing");
        assert_eq!(p.location.x, ep.location.0.to_bits());
        assert_eq!(p.location.y, ep.location.1.to_bits());
        assert_eq!(p.previous_location.x, ep.previous_location.0.to_bits());
        assert_eq!(p.previous_location.y, ep.previous_location.1.to_bits());
        assert_eq!(p.momentum.x, ep.momentum.0.to_bits());
        assert_eq!(p.momentum.y, ep.momentum.1.to_bits());
        assert_eq!(p.friction, ep.friction.to_bits());
    }

    assert_eq!(rig.bones.len(), engine.bones.len());
    for (b, eb) in rig.bones.iter().zip(engine.bones.iter()) {
        assert_eq!(bosh_index(b.p1), eb.p1);
        assert_eq!(bosh_index(b.p2), eb.p2);
        assert_eq!(b.resting_length, eb.resting_length.to_bits());
        match (b.bone_type, eb.bone_type) {
            (bosh_codec::RigBoneType::Normal, bosh_rs::rider::BoneType::Normal) => {}
            (
                bosh_codec::RigBoneType::Mount { endurance },
                bosh_rs::rider::BoneType::Mount { endurance: e },
            ) => assert_eq!(endurance, e.to_bits()),
            (
                bosh_codec::RigBoneType::Repel { length_factor },
                bosh_rs::rider::BoneType::Repel { length_factor: f },
            ) => assert_eq!(length_factor, f.to_bits()),
            _ => panic!("bone type mismatch"),
        }
    }

    assert_eq!(rig.joints.len(), engine.joints.len());
    for (j, ej) in rig.joints.iter().zip(engine.joints.iter()) {
        assert_eq!(bosh_index(j.pair1.a), ej.pair1.0);
        assert_eq!(bosh_index(j.pair1.b), ej.pair1.1);
        assert_eq!(bosh_index(j.pair2.a), ej.pair2.0);
        assert_eq!(bosh_index(j.pair2.b), ej.pair2.1);
    }
}

#[test]
fn to_rig_translates_by_position_and_velocity() {
    let p = Vec2 {
        x: 16.0f64.to_bits(),
        y: 8.0f64.to_bits(),
    };
    let v = Vec2 {
        x: 0.5f64.to_bits(),
        y: 0.25f64.to_bits(),
    };
    let rig = to_rig(p, v);
    let nose = rig
        .point_at(PointIndex::SledNose)
        .expect("nose point missing");
    assert_eq!(nose.location.x, (15.0f64 + 16.0).to_bits());
    assert_eq!(nose.location.y, (5.0f64 + 8.0).to_bits());
    assert_eq!(nose.previous_location.x, (15.0f64 + 16.0 - 0.5).to_bits());
    assert_eq!(nose.previous_location.y, (5.0f64 + 8.0 - 0.25).to_bits());
    // momentum and friction come from the default shape untouched
    assert_eq!(nose.momentum.x, 0.4f64.to_bits());
    assert_eq!(nose.friction, 0.0f64.to_bits());
    assert_eq!(rig.bones, default_rig().bones);
    assert_eq!(rig.joints, default_rig().joints);
}

#[test]
fn rig_without_peg_stays_custom() {
    let mut rig = default_rig();
    rig.points.retain(|(idx, _)| *idx != PointIndex::SledPeg);
    let kept = rig.clone();
    match to_compact(rig) {
        BoshTFEntity::Custom(r) => assert_eq!(r, kept),
        _ => panic!("expected the rig back unchanged"),
    }
}

#[test]
fn default_rig_velocities_are_not_uniform_so_it_stays_custom() {
    // previous locations are location - 0.4, and recomputing that
    // difference per point rounds differently at different magnitudes
    let rig = default_rig();
    let kept = rig.clone();
    match to_compact(rig) {
        BoshTFEntity::Custom(r) => assert_eq!(r, kept),
        _ => panic!("expected the rig back unchanged"),
    }
}

#[test]
fn uniform_motion_with_wrong_shape_velocity_stays_custom() {
    // every point moves with one velocity, but translating back does not
    // restore the default previous locations (which encode velocity 0.4)
    let rig = to_rig(
        Vec2 {
            x: 16.0f64.to_bits(),
            y: 8.0f64.to_bits(),
        },
        Vec2 {
            x: 0.5f64.to_bits(),
            y: 0.25f64.to_bits(),
        },
    );
    let kept = rig.clone();
    match to_compact(rig) {
        BoshTFEntity::Custom(r) => assert_eq!(r, kept),
        _ => panic!("expected the rig back unchanged"),
    }
}

#[test]
fn mismatched_bones_stay_custom() {
    let mut rig = default_rig();
    rig.bones.pop();
    let kept = rig.clone();
    match to_compact(rig) {
        BoshTFEntity::Custom(r) => assert_eq!(r, kept),
        _ => panic!("expected the rig back unchanged"),
    }
}

#[test]
fn uniform_exact_velocity_with_wrong_shape_stays_custom() {
    // previous = location - 0.5 recomputes to exactly -0.5 everywhere, a
    // uniform velocity; but the shape comparison against the default
    // previous locations (location - 0.4) fails bit-for-bit
    let mut rig = default_rig();
    for (_, p) in rig.points.iter_mut() {
        p.previous_location = Vec2 {
            x: (f64::from_bits(p.location.x) - 0.5).to_bits(),
            y: p.location.y,
        };
    }
    let kept = rig.clone();
    match to_compact(rig) {
        BoshTFEntity::Custom(r) => assert_eq!(r, kept),
        _ => panic!("expected the rig back unchanged"),
    }
}

#[test]
fn duplicate_location_points_share_one_recomputed_velocity() {
    // the left and right feet share a location in the default shape, so
    // their recomputed velocities agree bit-for-bit
    let rig = default_rig();
    let lf = rig.point_at(PointIndex::BoshLeftFoot).unwrap();
    let rf = rig.point_at(PointIndex::BoshRightFoot).unwrap();
    let lv = f64::from_bits(lf.previous_location.x) - f64::from_bits(lf.location.x);
    let rv = f64::from_bits(rf.previous_location.x) - f64::from_bits(rf.location.x);
    assert_eq!(lv.to_bits(), rv.to_bits());
}
