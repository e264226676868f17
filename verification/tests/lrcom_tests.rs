use bosh_codec::{
    boshtf_to_lrcom, default_rig, lrcom_to_boshtf, BoshTFEntity, BoshTFLine, BoshTFLineType,
    BoshTFTrack, FormatDetail, LRComEntity, LRComLine, LRComLineArray, LRComLineType, LRComTrack,
    LRComVec2, LineEnd, LineEnds, TrackError, UnsupportedKind, Vec2,
};

fn sled(px: f64, py: f64, vx: f64, vy: f64) -> BoshTFEntity {
    BoshTFEntity::BoshSled {
        velocity: Vec2 {
            x: vx.to_bits(),
            y: vy.to_bits(),
        },
        position: Vec2 {
            x: px.to_bits(),
            y: py.to_bits(),
        },
    }
}

fn line(x1: f64, y1: f64, x2: f64, y2: f64, lt: BoshTFLineType) -> BoshTFLine {
    BoshTFLine {
        id: 0,
        ends: LineEnds {
            first: LineEnd {
                location: Vec2 {
                    x: x1.to_bits(),
                    y: y1.to_bits(),
                },
                extended: false,
            },
            second: LineEnd {
                location: Vec2 {
                    x: x2.to_bits(),
                    y: y2.to_bits(),
                },
                extended: false,
            },
        },
        line_type: lt,
        flipped: false,
    }
}

#[test]
fn tuple_line_unpacks_extension_bits() {
    let packed = LRComLineArray(
        LRComLineType::Normal,
        5,
        0.0f64.to_bits(),
        0.0f64.to_bits(),
        10.0f64.to_bits(),
        0.0f64.to_bits(),
        0b11,
        true,
    );
    let l = LRComLine::from_array(packed);
    assert_eq!(l.id, 5);
    assert_eq!(l.line_type, LRComLineType::Normal);
    assert!(l.left_extended);
    assert!(l.right_extended);
    assert!(l.flipped);
    assert_eq!(l.x2, 10.0f64.to_bits());
}

#[test]
fn tuple_lines_decode_to_extended_canonical_lines() {
    let track = LRComTrack {
        next_line_id: 0,
        label: None,
        creator: None,
        description: None,
        duration: None,
        version: "6.2".to_string(),
        audio: None,
        start_position: LRComVec2 {
            x: 0.0f64.to_bits(),
            y: 0.0f64.to_bits(),
        },
        riders: None,
        lines: None,
        lines_array: Some(vec![LRComLineArray(
            LRComLineType::Normal,
            5,
            0.0f64.to_bits(),
            0.0f64.to_bits(),
            10.0f64.to_bits(),
            0.0f64.to_bits(),
            0b11,
            true,
        )]),
    };
    let b = lrcom_to_boshtf(&track);
    assert_eq!(b.lines.len(), 1);
    let l = &b.lines[0];
    assert!(l.ends.first.extended);
    assert!(l.ends.second.extended);
    assert!(l.flipped);
    assert_eq!(l.line_type, BoshTFLineType::Normal);
    // no riders array: one sled at the start position with stock velocity
    assert_eq!(b.entities.len(), 1);
    match &b.entities[0] {
        BoshTFEntity::BoshSled { velocity, .. } => {
            assert_eq!(velocity.x, 0.4f64.to_bits());
            assert_eq!(velocity.y, 0.0f64.to_bits());
        }
        _ => panic!("expected a sled"),
    }
}

#[test]
fn line_type_tags_validate() {
    assert_eq!(LRComLineType::try_from_tag(0), Ok(LRComLineType::Normal));
    assert_eq!(
        LRComLineType::try_from_tag(1),
        Ok(LRComLineType::Accelerate)
    );
    assert_eq!(LRComLineType::try_from_tag(2), Ok(LRComLineType::Scenery));
    assert_eq!(
        LRComLineType::try_from_tag(3),
        Err(TrackError::FormatError(FormatDetail::LineTypeTag))
    );
    assert_eq!(LRComLineType::Scenery.tag(), 2);
}

#[test]
fn accelerate_amount_two_is_unsupported() {
    let track = BoshTFTrack {
        meta: Default::default(),
        entities: vec![sled(0.0, 0.0, 0.4, 0.0)],
        lines: vec![line(
            0.0,
            0.0,
            1.0,
            0.0,
            BoshTFLineType::Accelerate { amount: 2 },
        )],
    };
    assert_eq!(
        boshtf_to_lrcom(&track),
        Err(TrackError::UnsupportedConversion(
            UnsupportedKind::AccelerationAmount
        ))
    );

    let ok_track = BoshTFTrack {
        meta: Default::default(),
        entities: vec![sled(0.0, 0.0, 0.4, 0.0)],
        lines: vec![line(
            0.0,
            0.0,
            1.0,
            0.0,
            BoshTFLineType::Accelerate { amount: 1 },
        )],
    };
    let t = boshtf_to_lrcom(&ok_track).unwrap();
    assert_eq!(t.version, "6.2");
    assert_eq!(t.lines.as_ref().unwrap()[0].line_type, LRComLineType::Accelerate);
}

#[test]
fn custom_entity_is_unsupported() {
    let track = BoshTFTrack {
        meta: Default::default(),
        entities: vec![BoshTFEntity::Custom(default_rig())],
        lines: vec![],
    };
    assert_eq!(
        boshtf_to_lrcom(&track),
        Err(TrackError::UnsupportedConversion(
            UnsupportedKind::CustomEntity
        ))
    );
}

#[test]
fn no_entities_is_unsupported() {
    let track = BoshTFTrack {
        meta: Default::default(),
        entities: vec![],
        lines: vec![],
    };
    assert_eq!(
        boshtf_to_lrcom(&track),
        Err(TrackError::UnsupportedConversion(UnsupportedKind::NoEntities))
    );
}

#[test]
fn lrcom_encode_decode_round_trip() {
    let track = BoshTFTrack {
        meta: Default::default(),
        entities: vec![sled(1.0, 2.0, 0.25, -0.5), sled(-3.0, 0.0, 0.0, 0.0)],
        lines: vec![
            line(0.0, 0.0, 1.0, 0.0, BoshTFLineType::Normal),
            line(1.0, 0.0, 2.0, 0.5, BoshTFLineType::Accelerate { amount: 1 }),
            line(-1.0, -1.0, 0.0, 0.0, BoshTFLineType::Scenery),
        ],
    };
    let encoded = boshtf_to_lrcom(&track).unwrap();
    assert_eq!(encoded.next_line_id, 3);
    assert_eq!(encoded.riders.as_ref().unwrap().len(), 2);
    assert_eq!(encoded.riders.as_ref().unwrap()[0].remountable, 0);
    let back = lrcom_to_boshtf(&encoded);
    assert_eq!(back, track);
}

#[test]
fn riders_map_to_sleds() {
    let track = LRComTrack {
        next_line_id: 0,
        label: Some("t".to_string()),
        creator: None,
        description: None,
        duration: Some(12),
        version: "6.2".to_string(),
        audio: None,
        start_position: LRComVec2 {
            x: 9.0f64.to_bits(),
            y: 0.0f64.to_bits(),
        },
        riders: Some(vec![LRComEntity {
            start_position: LRComVec2 {
                x: 1.0f64.to_bits(),
                y: 2.0f64.to_bits(),
            },
            start_velocity: LRComVec2 {
                x: 0.5f64.to_bits(),
                y: 0.0f64.to_bits(),
            },
            remountable: 0,
        }]),
        lines: Some(vec![]),
        lines_array: None,
    };
    let b = lrcom_to_boshtf(&track);
    assert_eq!(
        b.entities,
        vec![sled(1.0, 2.0, 0.5, 0.0)]
    );
    assert!(b.lines.is_empty());
}
