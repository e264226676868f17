use bosh_codec::{
    parse_trk, write_trk, trk_to_boshtf, boshtf_to_trk, parse_features, BoshTFEntity,
    BoshTFLineType, FormatDetail, TrackError, TrkField, TrkFeatures, TrkHeader, TrkLine,
    TrkLineFlags, TrkLineType, TrkMeta, TrkTrack, UnsupportedKind, Vec2,
};

fn header_bytes(features: &str, start_x: f64, start_y: f64) -> Vec<u8> {
    let mut b = vec![0x54, 0x52, 0x4b, 0xf2, 1];
    let f = features.as_bytes();
    b.extend_from_slice(&(f.len() as u16).to_le_bytes());
    b.extend_from_slice(f);
    b.extend_from_slice(&start_x.to_bits().to_le_bytes());
    b.extend_from_slice(&start_y.to_bits().to_le_bytes());
    b
}

fn point_bytes(x: f64, y: f64) -> Vec<u8> {
    let mut b = Vec::new();
    b.extend_from_slice(&x.to_bits().to_le_bytes());
    b.extend_from_slice(&y.to_bits().to_le_bytes());
    b
}

#[test]
fn decode_blue_line_track_without_meta() {
    let mut bytes = header_bytes("", 1.5, 2.5);
    bytes.extend_from_slice(&1u32.to_le_bytes());
    bytes.push(0x81); // flipped, blue
    bytes.extend_from_slice(&5u32.to_le_bytes());
    bytes.extend_from_slice(&point_bytes(0.0, 0.0));
    bytes.extend_from_slice(&point_bytes(1.0, 0.0));

    let t = parse_trk(&bytes).unwrap();
    assert_eq!(t.header.version, 1);
    assert_eq!(t.header.song, None);
    assert_eq!(t.header.start_position.x, 1.5f64.to_bits());
    assert_eq!(t.header.start_position.y, 2.5f64.to_bits());
    assert_eq!(t.lines.len(), 1);
    let l = &t.lines[0];
    assert!(l.flags.flipped());
    assert_eq!(l.flags.extensions(), (false, false));
    assert_eq!(l.flags.line_type(), TrkLineType::Blue);
    assert_eq!(l.multiplier, 1);
    assert_eq!(l.id, 5);
    assert_eq!(l.line_width, 1);
    assert_eq!(l.end.x, 1.0f64.to_bits());
    // the stream ends exactly after the line records: metadata absent, no error
    assert!(t.meta.is_none());
}

#[test]
fn scenery_width_defaults_to_one_without_feature() {
    let mut bytes = header_bytes("", 0.0, 0.0);
    bytes.extend_from_slice(&1u32.to_le_bytes());
    bytes.push(0x00); // scenery
    bytes.extend_from_slice(&point_bytes(0.0, 0.0));
    bytes.extend_from_slice(&point_bytes(2.0, 2.0));
    bytes.push(0xab); // trailing byte, ignored

    let t = parse_trk(&bytes).unwrap();
    assert_eq!(t.lines[0].flags.line_type(), TrkLineType::Scenery);
    assert_eq!(t.lines[0].line_width, 1);
    assert!(t.meta.is_none());
}

#[test]
fn scenery_width_read_with_feature() {
    let mut bytes = header_bytes("SCENERYWIDTH", 0.0, 0.0);
    bytes.extend_from_slice(&1u32.to_le_bytes());
    bytes.push(0x00); // scenery
    bytes.push(7); // width byte
    bytes.extend_from_slice(&point_bytes(0.0, 0.0));
    bytes.extend_from_slice(&point_bytes(2.0, 2.0));

    let t = parse_trk(&bytes).unwrap();
    assert_eq!(t.lines[0].line_width, 7);
}

#[test]
fn red_multiplier_and_zero_start() {
    let mut bytes = header_bytes("REDMULTIPLIER;ZEROSTART", 3.0, 4.0);
    bytes.extend_from_slice(&1u32.to_le_bytes());
    bytes.push(0x02); // red
    bytes.push(3); // multiplier
    bytes.extend_from_slice(&7u32.to_le_bytes());
    bytes.extend_from_slice(&point_bytes(0.0, 0.0));
    bytes.extend_from_slice(&point_bytes(1.0, 1.0));

    let t = parse_trk(&bytes).unwrap();
    assert!(t.header.features.red_multiplier);
    assert!(t.header.features.zero_start);
    assert_eq!(t.lines[0].multiplier, 3);
    assert_eq!(t.lines[0].id, 7);

    let b = trk_to_boshtf(&t);
    assert_eq!(b.entities.len(), 1);
    match &b.entities[0] {
        BoshTFEntity::BoshSled { velocity, position } => {
            assert_eq!((velocity.x, velocity.y), (0, 0));
            assert_eq!(position.x, 3.0f64.to_bits());
        }
        _ => panic!("expected a sled"),
    }
    assert_eq!(
        b.lines[0].line_type,
        BoshTFLineType::Accelerate { amount: 3 }
    );
}

#[test]
fn default_velocity_without_zero_start() {
    let bytes = {
        let mut b = header_bytes("", 0.0, 0.0);
        b.extend_from_slice(&0u32.to_le_bytes());
        b
    };
    let t = parse_trk(&bytes).unwrap();
    let b = trk_to_boshtf(&t);
    match &b.entities[0] {
        BoshTFEntity::BoshSled { velocity, .. } => {
            assert_eq!(velocity.x, 0.4f64.to_bits());
            assert_eq!(velocity.y, 0);
        }
        _ => panic!("expected a sled"),
    }
}

#[test]
fn song_text_read_from_song_bytes() {
    let mut bytes = vec![0x54, 0x52, 0x4b, 0xf2, 1];
    let f = b"SONGINFO";
    bytes.extend_from_slice(&(f.len() as u16).to_le_bytes());
    bytes.extend_from_slice(f);
    bytes.push(3);
    bytes.extend_from_slice(b"abc");
    bytes.extend_from_slice(&point_bytes(0.0, 0.0));
    bytes.extend_from_slice(&0u32.to_le_bytes());

    let t = parse_trk(&bytes).unwrap();
    assert_eq!(t.header.song.as_deref(), Some("abc"));
}

#[test]
fn truncated_magic_is_truncated_input() {
    assert_eq!(
        parse_trk(b"TRK"),
        Err(TrackError::TruncatedInput(TrkField::HeaderMagic))
    );
}

#[test]
fn wrong_magic_is_format_error() {
    assert_eq!(
        parse_trk(b"TRKx\x01\x00\x00"),
        Err(TrackError::FormatError(FormatDetail::HeaderMagic))
    );
}

#[test]
fn truncated_line_point_is_truncated_input() {
    let mut bytes = header_bytes("", 0.0, 0.0);
    bytes.extend_from_slice(&1u32.to_le_bytes());
    bytes.push(0x00);
    bytes.extend_from_slice(&point_bytes(0.0, 0.0));
    bytes.pop();
    assert_eq!(
        parse_trk(&bytes),
        Err(TrackError::TruncatedInput(TrkField::LinePoint))
    );
}

#[test]
fn metadata_entries_decode() {
    let mut bytes = header_bytes("", 0.0, 0.0);
    bytes.extend_from_slice(&0u32.to_le_bytes());
    bytes.extend_from_slice(b"META");
    bytes.extend_from_slice(&2u16.to_le_bytes());
    bytes.extend_from_slice(&3u16.to_le_bytes());
    bytes.extend_from_slice(b"a=b");
    bytes.extend_from_slice(&5u16.to_le_bytes());
    bytes.extend_from_slice(b"k=v=w");

    let t = parse_trk(&bytes).unwrap();
    let meta = t.meta.unwrap();
    assert_eq!(meta.entries.len(), 2);
    assert_eq!(meta.entries[0], ("a".to_string(), "b".to_string()));
    assert_eq!(meta.entries[1], ("k".to_string(), "v=w".to_string()));
}

#[test]
fn metadata_entry_without_equals_is_fatal() {
    let mut bytes = header_bytes("", 0.0, 0.0);
    bytes.extend_from_slice(&0u32.to_le_bytes());
    bytes.extend_from_slice(b"META");
    bytes.extend_from_slice(&1u16.to_le_bytes());
    bytes.extend_from_slice(&2u16.to_le_bytes());
    bytes.extend_from_slice(b"ab");
    assert_eq!(
        parse_trk(&bytes),
        Err(TrackError::FormatError(FormatDetail::MetaEntryMissingEquals))
    );
}

#[test]
fn metadata_wrong_magic_is_fatal() {
    let mut bytes = header_bytes("", 0.0, 0.0);
    bytes.extend_from_slice(&0u32.to_le_bytes());
    bytes.extend_from_slice(b"MEGA");
    assert_eq!(
        parse_trk(&bytes),
        Err(TrackError::FormatError(FormatDetail::MetaMagic))
    );
}

#[test]
fn metadata_value_decodes_utf8() {
    let mut bytes = header_bytes("", 0.0, 0.0);
    bytes.extend_from_slice(&0u32.to_le_bytes());
    bytes.extend_from_slice(b"META");
    bytes.extend_from_slice(&1u16.to_le_bytes());
    let entry = [b'k', b'=', 0xc3, 0xa9, 0xff];
    bytes.extend_from_slice(&(entry.len() as u16).to_le_bytes());
    bytes.extend_from_slice(&entry);

    let t = parse_trk(&bytes).unwrap();
    let meta = t.meta.unwrap();
    // two UTF-8 bytes became one char, the stray byte a replacement char
    assert_eq!(meta.entries[0].1, "\u{e9}\u{fffd}");
}

#[test]
fn feature_string_parses_known_tokens() {
    let f = parse_features(b"REDMULTIPLIER;IGNORABLE_TRIGGER;UNKNOWNTOKEN");
    assert!(f.red_multiplier);
    assert!(f.ignorable_trigger);
    assert!(!f.song_info);
    assert!(!f.scenery_width);
    assert!(!f.zero_start);
    assert!(!f.remount);
    assert!(!f.frictionless);
    let none = parse_features(b"");
    assert!(!none.red_multiplier && !none.song_info);
}

#[test]
fn zoom_trigger_payload_is_skipped() {
    let mut bytes = header_bytes("IGNORABLE_TRIGGER", 0.0, 0.0);
    bytes.extend_from_slice(&1u32.to_le_bytes());
    bytes.push(0x01); // blue
    bytes.push(1); // zoom flag set
    bytes.extend_from_slice(&[0, 0, 0, 0, 0, 0]); // zoom target + length, discarded
    bytes.extend_from_slice(&9u32.to_le_bytes());
    bytes.extend_from_slice(&point_bytes(0.0, 0.0));
    bytes.extend_from_slice(&point_bytes(1.0, 1.0));
    let t = parse_trk(&bytes).unwrap();
    assert_eq!(t.lines[0].id, 9);
}

#[test]
fn extension_payload_is_skipped() {
    let mut bytes = header_bytes("", 0.0, 0.0);
    bytes.extend_from_slice(&1u32.to_le_bytes());
    bytes.push(0x61); // blue with both extension bits
    bytes.extend_from_slice(&4u32.to_le_bytes());
    bytes.extend_from_slice(&[0u8; 8]); // legacy extension payload
    bytes.extend_from_slice(&point_bytes(0.0, 0.0));
    bytes.extend_from_slice(&point_bytes(1.0, 1.0));
    let t = parse_trk(&bytes).unwrap();
    assert_eq!(t.lines[0].id, 4);
    assert_eq!(t.lines[0].flags.extensions(), (true, true));
}

#[test]
fn flags_pack_and_unpack() {
    let f = TrkLineFlags::new(true, (true, false), TrkLineType::Red);
    assert!(f.flipped());
    assert_eq!(f.extensions(), (true, false));
    assert_eq!(f.line_type(), TrkLineType::Red);
    let g = TrkLineFlags::new(false, (false, true), TrkLineType::Scenery);
    assert!(!g.flipped());
    assert_eq!(g.extensions(), (false, true));
    assert_eq!(g.line_type(), TrkLineType::Scenery);
    // unknown 5-bit tags fall back to scenery
    assert_eq!(TrkLineFlags(0x1f).line_type(), TrkLineType::Scenery);
}

#[test]
fn encode_decode_round_trip() {
    let track = TrkTrack {
        header: TrkHeader {
            version: 1,
            features: TrkFeatures {
                red_multiplier: true,
                song_info: false,
                scenery_width: false,
                ignorable_trigger: false,
                zero_start: true,
                remount: false,
                frictionless: false,
            },
            song: None,
            start_position: Vec2 {
                x: 1.25f64.to_bits(),
                y: (-2.0f64).to_bits(),
            },
        },
        lines: vec![
            TrkLine {
                flags: TrkLineFlags::new(true, (true, false), TrkLineType::Red),
                multiplier: 2,
                id: 11,
                line_width: 1,
                start: Vec2 { x: 0, y: 0 },
                end: Vec2 {
                    x: 1.0f64.to_bits(),
                    y: 0,
                },
            },
            TrkLine {
                flags: TrkLineFlags::new(false, (false, false), TrkLineType::Scenery),
                multiplier: 1,
                id: 0,
                line_width: 1,
                start: Vec2 { x: 0, y: 0 },
                end: Vec2 {
                    x: 2.0f64.to_bits(),
                    y: 0,
                },
            },
        ],
        meta: Some(TrkMeta {
            entries: vec![("author".to_string(), "someone".to_string())],
        }),
    };
    let bytes = write_trk(&track).unwrap();
    let back = parse_trk(&bytes).unwrap();
    assert_eq!(back, track);
}

#[test]
fn encode_rejects_more_than_one_entity() {
    let sled = BoshTFEntity::BoshSled {
        velocity: Vec2 {
            x: 0.4f64.to_bits(),
            y: 0,
        },
        position: Vec2 { x: 0, y: 0 },
    };
    let track = bosh_codec::BoshTFTrack {
        meta: Default::default(),
        entities: vec![sled.clone(), sled],
        lines: vec![],
    };
    assert_eq!(
        boshtf_to_trk(&track),
        Err(TrackError::UnsupportedConversion(
            UnsupportedKind::MultipleEntities
        ))
    );
}

#[test]
fn encode_sets_multiplier_feature_only_when_needed() {
    let mk = |amount: u64| bosh_codec::BoshTFTrack {
        meta: Default::default(),
        entities: vec![BoshTFEntity::BoshSled {
            velocity: Vec2 {
                x: 0.4f64.to_bits(),
                y: 0,
            },
            position: Vec2 { x: 0, y: 0 },
        }],
        lines: vec![bosh_codec::BoshTFLine {
            id: 0,
            ends: bosh_codec::LineEnds {
                first: bosh_codec::LineEnd {
                    location: Vec2 { x: 0, y: 0 },
                    extended: false,
                },
                second: bosh_codec::LineEnd {
                    location: Vec2 {
                        x: 1.0f64.to_bits(),
                        y: 0,
                    },
                    extended: false,
                },
            },
            line_type: BoshTFLineType::Accelerate { amount },
            flipped: false,
        }],
    };
    let t1 = boshtf_to_trk(&mk(1)).unwrap();
    assert!(!t1.header.features.red_multiplier);
    let t2 = boshtf_to_trk(&mk(2)).unwrap();
    assert!(t2.header.features.red_multiplier);
    assert_eq!(t2.lines[0].multiplier, 2);
    assert_eq!(
        boshtf_to_trk(&mk(300)),
        Err(TrackError::UnsupportedConversion(
            UnsupportedKind::AccelerationAmount
        ))
    );
}

#[test]
fn encode_writes_song_block() {
    let track = TrkTrack {
        header: TrkHeader {
            version: 1,
            features: TrkFeatures {
                red_multiplier: false,
                song_info: true,
                scenery_width: false,
                ignorable_trigger: false,
                zero_start: false,
                remount: false,
                frictionless: false,
            },
            song: Some("tune.mp3".to_string()),
            start_position: Vec2 { x: 0, y: 0 },
        },
        lines: vec![],
        meta: None,
    };
    let bytes = write_trk(&track).unwrap();
    let back = parse_trk(&bytes).unwrap();
    assert_eq!(back.header.song.as_deref(), Some("tune.mp3"));
    assert!(back.header.features.song_info);
}

#[test]
fn encode_rejects_oversized_song() {
    let track = TrkTrack {
        header: TrkHeader {
            version: 1,
            features: TrkFeatures {
                red_multiplier: false,
                song_info: true,
                scenery_width: false,
                ignorable_trigger: false,
                zero_start: false,
                remount: false,
                frictionless: false,
            },
            song: Some("x".repeat(256)),
            start_position: Vec2 { x: 0, y: 0 },
        },
        lines: vec![],
        meta: None,
    };
    assert_eq!(
        write_trk(&track),
        Err(TrackError::UnsupportedConversion(UnsupportedKind::SongLength))
    );
}

fn plain_header() -> TrkHeader {
    TrkHeader {
        version: 1,
        features: TrkFeatures {
            red_multiplier: false,
            song_info: false,
            scenery_width: false,
            ignorable_trigger: false,
            zero_start: false,
            remount: false,
            frictionless: false,
        },
        song: None,
        start_position: Vec2 { x: 0, y: 0 },
    }
}

#[test]
fn encode_rejects_meta_key_with_equals() {
    let track = TrkTrack {
        header: plain_header(),
        lines: vec![],
        meta: Some(TrkMeta {
            entries: vec![("bad=key".to_string(), "v".to_string())],
        }),
    };
    assert_eq!(
        write_trk(&track),
        Err(TrackError::UnsupportedConversion(
            UnsupportedKind::MetaKeyDelimiter
        ))
    );
}

#[test]
fn encode_rejects_oversized_meta_entry() {
    let track = TrkTrack {
        header: plain_header(),
        lines: vec![],
        meta: Some(TrkMeta {
            entries: vec![("k".to_string(), "v".repeat(70000))],
        }),
    };
    assert_eq!(
        write_trk(&track),
        Err(TrackError::UnsupportedConversion(
            UnsupportedKind::MetaEntryLength
        ))
    );
}

#[test]
fn encode_rejects_too_many_meta_entries() {
    let track = TrkTrack {
        header: plain_header(),
        lines: vec![],
        meta: Some(TrkMeta {
            entries: vec![("k".to_string(), "v".to_string()); 0x8000],
        }),
    };
    assert_eq!(
        write_trk(&track),
        Err(TrackError::UnsupportedConversion(UnsupportedKind::MetaCount))
    );
}

#[test]
fn encode_rejects_custom_entity() {
    let track = bosh_codec::BoshTFTrack {
        meta: Default::default(),
        entities: vec![BoshTFEntity::Custom(bosh_codec::default_rig())],
        lines: vec![],
    };
    assert_eq!(
        boshtf_to_trk(&track),
        Err(TrackError::UnsupportedConversion(
            UnsupportedKind::CustomEntity
        ))
    );
}

#[test]
fn encode_rejects_unsupported_velocity() {
    let track = bosh_codec::BoshTFTrack {
        meta: Default::default(),
        entities: vec![BoshTFEntity::BoshSled {
            velocity: Vec2 {
                x: 1.0f64.to_bits(),
                y: 0,
            },
            position: Vec2 { x: 0, y: 0 },
        }],
        lines: vec![],
    };
    assert_eq!(
        boshtf_to_trk(&track),
        Err(TrackError::UnsupportedConversion(
            UnsupportedKind::EntityVelocity
        ))
    );
}

#[test]
fn every_truncation_fails_or_ends_cleanly() {
    // a stream exercising every optional field, including the song block
    let mut bytes = vec![0x54, 0x52, 0x4b, 0xf2, 1];
    let f = b"REDMULTIPLIER;SONGINFO;SCENERYWIDTH;IGNORABLE_TRIGGER";
    bytes.extend_from_slice(&(f.len() as u16).to_le_bytes());
    bytes.extend_from_slice(f);
    bytes.push(2);
    bytes.extend_from_slice(b"la");
    bytes.extend_from_slice(&point_bytes(0.0, 0.0));
    bytes.extend_from_slice(&2u32.to_le_bytes());
    // red line with zoom trigger and both extensions
    bytes.push(0x62);
    bytes.push(9); // multiplier
    bytes.push(1); // zoom flag
    bytes.extend_from_slice(&[0; 6]);
    bytes.extend_from_slice(&1u32.to_le_bytes());
    bytes.extend_from_slice(&[0; 8]);
    bytes.extend_from_slice(&point_bytes(0.0, 0.0));
    bytes.extend_from_slice(&point_bytes(1.0, 1.0));
    // scenery line with width
    bytes.push(0x00);
    bytes.push(4);
    bytes.extend_from_slice(&point_bytes(2.0, 2.0));
    bytes.extend_from_slice(&point_bytes(3.0, 3.0));
    let end_of_lines = bytes.len();
    // metadata
    bytes.extend_from_slice(b"META");
    bytes.extend_from_slice(&1u16.to_le_bytes());
    bytes.extend_from_slice(&3u16.to_le_bytes());
    bytes.extend_from_slice(b"a=b");

    assert!(parse_trk(&bytes).unwrap().meta.is_some());
    for cut in 0..bytes.len() {
        let r = parse_trk(&bytes[..cut]);
        if cut < end_of_lines {
            assert!(r.is_err(), "prefix of length {} should fail", cut);
        } else if let Ok(t) = r {
            // a stream cut after the line records may decode, but then
            // the metadata section must be absent
            assert!(t.meta.is_none(), "prefix of length {}", cut);
        }
    }
}

#[test]
fn truncated_multiplier_and_zoom_and_width() {
    let mut base = header_bytes("REDMULTIPLIER", 0.0, 0.0);
    base.extend_from_slice(&1u32.to_le_bytes());
    base.push(0x02); // red: multiplier byte expected next
    assert_eq!(
        parse_trk(&base),
        Err(TrackError::TruncatedInput(TrkField::Multiplier))
    );

    let mut b2 = header_bytes("IGNORABLE_TRIGGER", 0.0, 0.0);
    b2.extend_from_slice(&1u32.to_le_bytes());
    b2.push(0x01); // blue: zoom flag expected next
    assert_eq!(
        parse_trk(&b2),
        Err(TrackError::TruncatedInput(TrkField::ZoomFlag))
    );

    let mut b3 = header_bytes("SCENERYWIDTH", 0.0, 0.0);
    b3.extend_from_slice(&1u32.to_le_bytes());
    b3.push(0x00); // scenery: width byte expected next
    assert_eq!(
        parse_trk(&b3),
        Err(TrackError::TruncatedInput(TrkField::SceneryWidth))
    );
}

#[test]
fn negative_meta_count_holds_no_entries() {
    let mut bytes = header_bytes("", 0.0, 0.0);
    bytes.extend_from_slice(&0u32.to_le_bytes());
    bytes.extend_from_slice(b"META");
    bytes.extend_from_slice(&0x8000u16.to_le_bytes()); // -32768 as i16
    let t = parse_trk(&bytes).unwrap();
    assert_eq!(t.meta.unwrap().entries.len(), 0);
}
