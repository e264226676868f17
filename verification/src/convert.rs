//! Conversions between the decoded binary track and the canonical model.

use vstd::prelude::*;

use crate::error::{TrackError, UnsupportedKind};
use crate::model::{Vec2, LineEnd, LineEnds, BoshTFLineType, BoshTFLine, BoshTFMeta, BoshTFEntity,
    BoshTFTrack};
use crate::trk::{TrkFeatures, TrkLineType, TrkLineFlags, TrkLine, TrkHeader, TrkTrack};

verus! {

/// The stock start velocity a decoded binary track's rider gets.
pub open spec fn spec_default_velocity() -> Vec2 {
    Vec2 { x: 0x3fd999999999999au64, y: 0 }
}

/// The start velocity under the zero-start feature.
pub open spec fn spec_zero_velocity() -> Vec2 {
    Vec2 { x: 0, y: 0 }
}

/// The canonical line type of a binary line type with its multiplier.
pub open spec fn spec_trk_type_to_boshtf(t: TrkLineType, multiplier: u8) -> BoshTFLineType {
    match t {
        TrkLineType::Blue => BoshTFLineType::Normal,
        TrkLineType::Red => BoshTFLineType::Accelerate { amount: multiplier as u64 },
        TrkLineType::Scenery => BoshTFLineType::Scenery,
    }
}

/// The canonical line a binary line record maps to.
pub open spec fn spec_trk_line_to_boshtf(l: TrkLine) -> BoshTFLine {
    BoshTFLine {
        id: 0,
        ends: LineEnds {
            first: LineEnd { location: l.start, extended: l.flags.spec_extensions().0 },
            second: LineEnd { location: l.end, extended: l.flags.spec_extensions().1 },
        },
        line_type: spec_trk_type_to_boshtf(l.flags.spec_line_type(), l.multiplier),
        flipped: l.flags.spec_flipped(),
    }
}

/// Maps one binary line record to a canonical line.
pub fn trk_line_to_boshtf(l: &TrkLine) -> (r: BoshTFLine)
    ensures
        r == spec_trk_line_to_boshtf(*l),
{
    let exts = l.flags.extensions();
    let lt = l.flags.line_type();
    BoshTFLine {
        id: 0,
        ends: LineEnds {
            first: LineEnd { location: l.start, extended: exts.0 },
            second: LineEnd { location: l.end, extended: exts.1 },
        },
        line_type: match lt {
            TrkLineType::Blue => BoshTFLineType::Normal,
            TrkLineType::Red => BoshTFLineType::Accelerate { amount: l.multiplier as u64 },
            TrkLineType::Scenery => BoshTFLineType::Scenery,
        },
        flipped: l.flags.flipped(),
    }
}

/// Maps a decoded binary track to the canonical model: default metadata,
/// one rider synthesized from the header (velocity zero under the
/// zero-start feature, the stock velocity otherwise), and the lines.
pub fn trk_to_boshtf(trk: &TrkTrack) -> (r: BoshTFTrack)
    ensures
        r.meta == BoshTFMeta::spec_default(),
        r.entities@.len() == 1,
        r.entities@[0] == (BoshTFEntity::BoshSled {
            velocity: if trk.header.features.zero_start {
                spec_zero_velocity()
            } else {
                spec_default_velocity()
            },
            position: trk.header.start_position,
        }),
        r.lines@ == trk.lines@.map_values(|l: TrkLine| spec_trk_line_to_boshtf(l)),
{
    let velocity = if trk.header.features.zero_start {
        Vec2 { x: 0, y: 0 }
    } else {
        Vec2 { x: 0x3fd999999999999a, y: 0 }
    };
    let rider = BoshTFEntity::BoshSled { velocity, position: trk.header.start_position };
    let mut entities: Vec<BoshTFEntity> = Vec::new();
    entities.push(rider);

    let mut lines: Vec<BoshTFLine> = Vec::new();
    let mut i: usize = 0;
    while i < trk.lines.len()
        invariant
            0 <= i <= trk.lines@.len(),
            lines@.len() == i,
            forall|j: int|
                0 <= j < i ==> #[trigger] lines@[j] == spec_trk_line_to_boshtf(trk.lines@[j]),
        decreases trk.lines@.len() - i,
    {
        let l = trk_line_to_boshtf(&trk.lines[i]);
        lines.push(l);
        i = i + 1;
    }
    proof {
        assert(lines@ =~= trk.lines@.map_values(|l: TrkLine| spec_trk_line_to_boshtf(l)));
    }
    BoshTFTrack { meta: Default::default(), entities, lines }
}

/// The binary line type a canonical line type maps back to.
pub open spec fn spec_boshtf_type_to_trk(t: BoshTFLineType) -> TrkLineType {
    match t {
        BoshTFLineType::Normal => TrkLineType::Blue,
        BoshTFLineType::Accelerate { .. } => TrkLineType::Red,
        BoshTFLineType::Scenery => TrkLineType::Scenery,
    }
}

/// Whether this start velocity is one the binary format can state.
pub open spec fn spec_supported_velocity(v: Vec2) -> bool {
    v == spec_default_velocity() || v == spec_zero_velocity()
}

/// Whether this line type's multiplier fits the one-byte field.
pub open spec fn spec_amount_fits(t: BoshTFLineType) -> bool {
    match t {
        BoshTFLineType::Accelerate { amount } => amount <= 255,
        _ => true,
    }
}

/// Whether this line type forces the multiplier feature on.
pub open spec fn spec_needs_multiplier(t: BoshTFLineType) -> bool {
    match t {
        BoshTFLineType::Accelerate { amount } => amount != 1,
        _ => false,
    }
}

/// The binary record that encodes a canonical line.
pub open spec fn spec_trk_line_encodes(t: TrkLine, l: BoshTFLine) -> bool {
    &&& t.flags.spec_flipped() == l.flipped
    &&& t.flags.spec_extensions() == (l.ends.first.extended, l.ends.second.extended)
    &&& t.flags.spec_line_type() == spec_boshtf_type_to_trk(l.line_type)
    &&& t.multiplier == (match l.line_type {
        BoshTFLineType::Accelerate { amount } => amount as u8,
        _ => 1u8,
    })
    &&& t.id == 0
    &&& t.line_width == 1
    &&& t.start == l.ends.first.location
    &&& t.end == l.ends.second.location
}

/// Why a canonical track cannot become a binary track, if it cannot:
/// more than one rider, a custom rider, a start velocity the header
/// cannot state, or an acceleration multiplier over a byte.
pub open spec fn spec_trk_conv_error(track: BoshTFTrack) -> Option<TrackError> {
    if track.entities@.len() > 1 {
        Some(TrackError::UnsupportedConversion(UnsupportedKind::MultipleEntities))
    } else if track.entities@.len() == 1 && !(track.entities@[0] is BoshSled) {
        Some(TrackError::UnsupportedConversion(UnsupportedKind::CustomEntity))
    } else if track.entities@.len() == 1 && !spec_supported_velocity(
        track.entities@[0]->BoshSled_velocity,
    ) {
        Some(TrackError::UnsupportedConversion(UnsupportedKind::EntityVelocity))
    } else if exists|i: int|
        0 <= i < track.lines@.len() && !spec_amount_fits(#[trigger] track.lines@[i].line_type) {
        Some(TrackError::UnsupportedConversion(UnsupportedKind::AccelerationAmount))
    } else {
        None
    }
}

/// Maps a canonical track back to a binary track, mirroring the decode
/// direction: the single rider becomes the header start position and the
/// zero-start feature, and the multiplier feature is switched on exactly
/// when some accelerating line needs a multiplier other than one.
pub fn boshtf_to_trk(track: &BoshTFTrack) -> (r: Result<TrkTrack, TrackError>)
    ensures
        (r is Err) <==> (spec_trk_conv_error(*track) is Some),
        r is Err ==> Some(r->Err_0) == spec_trk_conv_error(*track),
        r is Ok ==> {
            let t = r->Ok_0;
            &&& t.header.version == 1
            &&& t.header.song is None
            &&& t.meta is None
            &&& t.header.start_position == (if track.entities@.len() == 1 {
                track.entities@[0]->BoshSled_position
            } else {
                (Vec2 { x: 0, y: 0 })
            })
            &&& t.header.features == (TrkFeatures {
                red_multiplier: exists|i: int|
                    0 <= i < track.lines@.len() && spec_needs_multiplier(
                        #[trigger] track.lines@[i].line_type,
                    ),
                song_info: false,
                scenery_width: false,
                ignorable_trigger: false,
                zero_start: track.entities@.len() == 1 && track.entities@[0]->BoshSled_velocity
                    == spec_zero_velocity(),
                remount: false,
                frictionless: false,
            })
            &&& t.lines@.len() == track.lines@.len()
            &&& forall|i: int|
                0 <= i < track.lines@.len() ==> spec_trk_line_encodes(
                    #[trigger] t.lines@[i],
                    track.lines@[i],
                )
        },
{
    if track.entities.len() > 1 {
        return Err(TrackError::UnsupportedConversion(UnsupportedKind::MultipleEntities));
    }
    let (start_position, zero_start) = if track.entities.len() == 1 {
        match &track.entities[0] {
            BoshTFEntity::Custom(_) => {
                return Err(TrackError::UnsupportedConversion(UnsupportedKind::CustomEntity));
            },
            BoshTFEntity::BoshSled { velocity, position } => {
                if velocity.x == 0x3fd999999999999a && velocity.y == 0 {
                    (*position, false)
                } else if velocity.x == 0 && velocity.y == 0 {
                    (*position, true)
                } else {
                    return Err(
                        TrackError::UnsupportedConversion(UnsupportedKind::EntityVelocity),
                    );
                }
            },
        }
    } else {
        (Vec2 { x: 0, y: 0 }, false)
    };

    let mut lines: Vec<TrkLine> = Vec::new();
    let mut red_multiplier = false;
    let mut i: usize = 0;
    while i < track.lines.len()
        invariant
            0 <= i <= track.lines@.len(),
            track.entities@.len() <= 1,
            track.entities@.len() == 1 ==> track.entities@[0] is BoshSled
                && spec_supported_velocity(track.entities@[0]->BoshSled_velocity),
            lines@.len() == i,
            forall|j: int|
                0 <= j < i ==> spec_trk_line_encodes(
                    #[trigger] lines@[j],
                    track.lines@[j],
                ),
            forall|j: int| 0 <= j < i ==> spec_amount_fits(#[trigger] track.lines@[j].line_type),
            red_multiplier == (exists|j: int|
                0 <= j < i && spec_needs_multiplier(#[trigger] track.lines@[j].line_type)),
        decreases track.lines@.len() - i,
    {
        let l = &track.lines[i];
        let (trk_type, multiplier) = match l.line_type {
            BoshTFLineType::Normal => (TrkLineType::Blue, 1u8),
            BoshTFLineType::Accelerate { amount } => {
                if amount > 255 {
                    assert(!spec_amount_fits(track.lines@[i as int].line_type));
                    return Err(
                        TrackError::UnsupportedConversion(UnsupportedKind::AccelerationAmount),
                    );
                }
                if amount != 1 {
                    red_multiplier = true;
                }
                (TrkLineType::Red, amount as u8)
            },
            BoshTFLineType::Scenery => (TrkLineType::Scenery, 1u8),
        };
        let flags = TrkLineFlags::new(
            l.flipped,
            (l.ends.first.extended, l.ends.second.extended),
            trk_type,
        );
        lines.push(
            TrkLine {
                flags,
                multiplier,
                id: 0,
                line_width: 1,
                start: l.ends.first.location,
                end: l.ends.second.location,
            },
        );
        i = i + 1;
    }

    Ok(
        TrkTrack {
            header: TrkHeader {
                version: 1,
                features: TrkFeatures {
                    red_multiplier,
                    song_info: false,
                    scenery_width: false,
                    ignorable_trigger: false,
                    zero_start,
                    remount: false,
                    frictionless: false,
                },
                song: None,
                start_position,
            },
            lines,
            meta: None,
        },
    )
}

} // verus!
