//! The legacy web-service JSON format: its in-memory shape (with
//! coordinates as binary64 bit patterns), the packed tuple-line shape,
//! and the conversions to and from the canonical model.

use vstd::prelude::*;

use crate::error::{FormatDetail, TrackError, UnsupportedKind};
use crate::model::{Vec2, LineEnd, LineEnds, BoshTFLineType, BoshTFLine, BoshTFMeta, BoshTFEntity,
    BoshTFTrack};
use crate::convert::spec_default_velocity;

verus! {

/// A 2-D vector of the web-service format; binary64 bit patterns.
#[derive(Debug, Clone, Copy, PartialEq, Eq, Structural)]
pub struct LRComVec2 {
    pub x: u64,
    pub y: u64,
}

/// A rider of the web-service format. `remountable` is carried for
/// round-trip fidelity only; it is written as zero.
#[derive(Debug, Clone, Copy, PartialEq, Eq, Structural)]
pub struct LRComEntity {
    pub start_position: LRComVec2,
    pub start_velocity: LRComVec2,
    pub remountable: u8,
}

/// Line type tag of the web-service format.
#[derive(Debug, Clone, Copy, PartialEq, Eq, Structural)]
pub enum LRComLineType {
    Normal,
    Accelerate,
    Scenery,
}

impl LRComLineType {
    /// The integer tag this variant serializes as.
    pub open spec fn spec_tag(self) -> u8 {
        match self {
            LRComLineType::Normal => 0,
            LRComLineType::Accelerate => 1,
            LRComLineType::Scenery => 2,
        }
    }

    /// The integer tag this variant serializes as.
    pub fn tag(&self) -> (r: u8)
        ensures
            r == self.spec_tag(),
    {
        match self {
            LRComLineType::Normal => 0,
            LRComLineType::Accelerate => 1,
            LRComLineType::Scenery => 2,
        }
    }

    /// The variant of a valid integer tag.
    pub open spec fn spec_from_tag(value: u8) -> LRComLineType {
        if value == 0 {
            LRComLineType::Normal
        } else if value == 1 {
            LRComLineType::Accelerate
        } else {
            LRComLineType::Scenery
        }
    }

    /// Validates and decodes an integer tag: values other than 0, 1 and 2
    /// are rejected as a format error.
    pub fn try_from_tag(value: u8) -> (r: Result<LRComLineType, TrackError>)
        ensures
            value <= 2 ==> r == Ok::<LRComLineType, TrackError>(Self::spec_from_tag(value)),
            value > 2 ==> r == Err::<LRComLineType, TrackError>(
                TrackError::FormatError(FormatDetail::LineTypeTag),
            ),
    {
        match value {
            0 => Ok(LRComLineType::Normal),
            1 => Ok(LRComLineType::Accelerate),
            2 => Ok(LRComLineType::Scenery),
            _ => Err(TrackError::FormatError(FormatDetail::LineTypeTag)),
        }
    }
}

/// A line of the web-service format, object shape.
#[derive(Debug, Clone, Copy, PartialEq, Eq, Structural)]
pub struct LRComLine {
    pub id: u64,
    pub line_type: LRComLineType,
    pub x1: u64,
    pub y1: u64,
    pub x2: u64,
    pub y2: u64,
    pub flipped: bool,
    pub left_extended: bool,
    pub right_extended: bool,
}

/// A line of the web-service format, packed tuple shape:
/// (type, id, x1, y1, x2, y2, extension bits, flipped), with
/// right-extended at bit 1 and left-extended at bit 0.
#[derive(Debug, Clone, Copy, PartialEq, Eq, Structural)]
pub struct LRComLineArray(
    pub LRComLineType,
    pub u64,
    pub u64,
    pub u64,
    pub u64,
    pub u64,
    pub u8,
    pub bool,
);

impl LRComLine {
    /// Unpacks a tuple-shaped line into the object shape.
    pub fn from_array(a: LRComLineArray) -> (r: LRComLine)
        ensures
            r == (LRComLine {
                id: a.1,
                line_type: a.0,
                x1: a.2,
                y1: a.3,
                x2: a.4,
                y2: a.5,
                flipped: a.7,
                left_extended: a.6 & 0b01 != 0,
                right_extended: a.6 & 0b10 != 0,
            }),
    {
        LRComLine {
            id: a.1,
            line_type: a.0,
            x1: a.2,
            y1: a.3,
            x2: a.4,
            y2: a.5,
            flipped: a.7,
            left_extended: a.6 & 0b01 > 0,
            right_extended: a.6 & 0b10 > 0,
        }
    }
}

/// A whole track of the web-service format. The lines come in either of
/// two shapes; `lines` wins over `lines_array` when both are present.
#[derive(Debug, Clone, PartialEq)]
pub struct LRComTrack {
    pub next_line_id: u64,
    pub label: Option<String>,
    pub creator: Option<String>,
    pub description: Option<String>,
    pub duration: Option<u64>,
    pub version: String,
    pub audio: Option<String>,
    pub start_position: LRComVec2,
    pub riders: Option<Vec<LRComEntity>>,
    pub lines: Option<Vec<LRComLine>>,
    pub lines_array: Option<Vec<LRComLineArray>>,
}

/// The canonical vector of a web-format vector (same bit patterns).
pub open spec fn spec_lrcom_vec(v: LRComVec2) -> Vec2 {
    Vec2 { x: v.x, y: v.y }
}

/// The canonical line type of a web-format tag: an accelerating line of
/// this format always has multiplier 1.
pub open spec fn spec_lrcom_type_to_boshtf(t: LRComLineType) -> BoshTFLineType {
    match t {
        LRComLineType::Normal => BoshTFLineType::Normal,
        LRComLineType::Accelerate => BoshTFLineType::Accelerate { amount: 1 },
        LRComLineType::Scenery => BoshTFLineType::Scenery,
    }
}

/// The canonical line of a web-format line.
pub open spec fn spec_lrcom_line_to_boshtf(l: LRComLine) -> BoshTFLine {
    BoshTFLine {
        id: 0,
        ends: LineEnds {
            first: LineEnd { location: Vec2 { x: l.x1, y: l.y1 }, extended: l.left_extended },
            second: LineEnd { location: Vec2 { x: l.x2, y: l.y2 }, extended: l.right_extended },
        },
        line_type: spec_lrcom_type_to_boshtf(l.line_type),
        flipped: l.flipped,
    }
}

/// The canonical rider of a web-format rider.
pub open spec fn spec_lrcom_entity_to_boshtf(e: LRComEntity) -> BoshTFEntity {
    BoshTFEntity::BoshSled {
        velocity: spec_lrcom_vec(e.start_velocity),
        position: spec_lrcom_vec(e.start_position),
    }
}

/// The canonical lines a web-format track carries: the object shape when
/// present, else the unpacked tuple shape, else none.
pub open spec fn spec_lrcom_lines_to_boshtf(t: LRComTrack) -> Seq<BoshTFLine> {
    match t.lines {
        Some(lines) => lines@.map_values(|l: LRComLine| spec_lrcom_line_to_boshtf(l)),
        None => match t.lines_array {
            Some(arr) => arr@.map_values(
                |a: LRComLineArray|
                    spec_lrcom_line_to_boshtf(
                        LRComLine {
                            id: a.1,
                            line_type: a.0,
                            x1: a.2,
                            y1: a.3,
                            x2: a.4,
                            y2: a.5,
                            flipped: a.7,
                            left_extended: a.6 & 0b01 != 0,
                            right_extended: a.6 & 0b10 != 0,
                        },
                    ),
            ),
            None => Seq::empty(),
        },
    }
}

/// The canonical riders a web-format track carries: its riders when
/// present, else one sled at the track's start position with the stock
/// velocity.
pub open spec fn spec_lrcom_entities_to_boshtf(t: LRComTrack) -> Seq<BoshTFEntity> {
    match t.riders {
        Some(riders) => riders@.map_values(|e: LRComEntity| spec_lrcom_entity_to_boshtf(e)),
        None => seq![
            BoshTFEntity::BoshSled {
                position: spec_lrcom_vec(t.start_position),
                velocity: spec_default_velocity(),
            },
        ],
    }
}

/// What a canonical track decoded from a web-format track holds.
pub open spec fn spec_boshtf_of_lrcom(b: BoshTFTrack, t: LRComTrack) -> bool {
    &&& b.meta == BoshTFMeta::spec_default()
    &&& b.entities@ == spec_lrcom_entities_to_boshtf(t)
    &&& b.lines@ == spec_lrcom_lines_to_boshtf(t)
}

/// Decodes a web-format track into the canonical model: riders map to
/// sleds (or one stock sled is synthesized), and either line shape maps
/// to canonical lines.
pub fn lrcom_to_boshtf(track: &LRComTrack) -> (r: BoshTFTrack)
    ensures
        spec_boshtf_of_lrcom(r, *track),
{
    let entities: Vec<BoshTFEntity> = match &track.riders {
        Some(riders) => {
            let mut es: Vec<BoshTFEntity> = Vec::new();
            let mut i: usize = 0;
            while i < riders.len()
                invariant
                    0 <= i <= riders@.len(),
                    es@.len() == i,
                    forall|j: int|
                        0 <= j < i ==> #[trigger] es@[j] == spec_lrcom_entity_to_boshtf(
                            riders@[j],
                        ),
                decreases riders@.len() - i,
            {
                let e = &riders[i];
                es.push(
                    BoshTFEntity::BoshSled {
                        velocity: Vec2 { x: e.start_velocity.x, y: e.start_velocity.y },
                        position: Vec2 { x: e.start_position.x, y: e.start_position.y },
                    },
                );
                i = i + 1;
            }
            proof {
                assert(es@ =~= riders@.map_values(
                    |e: LRComEntity| spec_lrcom_entity_to_boshtf(e),
                ));
            }
            es
        },
        None => {
            let mut es: Vec<BoshTFEntity> = Vec::new();
            es.push(
                BoshTFEntity::BoshSled {
                    position: Vec2 { x: track.start_position.x, y: track.start_position.y },
                    velocity: Vec2 { x: 0x3fd999999999999a, y: 0 },
                },
            );
            proof {
                assert(es@ =~= spec_lrcom_entities_to_boshtf(*track));
            }
            es
        },
    };

    let lines: Vec<BoshTFLine> = match &track.lines {
        Some(lines) => {
            let mut ls: Vec<BoshTFLine> = Vec::new();
            let mut i: usize = 0;
            while i < lines.len()
                invariant
                    0 <= i <= lines@.len(),
                    ls@.len() == i,
                    forall|j: int|
                        0 <= j < i ==> #[trigger] ls@[j] == spec_lrcom_line_to_boshtf(lines@[j]),
                decreases lines@.len() - i,
            {
                let l = &lines[i];
                ls.push(lrcom_line_to_boshtf(l));
                i = i + 1;
            }
            proof {
                assert(ls@ =~= lines@.map_values(|l: LRComLine| spec_lrcom_line_to_boshtf(l)));
            }
            ls
        },
        None => match &track.lines_array {
            Some(arr) => {
                let mut ls: Vec<BoshTFLine> = Vec::new();
                let mut i: usize = 0;
                while i < arr.len()
                    invariant
                        0 <= i <= arr@.len(),
                        ls@.len() == i,
                        forall|j: int|
                            0 <= j < i ==> #[trigger] ls@[j] == spec_lrcom_line_to_boshtf(
                                LRComLine {
                                    id: arr@[j].1,
                                    line_type: arr@[j].0,
                                    x1: arr@[j].2,
                                    y1: arr@[j].3,
                                    x2: arr@[j].4,
                                    y2: arr@[j].5,
                                    flipped: arr@[j].7,
                                    left_extended: arr@[j].6 & 0b01 != 0,
                                    right_extended: arr@[j].6 & 0b10 != 0,
                                },
                            ),
                    decreases arr@.len() - i,
                {
                    let obj = LRComLine::from_array(arr[i]);
                    ls.push(lrcom_line_to_boshtf(&obj));
                    i = i + 1;
                }
                proof {
                    assert(ls@ =~= spec_lrcom_lines_to_boshtf(*track));
                }
                ls
            },
            None => Vec::new(),
        },
    };
    proof {
        assert(lines@ =~= spec_lrcom_lines_to_boshtf(*track));
    }
    BoshTFTrack { meta: Default::default(), entities, lines }
}

/// Maps one web-format line (object shape) to a canonical line.
pub fn lrcom_line_to_boshtf(l: &LRComLine) -> (r: BoshTFLine)
    ensures
        r == spec_lrcom_line_to_boshtf(*l),
{
    BoshTFLine {
        id: 0,
        ends: LineEnds {
            first: LineEnd {
                location: Vec2 { x: l.x1, y: l.y1 },
                extended: l.left_extended,
            },
            second: LineEnd {
                location: Vec2 { x: l.x2, y: l.y2 },
                extended: l.right_extended,
            },
        },
        line_type: match l.line_type {
            LRComLineType::Normal => BoshTFLineType::Normal,
            LRComLineType::Accelerate => BoshTFLineType::Accelerate { amount: 1 },
            LRComLineType::Scenery => BoshTFLineType::Scenery,
        },
        flipped: l.flipped,
    }
}

/// Why a canonical track cannot become a web-format track, if it cannot:
/// no riders at all, a rider that is not the compact sled, or an
/// accelerating line with a multiplier other than one.
pub open spec fn spec_lrcom_conv_error(track: BoshTFTrack) -> Option<TrackError> {
    if track.entities@.len() == 0 {
        Some(TrackError::UnsupportedConversion(UnsupportedKind::NoEntities))
    } else if exists|i: int| 0 <= i < track.entities@.len() && !(#[trigger] track.entities@[i]
        is BoshSled) {
        Some(TrackError::UnsupportedConversion(UnsupportedKind::CustomEntity))
    } else if exists|i: int|
        0 <= i < track.lines@.len() && !spec_lrcom_type_supported(
            #[trigger] track.lines@[i].line_type,
        ) {
        Some(TrackError::UnsupportedConversion(UnsupportedKind::AccelerationAmount))
    } else {
        None
    }
}

/// Whether the web format can state this line type: it has no multiplier
/// field, so only amount 1 is representable.
pub open spec fn spec_lrcom_type_supported(t: BoshTFLineType) -> bool {
    match t {
        BoshTFLineType::Accelerate { amount } => amount == 1,
        _ => true,
    }
}

/// The web-format tag of a supported canonical line type.
pub open spec fn spec_boshtf_type_to_lrcom(t: BoshTFLineType) -> LRComLineType {
    match t {
        BoshTFLineType::Normal => LRComLineType::Normal,
        BoshTFLineType::Accelerate { .. } => LRComLineType::Accelerate,
        BoshTFLineType::Scenery => LRComLineType::Scenery,
    }
}

/// The web-format rider of a compact canonical rider.
pub open spec fn spec_boshtf_entity_to_lrcom(e: BoshTFEntity) -> LRComEntity {
    LRComEntity {
        start_position: LRComVec2 {
            x: e->BoshSled_position.x,
            y: e->BoshSled_position.y,
        },
        start_velocity: LRComVec2 {
            x: e->BoshSled_velocity.x,
            y: e->BoshSled_velocity.y,
        },
        remountable: 0,
    }
}

/// The web-format line of a supported canonical line.
pub open spec fn spec_boshtf_line_to_lrcom(l: BoshTFLine) -> LRComLine {
    LRComLine {
        id: 0,
        line_type: spec_boshtf_type_to_lrcom(l.line_type),
        x1: l.ends.first.location.x,
        y1: l.ends.first.location.y,
        x2: l.ends.second.location.x,
        y2: l.ends.second.location.y,
        flipped: l.flipped,
        left_extended: l.ends.first.extended,
        right_extended: l.ends.second.extended,
    }
}

/// What a web-format track encoded from a canonical track holds.
pub open spec fn spec_lrcom_of_boshtf(t: LRComTrack, b: BoshTFTrack) -> bool {
    &&& t.next_line_id == b.lines@.len()
    &&& t.label is None
    &&& t.creator is None
    &&& t.description is None
    &&& t.duration is None
    &&& t.version@ == "6.2"@
    &&& t.audio is None
    &&& b.entities@.len() > 0
    &&& t.start_position == spec_boshtf_entity_to_lrcom(b.entities@[0]).start_position
    &&& t.riders matches Some(rs) && rs@ == b.entities@.map_values(
        |e: BoshTFEntity| spec_boshtf_entity_to_lrcom(e),
    )
    &&& t.lines matches Some(ls) && ls@ == b.lines@.map_values(
        |l: BoshTFLine| spec_boshtf_line_to_lrcom(l),
    )
    &&& t.lines_array is None
}

/// Encodes a canonical track into the web-service format. Every rider
/// must be the compact sled and every accelerating line must carry
/// multiplier one; the object line shape is always emitted.
pub fn boshtf_to_lrcom(track: &BoshTFTrack) -> (r: Result<LRComTrack, TrackError>)
    ensures
        (r is Err) <==> (spec_lrcom_conv_error(*track) is Some),
        r is Err ==> Some(r->Err_0) == spec_lrcom_conv_error(*track),
        r is Ok ==> spec_lrcom_of_boshtf(r->Ok_0, *track),
{
    if track.entities.len() == 0 {
        return Err(TrackError::UnsupportedConversion(UnsupportedKind::NoEntities));
    }
    let mut riders: Vec<LRComEntity> = Vec::new();
    let mut i: usize = 0;
    while i < track.entities.len()
        invariant
            0 <= i <= track.entities@.len(),
            track.entities@.len() > 0,
            riders@.len() == i,
            forall|j: int| 0 <= j < i ==> #[trigger] track.entities@[j] is BoshSled,
            forall|j: int|
                0 <= j < i ==> #[trigger] riders@[j] == spec_boshtf_entity_to_lrcom(
                    track.entities@[j],
                ),
        decreases track.entities@.len() - i,
    {
        match &track.entities[i] {
            BoshTFEntity::Custom(_) => {
                assert(!(track.entities@[i as int] is BoshSled));
                return Err(TrackError::UnsupportedConversion(UnsupportedKind::CustomEntity));
            },
            BoshTFEntity::BoshSled { velocity, position } => {
                riders.push(
                    LRComEntity {
                        start_position: LRComVec2 { x: position.x, y: position.y },
                        start_velocity: LRComVec2 { x: velocity.x, y: velocity.y },
                        remountable: 0,
                    },
                );
            },
        }
        i = i + 1;
    }

    let mut lines: Vec<LRComLine> = Vec::new();
    let mut k: usize = 0;
    while k < track.lines.len()
        invariant
            0 <= k <= track.lines@.len(),
            track.entities@.len() > 0,
            forall|j: int| 0 <= j < track.entities@.len() ==> #[trigger] track.entities@[j]
                is BoshSled,
            lines@.len() == k,
            forall|j: int|
                0 <= j < k ==> spec_lrcom_type_supported(#[trigger] track.lines@[j].line_type),
            forall|j: int|
                0 <= j < k ==> #[trigger] lines@[j] == spec_boshtf_line_to_lrcom(track.lines@[j]),
        decreases track.lines@.len() - k,
    {
        let l = &track.lines[k];
        let line_type = match l.line_type {
            BoshTFLineType::Normal => LRComLineType::Normal,
            BoshTFLineType::Accelerate { amount } => {
                if amount != 1 {
                    assert(!spec_lrcom_type_supported(track.lines@[k as int].line_type));
                    return Err(
                        TrackError::UnsupportedConversion(UnsupportedKind::AccelerationAmount),
                    );
                }
                LRComLineType::Accelerate
            },
            BoshTFLineType::Scenery => LRComLineType::Scenery,
        };
        lines.push(
            LRComLine {
                id: 0,
                line_type,
                x1: l.ends.first.location.x,
                y1: l.ends.first.location.y,
                x2: l.ends.second.location.x,
                y2: l.ends.second.location.y,
                flipped: l.flipped,
                left_extended: l.ends.first.extended,
                right_extended: l.ends.second.extended,
            },
        );
        k = k + 1;
    }

    let first = &riders[0];
    proof {
        assert(riders@ =~= track.entities@.map_values(
            |e: BoshTFEntity| spec_boshtf_entity_to_lrcom(e),
        ));
        assert(lines@ =~= track.lines@.map_values(
            |l: BoshTFLine| spec_boshtf_line_to_lrcom(l),
        ));
    }
    Ok(
        LRComTrack {
            next_line_id: lines.len() as u64,
            label: None,
            creator: None,
            description: None,
            duration: None,
            version: "6.2".to_owned(),
            audio: None,
            start_position: first.start_position,
            riders: Some(riders),
            lines: Some(lines),
            lines_array: None,
        },
    )
}

/// Round trip through the web-service format: a canonical track that the
/// format accepts (every rider a sled, every multiplier one), with stock
/// metadata and line ids zero, is reproduced exactly by encoding it and
/// decoding the result.
pub proof fn lemma_lrcom_round_trip(track: BoshTFTrack, t: LRComTrack, back: BoshTFTrack)
    requires
        spec_lrcom_conv_error(track) is None,
        spec_lrcom_of_boshtf(t, track),
        spec_boshtf_of_lrcom(back, t),
        track.meta == BoshTFMeta::spec_default(),
        forall|i: int| 0 <= i < track.lines@.len() ==> #[trigger] track.lines@[i].id == 0,
    ensures
        back.meta == track.meta,
        back.entities@ == track.entities@,
        back.lines@ == track.lines@,
{
    let rs = t.riders->0;
    let ls = t.lines->0;
    assert forall|i: int| 0 <= i < track.entities@.len() implies back.entities@[i]
        == track.entities@[i] by {
        assert(track.entities@[i] is BoshSled);
        assert(rs@[i] == spec_boshtf_entity_to_lrcom(track.entities@[i]));
    }
    assert forall|i: int| 0 <= i < track.lines@.len() implies back.lines@[i]
        == track.lines@[i] by {
        assert(ls@[i] == spec_boshtf_line_to_lrcom(track.lines@[i]));
        assert(back.lines@[i] == spec_lrcom_line_to_boshtf(ls@[i]));
        assert(spec_lrcom_type_supported(track.lines@[i].line_type));
        assert(track.lines@[i].id == 0);
    }
    assert(back.entities@ =~= track.entities@);
    assert(back.lines@ =~= track.lines@);
}

} // verus!
