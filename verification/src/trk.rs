//! The legacy binary track format: types, bit-packed line flags, and the
//! feature-token set that gates optional fields.

use vstd::prelude::*;

use crate::error::{FormatDetail, TrkField, TrackError};
use crate::text::{utf8_lossy, lossy_string};
use crate::model::Vec2;

verus! {

/// The named optional capabilities a binary header can declare.
#[derive(Debug, Clone, Copy, PartialEq, Eq, Structural)]
pub enum TrkFeature {
    RedMultiplier,
    SongInfo,
    SceneryWidth,
    IgnorableTrigger,
    ZeroStart,
    Remount,
    Frictionless,
}

impl TrkFeature {
    /// The feature's token, as the bytes written in the header.
    pub open spec fn spec_token(self) -> Seq<u8> {
        match self {
            TrkFeature::RedMultiplier => seq![82u8, 69u8, 68u8, 77u8, 85u8, 76u8, 84u8, 73u8, 80u8, 76u8, 73u8, 69u8, 82u8],
            TrkFeature::SongInfo => seq![83u8, 79u8, 78u8, 71u8, 73u8, 78u8, 70u8, 79u8],
            TrkFeature::SceneryWidth => seq![83u8, 67u8, 69u8, 78u8, 69u8, 82u8, 89u8, 87u8, 73u8, 68u8, 84u8, 72u8],
            TrkFeature::IgnorableTrigger => seq![73u8, 71u8, 78u8, 79u8, 82u8, 65u8, 66u8, 76u8, 69u8, 95u8, 84u8, 82u8, 73u8, 71u8, 71u8, 69u8, 82u8],
            TrkFeature::ZeroStart => seq![90u8, 69u8, 82u8, 79u8, 83u8, 84u8, 65u8, 82u8, 84u8],
            TrkFeature::Remount => seq![82u8, 69u8, 77u8, 79u8, 85u8, 78u8, 84u8],
            TrkFeature::Frictionless => seq![70u8, 82u8, 73u8, 67u8, 84u8, 73u8, 79u8, 78u8, 76u8, 69u8, 83u8, 83u8],
        }
    }

    /// The feature's token, as the bytes written in the header.
    pub fn token_bytes(&self) -> (r: Vec<u8>)
        ensures
            r@ == self.spec_token(),
    {
        let v: Vec<u8> = match self {
            TrkFeature::RedMultiplier => vec![82u8, 69u8, 68u8, 77u8, 85u8, 76u8, 84u8, 73u8, 80u8, 76u8, 73u8, 69u8, 82u8],
            TrkFeature::SongInfo => vec![83u8, 79u8, 78u8, 71u8, 73u8, 78u8, 70u8, 79u8],
            TrkFeature::SceneryWidth => vec![83u8, 67u8, 69u8, 78u8, 69u8, 82u8, 89u8, 87u8, 73u8, 68u8, 84u8, 72u8],
            TrkFeature::IgnorableTrigger => vec![73u8, 71u8, 78u8, 79u8, 82u8, 65u8, 66u8, 76u8, 69u8, 95u8, 84u8, 82u8, 73u8, 71u8, 71u8, 69u8, 82u8],
            TrkFeature::ZeroStart => vec![90u8, 69u8, 82u8, 79u8, 83u8, 84u8, 65u8, 82u8, 84u8],
            TrkFeature::Remount => vec![82u8, 69u8, 77u8, 79u8, 85u8, 78u8, 84u8],
            TrkFeature::Frictionless => vec![70u8, 82u8, 73u8, 67u8, 84u8, 73u8, 79u8, 78u8, 76u8, 69u8, 83u8, 83u8],
        };
        proof {
            assert(v@ =~= self.spec_token());
        }
        v
    }
}

/// The set of features active in one binary header.
#[derive(Debug, Clone, Copy, PartialEq, Eq, Structural)]
pub struct TrkFeatures {
    pub red_multiplier: bool,
    pub song_info: bool,
    pub scenery_width: bool,
    pub ignorable_trigger: bool,
    pub zero_start: bool,
    pub remount: bool,
    pub frictionless: bool,
}

impl TrkFeatures {
    /// The empty feature set.
    pub fn none() -> (r: TrkFeatures)
        ensures
            r == (TrkFeatures {
                red_multiplier: false,
                song_info: false,
                scenery_width: false,
                ignorable_trigger: false,
                zero_start: false,
                remount: false,
                frictionless: false,
            }),
    {
        TrkFeatures {
            red_multiplier: false,
            song_info: false,
            scenery_width: false,
            ignorable_trigger: false,
            zero_start: false,
            remount: false,
            frictionless: false,
        }
    }
}

/// The feature-string bytes split on `;`, scanning from `pos` with the
/// current segment starting at `seg_start`.
pub open spec fn spec_split_semi_from(s: Seq<u8>, seg_start: int, pos: int) -> Seq<Seq<u8>>
    decreases s.len() - pos,
{
    if pos < 0 || seg_start < 0 || seg_start > pos {
        Seq::empty()
    } else if pos >= s.len() {
        seq![s.subrange(seg_start, s.len() as int)]
    } else if s[pos] == 59 {
        seq![s.subrange(seg_start, pos)] + spec_split_semi_from(s, pos + 1, pos + 1)
    } else {
        spec_split_semi_from(s, seg_start, pos + 1)
    }
}

/// The `;`-separated segments of the feature string.
pub open spec fn spec_split_semi(s: Seq<u8>) -> Seq<Seq<u8>> {
    spec_split_semi_from(s, 0, 0)
}

/// The feature set a feature string declares: a feature is active exactly
/// when its token is one of the `;`-separated segments.
pub open spec fn spec_features_of(s: Seq<u8>) -> TrkFeatures {
    TrkFeatures {
        red_multiplier: spec_split_semi(s).contains(TrkFeature::RedMultiplier.spec_token()),
        song_info: spec_split_semi(s).contains(TrkFeature::SongInfo.spec_token()),
        scenery_width: spec_split_semi(s).contains(TrkFeature::SceneryWidth.spec_token()),
        ignorable_trigger: spec_split_semi(s).contains(TrkFeature::IgnorableTrigger.spec_token()),
        zero_start: spec_split_semi(s).contains(TrkFeature::ZeroStart.spec_token()),
        remount: spec_split_semi(s).contains(TrkFeature::Remount.spec_token()),
        frictionless: spec_split_semi(s).contains(TrkFeature::Frictionless.spec_token()),
    }
}

fn bytes_eq(a: &[u8], b: &[u8]) -> (r: bool)
    ensures
        r == (a@ == b@),
{
    if a.len() != b.len() {
        assert(a@ != b@);
        return false;
    }
    let mut i: usize = 0;
    while i < a.len()
        invariant
            0 <= i <= a@.len(),
            a@.len() == b@.len(),
            forall|j: int| 0 <= j < i ==> a@[j] == b@[j],
        decreases a@.len() - i,
    {
        if a[i] != b[i] {
            assert(a@ != b@);
            return false;
        }
        i = i + 1;
    }
    assert(a@ =~= b@);
    true
}

/// Splits the feature-string bytes on `;`.
fn split_semi(s: &[u8]) -> (r: Vec<Vec<u8>>)
    ensures
        r@.map_values(|v: Vec<u8>| v@) == spec_split_semi(s@),
{
    let ghost full = spec_split_semi(s@);
    let mut r: Vec<Vec<u8>> = Vec::new();
    let mut seg_start: usize = 0;
    let mut pos: usize = 0;
    while pos < s.len()
        invariant
            0 <= seg_start <= pos <= s@.len(),
            full == r@.map_values(|v: Vec<u8>| v@) + spec_split_semi_from(
                s@,
                seg_start as int,
                pos as int,
            ),
        decreases s@.len() - pos,
    {
        if s[pos] == 59 {
            let seg = vstd::slice::slice_to_vec(vstd::slice::slice_subrange(s, seg_start, pos));
            proof {
                assert((r@ + seq![seg]).map_values(|v: Vec<u8>| v@) =~= r@.map_values(
                    |v: Vec<u8>| v@,
                ) + seq![seg@]);
            }
            r.push(seg);
            seg_start = pos + 1;
        }
        pos = pos + 1;
    }
    let seg = vstd::slice::slice_to_vec(vstd::slice::slice_subrange(s, seg_start, s.len()));
    proof {
        assert((r@ + seq![seg]).map_values(|v: Vec<u8>| v@) =~= r@.map_values(|v: Vec<u8>| v@)
            + seq![seg@]);
    }
    r.push(seg);
    r
}

/// Reads the feature set out of the feature-string bytes.
pub fn parse_features(s: &[u8]) -> (r: TrkFeatures)
    ensures
        r == spec_features_of(s@),
{
    let segments = split_semi(s);
    let tok_red = TrkFeature::RedMultiplier.token_bytes();
    let tok_song = TrkFeature::SongInfo.token_bytes();
    let tok_width = TrkFeature::SceneryWidth.token_bytes();
    let tok_trigger = TrkFeature::IgnorableTrigger.token_bytes();
    let tok_zero = TrkFeature::ZeroStart.token_bytes();
    let tok_remount = TrkFeature::Remount.token_bytes();
    let tok_frictionless = TrkFeature::Frictionless.token_bytes();
    let mut f = TrkFeatures::none();
    let ghost segs = spec_split_semi(s@);
    let mut i: usize = 0;
    while i < segments.len()
        invariant
            0 <= i <= segments@.len(),
            segs == segments@.map_values(|v: Vec<u8>| v@),
            tok_red@ == TrkFeature::RedMultiplier.spec_token(),
            tok_song@ == TrkFeature::SongInfo.spec_token(),
            tok_width@ == TrkFeature::SceneryWidth.spec_token(),
            tok_trigger@ == TrkFeature::IgnorableTrigger.spec_token(),
            tok_zero@ == TrkFeature::ZeroStart.spec_token(),
            tok_remount@ == TrkFeature::Remount.spec_token(),
            tok_frictionless@ == TrkFeature::Frictionless.spec_token(),
            f.red_multiplier == segs.take(i as int).contains(tok_red@),
            f.song_info == segs.take(i as int).contains(tok_song@),
            f.scenery_width == segs.take(i as int).contains(tok_width@),
            f.ignorable_trigger == segs.take(i as int).contains(tok_trigger@),
            f.zero_start == segs.take(i as int).contains(tok_zero@),
            f.remount == segs.take(i as int).contains(tok_remount@),
            f.frictionless == segs.take(i as int).contains(tok_frictionless@),
        decreases segments@.len() - i,
    {
        let seg = &segments[i];
        proof {
            assert(segs[i as int] == segments@[i as int]@);
            assert(segs.take(i + 1).drop_last() =~= segs.take(i as int));
            assert(segs.take(i + 1).last() == segs[i as int]);
        }
        if bytes_eq(seg.as_slice(), tok_red.as_slice()) {
            f.red_multiplier = true;
        }
        if bytes_eq(seg.as_slice(), tok_song.as_slice()) {
            f.song_info = true;
        }
        if bytes_eq(seg.as_slice(), tok_width.as_slice()) {
            f.scenery_width = true;
        }
        if bytes_eq(seg.as_slice(), tok_trigger.as_slice()) {
            f.ignorable_trigger = true;
        }
        if bytes_eq(seg.as_slice(), tok_zero.as_slice()) {
            f.zero_start = true;
        }
        if bytes_eq(seg.as_slice(), tok_remount.as_slice()) {
            f.remount = true;
        }
        if bytes_eq(seg.as_slice(), tok_frictionless.as_slice()) {
            f.frictionless = true;
        }
        i = i + 1;
    }
    proof {
        assert(segs.take(segs.len() as int) =~= segs);
    }
    f
}

/// The line kinds the binary format distinguishes.
#[derive(Debug, Clone, Copy, PartialEq, Eq, Structural)]
pub enum TrkLineType {
    Scenery,
    Blue,
    Red,
}

impl TrkLineType {
    /// The 5-bit tag of this kind in the flags byte.
    pub open spec fn spec_tag(self) -> u8 {
        match self {
            TrkLineType::Scenery => 0,
            TrkLineType::Blue => 1,
            TrkLineType::Red => 2,
        }
    }

    /// The kind a 5-bit tag decodes to; unknown tags fall back to scenery.
    pub open spec fn spec_from_tag(value: u8) -> TrkLineType {
        if value == 1 {
            TrkLineType::Blue
        } else if value == 2 {
            TrkLineType::Red
        } else {
            TrkLineType::Scenery
        }
    }

    /// The 5-bit tag of this kind in the flags byte.
    pub fn tag(&self) -> (r: u8)
        ensures
            r == self.spec_tag(),
            r < 3,
    {
        match self {
            TrkLineType::Scenery => 0,
            TrkLineType::Blue => 1,
            TrkLineType::Red => 2,
        }
    }

    /// The kind a 5-bit tag decodes to; unknown tags fall back to scenery.
    pub fn from_tag(value: u8) -> (r: TrkLineType)
        ensures
            r == TrkLineType::spec_from_tag(value),
    {
        if value == 1 {
            TrkLineType::Blue
        } else if value == 2 {
            TrkLineType::Red
        } else {
            TrkLineType::Scenery
        }
    }
}

/// The bit-packed flag byte of a binary line record: flipped at bit 7,
/// left extension at bit 6, right extension at bit 5, and the line type
/// in the low five bits.
#[derive(Debug, Default, Clone, Copy, PartialEq, Eq, Structural)]
pub struct TrkLineFlags(pub u8);

impl TrkLineFlags {
    pub open spec fn spec_flipped(self) -> bool {
        self.0 & 0x80 != 0
    }

    pub open spec fn spec_extensions(self) -> (bool, bool) {
        (self.0 & 0x40 != 0, self.0 & 0x20 != 0)
    }

    pub open spec fn spec_line_type(self) -> TrkLineType {
        TrkLineType::spec_from_tag(self.0 & 0x1f)
    }

    /// Packs the flag byte. `extensions` is (left, right).
    pub fn new(flipped: bool, extensions: (bool, bool), line_type: TrkLineType) -> (r:
        TrkLineFlags)
        ensures
            r.spec_flipped() == flipped,
            r.spec_extensions() == extensions,
            r.spec_line_type() == line_type,
    {
        let f: u8 = if flipped {
            0x80
        } else {
            0
        };
        let e1: u8 = if extensions.0 {
            0x40
        } else {
            0
        };
        let e2: u8 = if extensions.1 {
            0x20
        } else {
            0
        };
        let t: u8 = line_type.tag();
        let byte: u8 = f | e1 | e2 | t;
        proof {
            assert((f | e1 | e2 | t) & 0x80u8 == f && (f | e1 | e2 | t) & 0x40u8 == e1 && (f | e1
                | e2 | t) & 0x20u8 == e2 && (f | e1 | e2 | t) & 0x1fu8 == t) by (bit_vector)
                requires
                    f == 0x80u8 || f == 0u8,
                    e1 == 0x40u8 || e1 == 0u8,
                    e2 == 0x20u8 || e2 == 0u8,
                    t < 3,
            ;
        }
        TrkLineFlags(byte)
    }

    /// Whether the line's physics normal is inverted (bit 7).
    pub fn flipped(&self) -> (r: bool)
        ensures
            r == self.spec_flipped(),
    {
        self.0 & 0x80 > 0
    }

    /// The (left, right) extension flags (bits 6 and 5).
    pub fn extensions(&self) -> (r: (bool, bool))
        ensures
            r == self.spec_extensions(),
    {
        (self.0 & 0x40 > 0, self.0 & 0x20 > 0)
    }

    /// The line type in the low five bits.
    pub fn line_type(&self) -> (r: TrkLineType)
        ensures
            r == self.spec_line_type(),
    {
        TrkLineType::from_tag(self.0 & 0x1f)
    }
}

/// One decoded binary line record.
#[derive(Debug, Clone, Copy, PartialEq, Eq, Structural)]
pub struct TrkLine {
    pub flags: TrkLineFlags,
    pub multiplier: u8,
    pub id: u32,
    pub line_width: u8,
    pub start: Vec2,
    pub end: Vec2,
}

/// A decoded binary header.
#[derive(Debug, Clone, PartialEq)]
pub struct TrkHeader {
    pub version: u8,
    pub features: TrkFeatures,
    pub song: Option<String>,
    pub start_position: Vec2,
}

/// The decoded optional metadata section: `key = value` entries in file
/// order.
#[derive(Debug, Clone, PartialEq)]
pub struct TrkMeta {
    pub entries: Vec<(String, String)>,
}

/// A whole decoded binary track.
#[derive(Debug, Clone, PartialEq)]
pub struct TrkTrack {
    pub header: TrkHeader,
    pub lines: Vec<TrkLine>,
    pub meta: Option<TrkMeta>,
}

/// A binary header with its text fields still as raw bytes.
pub ghost struct SpecTrkHeader {
    pub version: u8,
    pub features: TrkFeatures,
    pub song: Option<Seq<u8>>,
    pub start_position: Vec2,
}

/// A binary track with its text fields still as raw bytes.
pub ghost struct SpecTrkTrack {
    pub header: SpecTrkHeader,
    pub lines: Seq<TrkLine>,
    pub meta: Option<Seq<(Seq<u8>, Seq<u8>)>>,
}

/// The four magic bytes that open a binary track.
pub open spec fn spec_trk_magic() -> Seq<u8> {
    seq![0x54u8, 0x52u8, 0x4bu8, 0xf2u8]
}

/// The four magic bytes that open the metadata section.
pub open spec fn spec_meta_magic() -> Seq<u8> {
    seq![0x4du8, 0x45u8, 0x54u8, 0x41u8]
}

/// Two little-endian 64-bit coordinates starting at `pos`.
pub open spec fn spec_read_vec2(s: Seq<u8>, pos: int, field: TrkField) -> Result<
    (Vec2, int),
    TrackError,
> {
    if pos + 16 <= s.len() {
        Ok(
            (
                Vec2 {
                    x: vstd::bytes::spec_u64_from_le_bytes(s.subrange(pos, pos + 8)),
                    y: vstd::bytes::spec_u64_from_le_bytes(s.subrange(pos + 8, pos + 16)),
                },
                pos + 16,
            ),
        )
    } else {
        Err(TrackError::TruncatedInput(field))
    }
}

/// The song block: present exactly when the song feature is active; an
/// 8-bit length, then that many bytes of song text.
pub open spec fn spec_parse_song(s: Seq<u8>, pos: int, features: TrkFeatures) -> Result<
    (Option<Seq<u8>>, int),
    TrackError,
> {
    if !features.song_info {
        Ok((None, pos))
    } else if pos + 1 > s.len() {
        Err(TrackError::TruncatedInput(TrkField::SongLength))
    } else {
        let slen = s[pos] as int;
        if pos + 1 + slen > s.len() {
            Err(TrackError::TruncatedInput(TrkField::Song))
        } else {
            Ok((Some(s.subrange(pos + 1, pos + 1 + slen)), pos + 1 + slen))
        }
    }
}

/// The binary header: magic, version, feature string, optional song
/// block, start position.
pub open spec fn spec_parse_header(s: Seq<u8>) -> Result<(SpecTrkHeader, int), TrackError> {
    if s.len() < 4 {
        Err(TrackError::TruncatedInput(TrkField::HeaderMagic))
    } else if s.subrange(0, 4) != spec_trk_magic() {
        Err(TrackError::FormatError(FormatDetail::HeaderMagic))
    } else if s.len() < 5 {
        Err(TrackError::TruncatedInput(TrkField::Version))
    } else if s.len() < 7 {
        Err(TrackError::TruncatedInput(TrkField::FeaturesLength))
    } else {
        let version = s[4];
        let flen = vstd::bytes::spec_u16_from_le_bytes(s.subrange(5, 7)) as int;
        if 7 + flen > s.len() {
            Err(TrackError::TruncatedInput(TrkField::FeaturesString))
        } else {
            let features = spec_features_of(s.subrange(7, 7 + flen));
            match spec_parse_song(s, 7 + flen, features) {
                Err(e) => Err(e),
                Ok((song, p)) => match spec_read_vec2(s, p, TrkField::StartPosition) {
                    Err(e) => Err(e),
                    Ok((sp, p2)) => Ok(
                        (SpecTrkHeader { version, features, song, start_position: sp }, p2),
                    ),
                },
            }
        }
    }
}

/// The red-line multiplier byte: read exactly when the multiplier feature
/// is active and the line is red; 1 otherwise.
pub open spec fn spec_parse_multiplier(
    s: Seq<u8>,
    pos: int,
    features: TrkFeatures,
    flags: TrkLineFlags,
) -> Result<(u8, int), TrackError> {
    if features.red_multiplier && flags.spec_line_type() is Red {
        if pos + 1 <= s.len() {
            Ok((s[pos], pos + 1))
        } else {
            Err(TrackError::TruncatedInput(TrkField::Multiplier))
        }
    } else {
        Ok((1u8, pos))
    }
}

/// The ignorable zoom trigger: a flag byte, and six more payload bytes to
/// discard when the flag is nonzero.
pub open spec fn spec_parse_trigger(s: Seq<u8>, pos: int, features: TrkFeatures) -> Result<
    int,
    TrackError,
> {
    if !features.ignorable_trigger {
        Ok(pos)
    } else if pos + 1 > s.len() {
        Err(TrackError::TruncatedInput(TrkField::ZoomFlag))
    } else if s[pos] != 0 {
        if pos + 7 <= s.len() {
            Ok(pos + 7)
        } else {
            Err(TrackError::TruncatedInput(TrkField::ZoomPayload))
        }
    } else {
        Ok(pos + 1)
    }
}

/// The physical-line section: the optional zoom trigger, the 32-bit id,
/// and the discarded legacy extension payload; scenery lines have id 0
/// and no such section.
pub open spec fn spec_parse_id_section(
    s: Seq<u8>,
    pos: int,
    features: TrkFeatures,
    flags: TrkLineFlags,
) -> Result<(u32, int), TrackError> {
    if flags.spec_line_type() is Red || flags.spec_line_type() is Blue {
        match spec_parse_trigger(s, pos, features) {
            Err(e) => Err(e),
            Ok(p) => {
                if p + 4 > s.len() {
                    Err(TrackError::TruncatedInput(TrkField::LineId))
                } else {
                    let id = vstd::bytes::spec_u32_from_le_bytes(s.subrange(p, p + 4));
                    if flags.spec_extensions().0 || flags.spec_extensions().1 {
                        if p + 12 <= s.len() {
                            Ok((id, p + 12))
                        } else {
                            Err(TrackError::TruncatedInput(TrkField::ExtensionPayload))
                        }
                    } else {
                        Ok((id, p + 4))
                    }
                }
            },
        }
    } else {
        Ok((0u32, pos))
    }
}

/// The scenery width byte: read exactly when the width feature is active
/// and the line is scenery; 1 otherwise.
pub open spec fn spec_parse_width(
    s: Seq<u8>,
    pos: int,
    features: TrkFeatures,
    flags: TrkLineFlags,
) -> Result<(u8, int), TrackError> {
    if features.scenery_width && flags.spec_line_type() is Scenery {
        if pos + 1 <= s.len() {
            Ok((s[pos], pos + 1))
        } else {
            Err(TrackError::TruncatedInput(TrkField::SceneryWidth))
        }
    } else {
        Ok((1u8, pos))
    }
}

/// One binary line record, gated by the active feature set.
pub open spec fn spec_parse_line(s: Seq<u8>, pos: int, features: TrkFeatures) -> Result<
    (TrkLine, int),
    TrackError,
> {
    if pos + 1 > s.len() {
        Err(TrackError::TruncatedInput(TrkField::LineFlags))
    } else {
        let flags = TrkLineFlags(s[pos]);
        match spec_parse_multiplier(s, pos + 1, features, flags) {
            Err(e) => Err(e),
            Ok((multiplier, p1)) => match spec_parse_id_section(s, p1, features, flags) {
                Err(e) => Err(e),
                Ok((id, p2)) => match spec_parse_width(s, p2, features, flags) {
                    Err(e) => Err(e),
                    Ok((line_width, p3)) => match spec_read_vec2(s, p3, TrkField::LinePoint) {
                        Err(e) => Err(e),
                        Ok((start, p4)) => match spec_read_vec2(s, p4, TrkField::LinePoint) {
                            Err(e) => Err(e),
                            Ok((end, p5)) => Ok(
                                (TrkLine { flags, multiplier, id, line_width, start, end }, p5),
                            ),
                        },
                    },
                },
            },
        }
    }
}

/// `n` consecutive line records starting at `pos`.
pub open spec fn spec_parse_lines(s: Seq<u8>, pos: int, features: TrkFeatures, n: int) -> Result<
    (Seq<TrkLine>, int),
    TrackError,
>
    decreases n,
{
    if n <= 0 {
        Ok((Seq::empty(), pos))
    } else {
        match spec_parse_line(s, pos, features) {
            Err(e) => Err(e),
            Ok((l, p)) => match spec_parse_lines(s, p, features, n - 1) {
                Err(e) => Err(e),
                Ok((rest, p2)) => Ok((seq![l] + rest, p2)),
            },
        }
    }
}

/// Index of the first occurrence of `b`, or the length when absent.
pub open spec fn spec_first_index(s: Seq<u8>, b: u8) -> int
    decreases s.len(),
{
    if s.len() == 0 {
        0
    } else if s[0] == b {
        0
    } else {
        1 + spec_first_index(s.drop_first(), b)
    }
}

/// `n` metadata entries: each a 16-bit length and that many bytes, split
/// at the first `=` into key and value; an entry without `=` is fatal.
pub open spec fn spec_parse_meta_entries(s: Seq<u8>, pos: int, n: int) -> Result<
    (Seq<(Seq<u8>, Seq<u8>)>, int),
    TrackError,
>
    decreases n,
{
    if n <= 0 {
        Ok((Seq::empty(), pos))
    } else if pos + 2 > s.len() {
        Err(TrackError::TruncatedInput(TrkField::MetaEntryLength))
    } else {
        let elen = vstd::bytes::spec_u16_from_le_bytes(s.subrange(pos, pos + 2)) as int;
        if pos + 2 + elen > s.len() {
            Err(TrackError::TruncatedInput(TrkField::MetaEntry))
        } else {
            let entry = s.subrange(pos + 2, pos + 2 + elen);
            let k = spec_first_index(entry, 61);
            if k == entry.len() {
                Err(TrackError::FormatError(FormatDetail::MetaEntryMissingEquals))
            } else {
                match spec_parse_meta_entries(s, pos + 2 + elen, n - 1) {
                    Err(e) => Err(e),
                    Ok((rest, p)) => Ok(
                        (
                            seq![(entry.subrange(0, k), entry.subrange(k + 1, entry.len() as int))]
                                + rest,
                            p,
                        ),
                    ),
                }
            }
        }
    }
}

/// The optional metadata section. Fewer than four remaining bytes mean
/// the section is absent, which is a success; four or more must open
/// with the metadata magic. The 16-bit entry count is signed: counts with
/// the sign bit set hold no entries.
pub open spec fn spec_parse_meta(s: Seq<u8>, pos: int) -> Result<
    (Option<Seq<(Seq<u8>, Seq<u8>)>>, int),
    TrackError,
> {
    if pos + 4 > s.len() {
        Ok((None, pos))
    } else if s.subrange(pos, pos + 4) != spec_meta_magic() {
        Err(TrackError::FormatError(FormatDetail::MetaMagic))
    } else if pos + 6 > s.len() {
        Err(TrackError::TruncatedInput(TrkField::MetaCount))
    } else {
        let count = vstd::bytes::spec_u16_from_le_bytes(s.subrange(pos + 4, pos + 6)) as int;
        let n: int = if count >= 0x8000 {
            0
        } else {
            count
        };
        match spec_parse_meta_entries(s, pos + 6, n) {
            Err(e) => Err(e),
            Ok((entries, p)) => Ok((Some(entries), p)),
        }
    }
}

/// A whole binary track: header, 32-bit line count, the line records,
/// then the optional metadata section. Trailing bytes after a complete
/// metadata section are ignored, as is anything after the line records
/// when no metadata section follows.
pub open spec fn spec_parse_track(s: Seq<u8>) -> Result<SpecTrkTrack, TrackError> {
    match spec_parse_header(s) {
        Err(e) => Err(e),
        Ok((header, p)) => {
            if p + 4 > s.len() {
                Err(TrackError::TruncatedInput(TrkField::LineCount))
            } else {
                let n = vstd::bytes::spec_u32_from_le_bytes(s.subrange(p, p + 4)) as int;
                match spec_parse_lines(s, p + 4, header.features, n) {
                    Err(e) => Err(e),
                    Ok((lines, p2)) => match spec_parse_meta(s, p2) {
                        Err(e) => Err(e),
                        Ok((meta, _)) => Ok(SpecTrkTrack { header, lines, meta }),
                    },
                }
            }
        },
    }
}

fn read_u8_at(s: &[u8], pos: usize, field: TrkField) -> (r: Result<(u8, usize), TrackError>)
    ensures
        match r {
            Ok((v, p)) => pos + 1 <= s@.len() && v == s@[pos as int] && p == pos + 1,
            Err(e) => pos + 1 > s@.len() && e == TrackError::TruncatedInput(field),
        },
{
    if pos < s.len() {
        Ok((s[pos], pos + 1))
    } else {
        Err(TrackError::TruncatedInput(field))
    }
}

fn read_u16_at(s: &[u8], pos: usize, field: TrkField) -> (r: Result<(u16, usize), TrackError>)
    ensures
        match r {
            Ok((v, p)) => pos + 2 <= s@.len() && v == vstd::bytes::spec_u16_from_le_bytes(
                s@.subrange(pos as int, pos + 2),
            ) && p == pos + 2,
            Err(e) => pos + 2 > s@.len() && e == TrackError::TruncatedInput(field),
        },
{
    if pos < s.len() && s.len() - pos >= 2 {
        let v = vstd::bytes::u16_from_le_bytes(vstd::slice::slice_subrange(s, pos, pos + 2));
        Ok((v, pos + 2))
    } else {
        Err(TrackError::TruncatedInput(field))
    }
}

fn read_u32_at(s: &[u8], pos: usize, field: TrkField) -> (r: Result<(u32, usize), TrackError>)
    ensures
        match r {
            Ok((v, p)) => pos + 4 <= s@.len() && v == vstd::bytes::spec_u32_from_le_bytes(
                s@.subrange(pos as int, pos + 4),
            ) && p == pos + 4,
            Err(e) => pos + 4 > s@.len() && e == TrackError::TruncatedInput(field),
        },
{
    if pos < s.len() && s.len() - pos >= 4 {
        let v = vstd::bytes::u32_from_le_bytes(vstd::slice::slice_subrange(s, pos, pos + 4));
        Ok((v, pos + 4))
    } else {
        Err(TrackError::TruncatedInput(field))
    }
}

fn read_u64_at(s: &[u8], pos: usize, field: TrkField) -> (r: Result<(u64, usize), TrackError>)
    ensures
        match r {
            Ok((v, p)) => pos + 8 <= s@.len() && v == vstd::bytes::spec_u64_from_le_bytes(
                s@.subrange(pos as int, pos + 8),
            ) && p == pos + 8,
            Err(e) => pos + 8 > s@.len() && e == TrackError::TruncatedInput(field),
        },
{
    if pos < s.len() && s.len() - pos >= 8 {
        let v = vstd::bytes::u64_from_le_bytes(vstd::slice::slice_subrange(s, pos, pos + 8));
        Ok((v, pos + 8))
    } else {
        Err(TrackError::TruncatedInput(field))
    }
}

fn read_chunk_at(s: &[u8], pos: usize, n: usize, field: TrkField) -> (r: Result<
    (Vec<u8>, usize),
    TrackError,
>)
    ensures
        match r {
            Ok((v, p)) => pos + n <= s@.len() && v@ == s@.subrange(pos as int, pos + n) && p == pos
                + n,
            Err(e) => pos + n > s@.len() && e == TrackError::TruncatedInput(field),
        },
{
    if pos <= s.len() && s.len() - pos >= n {
        let v = vstd::slice::slice_to_vec(vstd::slice::slice_subrange(s, pos, pos + n));
        Ok((v, pos + n))
    } else {
        Err(TrackError::TruncatedInput(field))
    }
}

fn read_vec2_at(s: &[u8], pos: usize, field: TrkField) -> (r: Result<(Vec2, usize), TrackError>)
    ensures
        match r {
            Ok((v, p)) => spec_read_vec2(s@, pos as int, field) == Ok::<(Vec2, int), TrackError>(
                (v, p as int),
            ) && p <= s@.len(),
            Err(e) => spec_read_vec2(s@, pos as int, field) == Err::<(Vec2, int), TrackError>(e),
        },
{
    let (x, p) = match read_u64_at(s, pos, field) {
        Ok(v) => v,
        Err(e) => {
            return Err(TrackError::TruncatedInput(field));
        },
    };
    let (y, p2) = match read_u64_at(s, p, field) {
        Ok(v) => v,
        Err(e) => {
            return Err(TrackError::TruncatedInput(field));
        },
    };
    Ok((Vec2 { x, y }, p2))
}

/// Reads one line record, consulting the active feature set per field.
fn parse_line(s: &[u8], pos: usize, features: &TrkFeatures) -> (r: Result<
    (TrkLine, usize),
    TrackError,
>)
    ensures
        match r {
            Ok((l, p)) => spec_parse_line(s@, pos as int, *features) == Ok::<
                (TrkLine, int),
                TrackError,
            >((l, p as int)) && pos < p <= s@.len(),
            Err(e) => spec_parse_line(s@, pos as int, *features) == Err::<
                (TrkLine, int),
                TrackError,
            >(e),
        },
{
    let (flag_byte, p0) = match read_u8_at(s, pos, TrkField::LineFlags) {
        Ok(v) => v,
        Err(e) => {
            return Err(e);
        },
    };
    let flags = TrkLineFlags(flag_byte);
    let lt = flags.line_type();

    let (multiplier, p1) = if features.red_multiplier && lt == TrkLineType::Red {
        match read_u8_at(s, p0, TrkField::Multiplier) {
            Ok(v) => v,
            Err(e) => {
                return Err(e);
            },
        }
    } else {
        (1u8, p0)
    };

    let (id, p2) = if lt == TrkLineType::Red || lt == TrkLineType::Blue {
        let pt = if features.ignorable_trigger {
            let (zoom, pz) = match read_u8_at(s, p1, TrkField::ZoomFlag) {
                Ok(v) => v,
                Err(e) => {
                    return Err(e);
                },
            };
            if zoom != 0 {
                if pz <= s.len() && s.len() - pz >= 6 {
                    pz + 6
                } else {
                    return Err(TrackError::TruncatedInput(TrkField::ZoomPayload));
                }
            } else {
                pz
            }
        } else {
            p1
        };
        let (id, pi) = match read_u32_at(s, pt, TrkField::LineId) {
            Ok(v) => v,
            Err(e) => {
                return Err(e);
            },
        };
        let exts = flags.extensions();
        if exts.0 || exts.1 {
            if pi <= s.len() && s.len() - pi >= 8 {
                (id, pi + 8)
            } else {
                return Err(TrackError::TruncatedInput(TrkField::ExtensionPayload));
            }
        } else {
            (id, pi)
        }
    } else {
        (0u32, p1)
    };

    let (line_width, p3) = if features.scenery_width && lt == TrkLineType::Scenery {
        match read_u8_at(s, p2, TrkField::SceneryWidth) {
            Ok(v) => v,
            Err(e) => {
                return Err(e);
            },
        }
    } else {
        (1u8, p2)
    };

    let (start, p4) = match read_vec2_at(s, p3, TrkField::LinePoint) {
        Ok(v) => v,
        Err(e) => {
            return Err(e);
        },
    };
    let (end, p5) = match read_vec2_at(s, p4, TrkField::LinePoint) {
        Ok(v) => v,
        Err(e) => {
            return Err(e);
        },
    };
    Ok((TrkLine { flags, multiplier, id, line_width, start, end }, p5))
}

/// Reads the binary header.
fn parse_header(s: &[u8]) -> (r: Result<(TrkHeader, usize), TrackError>)
    ensures
        match r {
            Ok((h, p)) => match spec_parse_header(s@) {
                Ok((sh, sp)) => h.matches(sh) && sp == p as int && p <= s@.len(),
                Err(_) => false,
            },
            Err(e) => spec_parse_header(s@) == Err::<(SpecTrkHeader, int), TrackError>(e),
        },
{
    let (magic, _) = match read_chunk_at(s, 0, 4, TrkField::HeaderMagic) {
        Ok(v) => v,
        Err(e) => {
            return Err(e);
        },
    };
    let expected: Vec<u8> = vec![0x54u8, 0x52u8, 0x4bu8, 0xf2u8];
    proof {
        assert(expected@ =~= spec_trk_magic());
    }
    if !bytes_eq(magic.as_slice(), expected.as_slice()) {
        return Err(TrackError::FormatError(FormatDetail::HeaderMagic));
    }
    let (version, p0) = match read_u8_at(s, 4, TrkField::Version) {
        Ok(v) => v,
        Err(e) => {
            return Err(e);
        },
    };
    let (flen, p1) = match read_u16_at(s, 5, TrkField::FeaturesLength) {
        Ok(v) => v,
        Err(e) => {
            return Err(e);
        },
    };
    let (feature_bytes, p2) = match read_chunk_at(s, p1, flen as usize, TrkField::FeaturesString) {
        Ok(v) => v,
        Err(e) => {
            return Err(e);
        },
    };
    let features = parse_features(feature_bytes.as_slice());

    let (song, p3) = if features.song_info {
        let (slen, ps) = match read_u8_at(s, p2, TrkField::SongLength) {
            Ok(v) => v,
            Err(e) => {
                return Err(e);
            },
        };
        let (song_bytes, ps2) = match read_chunk_at(s, ps, slen as usize, TrkField::Song) {
            Ok(v) => v,
            Err(e) => {
                return Err(e);
            },
        };
        (Some(lossy_string(song_bytes.as_slice())), ps2)
    } else {
        (None, p2)
    };

    let (start_position, p4) = match read_vec2_at(s, p3, TrkField::StartPosition) {
        Ok(v) => v,
        Err(e) => {
            return Err(e);
        },
    };
    Ok((TrkHeader { version, features, song, start_position }, p4))
}

impl TrkHeader {
    /// The decoded header matches the raw one: equal fields, with the
    /// song text read lossily from the raw song bytes.
    pub open spec fn matches(self, sh: SpecTrkHeader) -> bool {
        &&& self.version == sh.version
        &&& self.features == sh.features
        &&& match (self.song, sh.song) {
            (Option::None, Option::None) => true,
            (Option::Some(t), Option::Some(raw)) => t@ == utf8_lossy(raw),
            _ => false,
        }
        &&& self.start_position == sh.start_position
    }
}

impl TrkMeta {
    /// The decoded entries match the raw ones pairwise, read lossily.
    pub open spec fn matches(self, raw: Seq<(Seq<u8>, Seq<u8>)>) -> bool {
        &&& self.entries@.len() == raw.len()
        &&& forall|i: int|
            0 <= i < raw.len() ==> (#[trigger] self.entries@[i]).0@ == utf8_lossy(raw[i].0)
                && self.entries@[i].1@ == utf8_lossy(raw[i].1)
    }
}

impl TrkTrack {
    /// The decoded track matches the raw parse result.
    pub open spec fn matches(self, st: SpecTrkTrack) -> bool {
        &&& self.header.matches(st.header)
        &&& self.lines@ == st.lines
        &&& match (self.meta, st.meta) {
            (Option::None, Option::None) => true,
            (Option::Some(m), Option::Some(raw)) => m.matches(raw),
            _ => false,
        }
    }
}

fn find_byte(v: &[u8], b: u8) -> (r: usize)
    ensures
        r as int == spec_first_index(v@, b),
        r <= v@.len(),
{
    let mut i: usize = 0;
    assert(v@.skip(0) =~= v@);
    while i < v.len()
        invariant
            0 <= i <= v@.len(),
            spec_first_index(v@, b) == i + spec_first_index(v@.skip(i as int), b),
        decreases v@.len() - i,
    {
        if v[i] == b {
            assert(v@.skip(i as int)[0] == v@[i as int]);
            return i;
        }
        assert(v@.skip(i as int)[0] == v@[i as int]);
        assert(v@.skip(i as int).drop_first() =~= v@.skip(i + 1));
        i = i + 1;
    }
    assert(v@.skip(i as int).len() == 0);
    i
}

/// Reads the optional trailing metadata section.
fn parse_meta(s: &[u8], pos: usize) -> (r: Result<(Option<TrkMeta>, usize), TrackError>)
    requires
        pos <= s@.len(),
    ensures
        match r {
            Ok((m, p)) => match spec_parse_meta(s@, pos as int) {
                Ok((sm, sp)) => match (m, sm) {
                    (Option::None, Option::None) => sp == p as int,
                    (Option::Some(mm), Option::Some(raw)) => mm.matches(raw) && sp == p as int,
                    _ => false,
                },
                Err(_) => false,
            },
            Err(e) => spec_parse_meta(s@, pos as int) == Err::<
                (Option<Seq<(Seq<u8>, Seq<u8>)>>, int),
                TrackError,
            >(e),
        },
{
    if s.len() - pos < 4 {
        return Ok((None, pos));
    }
    let (magic, p0) = match read_chunk_at(s, pos, 4, TrkField::HeaderMagic) {
        Ok(v) => v,
        Err(e) => {
            return Err(e);
        },
    };
    let expected: Vec<u8> = vec![0x4du8, 0x45u8, 0x54u8, 0x41u8];
    proof {
        assert(expected@ =~= spec_meta_magic());
    }
    if !bytes_eq(magic.as_slice(), expected.as_slice()) {
        return Err(TrackError::FormatError(FormatDetail::MetaMagic));
    }
    let (count, p1) = match read_u16_at(s, p0, TrkField::MetaCount) {
        Ok(v) => v,
        Err(e) => {
            return Err(e);
        },
    };
    let n: usize = if count >= 0x8000 {
        0
    } else {
        count as usize
    };

    let ghost total = spec_parse_meta_entries(s@, p1 as int, n as int);
    let mut entries: Vec<(String, String)> = Vec::new();
    let ghost raw_entries = Seq::<(Seq<u8>, Seq<u8>)>::empty();
    let mut pos2: usize = p1;
    let mut i: usize = 0;
    proof {
        assert(raw_entries + raw_entries =~= raw_entries);
    }
    while i < n
        invariant
            0 <= i <= n,
            pos2 <= s@.len(),
            pos + 6 <= s@.len(),
            s@.subrange(pos as int, pos + 4) == spec_meta_magic(),
            count == vstd::bytes::spec_u16_from_le_bytes(s@.subrange(pos + 4, pos + 6)),
            n as int == (if count >= 0x8000 {
                0int
            } else {
                count as int
            }),
            p1 == pos + 6,
            total == spec_parse_meta_entries(s@, p1 as int, n as int),
            entries@.len() == raw_entries.len(),
            forall|j: int|
                0 <= j < raw_entries.len() ==> (#[trigger] entries@[j]).0@ == utf8_lossy(
                    raw_entries[j].0,
                ) && entries@[j].1@ == utf8_lossy(raw_entries[j].1),
            total == (match spec_parse_meta_entries(s@, pos2 as int, n - i) {
                Ok((rest, p)) => Ok::<(Seq<(Seq<u8>, Seq<u8>)>, int), TrackError>(
                    (raw_entries + rest, p),
                ),
                Err(e) => Err::<(Seq<(Seq<u8>, Seq<u8>)>, int), TrackError>(e),
            }),
        decreases n - i,
    {
        let (elen, pe) = match read_u16_at(s, pos2, TrkField::MetaEntryLength) {
            Ok(v) => v,
            Err(e) => {
                return Err(e);
            },
        };
        let (entry, pe2) = match read_chunk_at(s, pe, elen as usize, TrkField::MetaEntry) {
            Ok(v) => v,
            Err(e) => {
                return Err(e);
            },
        };
        let k = find_byte(entry.as_slice(), 61);
        if k == entry.len() {
            return Err(TrackError::FormatError(FormatDetail::MetaEntryMissingEquals));
        }
        let key_bytes = vstd::slice::slice_subrange(entry.as_slice(), 0, k);
        let value_bytes = vstd::slice::slice_subrange(entry.as_slice(), k + 1, entry.len());
        let key = lossy_string(key_bytes);
        let value = lossy_string(value_bytes);
        entries.push((key, value));
        proof {
            let head = (entry@.subrange(0, k as int), entry@.subrange(k + 1, entry@.len() as int));
            let rest1 = spec_parse_meta_entries(s@, pe2 as int, n - i - 1);
            assert(spec_parse_meta_entries(s@, pos2 as int, n - i) == (match rest1 {
                Ok((rest, p)) => Ok::<(Seq<(Seq<u8>, Seq<u8>)>, int), TrackError>(
                    (seq![head] + rest, p),
                ),
                Err(e) => Err::<(Seq<(Seq<u8>, Seq<u8>)>, int), TrackError>(e),
            }));
            let old_raw = raw_entries;
            raw_entries = raw_entries.push(head);
            assert(raw_entries =~= old_raw + seq![head]);
            match rest1 {
                Ok((rest, p)) => {
                    assert(old_raw + (seq![head] + rest) =~= raw_entries + rest);
                },
                Err(_) => {},
            }
        }
        pos2 = pe2;
        i = i + 1;
    }
    proof {
        assert(raw_entries + Seq::<(Seq<u8>, Seq<u8>)>::empty() =~= raw_entries);
    }
    Ok((Some(TrkMeta { entries }), pos2))
}

/// Decodes a whole binary track from its bytes.
pub fn parse_trk(bytes: &[u8]) -> (r: Result<TrkTrack, TrackError>)
    ensures
        match (r, spec_parse_track(bytes@)) {
            (Ok(t), Ok(st)) => t.matches(st),
            (Err(e), Err(se)) => e == se,
            _ => false,
        },
{
    let (header, p0) = match parse_header(bytes) {
        Ok(v) => v,
        Err(e) => {
            return Err(e);
        },
    };
    let (line_count, p1) = match read_u32_at(bytes, p0, TrkField::LineCount) {
        Ok(v) => v,
        Err(e) => {
            return Err(e);
        },
    };
    let n = line_count as usize;
    let features = header.features;

    let ghost total = spec_parse_lines(bytes@, p1 as int, features, n as int);
    let mut lines: Vec<TrkLine> = Vec::new();
    let mut pos: usize = p1;
    let mut i: usize = 0;
    proof {
        match total {
            Ok((rest, p)) => {
                assert(lines@ + rest =~= rest);
            },
            Err(_) => {},
        }
    }
    while i < n
        invariant
            0 <= i <= n,
            pos <= bytes@.len(),
            features == header.features,
            match spec_parse_header(bytes@) {
                Ok((sh, sp)) => header.matches(sh) && sp == p0 as int,
                Err(_) => false,
            },
            p0 + 4 <= bytes@.len(),
            n as int == vstd::bytes::spec_u32_from_le_bytes(bytes@.subrange(p0 as int, p0 + 4)),
            p1 == p0 + 4,
            total == spec_parse_lines(bytes@, p1 as int, features, n as int),
            total == (match spec_parse_lines(bytes@, pos as int, features, n - i) {
                Ok((rest, p)) => Ok::<(Seq<TrkLine>, int), TrackError>((lines@ + rest, p)),
                Err(e) => Err::<(Seq<TrkLine>, int), TrackError>(e),
            }),
        decreases n - i,
    {
        let (line, p2) = match parse_line(bytes, pos, &features) {
            Ok(v) => v,
            Err(e) => {
                return Err(e);
            },
        };
        proof {
            let ghost rest1 = spec_parse_lines(bytes@, p2 as int, features, n - i - 1);
            match rest1 {
                Ok((rest, p)) => {
                    assert(lines@ + (seq![line] + rest) =~= (lines@ + seq![line]) + rest);
                    assert((lines@ + seq![line]) =~= lines@.push(line));
                },
                Err(_) => {},
            }
        }
        lines.push(line);
        pos = p2;
        i = i + 1;
    }
    proof {
        assert(lines@ + Seq::<TrkLine>::empty() =~= lines@);
    }

    let (meta, _) = match parse_meta(bytes, pos) {
        Ok(v) => v,
        Err(e) => {
            return Err(e);
        },
    };
    Ok(TrkTrack { header, lines, meta })
}

/// With the scenery-width feature absent, every line record decodes with
/// width 1, whatever the record's type and whatever bytes follow.
pub proof fn lemma_width_one_without_feature(s: Seq<u8>, pos: int, features: TrkFeatures)
    requires
        !features.scenery_width,
    ensures
        match spec_parse_line(s, pos, features) {
            Ok((l, _)) => l.line_width == 1,
            Err(_) => true,
        },
{
}

/// A stream that ends exactly after the line records has no metadata
/// section, and that is a success, not an error.
pub proof fn lemma_meta_absent_at_end(s: Seq<u8>, pos: int)
    requires
        pos == s.len(),
    ensures
        spec_parse_meta(s, pos) == Ok::<(Option<Seq<(Seq<u8>, Seq<u8>)>>, int), TrackError>(
            (None, pos),
        ),
{
}

/// A whole track whose bytes end exactly after the line records decodes
/// successfully, with no metadata.
pub proof fn lemma_track_without_meta(s: Seq<u8>)
    requires
        spec_parse_header(s) is Ok,
        ({
            let (h, p) = spec_parse_header(s)->Ok_0;
            &&& p + 4 <= s.len()
            &&& spec_parse_lines(
                s,
                p + 4,
                h.features,
                vstd::bytes::spec_u32_from_le_bytes(s.subrange(p, p + 4)) as int,
            ) is Ok
            &&& spec_parse_lines(
                s,
                p + 4,
                h.features,
                vstd::bytes::spec_u32_from_le_bytes(s.subrange(p, p + 4)) as int,
            )->Ok_0.1 == s.len()
        }),
    ensures
        spec_parse_track(s) is Ok,
        spec_parse_track(s)->Ok_0.meta is None,
{
    let (h, p) = spec_parse_header(s)->Ok_0;
    let n = vstd::bytes::spec_u32_from_le_bytes(s.subrange(p, p + 4)) as int;
    let (lines, p2) = spec_parse_lines(s, p + 4, h.features, n)->Ok_0;
    lemma_meta_absent_at_end(s, p2);
}

} // verus!
