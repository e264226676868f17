//! The binary track encoder: the mirror of the decoder, writing the
//! header, the line records and the optional metadata section.

use vstd::prelude::*;

use vstd::bytes::{spec_u16_to_le_bytes, spec_u32_to_le_bytes, spec_u64_to_le_bytes,
    u16_to_le_bytes, u32_to_le_bytes, u64_to_le_bytes};
use vstd::utf8::encode_utf8;

use crate::error::{TrackError, TrkField, UnsupportedKind};
use crate::model::Vec2;
use crate::trk::{TrkFeature, TrkFeatures, TrkLineType, TrkLineFlags, TrkLine, TrkHeader, TrkMeta, TrkTrack,
    spec_trk_magic, spec_meta_magic, spec_first_index, spec_features_of, spec_split_semi,
    spec_split_semi_from, spec_parse_line, spec_parse_lines, spec_parse_multiplier, spec_parse_trigger,
    spec_parse_id_section, spec_parse_width, spec_read_vec2, spec_parse_header, spec_parse_song,
    spec_parse_meta_entries, spec_parse_meta, spec_parse_track, SpecTrkHeader};

verus! {

/// The sixteen bytes of a coordinate pair.
pub open spec fn spec_write_vec2(v: Vec2) -> Seq<u8> {
    spec_u64_to_le_bytes(v.x) + spec_u64_to_le_bytes(v.y)
}

/// The feature string: each active token in a fixed order, each followed
/// by a `;` separator.
pub open spec fn spec_write_features(f: TrkFeatures) -> Seq<u8> {
    (if f.red_multiplier {
        TrkFeature::RedMultiplier.spec_token() + seq![59u8]
    } else {
        Seq::empty()
    }) + (if f.song_info {
        TrkFeature::SongInfo.spec_token() + seq![59u8]
    } else {
        Seq::empty()
    }) + (if f.scenery_width {
        TrkFeature::SceneryWidth.spec_token() + seq![59u8]
    } else {
        Seq::empty()
    }) + (if f.ignorable_trigger {
        TrkFeature::IgnorableTrigger.spec_token() + seq![59u8]
    } else {
        Seq::empty()
    }) + (if f.zero_start {
        TrkFeature::ZeroStart.spec_token() + seq![59u8]
    } else {
        Seq::empty()
    }) + (if f.remount {
        TrkFeature::Remount.spec_token() + seq![59u8]
    } else {
        Seq::empty()
    }) + (if f.frictionless {
        TrkFeature::Frictionless.spec_token() + seq![59u8]
    } else {
        Seq::empty()
    })
}

/// The UTF-8 bytes of the header's song name (empty when there is none).
pub open spec fn spec_song_bytes(h: TrkHeader) -> Seq<u8> {
    match h.song {
        Some(s) => encode_utf8(s@),
        None => Seq::empty(),
    }
}

/// The header bytes: magic, version, feature-string length and string,
/// the song block when the song feature is active, and the start
/// position.
pub open spec fn spec_write_header(h: TrkHeader) -> Seq<u8> {
    spec_trk_magic() + seq![h.version] + spec_u16_to_le_bytes(
        spec_write_features(h.features).len() as u16,
    ) + spec_write_features(h.features) + (if h.features.song_info {
        seq![spec_song_bytes(h).len() as u8] + spec_song_bytes(h)
    } else {
        Seq::empty()
    }) + spec_write_vec2(h.start_position)
}

/// One line record's bytes, gated by the active feature set; the zoom
/// trigger flag is written as zero and the legacy extension payload as
/// eight zero bytes.
pub open spec fn spec_write_line(l: TrkLine, f: TrkFeatures) -> Seq<u8> {
    seq![l.flags.0] + (if f.red_multiplier && l.flags.spec_line_type() is Red {
        seq![l.multiplier]
    } else {
        Seq::empty()
    }) + (if l.flags.spec_line_type() is Red || l.flags.spec_line_type() is Blue {
        (if f.ignorable_trigger {
            seq![0u8]
        } else {
            Seq::empty()
        }) + spec_u32_to_le_bytes(l.id) + (if l.flags.spec_extensions().0
            || l.flags.spec_extensions().1 {
            seq![0u8, 0u8, 0u8, 0u8, 0u8, 0u8, 0u8, 0u8]
        } else {
            Seq::empty()
        })
    } else {
        Seq::empty()
    }) + (if f.scenery_width && l.flags.spec_line_type() is Scenery {
        seq![l.line_width]
    } else {
        Seq::empty()
    }) + spec_write_vec2(l.start) + spec_write_vec2(l.end)
}

/// The concatenated bytes of all line records.
pub open spec fn spec_write_lines(lines: Seq<TrkLine>, f: TrkFeatures) -> Seq<u8>
    decreases lines.len(),
{
    if lines.len() == 0 {
        Seq::empty()
    } else {
        spec_write_line(lines[0], f) + spec_write_lines(lines.drop_first(), f)
    }
}

/// One metadata entry's payload: `key=value` in UTF-8.
pub open spec fn spec_entry_payload(e: (String, String)) -> Seq<u8> {
    encode_utf8(e.0@) + seq![61u8] + encode_utf8(e.1@)
}

/// The concatenated length-prefixed metadata entries.
pub open spec fn spec_write_meta_entries(entries: Seq<(String, String)>) -> Seq<u8>
    decreases entries.len(),
{
    if entries.len() == 0 {
        Seq::empty()
    } else {
        spec_u16_to_le_bytes(spec_entry_payload(entries[0]).len() as u16) + spec_entry_payload(
            entries[0],
        ) + spec_write_meta_entries(entries.drop_first())
    }
}

/// The metadata section bytes, empty when the section is absent.
pub open spec fn spec_write_meta(m: Option<TrkMeta>) -> Seq<u8> {
    match m {
        None => Seq::empty(),
        Some(meta) => spec_meta_magic() + spec_u16_to_le_bytes(meta.entries@.len() as u16)
            + spec_write_meta_entries(meta.entries@),
    }
}

/// A whole binary track's bytes.
pub open spec fn spec_write_track(t: TrkTrack) -> Seq<u8> {
    spec_write_header(t.header) + spec_u32_to_le_bytes(t.lines@.len() as u32) + spec_write_lines(
        t.lines@,
        t.header.features,
    ) + spec_write_meta(t.meta)
}

/// The first metadata entry that cannot be written, if any: a key that
/// itself holds `=` would not split back into the same key, and an
/// entry's payload must fit its 16-bit length field.
pub open spec fn spec_entries_error(entries: Seq<(String, String)>) -> Option<TrackError>
    decreases entries.len(),
{
    if entries.len() == 0 {
        None
    } else if spec_first_index(encode_utf8(entries[0].0@), 61) < encode_utf8(
        entries[0].0@,
    ).len() {
        Some(TrackError::UnsupportedConversion(UnsupportedKind::MetaKeyDelimiter))
    } else if spec_entry_payload(entries[0]).len() > 0xffff {
        Some(TrackError::UnsupportedConversion(UnsupportedKind::MetaEntryLength))
    } else {
        spec_entries_error(entries.drop_first())
    }
}

/// Why a binary track cannot be written, if it cannot: a song name over
/// 255 bytes, a line count over 32 bits, a metadata count over the
/// positive range of its signed 16-bit field, or a bad metadata entry.
pub open spec fn spec_write_error(t: TrkTrack) -> Option<TrackError> {
    if t.header.features.song_info && spec_song_bytes(t.header).len() > 255 {
        Some(TrackError::UnsupportedConversion(UnsupportedKind::SongLength))
    } else if t.lines@.len() > 0xffffffff {
        Some(TrackError::UnsupportedConversion(UnsupportedKind::LineCount))
    } else {
        match t.meta {
            None => None,
            Some(m) => if m.entries@.len() > 0x7fff {
                Some(TrackError::UnsupportedConversion(UnsupportedKind::MetaCount))
            } else {
                spec_entries_error(m.entries@)
            },
        }
    }
}

fn push_bytes(out: &mut Vec<u8>, b: &[u8])
    ensures
        final(out)@ == old(out)@ + b@,
{
    let mut i: usize = 0;
    while i < b.len()
        invariant
            0 <= i <= b@.len(),
            out@ == old(out)@ + b@.take(i as int),
        decreases b@.len() - i,
    {
        proof {
            assert(old(out)@ + b@.take(i as int) + seq![b@[i as int]] =~= old(out)@ + b@.take(
                i + 1,
            ));
        }
        out.push(b[i]);
        i = i + 1;
    }
    proof {
        assert(old(out)@ + b@.take(b@.len() as int) =~= old(out)@ + b@);
    }
}

fn push_u16le(out: &mut Vec<u8>, x: u16)
    ensures
        final(out)@ == old(out)@ + spec_u16_to_le_bytes(x),
{
    let b = u16_to_le_bytes(x);
    push_bytes(out, b.as_slice());
}

fn push_u32le(out: &mut Vec<u8>, x: u32)
    ensures
        final(out)@ == old(out)@ + spec_u32_to_le_bytes(x),
{
    let b = u32_to_le_bytes(x);
    push_bytes(out, b.as_slice());
}

fn push_u64le(out: &mut Vec<u8>, x: u64)
    ensures
        final(out)@ == old(out)@ + spec_u64_to_le_bytes(x),
{
    let b = u64_to_le_bytes(x);
    push_bytes(out, b.as_slice());
}

fn push_vec2(out: &mut Vec<u8>, v: Vec2)
    ensures
        final(out)@ == old(out)@ + spec_write_vec2(v),
{
    push_u64le(out, v.x);
    push_u64le(out, v.y);
    proof {
        assert(old(out)@ + spec_u64_to_le_bytes(v.x) + spec_u64_to_le_bytes(v.y) =~= old(out)@
            + spec_write_vec2(v));
    }
}

#[verifier::rlimit(100)]
#[verifier::spinoff_prover]
fn feature_bytes(f: &TrkFeatures) -> (r: Vec<u8>)
    ensures
        r@ == spec_write_features(*f),
{
    let mut out: Vec<u8> = Vec::new();
    let ghost s1 = if f.red_multiplier {
        TrkFeature::RedMultiplier.spec_token() + seq![59u8]
    } else {
        Seq::<u8>::empty()
    };
    if f.red_multiplier {
        let t = TrkFeature::RedMultiplier.token_bytes();
        push_bytes(&mut out, t.as_slice());
        out.push(59);
    }
    proof {
        assert(out@ =~= s1);
    }
    let ghost s2 = s1 + if f.song_info {
        TrkFeature::SongInfo.spec_token() + seq![59u8]
    } else {
        Seq::<u8>::empty()
    };
    if f.song_info {
        let t = TrkFeature::SongInfo.token_bytes();
        push_bytes(&mut out, t.as_slice());
        out.push(59);
    }
    proof {
        assert(out@ =~= s2);
    }
    let ghost s3 = s2 + if f.scenery_width {
        TrkFeature::SceneryWidth.spec_token() + seq![59u8]
    } else {
        Seq::<u8>::empty()
    };
    if f.scenery_width {
        let t = TrkFeature::SceneryWidth.token_bytes();
        push_bytes(&mut out, t.as_slice());
        out.push(59);
    }
    proof {
        assert(out@ =~= s3);
    }
    let ghost s4 = s3 + if f.ignorable_trigger {
        TrkFeature::IgnorableTrigger.spec_token() + seq![59u8]
    } else {
        Seq::<u8>::empty()
    };
    if f.ignorable_trigger {
        let t = TrkFeature::IgnorableTrigger.token_bytes();
        push_bytes(&mut out, t.as_slice());
        out.push(59);
    }
    proof {
        assert(out@ =~= s4);
    }
    let ghost s5 = s4 + if f.zero_start {
        TrkFeature::ZeroStart.spec_token() + seq![59u8]
    } else {
        Seq::<u8>::empty()
    };
    if f.zero_start {
        let t = TrkFeature::ZeroStart.token_bytes();
        push_bytes(&mut out, t.as_slice());
        out.push(59);
    }
    proof {
        assert(out@ =~= s5);
    }
    let ghost s6 = s5 + if f.remount {
        TrkFeature::Remount.spec_token() + seq![59u8]
    } else {
        Seq::<u8>::empty()
    };
    if f.remount {
        let t = TrkFeature::Remount.token_bytes();
        push_bytes(&mut out, t.as_slice());
        out.push(59);
    }
    proof {
        assert(out@ =~= s6);
    }
    if f.frictionless {
        let t = TrkFeature::Frictionless.token_bytes();
        push_bytes(&mut out, t.as_slice());
        out.push(59);
    }
    proof {
        assert(out@ =~= spec_write_features(*f));
    }
    out
}

fn write_line(out: &mut Vec<u8>, l: &TrkLine, f: &TrkFeatures)
    ensures
        final(out)@ == old(out)@ + spec_write_line(*l, *f),
{
    let ghost base = out@;
    out.push(l.flags.0);
    let lt = l.flags.line_type();
    if f.red_multiplier && lt == TrkLineType::Red {
        out.push(l.multiplier);
    }
    if lt == TrkLineType::Red || lt == TrkLineType::Blue {
        if f.ignorable_trigger {
            out.push(0);
        }
        push_u32le(out, l.id);
        let exts = l.flags.extensions();
        if exts.0 || exts.1 {
            let pad: Vec<u8> = vec![0u8, 0u8, 0u8, 0u8, 0u8, 0u8, 0u8, 0u8];
            push_bytes(out, pad.as_slice());
            proof {
                assert(pad@ =~= seq![0u8, 0u8, 0u8, 0u8, 0u8, 0u8, 0u8, 0u8]);
            }
        }
    }
    if f.scenery_width && lt == TrkLineType::Scenery {
        out.push(l.line_width);
    }
    push_vec2(out, l.start);
    push_vec2(out, l.end);
    proof {
        assert(out@ =~= base + spec_write_line(*l, *f));
    }
}

fn write_lines(out: &mut Vec<u8>, lines: &Vec<TrkLine>, f: &TrkFeatures)
    ensures
        final(out)@ == old(out)@ + spec_write_lines(lines@, *f),
{
    let ghost base = out@;
    let mut i: usize = 0;
    proof {
        assert(base + Seq::<u8>::empty() =~= base);
        assert(lines@.skip(0) =~= lines@);
    }
    while i < lines.len()
        invariant
            0 <= i <= lines@.len(),
            out@ + spec_write_lines(lines@.skip(i as int), *f) == base + spec_write_lines(
                lines@,
                *f,
            ),
        decreases lines@.len() - i,
    {
        proof {
            assert(lines@.skip(i as int)[0] == lines@[i as int]);
            assert(lines@.skip(i as int).drop_first() =~= lines@.skip(i + 1));
        }
        let ghost before = out@;
        write_line(out, &lines[i], f);
        proof {
            assert(before + (spec_write_line(lines@[i as int], *f) + spec_write_lines(
                lines@.skip(i + 1),
                *f,
            )) =~= out@ + spec_write_lines(lines@.skip(i + 1), *f));
        }
        i = i + 1;
    }
    proof {
        assert(lines@.skip(lines@.len() as int).len() == 0);
        assert(out@ + Seq::<u8>::empty() =~= out@);
    }
}

fn write_meta_entries(out: &mut Vec<u8>, entries: &Vec<(String, String)>) -> (r: Result<
    (),
    TrackError,
>)
    ensures
        match r {
            Ok(_) => spec_entries_error(entries@) is None && final(out)@ == old(out)@
                + spec_write_meta_entries(entries@),
            Err(e) => Some(e) == spec_entries_error(entries@),
        },
{
    let ghost base = out@;
    let mut j: usize = 0;
    proof {
        assert(base + Seq::<u8>::empty() =~= base);
        assert(entries@.skip(0) =~= entries@);
    }
    while j < entries.len()
        invariant
            0 <= j <= entries@.len(),
            spec_entries_error(entries@.skip(j as int)) == spec_entries_error(entries@),
            out@ + spec_write_meta_entries(entries@.skip(j as int)) == base
                + spec_write_meta_entries(entries@),
        decreases entries@.len() - j,
    {
        proof {
            assert(entries@.skip(j as int)[0] == entries@[j as int]);
            assert(entries@.skip(j as int).drop_first() =~= entries@.skip(j + 1));
        }
        let entry = &entries[j];
        let key_bytes = entry.0.as_str().as_bytes();
        let value_bytes = entry.1.as_str().as_bytes();
        let eq_pos = find_byte_slice(key_bytes, 61);
        if eq_pos < key_bytes.len() {
            return Err(TrackError::UnsupportedConversion(UnsupportedKind::MetaKeyDelimiter));
        }
        if key_bytes.len() >= 0xffff || value_bytes.len() >= 0xffff - key_bytes.len() {
            proof {
                assert(spec_entry_payload(entries@[j as int]).len() > 0xffff);
            }
            return Err(TrackError::UnsupportedConversion(UnsupportedKind::MetaEntryLength));
        }
        let payload_len = key_bytes.len() + 1 + value_bytes.len();
        let ghost before = out@;
        push_u16le(out, payload_len as u16);
        push_bytes(out, key_bytes);
        out.push(61);
        push_bytes(out, value_bytes);
        proof {
            assert(out@ =~= before + spec_u16_to_le_bytes(
                spec_entry_payload(entries@[j as int]).len() as u16,
            ) + spec_entry_payload(entries@[j as int]));
            assert(before + (spec_u16_to_le_bytes(
                spec_entry_payload(entries@[j as int]).len() as u16,
            ) + spec_entry_payload(entries@[j as int]) + spec_write_meta_entries(
                entries@.skip(j + 1),
            )) =~= out@ + spec_write_meta_entries(entries@.skip(j + 1)));
        }
        j = j + 1;
    }
    proof {
        assert(entries@.skip(entries@.len() as int).len() == 0);
        assert(out@ + Seq::<u8>::empty() =~= out@);
    }
    Ok(())
}

#[verifier::rlimit(100)]
fn write_header(out: &mut Vec<u8>, h: &TrkHeader) -> (r: Result<(), TrackError>)
    ensures
        match r {
            Ok(_) => !(h.features.song_info && spec_song_bytes(*h).len() > 255) && final(out)@
                == old(out)@ + spec_write_header(*h),
            Err(e) => h.features.song_info && spec_song_bytes(*h).len() > 255 && e
                == TrackError::UnsupportedConversion(UnsupportedKind::SongLength),
        },
{
    let ghost base = out@;
    let magic: Vec<u8> = vec![0x54u8, 0x52u8, 0x4bu8, 0xf2u8];
    proof {
        assert(magic@ =~= spec_trk_magic());
    }
    push_bytes(out, magic.as_slice());
    out.push(h.version);
    let fb = feature_bytes(&h.features);
    proof {
        assert(spec_write_features(h.features).len() <= 120);
    }
    push_u16le(out, fb.len() as u16);
    push_bytes(out, fb.as_slice());
    if h.features.song_info {
        let sb: Vec<u8> = match &h.song {
            Some(s) => vstd::slice::slice_to_vec(s.as_str().as_bytes()),
            None => Vec::new(),
        };
        proof {
            assert(sb@ == spec_song_bytes(*h));
        }
        if sb.len() > 255 {
            return Err(TrackError::UnsupportedConversion(UnsupportedKind::SongLength));
        }
        out.push(sb.len() as u8);
        push_bytes(out, sb.as_slice());
    }
    push_vec2(out, h.start_position);
    proof {
        assert(out@ =~= base + spec_write_header(*h));
    }
    Ok(())
}

/// Encodes a binary track into its bytes, the mirror of the decoder.
pub fn write_trk(t: &TrkTrack) -> (r: Result<Vec<u8>, TrackError>)
    ensures
        match r {
            Ok(bytes) => spec_write_error(*t) is None && bytes@ == spec_write_track(*t),
            Err(e) => Some(e) == spec_write_error(*t),
        },
{
    let mut out: Vec<u8> = Vec::new();
    match write_header(&mut out, &t.header) {
        Ok(_) => {},
        Err(e) => {
            return Err(e);
        },
    }
    if t.lines.len() > 0xffffffff {
        return Err(TrackError::UnsupportedConversion(UnsupportedKind::LineCount));
    }
    push_u32le(&mut out, t.lines.len() as u32);
    write_lines(&mut out, &t.lines, &t.header.features);

    let meta = match &t.meta {
        None => {
            proof {
                assert(out@ + Seq::<u8>::empty() =~= out@);
                assert(out@ =~= spec_write_track(*t));
            }
            return Ok(out);
        },
        Some(m) => m,
    };
    if meta.entries.len() > 0x7fff {
        return Err(TrackError::UnsupportedConversion(UnsupportedKind::MetaCount));
    }
    let meta_magic: Vec<u8> = vec![0x4du8, 0x45u8, 0x54u8, 0x41u8];
    proof {
        assert(meta_magic@ =~= spec_meta_magic());
    }
    push_bytes(&mut out, meta_magic.as_slice());
    push_u16le(&mut out, meta.entries.len() as u16);
    match write_meta_entries(&mut out, &meta.entries) {
        Ok(_) => {},
        Err(e) => {
            return Err(e);
        },
    }
    proof {
        assert(out@ =~= spec_write_track(*t));
    }
    Ok(out)
}

fn find_byte_slice(v: &[u8], b: u8) -> (r: usize)
    ensures
        r as int == spec_first_index(v@, b),
        r <= v@.len(),
{
    let mut i: usize = 0;
    assert(v@.skip(0) =~= v@);
    while i < v.len()
        invariant
            0 <= i <= v@.len(),
            spec_first_index(v@, b) == i + spec_first_index(v@.skip(i as int), b),
        decreases v@.len() - i,
    {
        if v[i] == b {
            assert(v@.skip(i as int)[0] == v@[i as int]);
            return i;
        }
        assert(v@.skip(i as int)[0] == v@[i as int]);
        assert(v@.skip(i as int).drop_first() =~= v@.skip(i + 1));
        i = i + 1;
    }
    assert(v@.skip(i as int).len() == 0);
    i
}

/// The feature tokens hold no separator byte, are pairwise distinct, and
/// are nonempty.
proof fn lemma_tokens_facts()
    ensures
        forall|i: int| 0 <= i < TrkFeature::RedMultiplier.spec_token().len() ==> #[trigger] TrkFeature::RedMultiplier.spec_token()[i] != 59,
        forall|i: int| 0 <= i < TrkFeature::SongInfo.spec_token().len() ==> #[trigger] TrkFeature::SongInfo.spec_token()[i] != 59,
        forall|i: int| 0 <= i < TrkFeature::SceneryWidth.spec_token().len() ==> #[trigger] TrkFeature::SceneryWidth.spec_token()[i] != 59,
        forall|i: int| 0 <= i < TrkFeature::IgnorableTrigger.spec_token().len() ==> #[trigger] TrkFeature::IgnorableTrigger.spec_token()[i] != 59,
        forall|i: int| 0 <= i < TrkFeature::ZeroStart.spec_token().len() ==> #[trigger] TrkFeature::ZeroStart.spec_token()[i] != 59,
        forall|i: int| 0 <= i < TrkFeature::Remount.spec_token().len() ==> #[trigger] TrkFeature::Remount.spec_token()[i] != 59,
        forall|i: int| 0 <= i < TrkFeature::Frictionless.spec_token().len() ==> #[trigger] TrkFeature::Frictionless.spec_token()[i] != 59,
        TrkFeature::RedMultiplier.spec_token() != TrkFeature::SongInfo.spec_token(),
        TrkFeature::RedMultiplier.spec_token() != TrkFeature::SceneryWidth.spec_token(),
        TrkFeature::RedMultiplier.spec_token() != TrkFeature::IgnorableTrigger.spec_token(),
        TrkFeature::RedMultiplier.spec_token() != TrkFeature::ZeroStart.spec_token(),
        TrkFeature::RedMultiplier.spec_token() != TrkFeature::Remount.spec_token(),
        TrkFeature::RedMultiplier.spec_token() != TrkFeature::Frictionless.spec_token(),
        TrkFeature::SongInfo.spec_token() != TrkFeature::SceneryWidth.spec_token(),
        TrkFeature::SongInfo.spec_token() != TrkFeature::IgnorableTrigger.spec_token(),
        TrkFeature::SongInfo.spec_token() != TrkFeature::ZeroStart.spec_token(),
        TrkFeature::SongInfo.spec_token() != TrkFeature::Remount.spec_token(),
        TrkFeature::SongInfo.spec_token() != TrkFeature::Frictionless.spec_token(),
        TrkFeature::SceneryWidth.spec_token() != TrkFeature::IgnorableTrigger.spec_token(),
        TrkFeature::SceneryWidth.spec_token() != TrkFeature::ZeroStart.spec_token(),
        TrkFeature::SceneryWidth.spec_token() != TrkFeature::Remount.spec_token(),
        TrkFeature::SceneryWidth.spec_token() != TrkFeature::Frictionless.spec_token(),
        TrkFeature::IgnorableTrigger.spec_token() != TrkFeature::ZeroStart.spec_token(),
        TrkFeature::IgnorableTrigger.spec_token() != TrkFeature::Remount.spec_token(),
        TrkFeature::IgnorableTrigger.spec_token() != TrkFeature::Frictionless.spec_token(),
        TrkFeature::ZeroStart.spec_token() != TrkFeature::Remount.spec_token(),
        TrkFeature::ZeroStart.spec_token() != TrkFeature::Frictionless.spec_token(),
        TrkFeature::Remount.spec_token() != TrkFeature::Frictionless.spec_token(),
        TrkFeature::RedMultiplier.spec_token().len() > 0,
        TrkFeature::SongInfo.spec_token().len() > 0,
        TrkFeature::SceneryWidth.spec_token().len() > 0,
        TrkFeature::IgnorableTrigger.spec_token().len() > 0,
        TrkFeature::ZeroStart.spec_token().len() > 0,
        TrkFeature::Remount.spec_token().len() > 0,
        TrkFeature::Frictionless.spec_token().len() > 0,
{
    assert forall|i: int|
        0 <= i < TrkFeature::RedMultiplier.spec_token().len() implies TrkFeature::RedMultiplier.spec_token()[i]
        != 59 by {
            if i == 0 {
                assert(TrkFeature::RedMultiplier.spec_token()[0] == 82u8);
            } else if i == 1 {
                assert(TrkFeature::RedMultiplier.spec_token()[1] == 69u8);
            } else if i == 2 {
                assert(TrkFeature::RedMultiplier.spec_token()[2] == 68u8);
            } else if i == 3 {
                assert(TrkFeature::RedMultiplier.spec_token()[3] == 77u8);
            } else if i == 4 {
                assert(TrkFeature::RedMultiplier.spec_token()[4] == 85u8);
            } else if i == 5 {
                assert(TrkFeature::RedMultiplier.spec_token()[5] == 76u8);
            } else if i == 6 {
                assert(TrkFeature::RedMultiplier.spec_token()[6] == 84u8);
            } else if i == 7 {
                assert(TrkFeature::RedMultiplier.spec_token()[7] == 73u8);
            } else if i == 8 {
                assert(TrkFeature::RedMultiplier.spec_token()[8] == 80u8);
            } else if i == 9 {
                assert(TrkFeature::RedMultiplier.spec_token()[9] == 76u8);
            } else if i == 10 {
                assert(TrkFeature::RedMultiplier.spec_token()[10] == 73u8);
            } else if i == 11 {
                assert(TrkFeature::RedMultiplier.spec_token()[11] == 69u8);
            } else if i == 12 {
                assert(TrkFeature::RedMultiplier.spec_token()[12] == 82u8);
            } else {
            }
    }
    assert forall|i: int|
        0 <= i < TrkFeature::SongInfo.spec_token().len() implies TrkFeature::SongInfo.spec_token()[i]
        != 59 by {
            if i == 0 {
                assert(TrkFeature::SongInfo.spec_token()[0] == 83u8);
            } else if i == 1 {
                assert(TrkFeature::SongInfo.spec_token()[1] == 79u8);
            } else if i == 2 {
                assert(TrkFeature::SongInfo.spec_token()[2] == 78u8);
            } else if i == 3 {
                assert(TrkFeature::SongInfo.spec_token()[3] == 71u8);
            } else if i == 4 {
                assert(TrkFeature::SongInfo.spec_token()[4] == 73u8);
            } else if i == 5 {
                assert(TrkFeature::SongInfo.spec_token()[5] == 78u8);
            } else if i == 6 {
                assert(TrkFeature::SongInfo.spec_token()[6] == 70u8);
            } else if i == 7 {
                assert(TrkFeature::SongInfo.spec_token()[7] == 79u8);
            } else {
            }
    }
    assert forall|i: int|
        0 <= i < TrkFeature::SceneryWidth.spec_token().len() implies TrkFeature::SceneryWidth.spec_token()[i]
        != 59 by {
            if i == 0 {
                assert(TrkFeature::SceneryWidth.spec_token()[0] == 83u8);
            } else if i == 1 {
                assert(TrkFeature::SceneryWidth.spec_token()[1] == 67u8);
            } else if i == 2 {
                assert(TrkFeature::SceneryWidth.spec_token()[2] == 69u8);
            } else if i == 3 {
                assert(TrkFeature::SceneryWidth.spec_token()[3] == 78u8);
            } else if i == 4 {
                assert(TrkFeature::SceneryWidth.spec_token()[4] == 69u8);
            } else if i == 5 {
                assert(TrkFeature::SceneryWidth.spec_token()[5] == 82u8);
            } else if i == 6 {
                assert(TrkFeature::SceneryWidth.spec_token()[6] == 89u8);
            } else if i == 7 {
                assert(TrkFeature::SceneryWidth.spec_token()[7] == 87u8);
            } else if i == 8 {
                assert(TrkFeature::SceneryWidth.spec_token()[8] == 73u8);
            } else if i == 9 {
                assert(TrkFeature::SceneryWidth.spec_token()[9] == 68u8);
            } else if i == 10 {
                assert(TrkFeature::SceneryWidth.spec_token()[10] == 84u8);
            } else if i == 11 {
                assert(TrkFeature::SceneryWidth.spec_token()[11] == 72u8);
            } else {
            }
    }
    assert forall|i: int|
        0 <= i < TrkFeature::IgnorableTrigger.spec_token().len() implies TrkFeature::IgnorableTrigger.spec_token()[i]
        != 59 by {
            if i == 0 {
                assert(TrkFeature::IgnorableTrigger.spec_token()[0] == 73u8);
            } else if i == 1 {
                assert(TrkFeature::IgnorableTrigger.spec_token()[1] == 71u8);
            } else if i == 2 {
                assert(TrkFeature::IgnorableTrigger.spec_token()[2] == 78u8);
            } else if i == 3 {
                assert(TrkFeature::IgnorableTrigger.spec_token()[3] == 79u8);
            } else if i == 4 {
                assert(TrkFeature::IgnorableTrigger.spec_token()[4] == 82u8);
            } else if i == 5 {
                assert(TrkFeature::IgnorableTrigger.spec_token()[5] == 65u8);
            } else if i == 6 {
                assert(TrkFeature::IgnorableTrigger.spec_token()[6] == 66u8);
            } else if i == 7 {
                assert(TrkFeature::IgnorableTrigger.spec_token()[7] == 76u8);
            } else if i == 8 {
                assert(TrkFeature::IgnorableTrigger.spec_token()[8] == 69u8);
            } else if i == 9 {
                assert(TrkFeature::IgnorableTrigger.spec_token()[9] == 95u8);
            } else if i == 10 {
                assert(TrkFeature::IgnorableTrigger.spec_token()[10] == 84u8);
            } else if i == 11 {
                assert(TrkFeature::IgnorableTrigger.spec_token()[11] == 82u8);
            } else if i == 12 {
                assert(TrkFeature::IgnorableTrigger.spec_token()[12] == 73u8);
            } else if i == 13 {
                assert(TrkFeature::IgnorableTrigger.spec_token()[13] == 71u8);
            } else if i == 14 {
                assert(TrkFeature::IgnorableTrigger.spec_token()[14] == 71u8);
            } else if i == 15 {
                assert(TrkFeature::IgnorableTrigger.spec_token()[15] == 69u8);
            } else if i == 16 {
                assert(TrkFeature::IgnorableTrigger.spec_token()[16] == 82u8);
            } else {
            }
    }
    assert forall|i: int|
        0 <= i < TrkFeature::ZeroStart.spec_token().len() implies TrkFeature::ZeroStart.spec_token()[i]
        != 59 by {
            if i == 0 {
                assert(TrkFeature::ZeroStart.spec_token()[0] == 90u8);
            } else if i == 1 {
                assert(TrkFeature::ZeroStart.spec_token()[1] == 69u8);
            } else if i == 2 {
                assert(TrkFeature::ZeroStart.spec_token()[2] == 82u8);
            } else if i == 3 {
                assert(TrkFeature::ZeroStart.spec_token()[3] == 79u8);
            } else if i == 4 {
                assert(TrkFeature::ZeroStart.spec_token()[4] == 83u8);
            } else if i == 5 {
                assert(TrkFeature::ZeroStart.spec_token()[5] == 84u8);
            } else if i == 6 {
                assert(TrkFeature::ZeroStart.spec_token()[6] == 65u8);
            } else if i == 7 {
                assert(TrkFeature::ZeroStart.spec_token()[7] == 82u8);
            } else if i == 8 {
                assert(TrkFeature::ZeroStart.spec_token()[8] == 84u8);
            } else {
            }
    }
    assert forall|i: int|
        0 <= i < TrkFeature::Remount.spec_token().len() implies TrkFeature::Remount.spec_token()[i]
        != 59 by {
            if i == 0 {
                assert(TrkFeature::Remount.spec_token()[0] == 82u8);
            } else if i == 1 {
                assert(TrkFeature::Remount.spec_token()[1] == 69u8);
            } else if i == 2 {
                assert(TrkFeature::Remount.spec_token()[2] == 77u8);
            } else if i == 3 {
                assert(TrkFeature::Remount.spec_token()[3] == 79u8);
            } else if i == 4 {
                assert(TrkFeature::Remount.spec_token()[4] == 85u8);
            } else if i == 5 {
                assert(TrkFeature::Remount.spec_token()[5] == 78u8);
            } else if i == 6 {
                assert(TrkFeature::Remount.spec_token()[6] == 84u8);
            } else {
            }
    }
    assert forall|i: int|
        0 <= i < TrkFeature::Frictionless.spec_token().len() implies TrkFeature::Frictionless.spec_token()[i]
        != 59 by {
            if i == 0 {
                assert(TrkFeature::Frictionless.spec_token()[0] == 70u8);
            } else if i == 1 {
                assert(TrkFeature::Frictionless.spec_token()[1] == 82u8);
            } else if i == 2 {
                assert(TrkFeature::Frictionless.spec_token()[2] == 73u8);
            } else if i == 3 {
                assert(TrkFeature::Frictionless.spec_token()[3] == 67u8);
            } else if i == 4 {
                assert(TrkFeature::Frictionless.spec_token()[4] == 84u8);
            } else if i == 5 {
                assert(TrkFeature::Frictionless.spec_token()[5] == 73u8);
            } else if i == 6 {
                assert(TrkFeature::Frictionless.spec_token()[6] == 79u8);
            } else if i == 7 {
                assert(TrkFeature::Frictionless.spec_token()[7] == 78u8);
            } else if i == 8 {
                assert(TrkFeature::Frictionless.spec_token()[8] == 76u8);
            } else if i == 9 {
                assert(TrkFeature::Frictionless.spec_token()[9] == 69u8);
            } else if i == 10 {
                assert(TrkFeature::Frictionless.spec_token()[10] == 83u8);
            } else if i == 11 {
                assert(TrkFeature::Frictionless.spec_token()[11] == 83u8);
            } else {
            }
    }
    assert(TrkFeature::RedMultiplier.spec_token().len() != TrkFeature::SongInfo.spec_token().len());
    assert(TrkFeature::RedMultiplier.spec_token().len() != TrkFeature::SceneryWidth.spec_token().len());
    assert(TrkFeature::RedMultiplier.spec_token().len() != TrkFeature::IgnorableTrigger.spec_token().len());
    assert(TrkFeature::RedMultiplier.spec_token().len() != TrkFeature::ZeroStart.spec_token().len());
    assert(TrkFeature::RedMultiplier.spec_token().len() != TrkFeature::Remount.spec_token().len());
    assert(TrkFeature::RedMultiplier.spec_token().len() != TrkFeature::Frictionless.spec_token().len());
    assert(TrkFeature::SongInfo.spec_token().len() != TrkFeature::SceneryWidth.spec_token().len());
    assert(TrkFeature::SongInfo.spec_token().len() != TrkFeature::IgnorableTrigger.spec_token().len());
    assert(TrkFeature::SongInfo.spec_token().len() != TrkFeature::ZeroStart.spec_token().len());
    assert(TrkFeature::SongInfo.spec_token().len() != TrkFeature::Remount.spec_token().len());
    assert(TrkFeature::SongInfo.spec_token().len() != TrkFeature::Frictionless.spec_token().len());
    assert(TrkFeature::SceneryWidth.spec_token().len() != TrkFeature::IgnorableTrigger.spec_token().len());
    assert(TrkFeature::SceneryWidth.spec_token().len() != TrkFeature::ZeroStart.spec_token().len());
    assert(TrkFeature::SceneryWidth.spec_token().len() != TrkFeature::Remount.spec_token().len());
    assert(TrkFeature::SceneryWidth.spec_token()[0] != TrkFeature::Frictionless.spec_token()[0]);
    assert(TrkFeature::IgnorableTrigger.spec_token().len() != TrkFeature::ZeroStart.spec_token().len());
    assert(TrkFeature::IgnorableTrigger.spec_token().len() != TrkFeature::Remount.spec_token().len());
    assert(TrkFeature::IgnorableTrigger.spec_token().len() != TrkFeature::Frictionless.spec_token().len());
    assert(TrkFeature::ZeroStart.spec_token().len() != TrkFeature::Remount.spec_token().len());
    assert(TrkFeature::ZeroStart.spec_token().len() != TrkFeature::Frictionless.spec_token().len());
    assert(TrkFeature::Remount.spec_token().len() != TrkFeature::Frictionless.spec_token().len());
}

proof fn lemma_split_scan(s: Seq<u8>, seg: int, pos: int, q: int)
    requires
        0 <= seg <= pos <= q <= s.len(),
        forall|i: int| pos <= i < q ==> s[i] != 59,
    ensures
        spec_split_semi_from(s, seg, pos) == spec_split_semi_from(s, seg, q),
    decreases q - pos,
{
    if pos < q {
        assert(s[pos] != 59);
        lemma_split_scan(s, seg, pos + 1, q);
    }
}

proof fn lemma_split_skip(s: Seq<u8>, a: int, x: int, y: int)
    requires
        0 <= a,
        0 <= x <= y,
        a + y <= s.len(),
    ensures
        spec_split_semi_from(s, a + x, a + y) == spec_split_semi_from(s.skip(a), x, y),
    decreases s.len() - (a + y),
{
    if a + y >= s.len() {
        assert(s.skip(a).subrange(x, s.skip(a).len() as int) =~= s.subrange(
            a + x,
            s.len() as int,
        ));
    } else if s[a + y] == 59 {
        assert(s.skip(a)[y] == s[a + y]);
        lemma_split_skip(s, a, y + 1, y + 1);
        assert(s.skip(a).subrange(x, y) =~= s.subrange(a + x, a + y));
    } else {
        assert(s.skip(a)[y] == s[a + y]);
        lemma_split_skip(s, a, x, y + 1);
    }
}

/// Splitting a separator-free token, a separator, and a rest yields the
/// token and then the split of the rest.
proof fn lemma_split_token(tok: Seq<u8>, rest: Seq<u8>)
    requires
        forall|i: int| 0 <= i < tok.len() ==> #[trigger] tok[i] != 59,
    ensures
        spec_split_semi_from(tok + seq![59u8] + rest, 0, 0) == seq![tok] + spec_split_semi_from(
            rest,
            0,
            0,
        ),
{
    let s = tok + seq![59u8] + rest;
    assert forall|i: int| 0 <= i < tok.len() implies s[i] != 59 by {
        assert(s[i] == tok[i]);
    }
    lemma_split_scan(s, 0, 0, tok.len() as int);
    assert(s[tok.len() as int] == 59);
    assert(s.subrange(0, tok.len() as int) =~= tok);
    lemma_split_skip(s, tok.len() as int + 1, 0, 0);
    assert(s.skip(tok.len() as int + 1) =~= rest);
}

proof fn lemma_contains_concat(a: Seq<Seq<u8>>, b: Seq<Seq<u8>>, x: Seq<u8>)
    ensures
        (a + b).contains(x) == (a.contains(x) || b.contains(x)),
{
    if a.contains(x) {
        let i = choose|i: int| 0 <= i < a.len() && a[i] == x;
        assert((a + b)[i] == x);
    }
    if b.contains(x) {
        let i = choose|i: int| 0 <= i < b.len() && b[i] == x;
        assert((a + b)[a.len() + i] == x);
    }
    if (a + b).contains(x) {
        let i = choose|i: int| 0 <= i < (a + b).len() && (a + b)[i] == x;
        if i < a.len() {
            assert(a[i] == x);
        } else {
            assert(b[i - a.len()] == x);
        }
    }
}

proof fn lemma_contains_singleton(t: Seq<u8>, x: Seq<u8>)
    ensures
        seq![t].contains(x) == (t == x),
{
    if t == x {
        assert(seq![t][0] == x);
    }
    if seq![t].contains(x) {
        let i = choose|i: int| 0 <= i < seq![t].len() && seq![t][i] == x;
        assert(seq![t][0] == t);
    }
}

/// The encoder's feature string declares exactly the encoded feature set:
/// decoding the written string yields the same set back.
#[verifier::rlimit(100)]
#[verifier::spinoff_prover]
proof fn lemma_write_features_segments(f: &TrkFeatures)
    ensures
        spec_split_semi(spec_write_features(*f)) == (if f.red_multiplier { seq![TrkFeature::RedMultiplier.spec_token()] } else { Seq::<Seq<u8>>::empty() }) + ((if f.song_info { seq![TrkFeature::SongInfo.spec_token()] } else { Seq::<Seq<u8>>::empty() }) + ((if f.scenery_width { seq![TrkFeature::SceneryWidth.spec_token()] } else { Seq::<Seq<u8>>::empty() }) + ((if f.ignorable_trigger { seq![TrkFeature::IgnorableTrigger.spec_token()] } else { Seq::<Seq<u8>>::empty() }) + ((if f.zero_start { seq![TrkFeature::ZeroStart.spec_token()] } else { Seq::<Seq<u8>>::empty() }) + ((if f.remount { seq![TrkFeature::Remount.spec_token()] } else { Seq::<Seq<u8>>::empty() }) + ((if f.frictionless { seq![TrkFeature::Frictionless.spec_token()] } else { Seq::<Seq<u8>>::empty() }) + seq![Seq::<u8>::empty()])))))),
{
    let c1 = if f.red_multiplier {
        TrkFeature::RedMultiplier.spec_token() + seq![59u8]
    } else {
        Seq::<u8>::empty()
    };
    let c2 = if f.song_info {
        TrkFeature::SongInfo.spec_token() + seq![59u8]
    } else {
        Seq::<u8>::empty()
    };
    let c3 = if f.scenery_width {
        TrkFeature::SceneryWidth.spec_token() + seq![59u8]
    } else {
        Seq::<u8>::empty()
    };
    let c4 = if f.ignorable_trigger {
        TrkFeature::IgnorableTrigger.spec_token() + seq![59u8]
    } else {
        Seq::<u8>::empty()
    };
    let c5 = if f.zero_start {
        TrkFeature::ZeroStart.spec_token() + seq![59u8]
    } else {
        Seq::<u8>::empty()
    };
    let c6 = if f.remount {
        TrkFeature::Remount.spec_token() + seq![59u8]
    } else {
        Seq::<u8>::empty()
    };
    let c7 = if f.frictionless {
        TrkFeature::Frictionless.spec_token() + seq![59u8]
    } else {
        Seq::<u8>::empty()
    };
    let x1 = if f.red_multiplier {
        seq![TrkFeature::RedMultiplier.spec_token()]
    } else {
        Seq::<Seq<u8>>::empty()
    };
    let x2 = if f.song_info {
        seq![TrkFeature::SongInfo.spec_token()]
    } else {
        Seq::<Seq<u8>>::empty()
    };
    let x3 = if f.scenery_width {
        seq![TrkFeature::SceneryWidth.spec_token()]
    } else {
        Seq::<Seq<u8>>::empty()
    };
    let x4 = if f.ignorable_trigger {
        seq![TrkFeature::IgnorableTrigger.spec_token()]
    } else {
        Seq::<Seq<u8>>::empty()
    };
    let x5 = if f.zero_start {
        seq![TrkFeature::ZeroStart.spec_token()]
    } else {
        Seq::<Seq<u8>>::empty()
    };
    let x6 = if f.remount {
        seq![TrkFeature::Remount.spec_token()]
    } else {
        Seq::<Seq<u8>>::empty()
    };
    let x7 = if f.frictionless {
        seq![TrkFeature::Frictionless.spec_token()]
    } else {
        Seq::<Seq<u8>>::empty()
    };
    let s8 = Seq::<u8>::empty();
    let s7 = c7 + s8;
    let s6 = c6 + s7;
    let s5 = c5 + s6;
    let s4 = c4 + s5;
    let s3 = c3 + s4;
    let s2 = c2 + s3;
    let s1 = c1 + s2;
    assert(spec_split_semi_from(s8, 0, 0) == seq![Seq::<u8>::empty()]) by {
        assert(s8.subrange(0, 0) =~= Seq::<u8>::empty());
    }
    assert(spec_split_semi_from(s7, 0, 0) == x7 + spec_split_semi_from(s8, 0, 0)) by {
        if f.frictionless {
            lemma_split_token(TrkFeature::Frictionless.spec_token(), s8);
            assert(s7 =~= TrkFeature::Frictionless.spec_token() + seq![59u8] + s8);
        } else {
            assert(s7 =~= s8);
            assert(x7 + spec_split_semi_from(s8, 0, 0) =~= spec_split_semi_from(
                s8,
                0,
                0,
            ));
        }
    }
    assert(spec_split_semi_from(s6, 0, 0) == x6 + spec_split_semi_from(s7, 0, 0)) by {
        if f.remount {
            lemma_split_token(TrkFeature::Remount.spec_token(), s7);
            assert(s6 =~= TrkFeature::Remount.spec_token() + seq![59u8] + s7);
        } else {
            assert(s6 =~= s7);
            assert(x6 + spec_split_semi_from(s7, 0, 0) =~= spec_split_semi_from(
                s7,
                0,
                0,
            ));
        }
    }
    assert(spec_split_semi_from(s5, 0, 0) == x5 + spec_split_semi_from(s6, 0, 0)) by {
        if f.zero_start {
            lemma_split_token(TrkFeature::ZeroStart.spec_token(), s6);
            assert(s5 =~= TrkFeature::ZeroStart.spec_token() + seq![59u8] + s6);
        } else {
            assert(s5 =~= s6);
            assert(x5 + spec_split_semi_from(s6, 0, 0) =~= spec_split_semi_from(
                s6,
                0,
                0,
            ));
        }
    }
    assert(spec_split_semi_from(s4, 0, 0) == x4 + spec_split_semi_from(s5, 0, 0)) by {
        if f.ignorable_trigger {
            lemma_split_token(TrkFeature::IgnorableTrigger.spec_token(), s5);
            assert(s4 =~= TrkFeature::IgnorableTrigger.spec_token() + seq![59u8] + s5);
        } else {
            assert(s4 =~= s5);
            assert(x4 + spec_split_semi_from(s5, 0, 0) =~= spec_split_semi_from(
                s5,
                0,
                0,
            ));
        }
    }
    assert(spec_split_semi_from(s3, 0, 0) == x3 + spec_split_semi_from(s4, 0, 0)) by {
        if f.scenery_width {
            lemma_split_token(TrkFeature::SceneryWidth.spec_token(), s4);
            assert(s3 =~= TrkFeature::SceneryWidth.spec_token() + seq![59u8] + s4);
        } else {
            assert(s3 =~= s4);
            assert(x3 + spec_split_semi_from(s4, 0, 0) =~= spec_split_semi_from(
                s4,
                0,
                0,
            ));
        }
    }
    assert(spec_split_semi_from(s2, 0, 0) == x2 + spec_split_semi_from(s3, 0, 0)) by {
        if f.song_info {
            lemma_split_token(TrkFeature::SongInfo.spec_token(), s3);
            assert(s2 =~= TrkFeature::SongInfo.spec_token() + seq![59u8] + s3);
        } else {
            assert(s2 =~= s3);
            assert(x2 + spec_split_semi_from(s3, 0, 0) =~= spec_split_semi_from(
                s3,
                0,
                0,
            ));
        }
    }
    assert(spec_split_semi_from(s1, 0, 0) == x1 + spec_split_semi_from(s2, 0, 0)) by {
        if f.red_multiplier {
            lemma_split_token(TrkFeature::RedMultiplier.spec_token(), s2);
            assert(s1 =~= TrkFeature::RedMultiplier.spec_token() + seq![59u8] + s2);
        } else {
            assert(s1 =~= s2);
            assert(x1 + spec_split_semi_from(s2, 0, 0) =~= spec_split_semi_from(
                s2,
                0,
                0,
            ));
        }
    }
    assert(spec_write_features(*f) =~= s1);
}

proof fn lemma_segments_contains(f: &TrkFeatures, t: Seq<u8>)
    requires
        t.len() > 0,
    ensures
        spec_split_semi(spec_write_features(*f)).contains(t) == ((f.red_multiplier && TrkFeature::RedMultiplier.spec_token() == t) || (f.song_info && TrkFeature::SongInfo.spec_token() == t) || (f.scenery_width && TrkFeature::SceneryWidth.spec_token() == t) || (f.ignorable_trigger && TrkFeature::IgnorableTrigger.spec_token() == t) || (f.zero_start && TrkFeature::ZeroStart.spec_token() == t) || (f.remount && TrkFeature::Remount.spec_token() == t) || (f.frictionless && TrkFeature::Frictionless.spec_token() == t)),
{
    lemma_write_features_segments(f);
    let x1 = if f.red_multiplier {
        seq![TrkFeature::RedMultiplier.spec_token()]
    } else {
        Seq::<Seq<u8>>::empty()
    };
    let x2 = if f.song_info {
        seq![TrkFeature::SongInfo.spec_token()]
    } else {
        Seq::<Seq<u8>>::empty()
    };
    let x3 = if f.scenery_width {
        seq![TrkFeature::SceneryWidth.spec_token()]
    } else {
        Seq::<Seq<u8>>::empty()
    };
    let x4 = if f.ignorable_trigger {
        seq![TrkFeature::IgnorableTrigger.spec_token()]
    } else {
        Seq::<Seq<u8>>::empty()
    };
    let x5 = if f.zero_start {
        seq![TrkFeature::ZeroStart.spec_token()]
    } else {
        Seq::<Seq<u8>>::empty()
    };
    let x6 = if f.remount {
        seq![TrkFeature::Remount.spec_token()]
    } else {
        Seq::<Seq<u8>>::empty()
    };
    let x7 = if f.frictionless {
        seq![TrkFeature::Frictionless.spec_token()]
    } else {
        Seq::<Seq<u8>>::empty()
    };
    assert(spec_split_semi(spec_write_features(*f)) == x1 + (x2 + (x3 + (x4 + (x5 + (x6 + (x7
        + seq![Seq::<u8>::empty()])))))));
    lemma_contains_singleton(Seq::<u8>::empty(), t);
    lemma_contains_concat(x7, seq![Seq::<u8>::empty()], t);
    lemma_contains_concat(x6, x7 + seq![Seq::<u8>::empty()], t);
    lemma_contains_concat(x5, x6 + (x7 + seq![Seq::<u8>::empty()]), t);
    lemma_contains_concat(x4, x5 + (x6 + (x7 + seq![Seq::<u8>::empty()])), t);
    lemma_contains_concat(x3, x4 + (x5 + (x6 + (x7 + seq![Seq::<u8>::empty()]))), t);
    lemma_contains_concat(x2, x3 + (x4 + (x5 + (x6 + (x7 + seq![Seq::<u8>::empty()])))), t);
    lemma_contains_concat(
        x1,
        x2 + (x3 + (x4 + (x5 + (x6 + (x7 + seq![Seq::<u8>::empty()]))))),
        t,
    );
        assert(x1.contains(t) == (f.red_multiplier && TrkFeature::RedMultiplier.spec_token() == t)) by {
            if f.red_multiplier {
                lemma_contains_singleton(TrkFeature::RedMultiplier.spec_token(), t);
            }
        }
        assert(x2.contains(t) == (f.song_info && TrkFeature::SongInfo.spec_token() == t)) by {
            if f.song_info {
                lemma_contains_singleton(TrkFeature::SongInfo.spec_token(), t);
            }
        }
        assert(x3.contains(t) == (f.scenery_width && TrkFeature::SceneryWidth.spec_token() == t)) by {
            if f.scenery_width {
                lemma_contains_singleton(TrkFeature::SceneryWidth.spec_token(), t);
            }
        }
        assert(x4.contains(t) == (f.ignorable_trigger && TrkFeature::IgnorableTrigger.spec_token() == t)) by {
            if f.ignorable_trigger {
                lemma_contains_singleton(TrkFeature::IgnorableTrigger.spec_token(), t);
            }
        }
        assert(x5.contains(t) == (f.zero_start && TrkFeature::ZeroStart.spec_token() == t)) by {
            if f.zero_start {
                lemma_contains_singleton(TrkFeature::ZeroStart.spec_token(), t);
            }
        }
        assert(x6.contains(t) == (f.remount && TrkFeature::Remount.spec_token() == t)) by {
            if f.remount {
                lemma_contains_singleton(TrkFeature::Remount.spec_token(), t);
            }
        }
        assert(x7.contains(t) == (f.frictionless && TrkFeature::Frictionless.spec_token() == t)) by {
            if f.frictionless {
                lemma_contains_singleton(TrkFeature::Frictionless.spec_token(), t);
            }
        }
}

/// The encoder's feature string declares exactly the encoded feature set:
/// decoding the written string yields the same set back.
pub proof fn lemma_features_round_trip(f: &TrkFeatures)
    ensures
        spec_features_of(spec_write_features(*f)) == *f,
{
    lemma_tokens_facts();
    lemma_segments_contains(f, TrkFeature::RedMultiplier.spec_token());
    assert(spec_split_semi(spec_write_features(*f)).contains(TrkFeature::RedMultiplier.spec_token())
        == f.red_multiplier);
    lemma_segments_contains(f, TrkFeature::SongInfo.spec_token());
    assert(spec_split_semi(spec_write_features(*f)).contains(TrkFeature::SongInfo.spec_token())
        == f.song_info);
    lemma_segments_contains(f, TrkFeature::SceneryWidth.spec_token());
    assert(spec_split_semi(spec_write_features(*f)).contains(TrkFeature::SceneryWidth.spec_token())
        == f.scenery_width);
    lemma_segments_contains(f, TrkFeature::IgnorableTrigger.spec_token());
    assert(spec_split_semi(spec_write_features(*f)).contains(TrkFeature::IgnorableTrigger.spec_token())
        == f.ignorable_trigger);
    lemma_segments_contains(f, TrkFeature::ZeroStart.spec_token());
    assert(spec_split_semi(spec_write_features(*f)).contains(TrkFeature::ZeroStart.spec_token())
        == f.zero_start);
    lemma_segments_contains(f, TrkFeature::Remount.spec_token());
    assert(spec_split_semi(spec_write_features(*f)).contains(TrkFeature::Remount.spec_token())
        == f.remount);
    lemma_segments_contains(f, TrkFeature::Frictionless.spec_token());
    assert(spec_split_semi(spec_write_features(*f)).contains(TrkFeature::Frictionless.spec_token())
        == f.frictionless);
}

/// One written line record, at any offset, reads back as exactly the
/// same record, whatever bytes follow it. The fields the decoder does
/// not read for this record's type and feature set must hold their stock
/// values, as the records the encoder's callers build always do.
#[verifier::rlimit(100)]
#[verifier::spinoff_prover]
pub proof fn lemma_line_round_trip(l: TrkLine, f: TrkFeatures, prefix: Seq<u8>, rest: Seq<u8>)
    requires
        l.multiplier == 1 || (f.red_multiplier && l.flags.spec_line_type() is Red),
        l.id == 0 || l.flags.spec_line_type() is Red || l.flags.spec_line_type() is Blue,
        l.line_width == 1 || (f.scenery_width && l.flags.spec_line_type() is Scenery),
    ensures
        spec_parse_line(prefix + spec_write_line(l, f) + rest, prefix.len() as int, f) == Ok::<
            (TrkLine, int),
            TrackError,
        >((l, prefix.len() as int + spec_write_line(l, f).len())),
{
    vstd::bytes::lemma_auto_spec_u32_to_from_le_bytes();
    vstd::bytes::lemma_auto_spec_u64_to_from_le_bytes();
    let lt = l.flags.spec_line_type();
    let physical = lt is Red || lt is Blue;
    let a = seq![l.flags.0];
    let b: Seq<u8> = if f.red_multiplier && lt is Red {
        seq![l.multiplier]
    } else {
        Seq::empty()
    };
    let z: Seq<u8> = if f.ignorable_trigger {
        seq![0u8]
    } else {
        Seq::empty()
    };
    let pad: Seq<u8> = if l.flags.spec_extensions().0 || l.flags.spec_extensions().1 {
        seq![0u8, 0u8, 0u8, 0u8, 0u8, 0u8, 0u8, 0u8]
    } else {
        Seq::empty()
    };
    let c: Seq<u8> = if physical {
        z + vstd::bytes::spec_u32_to_le_bytes(l.id) + pad
    } else {
        Seq::empty()
    };
    let d: Seq<u8> = if f.scenery_width && lt is Scenery {
        seq![l.line_width]
    } else {
        Seq::empty()
    };
    let e1 = spec_write_vec2(l.start);
    let e2 = spec_write_vec2(l.end);
    let w = spec_write_line(l, f);
    assert(w == a + b + c + d + e1 + e2);
    let s = prefix + w + rest;
    let p0 = prefix.len() as int;

    assert(s[p0] == l.flags.0);
    assert(TrkLineFlags(s[p0]) == l.flags);

    let p1 = p0 + 1 + b.len() as int;
    assert(spec_parse_multiplier(s, p0 + 1, f, l.flags) == Ok::<(u8, int), TrackError>(
        (l.multiplier, p1),
    )) by {
        if f.red_multiplier && lt is Red {
            assert(s[p0 + 1] == b[0]);
        }
    }

    let p2 = p1 + c.len() as int;
    assert(spec_parse_id_section(s, p1, f, l.flags) == Ok::<(u32, int), TrackError>((l.id, p2)))
        by {
        if physical {
            let pt = p1 + z.len() as int;
            assert(spec_parse_trigger(s, p1, f) == Ok::<int, TrackError>(pt)) by {
                if f.ignorable_trigger {
                    assert(s[p1] == z[0]);
                }
            }
            assert(s.subrange(pt, pt + 4) =~= vstd::bytes::spec_u32_to_le_bytes(l.id));
        }
    }

    let p3 = p2 + d.len() as int;
    assert(spec_parse_width(s, p2, f, l.flags) == Ok::<(u8, int), TrackError>(
        (l.line_width, p3),
    )) by {
        if f.scenery_width && lt is Scenery {
            assert(s[p2] == d[0]);
        }
    }

    let p4 = p3 + 16;
    assert(spec_read_vec2(s, p3, TrkField::LinePoint) == Ok::<(Vec2, int), TrackError>(
        (l.start, p4),
    )) by {
        assert(s.subrange(p3, p3 + 8) =~= vstd::bytes::spec_u64_to_le_bytes(l.start.x));
        assert(s.subrange(p3 + 8, p3 + 16) =~= vstd::bytes::spec_u64_to_le_bytes(l.start.y));
    }
    let p5 = p4 + 16;
    assert(spec_read_vec2(s, p4, TrkField::LinePoint) == Ok::<(Vec2, int), TrackError>(
        (l.end, p5),
    )) by {
        assert(s.subrange(p4, p4 + 8) =~= vstd::bytes::spec_u64_to_le_bytes(l.end.x));
        assert(s.subrange(p4 + 8, p4 + 16) =~= vstd::bytes::spec_u64_to_le_bytes(l.end.y));
    }
    assert(p5 == p0 + w.len() as int);
    assert(spec_parse_line(s, p0, f) == Ok::<(TrkLine, int), TrackError>((
        TrkLine {
            flags: l.flags,
            multiplier: l.multiplier,
            id: l.id,
            line_width: l.line_width,
            start: l.start,
            end: l.end,
        },
        p5,
    )));
}

/// A written run of line records, at any offset, reads back as exactly
/// the same records, whatever bytes follow.
pub proof fn lemma_lines_round_trip(
    lines: Seq<TrkLine>,
    f: TrkFeatures,
    prefix: Seq<u8>,
    rest: Seq<u8>,
)
    requires
        forall|i: int|
            0 <= i < lines.len() ==> ((#[trigger] lines[i]).multiplier == 1 || (f.red_multiplier
                && lines[i].flags.spec_line_type() is Red)),
        forall|i: int|
            0 <= i < lines.len() ==> ((#[trigger] lines[i]).id == 0 || lines[
                i
            ].flags.spec_line_type() is Red || lines[i].flags.spec_line_type() is Blue),
        forall|i: int|
            0 <= i < lines.len() ==> ((#[trigger] lines[i]).line_width == 1 || (f.scenery_width
                && lines[i].flags.spec_line_type() is Scenery)),
    ensures
        spec_parse_lines(
            prefix + spec_write_lines(lines, f) + rest,
            prefix.len() as int,
            f,
            lines.len() as int,
        ) == Ok::<(Seq<TrkLine>, int), TrackError>(
            (lines, prefix.len() as int + spec_write_lines(lines, f).len()),
        ),
    decreases lines.len(),
{
    if lines.len() == 0 {
        assert(spec_write_lines(lines, f) == Seq::<u8>::empty());
        assert(lines =~= Seq::<TrkLine>::empty());
    } else {
        let w0 = spec_write_line(lines[0], f);
        let wr = spec_write_lines(lines.drop_first(), f);
        assert(spec_write_lines(lines, f) == w0 + wr);
        let s = prefix + spec_write_lines(lines, f) + rest;
        assert(s =~= prefix + w0 + (wr + rest));
        lemma_line_round_trip(lines[0], f, prefix, wr + rest);
        assert(s =~= (prefix + w0) + wr + rest);
        lemma_lines_round_trip(lines.drop_first(), f, prefix + w0, rest);
        assert(seq![lines[0]] + lines.drop_first() =~= lines);
    }
}

/// A written header, with anything after it, reads back as the same
/// header: same version, the same feature set (by the feature-string
/// round trip), the song's UTF-8 bytes exactly when the song feature is
/// active, and the same start position.
#[verifier::rlimit(100)]
#[verifier::spinoff_prover]
pub proof fn lemma_header_round_trip(h: TrkHeader, rest: Seq<u8>)
    requires
        !(h.features.song_info && spec_song_bytes(h).len() > 255),
    ensures
        spec_parse_header(spec_write_header(h) + rest) == Ok::<(SpecTrkHeader, int), TrackError>(
            (
                SpecTrkHeader {
                    version: h.version,
                    features: h.features,
                    song: if h.features.song_info {
                        Some(spec_song_bytes(h))
                    } else {
                        None
                    },
                    start_position: h.start_position,
                },
                spec_write_header(h).len() as int,
            ),
        ),
{
    vstd::bytes::lemma_auto_spec_u16_to_from_le_bytes();
    vstd::bytes::lemma_auto_spec_u64_to_from_le_bytes();
    let fb = spec_write_features(h.features);
    assert(fb.len() <= 120);
    let song: Seq<u8> = if h.features.song_info {
        seq![spec_song_bytes(h).len() as u8] + spec_song_bytes(h)
    } else {
        Seq::empty()
    };
    let sp = spec_write_vec2(h.start_position);
    let w = spec_write_header(h);
    assert(w == spec_trk_magic() + seq![h.version] + vstd::bytes::spec_u16_to_le_bytes(
        fb.len() as u16,
    ) + fb + song + sp);
    let s = w + rest;

    assert(s.subrange(0, 4) =~= spec_trk_magic());
    assert(s[4] == h.version);
    assert(s.subrange(5, 7) =~= vstd::bytes::spec_u16_to_le_bytes(fb.len() as u16));
    let flen = vstd::bytes::spec_u16_from_le_bytes(s.subrange(5, 7)) as int;
    assert(flen == fb.len());
    assert(s.subrange(7, 7 + flen) =~= fb);
    lemma_features_round_trip(&h.features);
    assert(spec_features_of(s.subrange(7, 7 + flen)) == h.features);

    let p = 7 + flen;
    let p2 = p + song.len() as int;
    assert(spec_parse_song(s, p, h.features) == Ok::<(Option<Seq<u8>>, int), TrackError>(
        (
            if h.features.song_info {
                Some(spec_song_bytes(h))
            } else {
                None
            },
            p2,
        ),
    )) by {
        if h.features.song_info {
            assert(s[p] == song[0]);
            assert(s[p] as int == spec_song_bytes(h).len());
            assert(s.subrange(p + 1, p + 1 + spec_song_bytes(h).len() as int) =~= spec_song_bytes(
                h,
            ));
        }
    }
    assert(spec_read_vec2(s, p2, TrkField::StartPosition) == Ok::<(Vec2, int), TrackError>(
        (h.start_position, p2 + 16),
    )) by {
        assert(s.subrange(p2, p2 + 8) =~= vstd::bytes::spec_u64_to_le_bytes(h.start_position.x));
        assert(s.subrange(p2 + 8, p2 + 16) =~= vstd::bytes::spec_u64_to_le_bytes(
            h.start_position.y,
        ));
    }
    assert(p2 + 16 == w.len() as int);
}

proof fn lemma_first_index_props(s: Seq<u8>, b: u8)
    ensures
        0 <= spec_first_index(s, b) <= s.len(),
        forall|i: int| 0 <= i < spec_first_index(s, b) ==> s[i] != b,
        spec_first_index(s, b) < s.len() ==> s[spec_first_index(s, b)] == b,
    decreases s.len(),
{
    if s.len() == 0 {
    } else if s[0] == b {
    } else {
        lemma_first_index_props(s.drop_first(), b);
        let k = spec_first_index(s, b);
        assert forall|i: int| 0 <= i < k implies s[i] != b by {
            if i > 0 {
                assert(s.drop_first()[i - 1] == s[i]);
            }
        }
        if k < s.len() {
            assert(s.drop_first()[k - 1] == s[k]);
        }
    }
}

proof fn lemma_first_index_concat(kb: Seq<u8>, tail: Seq<u8>)
    requires
        forall|i: int| 0 <= i < kb.len() ==> #[trigger] kb[i] != 61,
    ensures
        spec_first_index(kb + seq![61u8] + tail, 61) == kb.len(),
    decreases kb.len(),
{
    let s = kb + seq![61u8] + tail;
    if kb.len() == 0 {
        assert(s[0] == 61);
    } else {
        assert(s[0] == kb[0]);
        assert forall|i: int| 0 <= i < kb.drop_first().len() implies #[trigger] kb.drop_first()[i]
            != 61 by {
            assert(kb.drop_first()[i] == kb[i + 1]);
        }
        lemma_first_index_concat(kb.drop_first(), tail);
        assert(s.drop_first() =~= kb.drop_first() + seq![61u8] + tail);
    }
}

proof fn lemma_entries_writable(entries: Seq<(String, String)>)
    requires
        spec_entries_error(entries) is None,
    ensures
        forall|i: int|
            0 <= i < entries.len() ==> spec_first_index(
                encode_utf8((#[trigger] entries[i]).0@),
                61,
            ) == encode_utf8(entries[i].0@).len(),
        forall|i: int|
            0 <= i < entries.len() ==> spec_entry_payload(#[trigger] entries[i]).len() <= 0xffff,
    decreases entries.len(),
{
    if entries.len() > 0 {
        lemma_first_index_props(encode_utf8(entries[0].0@), 61);
        lemma_entries_writable(entries.drop_first());
        assert forall|i: int|
            0 <= i < entries.len() implies spec_first_index(
            encode_utf8((#[trigger] entries[i]).0@),
            61,
        ) == encode_utf8(entries[i].0@).len() && spec_entry_payload(entries[i]).len()
            <= 0xffff by {
            if i > 0 {
                assert(entries.drop_first()[i - 1] == entries[i]);
            }
        }
    }
}

/// The raw byte pair a decoded metadata entry corresponds to.
pub open spec fn spec_entry_raw(e: (String, String)) -> (Seq<u8>, Seq<u8>) {
    (encode_utf8(e.0@), encode_utf8(e.1@))
}

/// A written run of metadata entries, at any offset, reads back as the
/// same entries' UTF-8 key and value bytes.
#[verifier::rlimit(100)]
#[verifier::spinoff_prover]
proof fn lemma_meta_entries_round_trip(
    entries: Seq<(String, String)>,
    prefix: Seq<u8>,
    rest: Seq<u8>,
)
    requires
        spec_entries_error(entries) is None,
    ensures
        spec_parse_meta_entries(
            prefix + spec_write_meta_entries(entries) + rest,
            prefix.len() as int,
            entries.len() as int,
        ) == Ok::<(Seq<(Seq<u8>, Seq<u8>)>, int), TrackError>(
            (
                entries.map_values(|e: (String, String)| spec_entry_raw(e)),
                prefix.len() as int + spec_write_meta_entries(entries).len(),
            ),
        ),
    decreases entries.len(),
{
    vstd::bytes::lemma_auto_spec_u16_to_from_le_bytes();
    if entries.len() == 0 {
        assert(spec_write_meta_entries(entries) == Seq::<u8>::empty());
        assert(entries.map_values(|e: (String, String)| spec_entry_raw(e)) =~= Seq::<
            (Seq<u8>, Seq<u8>),
        >::empty());
    } else {
        lemma_entries_writable(entries);
        let kb = encode_utf8(entries[0].0@);
        let vb = encode_utf8(entries[0].1@);
        let ep = spec_entry_payload(entries[0]);
        assert(ep == kb + seq![61u8] + vb);
        let chunk = vstd::bytes::spec_u16_to_le_bytes(ep.len() as u16) + ep;
        let wr = spec_write_meta_entries(entries.drop_first());
        assert(spec_write_meta_entries(entries) == chunk + wr);
        let s = prefix + spec_write_meta_entries(entries) + rest;
        let p0 = prefix.len() as int;

        assert(s.subrange(p0, p0 + 2) =~= vstd::bytes::spec_u16_to_le_bytes(ep.len() as u16));
        assert(spec_entry_payload(entries[0]).len() <= 0xffff);
        let elen = vstd::bytes::spec_u16_from_le_bytes(s.subrange(p0, p0 + 2)) as int;
        assert(elen == ep.len());
        assert(s.subrange(p0 + 2, p0 + 2 + elen) =~= ep);

        lemma_first_index_props(kb, 61);
        assert forall|i: int| 0 <= i < kb.len() implies #[trigger] kb[i] != 61 by {
            assert(spec_first_index(kb, 61) == kb.len());
        }
        lemma_first_index_concat(kb, vb);
        let k = spec_first_index(ep, 61);
        assert(k == kb.len());
        assert(k < ep.len());
        assert(ep.subrange(0, k) =~= kb);
        assert(ep.subrange(k + 1, ep.len() as int) =~= vb);

        assert(s =~= (prefix + chunk) + wr + rest);
        assert(spec_entries_error(entries.drop_first()) is None);
        lemma_meta_entries_round_trip(entries.drop_first(), prefix + chunk, rest);
        assert(seq![(kb, vb)] + entries.drop_first().map_values(
            |e: (String, String)| spec_entry_raw(e),
        ) =~= entries.map_values(|e: (String, String)| spec_entry_raw(e)));
    }
}

/// The encoder is the mirror of the decoder: a track the encoder accepts
/// decodes from its own bytes back to the same raw structure, field for
/// field. The fields the decoder never reads for a record's type and
/// feature set must hold their stock values, as the records built by the
/// canonical-model conversion always do.
#[verifier::rlimit(100)]
#[verifier::spinoff_prover]
pub proof fn lemma_track_round_trip(t: TrkTrack)
    requires
        spec_write_error(t) is None,
        forall|i: int|
            0 <= i < t.lines@.len() ==> ((#[trigger] t.lines@[i]).multiplier == 1 || (
            t.header.features.red_multiplier && t.lines@[i].flags.spec_line_type() is Red)),
        forall|i: int|
            0 <= i < t.lines@.len() ==> ((#[trigger] t.lines@[i]).id == 0 || t.lines@[
                i
            ].flags.spec_line_type() is Red || t.lines@[i].flags.spec_line_type() is Blue),
        forall|i: int|
            0 <= i < t.lines@.len() ==> ((#[trigger] t.lines@[i]).line_width == 1 || (
            t.header.features.scenery_width && t.lines@[i].flags.spec_line_type() is Scenery)),
    ensures
        spec_parse_track(spec_write_track(t)) is Ok,
        ({
            let st = spec_parse_track(spec_write_track(t))->Ok_0;
            &&& st.header.version == t.header.version
            &&& st.header.features == t.header.features
            &&& st.header.start_position == t.header.start_position
            &&& st.header.song == (if t.header.features.song_info {
                Some(spec_song_bytes(t.header))
            } else {
                None
            })
            &&& st.lines == t.lines@
            &&& st.meta == (match t.meta {
                None => None,
                Some(m) => Some(m.entries@.map_values(|e: (String, String)| spec_entry_raw(e))),
            })
        }),
{
    vstd::bytes::lemma_auto_spec_u16_to_from_le_bytes();
    vstd::bytes::lemma_auto_spec_u32_to_from_le_bytes();
    let wh = spec_write_header(t.header);
    let cnt = vstd::bytes::spec_u32_to_le_bytes(t.lines@.len() as u32);
    let wl = spec_write_lines(t.lines@, t.header.features);
    let wm = spec_write_meta(t.meta);
    let s = spec_write_track(t);
    assert(s == wh + cnt + wl + wm);

    assert(s =~= wh + (cnt + wl + wm));
    lemma_header_round_trip(t.header, cnt + wl + wm);
    let p0 = wh.len() as int;

    assert(s.subrange(p0, p0 + 4) =~= cnt);
    assert(t.lines@.len() <= 0xffffffff);
    let n = vstd::bytes::spec_u32_from_le_bytes(s.subrange(p0, p0 + 4)) as int;
    assert(n == t.lines@.len());

    assert(s =~= (wh + cnt) + wl + wm);
    lemma_lines_round_trip(t.lines@, t.header.features, wh + cnt, wm);
    let p1 = p0 + 4 + wl.len() as int;

    match t.meta {
        None => {
            assert(wm == Seq::<u8>::empty());
            assert(p1 == s.len());
            assert(spec_parse_meta(s, p1) == Ok::<
                (Option<Seq<(Seq<u8>, Seq<u8>)>>, int),
                TrackError,
            >((None, p1)));
        },
        Some(m) => {
            assert(m.entries@.len() <= 0x7fff);
            assert(wm == spec_meta_magic() + vstd::bytes::spec_u16_to_le_bytes(
                m.entries@.len() as u16,
            ) + spec_write_meta_entries(m.entries@));
            assert(s.subrange(p1, p1 + 4) =~= spec_meta_magic());
            assert(s.subrange(p1 + 4, p1 + 6) =~= vstd::bytes::spec_u16_to_le_bytes(
                m.entries@.len() as u16,
            ));
            let count = vstd::bytes::spec_u16_from_le_bytes(s.subrange(p1 + 4, p1 + 6)) as int;
            assert(count == m.entries@.len());
            let mprefix = wh + cnt + wl + spec_meta_magic() + vstd::bytes::spec_u16_to_le_bytes(
                m.entries@.len() as u16,
            );
            assert(s =~= mprefix + spec_write_meta_entries(m.entries@) + Seq::<u8>::empty());
            lemma_meta_entries_round_trip(m.entries@, mprefix, Seq::empty());
            assert(mprefix.len() as int == p1 + 6);
        },
    }
}

} // verus!
