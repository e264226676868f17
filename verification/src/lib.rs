//! Codecs and canonicalization for 2-D physics-sandbox tracks: a binary
//! decoder and encoder for the legacy track format, the dual-shape
//! web-service JSON model, an extension-driven format dispatcher, and the
//! canonicalizer that maps generic point-mass rigs onto the compact sled
//! descriptor. Coordinates are carried as IEEE 754 binary64 bit patterns.

mod error;
mod floats;
mod model;
mod rig;
mod text;
mod trk;
mod convert;
mod trk_write;
mod lrcom;
mod dispatch;

pub use error::{FormatDetail, TrkField, UnsupportedKind, TrackError};
pub use floats::{add_bits, sub_bits};
pub use rig::{spec_default_points, spec_default_bones, spec_default_joints, default_rig, to_compact, to_rig, spec_to_compact, spec_point_velocity, spec_translate_point, spec_untranslate_point, spec_uniform_velocity, spec_matches_default, spec_point_restores_default, default_slot, lemma_to_compact_classification, lemma_to_compact_order_independent};
pub use text::{utf8_lossy};
pub use dispatch::{TrackFormat, spec_fname_start, spec_first_dot, spec_extension, get_extension, codec_for_path};
pub use lrcom::{LRComVec2, LRComEntity, LRComLineType, LRComLine, LRComLineArray, LRComTrack, spec_lrcom_vec, spec_lrcom_type_to_boshtf, spec_lrcom_line_to_boshtf, spec_lrcom_entity_to_boshtf, spec_lrcom_lines_to_boshtf, spec_lrcom_entities_to_boshtf, spec_boshtf_of_lrcom, lrcom_to_boshtf, lrcom_line_to_boshtf, spec_lrcom_conv_error, spec_lrcom_type_supported, spec_boshtf_type_to_lrcom, spec_boshtf_entity_to_lrcom, spec_boshtf_line_to_lrcom, spec_lrcom_of_boshtf, boshtf_to_lrcom, lemma_lrcom_round_trip};
pub use trk_write::{spec_write_vec2, spec_write_features, spec_song_bytes, spec_write_header, spec_write_line, spec_write_lines, spec_entry_payload, spec_write_meta_entries, spec_write_meta, spec_write_track, spec_entries_error, spec_write_error, write_trk, lemma_features_round_trip, lemma_line_round_trip, lemma_lines_round_trip, lemma_header_round_trip, spec_entry_raw, lemma_track_round_trip};
pub use convert::{spec_default_velocity, spec_zero_velocity, spec_trk_type_to_boshtf, spec_trk_line_to_boshtf, trk_line_to_boshtf, trk_to_boshtf, spec_boshtf_type_to_trk, spec_supported_velocity, spec_amount_fits, spec_needs_multiplier, spec_trk_line_encodes, spec_trk_conv_error, boshtf_to_trk};
pub use trk::{TrkFeature, TrkFeatures, spec_split_semi, spec_features_of, parse_features, TrkLineType, TrkLineFlags, TrkLine, TrkHeader, TrkMeta, TrkTrack, SpecTrkHeader, SpecTrkTrack, spec_trk_magic, spec_meta_magic, spec_read_vec2, spec_parse_song, spec_parse_header, spec_parse_multiplier, spec_parse_trigger, spec_parse_id_section, spec_parse_width, spec_parse_line, spec_parse_lines, spec_first_index, spec_parse_meta_entries, spec_parse_meta, spec_parse_track, parse_trk, lemma_width_one_without_feature, lemma_meta_absent_at_end, lemma_track_without_meta};
pub use model::{
    Vec2, LineEnd, LineEnds, PointPair, BoshTFLineType, BoshTFLine, BoshTFMeta, PointIndex, RigPoint, RigBoneType,
    RigBone, RigJoint, Rig, BoshTFEntity, BoshTFTrack, spec_find_point,
};
