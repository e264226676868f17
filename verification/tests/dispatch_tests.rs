use bosh_codec::{codec_for_path, get_extension, TrackError, TrackFormat};

#[test]
fn compound_extension_is_taken_whole() {
    assert_eq!(
        get_extension("dir/foo.track.json").as_deref(),
        Some("track.json")
    );
    assert_eq!(get_extension("a/b/c.trk").as_deref(), Some("trk"));
    assert_eq!(get_extension("x.boshtf").as_deref(), Some("boshtf"));
}

#[test]
fn hidden_files_and_bare_names_have_no_extension() {
    assert_eq!(get_extension("noext"), None);
    assert_eq!(get_extension("dir.with.dots/noext"), None);
    assert_eq!(get_extension(".hidden"), None);
    assert_eq!(get_extension(".hidden.txt").as_deref(), Some("txt"));
    assert_eq!(get_extension("trailing."), Some(String::new()));
    assert_eq!(get_extension(""), None);
}

#[test]
fn codecs_dispatch_by_extension() {
    assert_eq!(codec_for_path("t.boshtf"), Ok(TrackFormat::BoshTF));
    assert_eq!(codec_for_path("t.track.json"), Ok(TrackFormat::LRCom));
    assert_eq!(codec_for_path("dir/t.trk"), Ok(TrackFormat::Trk));
    assert_eq!(codec_for_path("t.json"), Err(TrackError::UnknownExtension));
    assert_eq!(codec_for_path("t"), Err(TrackError::MissingExtension));
}
