//! Extension-driven selection among the three codecs: the full compound
//! extension is taken from the file name and matched against the
//! registered set.

use vstd::prelude::*;

use crate::error::TrackError;

verus! {

/// The three on-disk representations.
#[derive(Debug, Clone, Copy, PartialEq, Eq, Structural)]
pub enum TrackFormat {
    BoshTF,
    LRCom,
    Trk,
}

/// Where the file name starts: the position right after the last `/`
/// before `i`, or 0.
pub open spec fn spec_fname_start(s: Seq<char>, i: int) -> int
    decreases i,
{
    if i <= 0 {
        0
    } else if s[i - 1] == '/' {
        i
    } else {
        spec_fname_start(s, i - 1)
    }
}

/// The first `.` at or after `i`, or the length when there is none.
pub open spec fn spec_first_dot(s: Seq<char>, i: int) -> int
    decreases s.len() - i,
{
    if i < 0 || i >= s.len() {
        s.len() as int
    } else if s[i] == '.' {
        i
    } else {
        spec_first_dot(s, i + 1)
    }
}

/// The full (compound) extension of a path: everything after the first
/// `.` of the file name, where a leading `.` names a hidden file rather
/// than an extension; `None` when the file name has no extension.
pub open spec fn spec_extension(s: Seq<char>) -> Option<Seq<char>> {
    let f = spec_fname_start(s, s.len() as int);
    let d = spec_first_dot(s, f + 1);
    if d >= s.len() {
        None
    } else {
        Some(s.subrange(d + 1, s.len() as int))
    }
}

/// The full compound extension of a path, such as the two-part suffix of
/// a web-format track file.
pub fn get_extension(path: &str) -> (r: Option<String>)
    ensures
        match r {
            Some(e) => spec_extension(path@) == Some(e@),
            None => spec_extension(path@) is None,
        },
{
    let n = path.unicode_len();
    let mut i: usize = 0;
    let mut fname_start: usize = 0;
    while i < n
        invariant
            0 <= i <= n,
            n == path@.len(),
            fname_start as int == spec_fname_start(path@, i as int),
            fname_start <= i,
        decreases n - i,
    {
        if path.get_char(i) == '/' {
            fname_start = i + 1;
        }
        i = i + 1;
    }
    assert(spec_fname_start(path@, n as int) == fname_start as int);

    if fname_start >= n {
        assert(spec_first_dot(path@, fname_start + 1) == n as int);
        return None;
    }
    let mut j: usize = fname_start + 1;
    while j < n
        invariant
            fname_start + 1 <= j <= n,
            n == path@.len(),
            spec_fname_start(path@, n as int) == fname_start as int,
            spec_first_dot(path@, fname_start + 1) == spec_first_dot(path@, j as int),
        decreases n - j,
    {
        if path.get_char(j) == '.' {
            let ext = path.substring_char(j + 1, n).to_owned();
            assert(spec_first_dot(path@, j as int) == j as int);
            return Some(ext);
        }
        j = j + 1;
    }
    assert(spec_first_dot(path@, fname_start + 1) == n as int);
    None
}

fn str_eq_chars(a: &str, b: &str) -> (r: bool)
    ensures
        r == (a@ == b@),
{
    let n = a.unicode_len();
    let m = b.unicode_len();
    if n != m {
        assert(a@ != b@);
        return false;
    }
    let mut i: usize = 0;
    while i < n
        invariant
            0 <= i <= n,
            n == a@.len(),
            n == b@.len(),
            forall|j: int| 0 <= j < i ==> a@[j] == b@[j],
        decreases n - i,
    {
        if a.get_char(i) != b.get_char(i) {
            assert(a@ != b@);
            return false;
        }
        i = i + 1;
    }
    assert(a@ =~= b@);
    true
}

/// Picks the codec for a path by its full extension; a missing or
/// unregistered extension is an error, never a silent fallback.
pub fn codec_for_path(path: &str) -> (r: Result<TrackFormat, TrackError>)
    ensures
        match spec_extension(path@) {
            None => r == Err::<TrackFormat, TrackError>(TrackError::MissingExtension),
            Some(e) => if e == "boshtf"@ {
                r == Ok::<TrackFormat, TrackError>(TrackFormat::BoshTF)
            } else if e == "track.json"@ {
                r == Ok::<TrackFormat, TrackError>(TrackFormat::LRCom)
            } else if e == "trk"@ {
                r == Ok::<TrackFormat, TrackError>(TrackFormat::Trk)
            } else {
                r == Err::<TrackFormat, TrackError>(TrackError::UnknownExtension)
            },
        },
{
    let ext = match get_extension(path) {
        Some(e) => e,
        None => {
            return Err(TrackError::MissingExtension);
        },
    };
    if str_eq_chars(ext.as_str(), "boshtf") {
        Ok(TrackFormat::BoshTF)
    } else if str_eq_chars(ext.as_str(), "track.json") {
        Ok(TrackFormat::LRCom)
    } else if str_eq_chars(ext.as_str(), "trk") {
        Ok(TrackFormat::Trk)
    } else {
        Err(TrackError::UnknownExtension)
    }
}

} // verus!
