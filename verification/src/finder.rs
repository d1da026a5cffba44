//! The rules of the track finder: which file extension counts as a track,
//! and the demand that a scan turn up at least one track.  The directory
//! walk itself is left to the surrounding code, which hands the batch in.

use crate::file::FileInput;
use vstd::prelude::*;
use vstd::string::StrSliceExecFns;
use vstd::string::StringExecFns;

verus! {

/// Why no batch of tracks could be produced.
#[derive(Debug)]
pub enum FindError {
    NoTracks,
    ReadDir(String, String),
    ReadEntry(String),
}

/// Whether `s` is the accepted audio-file extension, compared
/// case-insensitively.
pub open spec fn is_track_ext(s: Seq<char>) -> bool {
    s.len() == 3 && (s[0] == 'm' || s[0] == 'M') && (s[1] == 'p' || s[1] == 'P') && s[2] == '3'
}

/// Whether a file extension marks the file as a track.
pub fn is_track_extension(ext: &str) -> (r: bool)
    ensures
        r == is_track_ext(ext@),
{
    if ext.unicode_len() != 3 {
        return false;
    }
    let c0 = ext.get_char(0);
    let c1 = ext.get_char(1);
    let c2 = ext.get_char(2);
    (c0 == 'm' || c0 == 'M') && (c1 == 'p' || c1 == 'P') && c2 == '3'
}

/// A scan must turn up at least one track: hands the batch back unchanged
/// when it is non-empty and reports the no-tracks error when it is empty.
pub fn require_found(items: Vec<FileInput>) -> (r: Result<Vec<FileInput>, FindError>)
    ensures
        match r {
            Ok(v) => v == items && items@.len() > 0,
            Err(e) => e is NoTracks && items@.len() == 0,
        },
{
    if items.len() == 0 {
        Err(FindError::NoTracks)
    } else {
        Ok(items)
    }
}

/// The message shown for a failure of the finder.
pub open spec fn find_error_message_spec(e: &FindError) -> Seq<char> {
    match e {
        FindError::NoTracks => "no tracks found"@,
        FindError::ReadDir(path, err) => "failed to read a directory "@ + path@ + ": "@ + err@,
        FindError::ReadEntry(err) => "failed to read an entry: "@ + err@,
    }
}

impl FindError {
    /// The message shown for this failure.
    pub fn message(&self) -> (r: String)
        ensures
            r@ == find_error_message_spec(self),
    {
        match self {
            FindError::NoTracks => "no tracks found".to_owned(),
            FindError::ReadDir(path, err) => {
                let mut r = "failed to read a directory ".to_owned();
                r.append(path.as_str());
                r.append(": ");
                r.append(err.as_str());
                proof {
                    assert(r@ =~= find_error_message_spec(self));
                }
                r
            },
            FindError::ReadEntry(err) => {
                let mut r = "failed to read an entry: ".to_owned();
                r.append(err.as_str());
                proof {
                    assert(r@ =~= find_error_message_spec(self));
                }
                r
            },
        }
    }
}

} // verus!
