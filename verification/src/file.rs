//! The records exchanged with the surrounding tag-reading and tag-writing
//! code: the candidate values read from one audio file, and the finished,
//! fully-validated values to write back, together with the verified text
//! the writer puts into frames and into the new file name.

use crate::album::AlbumOutput;
use crate::text::{i32_dec_spec, i32_to_string, pad2_spec, pad2_u32};
use crate::track::TrackOutput;
use vstd::prelude::*;
use vstd::string::StringExecFns;

verus! {

/// The candidate field values one discovered file offers, used to seed a
/// session's defaults.  The surrounding reader fills it in; the engine only
/// consumes the plain values.
pub struct FileInput {
    pub path: String,
    pub artist: Option<String>,
    pub album_artist: Option<String>,
    pub album: Option<String>,
    pub year: Option<i32>,
    pub title: Option<String>,
    pub track_number: Option<u32>,
    pub total_tracks: Option<u32>,
    pub disc_number: Option<u32>,
    pub total_discs: Option<u32>,
}

/// The fully-validated values to write back to one file.
pub struct FileOutput {
    pub path: String,
    pub artist: String,
    pub album_artist: String,
    pub album: String,
    pub year: i32,
    pub title: String,
    pub track_number: u32,
    pub total_tracks: u32,
    pub disc_number: u32,
    pub total_discs: u32,
}

/// The text of the track-count or disc-count frame: both numbers in
/// decimal, zero-padded to two digits, separated by a slash.
pub open spec fn counted_frame_spec(number: int, total: int) -> Seq<char> {
    pad2_spec(number) + seq!['/'] + pad2_spec(total)
}

/// The new file name: the zero-padded track number (prefixed with the
/// zero-padded disc number when the album spans several discs), the title,
/// and the extension.
pub open spec fn file_name_spec(
    track_number: int,
    disc_number: int,
    total_discs: int,
    title: Seq<char>,
) -> Seq<char> {
    (if total_discs > 1 {
        pad2_spec(disc_number) + seq!['-'] + pad2_spec(track_number)
    } else {
        pad2_spec(track_number)
    }) + " - "@ + title + ".mp3"@
}

fn counted_frame_text(number: u32, total: u32) -> (r: String)
    ensures
        r@ == counted_frame_spec(number as int, total as int),
{
    let mut r = pad2_u32(number);
    r.append("/");
    let t = pad2_u32(total);
    r.append(t.as_str());
    proof {
        reveal_strlit("/");
        assert("/"@ =~= seq!['/']);
        assert(r@ =~= counted_frame_spec(number as int, total as int));
    }
    r
}

impl FileOutput {
    /// Merges a finished album-level record and a finished track-level
    /// record into the values for one file.
    pub fn new(path: String, album_output: &AlbumOutput, track_output: TrackOutput) -> (r: Self)
        ensures
            r.path == path,
            r.artist == album_output.artist,
            r.album_artist == album_output.album_artist,
            r.album == album_output.album,
            r.year == album_output.year,
            r.title == track_output.title,
            r.track_number == track_output.track_number,
            r.total_tracks == album_output.total_tracks,
            r.disc_number == track_output.disc_number,
            r.total_discs == album_output.total_discs,
    {
        FileOutput {
            path,
            artist: album_output.artist.clone(),
            album_artist: album_output.album_artist.clone(),
            album: album_output.album.clone(),
            year: album_output.year,
            title: track_output.title,
            track_number: track_output.track_number,
            total_tracks: album_output.total_tracks,
            disc_number: track_output.disc_number,
            total_discs: album_output.total_discs,
        }
    }

    /// The text of the year frame.
    pub fn year_text(&self) -> (r: String)
        ensures
            r@ == i32_dec_spec(self.year as int),
    {
        i32_to_string(self.year)
    }

    /// The text of the track-number frame.
    pub fn track_frame_text(&self) -> (r: String)
        ensures
            r@ == counted_frame_spec(self.track_number as int, self.total_tracks as int),
    {
        counted_frame_text(self.track_number, self.total_tracks)
    }

    /// The text of the disc-number frame.
    pub fn disc_frame_text(&self) -> (r: String)
        ensures
            r@ == counted_frame_spec(self.disc_number as int, self.total_discs as int),
    {
        counted_frame_text(self.disc_number, self.total_discs)
    }

    /// The name the file is renamed to after its tags are written.
    pub fn file_name(&self) -> (r: String)
        ensures
            r@ == file_name_spec(
                self.track_number as int,
                self.disc_number as int,
                self.total_discs as int,
                self.title@,
            ),
    {
        let mut r: String;
        if self.total_discs > 1 {
            r = pad2_u32(self.disc_number);
            r.append("-");
            let t = pad2_u32(self.track_number);
            r.append(t.as_str());
            proof {
                reveal_strlit("-");
                assert("-"@ =~= seq!['-']);
            }
        } else {
            r = pad2_u32(self.track_number);
        }
        r.append(" - ");
        r.append(self.title.as_str());
        r.append(".mp3");
        proof {
            assert(r@ =~= file_name_spec(
                self.track_number as int,
                self.disc_number as int,
                self.total_discs as int,
                self.title@,
            ));
        }
        r
    }
}

} // verus!
