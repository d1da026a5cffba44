//! The album-level record kind: its six fields (artist, album artist,
//! album title, year, total track count, total disc count), its navigable
//! field sequence, its record builder, and the seeding of its defaults
//! from a batch of candidate files.

use crate::counter::{Counter, ExactEq};
use crate::editor::{
    hint_of_i32, hint_of_text, hint_of_u32, i32_hint, text_hint, u32_hint, CursorPos,
    DefaultValue, OutputBuilder, Prompt, State, StateInput, StateV,
};
use crate::file::FileInput;
use crate::text::{
    dec_digits, i32_dec_spec, i32_to_string, lemma_i32_round_trip, lemma_u32_round_trip,
    parse_i32, parse_i32_spec, parse_u32, parse_u32_spec, u32_to_string, NumError,
};
use vstd::prelude::*;
use vstd::pervasive::unreached;
use vstd::slice::slice_index_get;

verus! {

/// The candidate values an album-level session is seeded with.
#[derive(Clone)]
pub struct AlbumInput {
    pub artist: Option<String>,
    pub album_artist: Option<String>,
    pub album: Option<String>,
    pub year: Option<i32>,
    pub total_tracks: Option<u32>,
    pub total_discs: Option<u32>,
}

impl AlbumInput {
    /// Seeds album-level candidate values from a batch of discovered files:
    /// for each field, the most frequently observed candidate, or nothing
    /// when no file offers the field.  Every seeded value was observed in
    /// some file; ties are broken arbitrarily.
    pub fn from_file_input(items: &[FileInput]) -> (r: Self)
        ensures
            r.artist is Some <==> (exists|j: int|
                0 <= j < items@.len() && (#[trigger] items@[j]).artist is Some),
            r.artist matches Some(v) ==> exists|j: int|
                0 <= j < items@.len() && ((#[trigger] items@[j]).artist matches Some(w) && w@
                    == v@),
            r.album_artist is Some <==> (exists|j: int|
                0 <= j < items@.len() && (#[trigger] items@[j]).album_artist is Some),
            r.album_artist matches Some(v) ==> exists|j: int|
                0 <= j < items@.len() && ((#[trigger] items@[j]).album_artist matches Some(w)
                    && w@ == v@),
            r.album is Some <==> (exists|j: int|
                0 <= j < items@.len() && (#[trigger] items@[j]).album is Some),
            r.album matches Some(v) ==> exists|j: int|
                0 <= j < items@.len() && ((#[trigger] items@[j]).album matches Some(w) && w@
                    == v@),
            r.year is Some <==> (exists|j: int|
                0 <= j < items@.len() && (#[trigger] items@[j]).year is Some),
            r.year matches Some(y) ==> exists|j: int|
                0 <= j < items@.len() && (#[trigger] items@[j]).year == Some(y),
            r.total_tracks is Some <==> (exists|j: int|
                0 <= j < items@.len() && (#[trigger] items@[j]).total_tracks is Some),
            r.total_tracks matches Some(t) ==> exists|j: int|
                0 <= j < items@.len() && (#[trigger] items@[j]).total_tracks == Some(t),
            r.total_discs is Some <==> (exists|j: int|
                0 <= j < items@.len() && (#[trigger] items@[j]).total_discs is Some),
            r.total_discs matches Some(t) ==> exists|j: int|
                0 <= j < items@.len() && (#[trigger] items@[j]).total_discs == Some(t),
    {
        let mut counter: Counter<AlbumKey, String> = Default::default();
        let n = items.len();
        let mut i: usize = 0;
        while i < n
            invariant
                n == items@.len(),
                i <= n,
                counter.wf(),
                forall|v: Seq<char>| counter.count_of(AlbumKey::Artist, v) >= 1 ==> exists|j: int|
                    0 <= j < i && ((#[trigger] items@[j]).artist matches Some(w) && w@ == v),
                counter.has_key(AlbumKey::Artist) <==> (exists|j: int|
                    0 <= j < i && (#[trigger] items@[j]).artist is Some),
                forall|v: Seq<char>|
                    counter.count_of(AlbumKey::AlbumArtist, v) >= 1 ==> exists|j: int|
                        0 <= j < i && ((#[trigger] items@[j]).album_artist matches Some(w) && w@
                            == v),
                counter.has_key(AlbumKey::AlbumArtist) <==> (exists|j: int|
                    0 <= j < i && (#[trigger] items@[j]).album_artist is Some),
                forall|v: Seq<char>| counter.count_of(AlbumKey::Album, v) >= 1 ==> exists|j: int|
                    0 <= j < i && ((#[trigger] items@[j]).album matches Some(w) && w@ == v),
                counter.has_key(AlbumKey::Album) <==> (exists|j: int|
                    0 <= j < i && (#[trigger] items@[j]).album is Some),
                forall|v: Seq<char>| counter.count_of(AlbumKey::Year, v) >= 1 ==> exists|j: int|
                    0 <= j < i && ((#[trigger] items@[j]).year matches Some(y) && v
                        == i32_dec_spec(y as int)),
                counter.has_key(AlbumKey::Year) <==> (exists|j: int|
                    0 <= j < i && (#[trigger] items@[j]).year is Some),
                forall|v: Seq<char>|
                    counter.count_of(AlbumKey::TotalTracks, v) >= 1 ==> exists|j: int|
                        0 <= j < i && ((#[trigger] items@[j]).total_tracks matches Some(t) && v
                            == dec_digits(t as int)),
                counter.has_key(AlbumKey::TotalTracks) <==> (exists|j: int|
                    0 <= j < i && (#[trigger] items@[j]).total_tracks is Some),
                forall|v: Seq<char>|
                    counter.count_of(AlbumKey::TotalDiscs, v) >= 1 ==> exists|j: int|
                        0 <= j < i && ((#[trigger] items@[j]).total_discs matches Some(t) && v
                            == dec_digits(t as int)),
                counter.has_key(AlbumKey::TotalDiscs) <==> (exists|j: int|
                    0 <= j < i && (#[trigger] items@[j]).total_discs is Some),
            decreases n - i,
        {
            let item = slice_index_get(items, i);
            match &item.artist {
                Some(s) => counter.insert(AlbumKey::Artist, s.clone()),
                None => (),
            }
            match &item.album_artist {
                Some(s) => counter.insert(AlbumKey::AlbumArtist, s.clone()),
                None => (),
            }
            match &item.album {
                Some(s) => counter.insert(AlbumKey::Album, s.clone()),
                None => (),
            }
            match &item.year {
                Some(y) => counter.insert(AlbumKey::Year, i32_to_string(*y)),
                None => (),
            }
            match &item.total_tracks {
                Some(t) => counter.insert(AlbumKey::TotalTracks, u32_to_string(*t)),
                None => (),
            }
            match &item.total_discs {
                Some(t) => counter.insert(AlbumKey::TotalDiscs, u32_to_string(*t)),
                None => (),
            }
            i = i + 1;
        }
        let artist = counter.most_common(AlbumKey::Artist);
        let album_artist = counter.most_common(AlbumKey::AlbumArtist);
        let album = counter.most_common(AlbumKey::Album);
        let year: Option<i32> = match counter.most_common(AlbumKey::Year) {
            Some(s) => {
                proof {
                    let y = choose|j: int|
                        0 <= j < items@.len() && ((#[trigger] items@[j]).year matches Some(y)
                            && s@ == i32_dec_spec(y as int));
                    lemma_i32_round_trip(items@[y].year->0);
                }
                match parse_i32(s.as_str()) {
                    Ok(y) => Some(y),
                    Err(_) => None,
                }
            },
            None => None,
        };
        let total_tracks: Option<u32> = match counter.most_common(AlbumKey::TotalTracks) {
            Some(s) => {
                proof {
                    let j = choose|j: int|
                        0 <= j < items@.len() && ((#[trigger] items@[j]).total_tracks matches Some(
                            t,
                        ) && s@ == dec_digits(t as int));
                    lemma_u32_round_trip(items@[j].total_tracks->0);
                }
                match parse_u32(s.as_str()) {
                    Ok(t) => Some(t),
                    Err(_) => None,
                }
            },
            None => None,
        };
        let total_discs: Option<u32> = match counter.most_common(AlbumKey::TotalDiscs) {
            Some(s) => {
                proof {
                    let j = choose|j: int|
                        0 <= j < items@.len() && ((#[trigger] items@[j]).total_discs matches Some(
                            t,
                        ) && s@ == dec_digits(t as int));
                    lemma_u32_round_trip(items@[j].total_discs->0);
                }
                match parse_u32(s.as_str()) {
                    Ok(t) => Some(t),
                    Err(_) => None,
                }
            },
            None => None,
        };
        AlbumInput { artist, album_artist, album, year, total_tracks, total_discs }
    }
}

/// The fields of an album-level record.
#[derive(Clone, Copy, Debug, PartialEq, Eq, Structural)]
pub enum AlbumKey {
    Artist,
    AlbumArtist,
    Album,
    Year,
    TotalTracks,
    TotalDiscs,
}

impl Prompt for AlbumKey {
    open spec fn label_spec(&self) -> Seq<char> {
        match self {
            AlbumKey::Artist => "ARTIST"@,
            AlbumKey::AlbumArtist => "ALBUM ARTIST"@,
            AlbumKey::Album => "ALBUM"@,
            AlbumKey::Year => "YEAR"@,
            AlbumKey::TotalTracks => "TOTAL TRACKS"@,
            AlbumKey::TotalDiscs => "TOTAL DISCS"@,
        }
    }

    fn get_prompt(&self) -> (r: &'static str) {
        match self {
            AlbumKey::Artist => "ARTIST",
            AlbumKey::AlbumArtist => "ALBUM ARTIST",
            AlbumKey::Album => "ALBUM",
            AlbumKey::Year => "YEAR",
            AlbumKey::TotalTracks => "TOTAL TRACKS",
            AlbumKey::TotalDiscs => "TOTAL DISCS",
        }
    }
}

impl View for AlbumKey {
    type V = AlbumKey;

    open spec fn view(&self) -> AlbumKey {
        *self
    }
}

impl ExactEq for AlbumKey {
    fn exact_eq(&self, other: &Self) -> (r: bool) {
        *self == *other
    }

    fn duplicate(&self) -> (r: Self) {
        *self
    }
}

/// The fixed order in which an album-level session visits its fields.
pub open spec fn album_keys() -> Seq<AlbumKey> {
    seq![
        AlbumKey::Artist,
        AlbumKey::AlbumArtist,
        AlbumKey::Album,
        AlbumKey::Year,
        AlbumKey::TotalTracks,
        AlbumKey::TotalDiscs,
    ]
}

/// The default hints an album-level session starts with.
pub open spec fn album_seed_hints(a: AlbumInput) -> Seq<Seq<char>> {
    seq![
        hint_of_text(a.artist),
        hint_of_text(a.album_artist),
        hint_of_text(a.album),
        hint_of_i32(a.year),
        hint_of_u32(a.total_tracks),
        hint_of_u32(a.total_discs),
    ]
}

/// A finished, fully-validated album-level record.
pub struct AlbumOutput {
    pub artist: String,
    pub album_artist: String,
    pub album: String,
    pub year: i32,
    pub total_tracks: u32,
    pub total_discs: u32,
}

/// The mathematical value of a finished album-level record.
pub struct AlbumOutputV {
    pub artist: Seq<char>,
    pub album_artist: Seq<char>,
    pub album: Seq<char>,
    pub year: i32,
    pub total_tracks: u32,
    pub total_discs: u32,
}

impl View for AlbumOutput {
    type V = AlbumOutputV;

    open spec fn view(&self) -> AlbumOutputV {
        AlbumOutputV {
            artist: self.artist@,
            album_artist: self.album_artist@,
            album: self.album@,
            year: self.year,
            total_tracks: self.total_tracks,
            total_discs: self.total_discs,
        }
    }
}

/// A per-field parse error of an album-level answer.
#[derive(Clone, Copy, Debug, PartialEq, Eq, Structural)]
pub enum AlbumInputError {
    Year(NumError),
    TotalTracks(NumError),
    TotalDiscs(NumError),
}

/// A completeness error: the named album-level field was never set.
#[derive(Clone, Copy, Debug, PartialEq, Eq, Structural)]
pub enum AlbumOutputError {
    Artist,
    AlbumArtist,
    Album,
    Year,
    TotalTracks,
    TotalDiscs,
}

/// The message shown for a rejected album-level answer.
pub open spec fn album_input_error_message_spec(e: AlbumInputError) -> Seq<char> {
    match e {
        AlbumInputError::Year(n) => "invalid year: "@ + crate::text::num_error_message_spec(n),
        AlbumInputError::TotalTracks(n) => "invalid number of tracks: "@
            + crate::text::num_error_message_spec(n),
        AlbumInputError::TotalDiscs(n) => "invalid number of discs: "@
            + crate::text::num_error_message_spec(n),
    }
}

impl AlbumInputError {
    /// The message shown for this rejected answer.
    pub fn message(&self) -> (r: String)
        ensures
            r@ == album_input_error_message_spec(*self),
    {
        let (head, n) = match self {
            AlbumInputError::Year(n) => ("invalid year: ", n),
            AlbumInputError::TotalTracks(n) => ("invalid number of tracks: ", n),
            AlbumInputError::TotalDiscs(n) => ("invalid number of discs: ", n),
        };
        let mut r = head.to_owned();
        let m = n.message();
        r.append(m.as_str());
        proof {
            assert(r@ =~= album_input_error_message_spec(*self));
        }
        r
    }
}

/// The message shown for an incomplete album-level record.
pub open spec fn album_output_error_message_spec(e: AlbumOutputError) -> Seq<char> {
    match e {
        AlbumOutputError::Artist => "artist is required"@,
        AlbumOutputError::AlbumArtist => "album artist is required"@,
        AlbumOutputError::Album => "album is required"@,
        AlbumOutputError::Year => "year is required"@,
        AlbumOutputError::TotalTracks => "number of tracks is required"@,
        AlbumOutputError::TotalDiscs => "number of discs is required"@,
    }
}

impl AlbumOutputError {
    /// The message naming the field that was never set.
    pub fn message(&self) -> (r: String)
        ensures
            r@ == album_output_error_message_spec(*self),
    {
        match self {
            AlbumOutputError::Artist => "artist is required".to_owned(),
            AlbumOutputError::AlbumArtist => "album artist is required".to_owned(),
            AlbumOutputError::Album => "album is required".to_owned(),
            AlbumOutputError::Year => "year is required".to_owned(),
            AlbumOutputError::TotalTracks => "number of tracks is required".to_owned(),
            AlbumOutputError::TotalDiscs => "number of discs is required".to_owned(),
        }
    }
}

/// The partially-typed album-level record a builder accumulates.
pub struct AlbumRecord {
    pub artist: Option<Seq<char>>,
    pub album_artist: Option<Seq<char>>,
    pub album: Option<Seq<char>>,
    pub year: Option<i32>,
    pub total_tracks: Option<u32>,
    pub total_discs: Option<u32>,
}

/// The partial record the given candidate values seed.
pub open spec fn album_record_of(a: AlbumInput) -> AlbumRecord {
    AlbumRecord {
        artist: match a.artist {
            Some(s) => Some(s@),
            None => None,
        },
        album_artist: match a.album_artist {
            Some(s) => Some(s@),
            None => None,
        },
        album: match a.album {
            Some(s) => Some(s@),
            None => None,
        },
        year: a.year,
        total_tracks: a.total_tracks,
        total_discs: a.total_discs,
    }
}

/// The album-level record builder: parses each answer as it arrives and
/// checks that every field is present at finalization.
pub struct AlbumOutputBuilder {
    album_input: AlbumInput,
}

impl AlbumOutputBuilder {
    pub fn new(album_input: AlbumInput) -> (r: Self)
        ensures
            r.model() == album_record_of(album_input),
            r.inv(),
    {
        AlbumOutputBuilder { album_input }
    }
}

impl OutputBuilder for AlbumOutputBuilder {
    type Key = AlbumKey;

    type Output = AlbumOutput;

    type InputError = AlbumInputError;

    type OutputError = AlbumOutputError;

    type Model = AlbumRecord;

    closed spec fn model(&self) -> AlbumRecord {
        album_record_of(self.album_input)
    }

    open spec fn inv(&self) -> bool {
        true
    }

    open spec fn try_set_v(m: AlbumRecord, key: AlbumKey, value: Seq<char>) -> Result<
        AlbumRecord,
        AlbumInputError,
    > {
        match key {
            AlbumKey::Artist => Ok(AlbumRecord { artist: Some(value), ..m }),
            AlbumKey::AlbumArtist => Ok(AlbumRecord { album_artist: Some(value), ..m }),
            AlbumKey::Album => Ok(AlbumRecord { album: Some(value), ..m }),
            AlbumKey::Year => match parse_i32_spec(value) {
                Ok(n) => Ok(AlbumRecord { year: Some(n), ..m }),
                Err(e) => Err(AlbumInputError::Year(e)),
            },
            AlbumKey::TotalTracks => match parse_u32_spec(value) {
                Ok(n) => Ok(AlbumRecord { total_tracks: Some(n), ..m }),
                Err(e) => Err(AlbumInputError::TotalTracks(e)),
            },
            AlbumKey::TotalDiscs => match parse_u32_spec(value) {
                Ok(n) => Ok(AlbumRecord { total_discs: Some(n), ..m }),
                Err(e) => Err(AlbumInputError::TotalDiscs(e)),
            },
        }
    }

    open spec fn try_build_v(m: AlbumRecord) -> Result<AlbumOutputV, AlbumOutputError> {
        if m.artist is None {
            Err(AlbumOutputError::Artist)
        } else if m.album_artist is None {
            Err(AlbumOutputError::AlbumArtist)
        } else if m.album is None {
            Err(AlbumOutputError::Album)
        } else if m.year is None {
            Err(AlbumOutputError::Year)
        } else if m.total_tracks is None {
            Err(AlbumOutputError::TotalTracks)
        } else if m.total_discs is None {
            Err(AlbumOutputError::TotalDiscs)
        } else {
            Ok(AlbumOutputV {
                artist: m.artist->0,
                album_artist: m.album_artist->0,
                album: m.album->0,
                year: m.year->0,
                total_tracks: m.total_tracks->0,
                total_discs: m.total_discs->0,
            })
        }
    }

    fn set_value(&mut self, key: AlbumKey, value: String) -> (r: Result<(), AlbumInputError>) {
        match key {
            AlbumKey::Artist => {
                self.album_input.artist = Some(value);
                Ok(())
            },
            AlbumKey::AlbumArtist => {
                self.album_input.album_artist = Some(value);
                Ok(())
            },
            AlbumKey::Album => {
                self.album_input.album = Some(value);
                Ok(())
            },
            AlbumKey::Year => match parse_i32(value.as_str()) {
                Ok(n) => {
                    self.album_input.year = Some(n);
                    Ok(())
                },
                Err(e) => Err(AlbumInputError::Year(e)),
            },
            AlbumKey::TotalTracks => match parse_u32(value.as_str()) {
                Ok(n) => {
                    self.album_input.total_tracks = Some(n);
                    Ok(())
                },
                Err(e) => Err(AlbumInputError::TotalTracks(e)),
            },
            AlbumKey::TotalDiscs => match parse_u32(value.as_str()) {
                Ok(n) => {
                    self.album_input.total_discs = Some(n);
                    Ok(())
                },
                Err(e) => Err(AlbumInputError::TotalDiscs(e)),
            },
        }
    }

    fn build(self) -> (r: Result<AlbumOutput, AlbumOutputError>) {
        let a = self.album_input;
        match a.artist {
            None => Err(AlbumOutputError::Artist),
            Some(artist) => match a.album_artist {
                None => Err(AlbumOutputError::AlbumArtist),
                Some(album_artist) => match a.album {
                    None => Err(AlbumOutputError::Album),
                    Some(album) => match a.year {
                        None => Err(AlbumOutputError::Year),
                        Some(year) => match a.total_tracks {
                            None => Err(AlbumOutputError::TotalTracks),
                            Some(total_tracks) => match a.total_discs {
                                None => Err(AlbumOutputError::TotalDiscs),
                                Some(total_discs) => Ok(AlbumOutput {
                                    artist,
                                    album_artist,
                                    album,
                                    year,
                                    total_tracks,
                                    total_discs,
                                }),
                            },
                        },
                    },
                },
            },
        }
    }
}

enum AlbumStateKind {
    Artist,
    AlbumArtist,
    Album,
    Year,
    TotalTracks,
    TotalDiscs,
    Interrupted,
    Finished,
}

/// The navigable field sequence of an album-level session: the cursor over
/// the six fields plus the default hint each field currently carries.
pub struct AlbumState {
    kind: AlbumStateKind,
    hints: Vec<String>,
}

impl AlbumState {
    /// A fresh session positioned on the first field, with hints seeded
    /// from the given candidate values.
    pub fn new(album_input: AlbumInput) -> (r: Self)
        ensures
            r.inv(),
            r.model() == (StateV {
                pos: CursorPos::Field(0),
                keys: album_keys(),
                hints: album_seed_hints(album_input),
            }),
    {
        let mut hints: Vec<String> = Vec::new();
        hints.push(text_hint(&album_input.artist));
        hints.push(text_hint(&album_input.album_artist));
        hints.push(text_hint(&album_input.album));
        hints.push(i32_hint(&album_input.year));
        hints.push(u32_hint(&album_input.total_tracks));
        hints.push(u32_hint(&album_input.total_discs));
        let r = AlbumState { kind: AlbumStateKind::Artist, hints };
        proof {
            assert(r.hints.deep_view() =~= album_seed_hints(album_input));
        }
        r
    }
}

impl State<AlbumKey> for AlbumState {
    closed spec fn model(&self) -> StateV<AlbumKey> {
        StateV {
            pos: match self.kind {
                AlbumStateKind::Artist => CursorPos::Field(0),
                AlbumStateKind::AlbumArtist => CursorPos::Field(1),
                AlbumStateKind::Album => CursorPos::Field(2),
                AlbumStateKind::Year => CursorPos::Field(3),
                AlbumStateKind::TotalTracks => CursorPos::Field(4),
                AlbumStateKind::TotalDiscs => CursorPos::Field(5),
                AlbumStateKind::Interrupted => CursorPos::Interrupted,
                AlbumStateKind::Finished => CursorPos::Finished,
            },
            keys: album_keys(),
            hints: self.hints.deep_view(),
        }
    }

    closed spec fn inv(&self) -> bool {
        self.hints@.len() == 6
    }

    fn get_input(&self) -> (r: StateInput<AlbumKey>) {
        proof {
            assert(self.hints.deep_view()[0] == self.hints@[0]@);
            assert(self.hints.deep_view()[1] == self.hints@[1]@);
            assert(self.hints.deep_view()[2] == self.hints@[2]@);
            assert(self.hints.deep_view()[3] == self.hints@[3]@);
            assert(self.hints.deep_view()[4] == self.hints@[4]@);
            assert(self.hints.deep_view()[5] == self.hints@[5]@);
        }
        match self.kind {
            AlbumStateKind::Artist => StateInput::Read {
                key: AlbumKey::Artist,
                default_value: DefaultValue::left(self.hints[0].clone()),
            },
            AlbumStateKind::AlbumArtist => StateInput::Read {
                key: AlbumKey::AlbumArtist,
                default_value: DefaultValue::left(self.hints[1].clone()),
            },
            AlbumStateKind::Album => StateInput::Read {
                key: AlbumKey::Album,
                default_value: DefaultValue::left(self.hints[2].clone()),
            },
            AlbumStateKind::Year => StateInput::Read {
                key: AlbumKey::Year,
                default_value: DefaultValue::left(self.hints[3].clone()),
            },
            AlbumStateKind::TotalTracks => StateInput::Read {
                key: AlbumKey::TotalTracks,
                default_value: DefaultValue::left(self.hints[4].clone()),
            },
            AlbumStateKind::TotalDiscs => StateInput::Read {
                key: AlbumKey::TotalDiscs,
                default_value: DefaultValue::left(self.hints[5].clone()),
            },
            AlbumStateKind::Interrupted => StateInput::Interrupted,
            AlbumStateKind::Finished => StateInput::Finished,
        }
    }

    fn next(&mut self) {
        self.kind = match self.kind {
            AlbumStateKind::Artist => AlbumStateKind::AlbumArtist,
            AlbumStateKind::AlbumArtist => AlbumStateKind::Album,
            AlbumStateKind::Album => AlbumStateKind::Year,
            AlbumStateKind::Year => AlbumStateKind::TotalTracks,
            AlbumStateKind::TotalTracks => AlbumStateKind::TotalDiscs,
            AlbumStateKind::TotalDiscs => AlbumStateKind::Finished,
            AlbumStateKind::Interrupted => AlbumStateKind::Interrupted,
            AlbumStateKind::Finished => AlbumStateKind::Finished,
        };
    }

    fn prev(&mut self) {
        self.kind = match self.kind {
            AlbumStateKind::Artist => AlbumStateKind::Artist,
            AlbumStateKind::AlbumArtist => AlbumStateKind::Artist,
            AlbumStateKind::Album => AlbumStateKind::AlbumArtist,
            AlbumStateKind::Year => AlbumStateKind::Album,
            AlbumStateKind::TotalTracks => AlbumStateKind::Year,
            AlbumStateKind::TotalDiscs => AlbumStateKind::TotalTracks,
            AlbumStateKind::Interrupted => AlbumStateKind::Artist,
            AlbumStateKind::Finished => AlbumStateKind::TotalDiscs,
        };
    }

    fn interrupt(&mut self) {
        self.kind = AlbumStateKind::Interrupted;
    }

    fn finish(&mut self) {
        self.kind = AlbumStateKind::Finished;
    }

    fn store_value(&mut self, value: String) {
        let i: usize = match self.kind {
            AlbumStateKind::Artist => 0,
            AlbumStateKind::AlbumArtist => 1,
            AlbumStateKind::Album => 2,
            AlbumStateKind::Year => 3,
            AlbumStateKind::TotalTracks => 4,
            AlbumStateKind::TotalDiscs => 5,
            AlbumStateKind::Interrupted => unreached(),
            AlbumStateKind::Finished => unreached(),
        };
        self.hints[i] = value;
        proof {
            assert(self.hints.deep_view() =~= crate::editor::state_store(
                old(self).model(),
                value@,
            ).hints);
        }
    }
}

/// Supplying acceptable answers for the six album fields in forward order
/// reaches `Finished` in exactly six steps — with only five answers the
/// script runs dry — and finalization then yields exactly those values.
pub proof fn lemma_album_forward_session(
    sv: StateV<AlbumKey>,
    m: AlbumRecord,
    l: Seq<Seq<char>>,
    y: i32,
    tt: u32,
    td: u32,
)
    requires
        sv.pos == CursorPos::Field(0),
        sv.keys == album_keys(),
        l.len() == 6,
        forall|i: int|
            0 <= i < 6 ==> crate::text::trim_spec(#[trigger] l[i]) != ":b"@ && crate::text::trim_spec(
                l[i],
            ) != ":q"@,
        parse_i32_spec(crate::text::trim_spec(l[3])) == Ok::<i32, NumError>(y),
        parse_u32_spec(crate::text::trim_spec(l[4])) == Ok::<u32, NumError>(tt),
        parse_u32_spec(crate::text::trim_spec(l[5])) == Ok::<u32, NumError>(td),
    ensures
        crate::editor::run_script_spec::<AlbumOutputBuilder>(sv, m, l)
            == crate::editor::ScriptOutcomeV::<AlbumOutputV, AlbumOutputError>::Finished(
            AlbumOutputV {
                artist: crate::text::trim_spec(l[0]),
                album_artist: crate::text::trim_spec(l[1]),
                album: crate::text::trim_spec(l[2]),
                year: y,
                total_tracks: tt,
                total_discs: td,
            },
        ),
        crate::editor::run_script_spec::<AlbumOutputBuilder>(sv, m, l.take(5)) is OutOfInput,
{
    let p1 = crate::editor::submit_spec::<AlbumOutputBuilder>(sv, m, l[0]);
    let p2 = crate::editor::submit_spec::<AlbumOutputBuilder>(p1.0, p1.1, l[1]);
    let p3 = crate::editor::submit_spec::<AlbumOutputBuilder>(p2.0, p2.1, l[2]);
    let p4 = crate::editor::submit_spec::<AlbumOutputBuilder>(p3.0, p3.1, l[3]);
    let p5 = crate::editor::submit_spec::<AlbumOutputBuilder>(p4.0, p4.1, l[4]);
    let p6 = crate::editor::submit_spec::<AlbumOutputBuilder>(p5.0, p5.1, l[5]);
    assert(album_keys().len() == 6);
    assert(p1.0.pos == CursorPos::Field(1));
    assert(p2.0.pos == CursorPos::Field(2));
    assert(p3.0.pos == CursorPos::Field(3));
    assert(p4.0.pos == CursorPos::Field(4));
    assert(p5.0.pos == CursorPos::Field(5));
    assert(p6.0.pos is Finished);
    assert(p6.1 == (AlbumRecord {
        artist: Some(crate::text::trim_spec(l[0])),
        album_artist: Some(crate::text::trim_spec(l[1])),
        album: Some(crate::text::trim_spec(l[2])),
        year: Some(y),
        total_tracks: Some(tt),
        total_discs: Some(td),
    }));
    let l0 = l;
    let l1 = l0.drop_first();
    let l2 = l1.drop_first();
    let l3 = l2.drop_first();
    let l4 = l3.drop_first();
    let l5 = l4.drop_first();
    let l6 = l5.drop_first();
    assert(l1[0] == l[1] && l2[0] == l[2] && l3[0] == l[3] && l4[0] == l[4] && l5[0] == l[5]);
    assert(l6.len() == 0);
    assert(crate::editor::run_script_spec::<AlbumOutputBuilder>(sv, m, l0)
        == crate::editor::run_script_spec::<AlbumOutputBuilder>(p1.0, p1.1, l1));
    assert(crate::editor::run_script_spec::<AlbumOutputBuilder>(p1.0, p1.1, l1)
        == crate::editor::run_script_spec::<AlbumOutputBuilder>(p2.0, p2.1, l2));
    assert(crate::editor::run_script_spec::<AlbumOutputBuilder>(p2.0, p2.1, l2)
        == crate::editor::run_script_spec::<AlbumOutputBuilder>(p3.0, p3.1, l3));
    assert(crate::editor::run_script_spec::<AlbumOutputBuilder>(p3.0, p3.1, l3)
        == crate::editor::run_script_spec::<AlbumOutputBuilder>(p4.0, p4.1, l4));
    assert(crate::editor::run_script_spec::<AlbumOutputBuilder>(p4.0, p4.1, l4)
        == crate::editor::run_script_spec::<AlbumOutputBuilder>(p5.0, p5.1, l5));
    assert(crate::editor::run_script_spec::<AlbumOutputBuilder>(p5.0, p5.1, l5)
        == crate::editor::run_script_spec::<AlbumOutputBuilder>(p6.0, p6.1, l6));
    lemma_album_build_complete(p6.1);
    let r0 = l.take(5);
    let r1 = r0.drop_first();
    let r2 = r1.drop_first();
    let r3 = r2.drop_first();
    let r4 = r3.drop_first();
    let r5 = r4.drop_first();
    assert(r0[0] == l[0] && r1[0] == l[1] && r2[0] == l[2] && r3[0] == l[3] && r4[0] == l[4]);
    assert(r5.len() == 0);
    assert(crate::editor::run_script_spec::<AlbumOutputBuilder>(sv, m, r0)
        == crate::editor::run_script_spec::<AlbumOutputBuilder>(p1.0, p1.1, r1));
    assert(crate::editor::run_script_spec::<AlbumOutputBuilder>(p1.0, p1.1, r1)
        == crate::editor::run_script_spec::<AlbumOutputBuilder>(p2.0, p2.1, r2));
    assert(crate::editor::run_script_spec::<AlbumOutputBuilder>(p2.0, p2.1, r2)
        == crate::editor::run_script_spec::<AlbumOutputBuilder>(p3.0, p3.1, r3));
    assert(crate::editor::run_script_spec::<AlbumOutputBuilder>(p3.0, p3.1, r3)
        == crate::editor::run_script_spec::<AlbumOutputBuilder>(p4.0, p4.1, r4));
    assert(crate::editor::run_script_spec::<AlbumOutputBuilder>(p4.0, p4.1, r4)
        == crate::editor::run_script_spec::<AlbumOutputBuilder>(p5.0, p5.1, r5));
    assert(crate::editor::run_script_spec::<AlbumOutputBuilder>(p5.0, p5.1, r5) is OutOfInput);
}

/// Finalizing an album-level record in which every field was set succeeds
/// and returns exactly the collected values.
pub proof fn lemma_album_build_complete(m: AlbumRecord)
    requires
        m.artist is Some,
        m.album_artist is Some,
        m.album is Some,
        m.year is Some,
        m.total_tracks is Some,
        m.total_discs is Some,
    ensures
        AlbumOutputBuilder::try_build_v(m) == Ok::<AlbumOutputV, AlbumOutputError>(
            AlbumOutputV {
                artist: m.artist->0,
                album_artist: m.album_artist->0,
                album: m.album->0,
                year: m.year->0,
                total_tracks: m.total_tracks->0,
                total_discs: m.total_discs->0,
            },
        ),
{
}

} // verus!
