use tagedit::album::{AlbumInput, AlbumKey, AlbumOutput, AlbumOutputError};
use tagedit::counter::Counter;
use tagedit::editor::{classify_line, DefaultValue, LineInput, Prompt};
use tagedit::file::{FileInput, FileOutput};
use tagedit::finder::{is_track_extension, require_found, FindError};
use tagedit::text::{
    i32_to_string, pad2_u32, parse_i32, parse_u32, str_eq, trim, u32_to_string, NumError,
};
use tagedit::track::{TrackInput, TrackKey, TrackOutput};

fn file_input(artist: Option<&str>, year: Option<i32>) -> FileInput {
    FileInput {
        path: "a.mp3".to_string(),
        artist: artist.map(|s| s.to_string()),
        album_artist: None,
        album: None,
        year,
        title: None,
        track_number: None,
        total_tracks: None,
        disc_number: None,
        total_discs: None,
    }
}

#[test]
fn most_common_artist_is_the_majority_value() {
    let mut counter: Counter<String, String> = Default::default();
    counter.insert("ARTIST".to_string(), "Pink Floyd".to_string());
    counter.insert("ARTIST".to_string(), "Pink Floyd".to_string());
    counter.insert("ARTIST".to_string(), "Genesis".to_string());
    assert_eq!(counter.most_common("ARTIST".to_string()), Some("Pink Floyd".to_string()));
}

#[test]
fn most_common_of_unknown_category_is_none() {
    let mut counter: Counter<String, String> = Default::default();
    counter.insert("ARTIST".to_string(), "Genesis".to_string());
    assert_eq!(counter.most_common("ALBUM".to_string()), None);
}

#[test]
fn from_file_input_picks_the_most_common_candidates() {
    let items = vec![
        file_input(Some("Pink Floyd"), Some(1971)),
        file_input(Some("Pink Floyd"), Some(1971)),
        file_input(Some("Genesis"), None),
    ];
    let album = AlbumInput::from_file_input(&items);
    assert_eq!(album.artist, Some("Pink Floyd".to_string()));
    assert_eq!(album.album_artist, None);
    assert_eq!(album.album, None);
    assert_eq!(album.year, Some(1971));
    assert_eq!(album.total_tracks, None);
    assert_eq!(album.total_discs, None);
}

#[test]
fn from_file_input_of_empty_batch_seeds_nothing() {
    let album = AlbumInput::from_file_input(&[]);
    assert!(album.artist.is_none());
    assert!(album.album_artist.is_none());
    assert!(album.album.is_none());
    assert!(album.year.is_none());
    assert!(album.total_tracks.is_none());
    assert!(album.total_discs.is_none());
}

#[test]
fn track_candidates_come_from_the_file() {
    let mut item = file_input(Some("Pink Floyd"), Some(1971));
    item.track_number = Some(5);
    item.title = Some("Echoes".to_string());
    let track = TrackInput::from_file_input(&item);
    assert_eq!(track.track_number, Some(5));
    assert_eq!(track.disc_number, None);
    assert_eq!(track.title, Some("Echoes".to_string()));
}

#[test]
fn parse_u32_accepts_digits_and_a_plus_sign() {
    assert_eq!(parse_u32("007"), Ok(7));
    assert_eq!(parse_u32("+12"), Ok(12));
    assert_eq!(parse_u32("4294967295"), Ok(u32::MAX));
}

#[test]
fn parse_u32_rejects_bad_input() {
    assert_eq!(parse_u32(""), Err(NumError::Empty));
    assert_eq!(parse_u32("+"), Err(NumError::InvalidDigit));
    assert_eq!(parse_u32("12a"), Err(NumError::InvalidDigit));
    assert_eq!(parse_u32(" 1"), Err(NumError::InvalidDigit));
    assert_eq!(parse_u32("-1"), Err(NumError::InvalidDigit));
    assert_eq!(parse_u32("4294967296"), Err(NumError::TooLarge));
    assert_eq!(parse_u32("99999999999999999999"), Err(NumError::TooLarge));
}

#[test]
fn parse_i32_handles_signs_and_limits() {
    assert_eq!(parse_i32("2020"), Ok(2020));
    assert_eq!(parse_i32("-5"), Ok(-5));
    assert_eq!(parse_i32("+44"), Ok(44));
    assert_eq!(parse_i32("2147483647"), Ok(i32::MAX));
    assert_eq!(parse_i32("-2147483648"), Ok(i32::MIN));
    assert_eq!(parse_i32("2147483648"), Err(NumError::TooLarge));
    assert_eq!(parse_i32("-2147483649"), Err(NumError::TooLarge));
    assert_eq!(parse_i32("-"), Err(NumError::InvalidDigit));
    assert_eq!(parse_i32(""), Err(NumError::Empty));
}

#[test]
fn decimal_rendering_is_exact() {
    assert_eq!(u32_to_string(0), "0");
    assert_eq!(u32_to_string(1234), "1234");
    assert_eq!(i32_to_string(-5), "-5");
    assert_eq!(i32_to_string(0), "0");
    assert_eq!(i32_to_string(i32::MIN), "-2147483648");
    assert_eq!(pad2_u32(0), "00");
    assert_eq!(pad2_u32(7), "07");
    assert_eq!(pad2_u32(12), "12");
    assert_eq!(pad2_u32(123), "123");
}

#[test]
fn trimming_strips_both_ends_only() {
    assert_eq!(trim("  a b\t"), "a b");
    assert_eq!(trim("\r\n"), "");
    assert_eq!(trim("x"), "x");
    assert_eq!(trim(""), "");
}

#[test]
fn string_equality_is_character_exact() {
    assert!(str_eq("abc", "abc"));
    assert!(!str_eq("abc", "abd"));
    assert!(!str_eq("abc", "ab"));
    assert!(str_eq("", ""));
}

#[test]
fn lines_are_classified_after_trimming() {
    assert!(matches!(classify_line(":b"), LineInput::Back));
    assert!(matches!(classify_line(" :q "), LineInput::Exit));
    match classify_line("  Echoes ") {
        LineInput::Data(d) => assert_eq!(d, "Echoes"),
        _ => panic!("expected an answer"),
    }
    match classify_line(":bx") {
        LineInput::Data(d) => assert_eq!(d, ":bx"),
        _ => panic!("expected an answer"),
    }
}

#[test]
fn default_value_constructors_place_the_cursor() {
    let dv = DefaultValue::new("ab".to_string(), "cd".to_string());
    assert_eq!(dv.left, "ab");
    assert_eq!(dv.right, "cd");
    let dv = DefaultValue::left("ab".to_string());
    assert_eq!(dv.left, "ab");
    assert_eq!(dv.right, "");
    let dv = DefaultValue::right("cd".to_string());
    assert_eq!(dv.left, "");
    assert_eq!(dv.right, "cd");
}

#[test]
fn prompts_use_the_fixed_labels() {
    assert_eq!(TrackKey::TrackNumber.get_prompt(), "TRACK NUMBER");
    assert_eq!(TrackKey::DiscNumber.get_prompt(), "DISC NUMBER");
    assert_eq!(TrackKey::Title.get_prompt(), "TITLE");
    assert_eq!(AlbumKey::Artist.get_prompt(), "ARTIST");
    assert_eq!(AlbumKey::AlbumArtist.get_prompt(), "ALBUM ARTIST");
    assert_eq!(AlbumKey::TotalDiscs.get_prompt(), "TOTAL DISCS");
}

fn sample_file_output(track: u32, disc: u32, discs: u32) -> FileOutput {
    FileOutput::new(
        "old.mp3".to_string(),
        &AlbumOutput {
            artist: "Pink Floyd".to_string(),
            album_artist: "Pink Floyd".to_string(),
            album: "Meddle".to_string(),
            year: 1971,
            total_tracks: 6,
            total_discs: discs,
        },
        TrackOutput { track_number: track, disc_number: disc, title: "Echoes".to_string() },
    )
}

#[test]
fn frame_texts_are_zero_padded_pairs() {
    let out = sample_file_output(1, 1, 1);
    assert_eq!(out.track_frame_text(), "01/06");
    assert_eq!(out.disc_frame_text(), "01/01");
    assert_eq!(out.year_text(), "1971");
    assert_eq!(out.artist, "Pink Floyd");
    assert_eq!(out.path, "old.mp3");
}

#[test]
fn file_name_mentions_the_disc_only_on_multi_disc_albums() {
    let single = sample_file_output(7, 1, 1);
    assert_eq!(single.file_name(), "07 - Echoes.mp3");
    let multi = sample_file_output(7, 2, 2);
    assert_eq!(multi.file_name(), "02-07 - Echoes.mp3");
}

#[test]
fn track_extensions_are_matched_case_insensitively() {
    assert!(is_track_extension("mp3"));
    assert!(is_track_extension("MP3"));
    assert!(is_track_extension("Mp3"));
    assert!(!is_track_extension("mp4"));
    assert!(!is_track_extension("mp3x"));
    assert!(!is_track_extension(""));
    assert!(!is_track_extension("ogg"));
}

#[test]
fn an_empty_scan_is_the_no_tracks_error() {
    match require_found(Vec::new()) {
        Err(e) => {
            assert!(matches!(e, FindError::NoTracks));
            assert_eq!(e.message(), "no tracks found");
        }
        Ok(_) => panic!("an empty batch must be rejected"),
    }
    match require_found(vec![file_input(None, None)]) {
        Ok(v) => assert_eq!(v.len(), 1),
        Err(_) => panic!("a non-empty batch must be accepted"),
    }
}

#[test]
fn finder_error_messages_name_the_failure() {
    let e = FindError::ReadDir("music".to_string(), "denied".to_string());
    assert_eq!(e.message(), "failed to read a directory music: denied");
    let e = FindError::ReadEntry("gone".to_string());
    assert_eq!(e.message(), "failed to read an entry: gone");
}

#[test]
fn completeness_errors_name_their_field() {
    assert_eq!(AlbumOutputError::Artist.message(), "artist is required");
    assert_eq!(AlbumOutputError::AlbumArtist.message(), "album artist is required");
    assert_eq!(AlbumOutputError::TotalTracks.message(), "number of tracks is required");
}
