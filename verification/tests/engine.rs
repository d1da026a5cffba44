use tagedit::album::{AlbumInput, AlbumInputError, AlbumKey, AlbumOutputBuilder, AlbumState};
use tagedit::editor::{Editor, OutputBuilder, Prompt, ScriptOutcome, StateInput};
use tagedit::editor::State;
use tagedit::track::{
    TrackInput, TrackInputError, TrackKey, TrackOutputBuilder, TrackOutputError, TrackState,
};

fn empty_track_input() -> TrackInput {
    TrackInput { track_number: None, disc_number: None, title: None }
}

fn track_editor(input: TrackInput, seed: TrackInput) -> Editor<TrackState, TrackOutputBuilder> {
    Editor::new(TrackState::new(input), TrackOutputBuilder::new(seed))
}

fn lines(xs: &[&str]) -> Vec<String> {
    xs.iter().map(|x| x.to_string()).collect()
}

#[test]
fn track_session_forward_finishes_with_exact_values() {
    let ed = track_editor(empty_track_input(), empty_track_input());
    match ed.run_script(lines(&["1", "1", "Echoes"])) {
        ScriptOutcome::Finished(out) => {
            assert_eq!(out.track_number, 1);
            assert_eq!(out.disc_number, 1);
            assert_eq!(out.title, "Echoes");
        }
        _ => panic!("session did not finish"),
    }
}

#[test]
fn track_session_runs_dry_one_answer_early() {
    let ed = track_editor(empty_track_input(), empty_track_input());
    assert!(matches!(ed.run_script(lines(&["1", "1"])), ScriptOutcome::OutOfInput));
}

#[test]
fn retreat_redisplays_confirmed_answer_as_default() {
    let mut ed = track_editor(empty_track_input(), empty_track_input());
    assert!(ed.submit_line("1".to_string()).is_none());
    assert!(ed.submit_line(":b".to_string()).is_none());
    match ed.current_input() {
        StateInput::Read { key, default_value } => {
            assert!(matches!(key, TrackKey::TrackNumber));
            assert_eq!(default_value.left, "1");
            assert_eq!(default_value.right, "");
        }
        _ => panic!("expected a field prompt"),
    }
    assert!(ed.submit_line("2".to_string()).is_none());
    assert!(ed.submit_line("1".to_string()).is_none());
    assert!(ed.submit_line("Echoes".to_string()).is_none());
    assert!(matches!(ed.current_input(), StateInput::Finished));
    match ed.build_output() {
        Ok(out) => {
            assert_eq!(out.track_number, 2);
            assert_eq!(out.disc_number, 1);
            assert_eq!(out.title, "Echoes");
        }
        Err(_) => panic!("build failed"),
    }
}

#[test]
fn abort_at_first_field_yields_interrupted() {
    let ed = track_editor(empty_track_input(), empty_track_input());
    assert!(matches!(ed.run_script(lines(&[":q"])), ScriptOutcome::Interrupted));
}

#[test]
fn abort_command_is_recognized_after_trimming() {
    let ed = track_editor(empty_track_input(), empty_track_input());
    assert!(matches!(ed.run_script(lines(&["  :q\t"])), ScriptOutcome::Interrupted));
}

#[test]
fn retreat_at_first_field_stays_on_first_field() {
    let mut ed = track_editor(empty_track_input(), empty_track_input());
    assert!(ed.submit_line(":b".to_string()).is_none());
    match ed.current_input() {
        StateInput::Read { key, .. } => assert!(matches!(key, TrackKey::TrackNumber)),
        _ => panic!("expected a field prompt"),
    }
}

#[test]
fn retreat_from_finished_lands_on_last_field() {
    let mut ed = track_editor(empty_track_input(), empty_track_input());
    assert!(ed.submit_line("1".to_string()).is_none());
    assert!(ed.submit_line("2".to_string()).is_none());
    assert!(ed.submit_line("Echoes".to_string()).is_none());
    assert!(matches!(ed.current_input(), StateInput::Finished));
    assert!(ed.submit_line(":b".to_string()).is_none());
    match ed.current_input() {
        StateInput::Read { key, default_value } => {
            assert!(matches!(key, TrackKey::Title));
            assert_eq!(default_value.left, "Echoes");
        }
        _ => panic!("expected a field prompt"),
    }
}

#[test]
fn retreat_from_interrupted_lands_on_first_field() {
    let mut st = TrackState::new(empty_track_input());
    st.next();
    st.interrupt();
    assert!(matches!(st.get_input(), StateInput::Interrupted));
    st.prev();
    match st.get_input() {
        StateInput::Read { key, .. } => assert!(matches!(key, TrackKey::TrackNumber)),
        _ => panic!("expected the first field prompt"),
    }
}

#[test]
fn parse_failure_keeps_cursor_and_default() {
    let seed = TrackInput { track_number: Some(7), disc_number: None, title: None };
    let seed2 = TrackInput { track_number: Some(7), disc_number: None, title: None };
    let mut ed = track_editor(seed, seed2);
    let err = ed.submit_line("abc".to_string()).expect("a parse error");
    assert_eq!(err.message(), "invalid track number: invalid digit found in string");
    match ed.current_input() {
        StateInput::Read { key, default_value } => {
            assert!(matches!(key, TrackKey::TrackNumber));
            assert_eq!(default_value.left, "7");
        }
        _ => panic!("expected the same field prompt"),
    }
}

#[test]
fn rejected_answers_are_reprompted_until_one_parses() {
    let ed = track_editor(empty_track_input(), empty_track_input());
    match ed.run_script(lines(&["x", "3", "2", "Dogs"])) {
        ScriptOutcome::Finished(out) => {
            assert_eq!(out.track_number, 3);
            assert_eq!(out.disc_number, 2);
            assert_eq!(out.title, "Dogs");
        }
        _ => panic!("session did not finish"),
    }
}

#[test]
fn build_missing_title_names_title() {
    let mut b = TrackOutputBuilder::new(empty_track_input());
    assert!(b.set_value(TrackKey::TrackNumber, "1".to_string()).is_ok());
    assert!(b.set_value(TrackKey::DiscNumber, "1".to_string()).is_ok());
    match b.build() {
        Err(e) => {
            assert!(matches!(e, TrackOutputError::Title));
            assert_eq!(e.message(), "title is required");
        }
        Ok(_) => panic!("build succeeded on an incomplete record"),
    }
}

#[test]
fn every_parse_error_names_its_field() {
    let mut b = TrackOutputBuilder::new(empty_track_input());
    match b.set_value(TrackKey::DiscNumber, "x".to_string()) {
        Err(e) => {
            assert!(matches!(e, TrackInputError::DiscNumber(_)));
            assert_eq!(e.message(), "invalid disc number: invalid digit found in string");
        }
        Ok(_) => panic!("a non-numeric disc number must be rejected"),
    }
    let empty_album = AlbumInput {
        artist: None,
        album_artist: None,
        album: None,
        year: None,
        total_tracks: None,
        total_discs: None,
    };
    let mut b = AlbumOutputBuilder::new(empty_album);
    match b.set_value(AlbumKey::Year, "".to_string()) {
        Err(e) => {
            assert!(matches!(e, AlbumInputError::Year(_)));
            assert_eq!(e.message(), "invalid year: cannot parse integer from empty string");
        }
        Ok(_) => panic!("an empty year must be rejected"),
    }
    match b.set_value(AlbumKey::TotalTracks, "4294967296".to_string()) {
        Err(e) => {
            assert!(matches!(e, AlbumInputError::TotalTracks(_)));
            assert_eq!(
                e.message(),
                "invalid number of tracks: number too large to fit in target type"
            );
        }
        Ok(_) => panic!("an oversized track count must be rejected"),
    }
    match b.set_value(AlbumKey::TotalDiscs, "-1".to_string()) {
        Err(e) => assert!(matches!(e, AlbumInputError::TotalDiscs(_))),
        Ok(_) => panic!("a negative disc count must be rejected"),
    }
    match b.build() {
        Err(e) => assert!(matches!(e, tagedit::album::AlbumOutputError::Artist)),
        Ok(_) => panic!("an empty album record must not build"),
    }
}

#[test]
fn build_on_untouched_track_builder_names_the_first_field() {
    let b = TrackOutputBuilder::new(empty_track_input());
    match b.build() {
        Err(e) => assert!(matches!(e, TrackOutputError::TrackNumber)),
        Ok(_) => panic!("an empty track record must not build"),
    }
    let seeded = TrackInput { track_number: Some(4), disc_number: None, title: None };
    let b = TrackOutputBuilder::new(seeded);
    match b.build() {
        Err(e) => assert!(matches!(e, TrackOutputError::DiscNumber)),
        Ok(_) => panic!("a record missing the disc number must not build"),
    }
}

#[test]
fn album_session_forward_finishes_in_six_steps() {
    let input = AlbumInput {
        artist: None,
        album_artist: None,
        album: None,
        year: None,
        total_tracks: None,
        total_discs: None,
    };
    let input2 = AlbumInput {
        artist: None,
        album_artist: None,
        album: None,
        year: None,
        total_tracks: None,
        total_discs: None,
    };
    let mut ed = Editor::new(AlbumState::new(input), AlbumOutputBuilder::new(input2));
    let answers = ["Pink Floyd", "Pink Floyd", "Meddle", "1971", "6", "1"];
    for (i, a) in answers.iter().enumerate() {
        match ed.current_input() {
            StateInput::Read { .. } => {}
            _ => panic!("prompting should continue at step {}", i),
        }
        assert!(ed.submit_line(a.to_string()).is_none());
    }
    assert!(matches!(ed.current_input(), StateInput::Finished));
    match ed.build_output() {
        Ok(out) => {
            assert_eq!(out.artist, "Pink Floyd");
            assert_eq!(out.album_artist, "Pink Floyd");
            assert_eq!(out.album, "Meddle");
            assert_eq!(out.year, 1971);
            assert_eq!(out.total_tracks, 6);
            assert_eq!(out.total_discs, 1);
        }
        Err(_) => panic!("build failed"),
    }
}

#[test]
fn album_prompts_appear_in_field_order() {
    let input = AlbumInput {
        artist: None,
        album_artist: None,
        album: None,
        year: Some(1971),
        total_tracks: None,
        total_discs: None,
    };
    let input2 = AlbumInput {
        artist: None,
        album_artist: None,
        album: None,
        year: Some(1971),
        total_tracks: None,
        total_discs: None,
    };
    let mut ed = Editor::new(AlbumState::new(input), AlbumOutputBuilder::new(input2));
    let expected = [
        "ARTIST",
        "ALBUM ARTIST",
        "ALBUM",
        "YEAR",
        "TOTAL TRACKS",
        "TOTAL DISCS",
    ];
    for label in expected.iter() {
        match ed.current_input() {
            StateInput::Read { key, default_value } => {
                assert_eq!(key.get_prompt(), *label);
                if *label == "YEAR" {
                    assert_eq!(default_value.left, "1971");
                }
            }
            _ => panic!("prompting ended early"),
        }
        assert!(ed.submit_line("1".to_string()).is_none());
    }
    assert!(matches!(ed.current_input(), StateInput::Finished));
}

#[test]
fn out_of_band_interrupt_stops_the_session() {
    let mut ed = track_editor(empty_track_input(), empty_track_input());
    assert!(ed.submit_line("1".to_string()).is_none());
    ed.interrupt();
    assert!(matches!(ed.current_input(), StateInput::Interrupted));
}

#[test]
fn seeded_hints_are_offered_as_defaults() {
    let seed = TrackInput {
        track_number: Some(12),
        disc_number: None,
        title: Some("Fearless".to_string()),
    };
    let seed2 = TrackInput {
        track_number: Some(12),
        disc_number: None,
        title: Some("Fearless".to_string()),
    };
    let ed = track_editor(seed, seed2);
    match ed.current_input() {
        StateInput::Read { key, default_value } => {
            assert!(matches!(key, TrackKey::TrackNumber));
            assert_eq!(default_value.left, "12");
        }
        _ => panic!("expected a field prompt"),
    }
}
