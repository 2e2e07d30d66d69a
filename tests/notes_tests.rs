use keyboard_warriors::notes::{load_song_data, GameState, KeyCode, NoteKey, Rgb, LANE_COUNT};

#[test]
fn key_codes_map_to_notes() {
    assert_eq!(NoteKey::from_key_code(KeyCode::A), Some(NoteKey::C));
    assert_eq!(NoteKey::from_key_code(KeyCode::S), Some(NoteKey::D));
    assert_eq!(NoteKey::from_key_code(KeyCode::D), Some(NoteKey::E));
    assert_eq!(NoteKey::from_key_code(KeyCode::F), Some(NoteKey::F));
    assert_eq!(NoteKey::from_key_code(KeyCode::G), Some(NoteKey::G));
    assert_eq!(NoteKey::from_key_code(KeyCode::H), Some(NoteKey::A));
    assert_eq!(NoteKey::from_key_code(KeyCode::J), None);
    assert_eq!(NoteKey::from_key_code(KeyCode::Other), None);
}

#[test]
fn lanes_are_a_bijection() {
    for lane in 0..LANE_COUNT {
        let key = NoteKey::from_lane(lane).unwrap();
        assert_eq!(key.lane(), lane);
    }
    assert_eq!(NoteKey::from_lane(LANE_COUNT), None);
}

#[test]
fn audio_paths_and_colors() {
    assert_eq!(NoteKey::C.get_audio_path(), "audio/note_C.mp3");
    assert_eq!(NoteKey::A.get_audio_path(), "audio/note_A.mp3");
    assert_eq!(NoteKey::D.display_color(), Rgb { r: 255, g: 128, b: 0 });
    assert_eq!(NoteKey::A.display_color(), Rgb { r: 128, g: 0, b: 255 });
}

#[test]
fn example_song_is_ordered() {
    let song = load_song_data();
    assert_eq!(song.title, "Example Song");
    assert_eq!(song.bpm, 120);
    assert_eq!(song.notes.len(), 9);
    assert_eq!(song.notes[0].time, 1000);
    assert_eq!(song.notes[8].key, NoteKey::G);
    assert!(song.notes.windows(2).all(|w| w[0].time <= w[1].time));
    assert_eq!(GameState::default(), GameState::MainMenu);
}
