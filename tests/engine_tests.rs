use keyboard_warriors::engine::{
    check_game_over, handle_key_presses, judge_press, move_notes, note_distance, score_gain, spawn_notes,
    find_hit, GameResources, Note, HIT_WINDOW, HIT_ZONE_Y, NOTE_SPEED, SPAWN_Y,
};
use keyboard_warriors::notes::{GameState, KeyCode, NoteKey, SongData, SongNote};
use keyboard_warriors::session::Game;

fn song_of(events: Vec<SongNote>) -> SongData {
    SongData { title: String::from("Test"), bpm: 120, notes: events }
}

fn resources_at(song_time: u64, events: Vec<SongNote>) -> GameResources {
    GameResources { score: 0, combo: 0, max_combo: 0, song: Some(song_of(events)), song_time }
}

fn note_at(key: NoteKey, y: i64) -> Note {
    Note { key, lane: key.lane(), spawn_time: 0, hit_time: 2000, y }
}

#[test]
fn spawn_happens_once_across_threshold() {
    let events = vec![SongNote { key: NoteKey::G, time: 5000 }];
    let mut notes: Vec<Note> = Vec::new();
    spawn_notes(&resources_at(2990, events.clone()), 20, &mut notes);
    assert_eq!(notes.len(), 0);
    spawn_notes(&resources_at(3010, events.clone()), 20, &mut notes);
    assert_eq!(notes.len(), 1);
    assert_eq!(notes[0], Note { key: NoteKey::G, lane: 4, spawn_time: 3010, hit_time: 5000, y: SPAWN_Y });
    spawn_notes(&resources_at(3030, events.clone()), 20, &mut notes);
    assert_eq!(notes.len(), 1);
}

#[test]
fn spawn_on_slow_frame_is_not_skipped() {
    let events = vec![SongNote { key: NoteKey::C, time: 5000 }];
    let mut notes: Vec<Note> = Vec::new();
    spawn_notes(&resources_at(2900, events.clone()), 16, &mut notes);
    assert_eq!(notes.len(), 0);
    spawn_notes(&resources_at(3200, events.clone()), 300, &mut notes);
    assert_eq!(notes.len(), 1);
}

#[test]
fn spawn_without_song_is_idle() {
    let res = GameResources::default();
    let mut notes: Vec<Note> = Vec::new();
    spawn_notes(&res, 1000, &mut notes);
    assert!(notes.is_empty());
}

#[test]
fn notes_fall_at_constant_speed_and_leave_screen() {
    let mut notes = vec![
        Note { key: NoteKey::C, lane: 0, spawn_time: 1000, hit_time: 3000, y: SPAWN_Y },
        Note { key: NoteKey::D, lane: 1, spawn_time: 0, hit_time: 2000, y: SPAWN_Y },
    ];
    move_notes(&mut notes, 3000);
    assert_eq!(notes.len(), 1);
    assert_eq!(notes[0].y, SPAWN_Y - NOTE_SPEED * 2000);
    assert_eq!(notes[0].y, HIT_ZONE_Y);
}

#[test]
fn exact_hit_scores_full_points() {
    assert_eq!(score_gain(0), 100);
    let mut res = resources_at(0, vec![]);
    let mut notes = vec![note_at(NoteKey::E, HIT_ZONE_Y)];
    assert_eq!(judge_press(&mut res, &mut notes, NoteKey::E), Some(100));
    assert_eq!(res.score, 100);
    assert!(notes.is_empty());
}

#[test]
fn half_window_scores_half_points() {
    assert_eq!(score_gain(HIT_WINDOW / 2), 50);
    let mut res = resources_at(0, vec![]);
    let mut notes = vec![note_at(NoteKey::E, HIT_ZONE_Y - 25_000)];
    assert_eq!(judge_press(&mut res, &mut notes, NoteKey::E), Some(50));
    assert_eq!(res.score, 50);
}

#[test]
fn full_window_is_not_a_candidate() {
    let mut res = resources_at(0, vec![]);
    res.combo = 4;
    res.max_combo = 4;
    let mut notes = vec![note_at(NoteKey::E, HIT_ZONE_Y + 50_000), note_at(NoteKey::E, HIT_ZONE_Y - 60_000)];
    assert_eq!(find_hit(&notes, 2), None);
    assert_eq!(judge_press(&mut res, &mut notes, NoteKey::E), None);
    assert_eq!(notes.len(), 2);
    assert_eq!(res.combo, 0);
    assert_eq!(res.max_combo, 4);
    assert_eq!(res.score, 0);
}

#[test]
fn nearest_note_in_lane_is_struck() {
    let notes = vec![
        note_at(NoteKey::C, HIT_ZONE_Y + 10_000),
        note_at(NoteKey::D, HIT_ZONE_Y),
        note_at(NoteKey::C, HIT_ZONE_Y - 4_000),
        note_at(NoteKey::C, HIT_ZONE_Y + 4_000),
    ];
    assert_eq!(find_hit(&notes, 0), Some(2));
    assert_eq!(note_distance(&notes[3]), 4_000);
}

#[test]
fn score_gain_rounds_to_nearest() {
    assert_eq!(score_gain(49_999), 0);
    assert_eq!(score_gain(250), 100);
    assert_eq!(score_gain(251), 99);
    assert_eq!(score_gain(10_000), 80);
}

#[test]
fn three_hits_then_miss() {
    let mut res = resources_at(0, vec![]);
    let mut notes = vec![
        note_at(NoteKey::C, HIT_ZONE_Y),
        note_at(NoteKey::D, HIT_ZONE_Y),
        note_at(NoteKey::E, HIT_ZONE_Y),
    ];
    assert!(judge_press(&mut res, &mut notes, NoteKey::C).is_some());
    assert!(judge_press(&mut res, &mut notes, NoteKey::D).is_some());
    assert!(judge_press(&mut res, &mut notes, NoteKey::E).is_some());
    assert_eq!(res.combo, 3);
    assert_eq!(res.max_combo, 3);
    assert_eq!(res.score, 300);
    assert!(judge_press(&mut res, &mut notes, NoteKey::F).is_none());
    assert_eq!(res.combo, 0);
    assert_eq!(res.max_combo, 3);
}

#[test]
fn key_presses_are_judged_in_order() {
    let mut res = resources_at(0, vec![]);
    let mut notes = vec![note_at(NoteKey::C, HIT_ZONE_Y), note_at(NoteKey::D, HIT_ZONE_Y + 25_000)];
    let pressed = vec![KeyCode::A, KeyCode::K, KeyCode::S, KeyCode::A];
    let hits = handle_key_presses(&mut res, &mut notes, &pressed);
    assert_eq!(hits, vec![NoteKey::C, NoteKey::D]);
    assert_eq!(res.score, 150);
    assert_eq!(res.combo, 0);
    assert_eq!(res.max_combo, 2);
    assert!(notes.is_empty());
}

#[test]
fn game_over_needs_grace_and_empty_field() {
    let events = vec![SongNote { key: NoteKey::C, time: 5000 }];
    let live = vec![note_at(NoteKey::C, 0)];
    let none: Vec<Note> = Vec::new();
    assert!(!check_game_over(&resources_at(8000, events.clone()), &none));
    assert!(check_game_over(&resources_at(8001, events.clone()), &none));
    assert!(!check_game_over(&resources_at(9000, events.clone()), &live));
    assert!(!check_game_over(&GameResources::default(), &none));
}

#[test]
fn starting_play_resets_session() {
    let mut game = Game::new();
    assert_eq!(game.state, GameState::MainMenu);
    game.resources.score = 900;
    game.resources.combo = 7;
    game.resources.max_combo = 9;
    assert!(game.start());
    assert_eq!(game.state, GameState::Playing);
    assert_eq!(game.resources.score, 0);
    assert_eq!(game.resources.combo, 0);
    assert_eq!(game.resources.max_combo, 0);
    assert_eq!(game.resources.song_time, 0);
    assert!(!game.start());
}

#[test]
fn session_ends_after_grace() {
    let mut game = Game::new();
    game.start();
    let none: Vec<KeyCode> = Vec::new();
    let mut spawned = 0;
    for _ in 0..500 {
        let before = game.notes.len();
        game.tick(16, &none);
        if game.notes.len() > before {
            spawned += game.notes.len() - before;
        }
        assert_eq!(game.state, GameState::Playing);
    }
    assert_eq!(game.resources.song_time, 8000);
    assert!(spawned >= 6);
    assert!(game.notes.is_empty());
    game.tick(16, &none);
    assert_eq!(game.state, GameState::GameOver);
    game.tick(16, &none);
    assert_eq!(game.resources.song_time, 8016);
}

#[test]
fn session_scores_a_timed_press() {
    let mut game = Game::new();
    game.start();
    let none: Vec<KeyCode> = Vec::new();
    // The event for F at 2500 spawns at 500 and reaches the hit zone at 2500.
    for _ in 0..50 {
        game.tick(10, &none);
    }
    assert_eq!(game.notes.len(), 1);
    assert_eq!(game.notes[0].key, NoteKey::F);
    for _ in 0..199 {
        game.tick(10, &none);
    }
    let hits = game.tick(10, &vec![KeyCode::F]);
    assert_eq!(hits, vec![NoteKey::F]);
    assert_eq!(game.resources.score, 100);
    assert_eq!(game.resources.combo, 1);
}
