use keyboard_warriors::notes::{KeyCode, Rgb};
use keyboard_warriors::piano::{
    find_sound, handle_key_input, move_falling_notes, play_sounds, setup, spawn_falling_note, spawn_falling_notes,
    update_key_visuals, FallingNote, NoteSpawnTimer, PianoKeyType, FALLING_NOTE_TOP,
};

#[test]
fn piano_layout() {
    let keys = setup();
    assert_eq!(keys.len(), 13);
    assert_eq!(keys[0].note_name, "C4");
    assert_eq!(keys[0].x, -350_000);
    assert_eq!(keys[7].note_name, "C5");
    assert_eq!(keys[7].x, 350_000);
    assert_eq!(keys[8].key_type, PianoKeyType::Black);
    assert_eq!(keys[8].x, -300_000);
    assert_eq!(keys[10].note_name, "F#4");
    assert_eq!(keys[10].x, 0);
    assert!(keys.iter().all(|k| !k.is_pressed));
}

#[test]
fn held_keys_are_pressed_and_tinted() {
    let mut keys = setup();
    handle_key_input(&mut keys, &vec![KeyCode::A, KeyCode::W]);
    assert!(keys[0].is_pressed);
    assert!(keys[8].is_pressed);
    assert!(!keys[1].is_pressed);
    let colors = update_key_visuals(&keys);
    assert_eq!(colors[0], Rgb { r: 0xbb, g: 0xbb, b: 0xff });
    assert_eq!(colors[1], Rgb { r: 0xff, g: 0xff, b: 0xff });
    assert_eq!(colors[8], Rgb { r: 0x33, g: 0x33, b: 0x55 });
    assert_eq!(colors[9], Rgb { r: 0x1a, g: 0x1a, b: 0x1a });
    handle_key_input(&mut keys, &vec![]);
    assert!(!keys[0].is_pressed);
}

#[test]
fn sounds_follow_pressed_keys() {
    let keys = setup();
    let names: Vec<String> = vec!["C4".into(), "C#4".into(), "D4".into()];
    assert_eq!(find_sound(&names, &String::from("D4")), Some(2));
    assert_eq!(find_sound(&names, &String::from("B4")), None);
    assert_eq!(play_sounds(&keys, &vec![KeyCode::S, KeyCode::W, KeyCode::J], &names), vec![2, 1]);
}

#[test]
fn spawn_timer_fires_each_period() {
    let mut t = NoteSpawnTimer::new(1000);
    assert!(!t.tick(400));
    assert!(!t.tick(400));
    assert!(t.tick(400));
    assert_eq!(t.elapsed, 200);
    let mut every = NoteSpawnTimer::new(0);
    assert!(every.tick(1));
}

#[test]
fn falling_notes_spawn_and_fall() {
    let keys = setup();
    assert_eq!(spawn_falling_note(&keys, 3), FallingNote { key_index: 3, keyboard_key: KeyCode::F, y: FALLING_NOTE_TOP });
    let mut timer = NoteSpawnTimer::new(500);
    let mut falling: Vec<FallingNote> = Vec::new();
    spawn_falling_notes(&mut timer, 100, &keys, &mut falling);
    assert!(falling.is_empty());
    spawn_falling_notes(&mut timer, 400, &keys, &mut falling);
    assert_eq!(falling.len(), 1);
    assert!(falling[0].key_index < keys.len());
    assert_eq!(falling[0].keyboard_key, keys[falling[0].key_index].keyboard_key);
    move_falling_notes(&mut falling, 1000);
    assert_eq!(falling[0].y, 100_000);
    move_falling_notes(&mut falling, 2001);
    assert!(falling.is_empty());
}
