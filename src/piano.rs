//! The on-screen piano: its keys and their layout, key state and colours,
//! the sounds to play, and the decorative falling notes.
//!
//! Horizontal and vertical positions are in thousandths of a screen pixel,
//! times in milliseconds, frequencies in hundredths of a hertz.
use vstd::prelude::*;
use rand::seq::IteratorRandom;
use crate::notes::{KeyCode, Rgb};

verus! {

/// Width of the window.
pub const WINDOW_WIDTH: i64 = 800_000;

/// Height of the window.
pub const WINDOW_HEIGHT: i64 = 600_000;

/// Width of a white key: eight of them span the window.
pub const WHITE_KEY_WIDTH: i64 = 100_000;

/// Height of a white key.
pub const WHITE_KEY_HEIGHT: i64 = 150_000;

/// Width of a black key.
pub const BLACK_KEY_WIDTH: i64 = 60_000;

/// Height of a black key.
pub const BLACK_KEY_HEIGHT: i64 = 90_000;

/// Vertical centre of the white keys, which rest on the bottom edge.
pub const PIANO_Y_POSITION: i64 = -225_000;

/// Fall speed of the decorative notes per millisecond.
pub const FALLING_NOTE_SPEED: i64 = 200;

/// Height at which decorative notes appear: the top edge.
pub const FALLING_NOTE_TOP: i64 = 300_000;

/// Height below which a decorative note has left the window.
pub const FALLING_NOTE_BOTTOM: i64 = -300_000;

/// The two kinds of piano key.
#[derive(Debug, Clone, Copy, PartialEq, Eq, Structural)]
pub enum PianoKeyType {
    White,
    Black,
}

/// A key of the on-screen piano.
#[derive(Debug)]
pub struct PianoKey {
    pub key_type: PianoKeyType,
    pub note_name: String,
    pub frequency: u32,
    pub keyboard_key: KeyCode,
    pub is_pressed: bool,
    /// Horizontal centre of the key.
    pub x: i64,
}

/// A piano key as the layout describes it.
pub struct PianoKeySpec {
    pub key_type: PianoKeyType,
    pub note_name: Seq<char>,
    pub frequency: u32,
    pub keyboard_key: KeyCode,
    pub x: int,
}

/// The keyboard from C4 to C5: the white keys side by side across the
/// window, then the black keys between them, none between E and F or B and
/// C.
pub open spec fn key_layout() -> Seq<PianoKeySpec> {
    seq![
        PianoKeySpec { key_type: PianoKeyType::White, note_name: "C4"@, frequency: 26163, keyboard_key: KeyCode::A, x: -350000 },
        PianoKeySpec { key_type: PianoKeyType::White, note_name: "D4"@, frequency: 29366, keyboard_key: KeyCode::S, x: -250000 },
        PianoKeySpec { key_type: PianoKeyType::White, note_name: "E4"@, frequency: 32963, keyboard_key: KeyCode::D, x: -150000 },
        PianoKeySpec { key_type: PianoKeyType::White, note_name: "F4"@, frequency: 34923, keyboard_key: KeyCode::F, x: -50000 },
        PianoKeySpec { key_type: PianoKeyType::White, note_name: "G4"@, frequency: 39200, keyboard_key: KeyCode::G, x: 50000 },
        PianoKeySpec { key_type: PianoKeyType::White, note_name: "A4"@, frequency: 44000, keyboard_key: KeyCode::H, x: 150000 },
        PianoKeySpec { key_type: PianoKeyType::White, note_name: "B4"@, frequency: 49388, keyboard_key: KeyCode::J, x: 250000 },
        PianoKeySpec { key_type: PianoKeyType::White, note_name: "C5"@, frequency: 52325, keyboard_key: KeyCode::K, x: 350000 },
        PianoKeySpec { key_type: PianoKeyType::Black, note_name: "C#4"@, frequency: 27718, keyboard_key: KeyCode::W, x: -300000 },
        PianoKeySpec { key_type: PianoKeyType::Black, note_name: "D#4"@, frequency: 31113, keyboard_key: KeyCode::E, x: -200000 },
        PianoKeySpec { key_type: PianoKeyType::Black, note_name: "F#4"@, frequency: 36999, keyboard_key: KeyCode::R, x: 0 },
        PianoKeySpec { key_type: PianoKeyType::Black, note_name: "G#4"@, frequency: 41530, keyboard_key: KeyCode::T, x: 100000 },
        PianoKeySpec { key_type: PianoKeyType::Black, note_name: "A#4"@, frequency: 46616, keyboard_key: KeyCode::Y, x: 200000 },
    ]
}

/// Whether a key matches its description in the layout.
pub open spec fn key_matches(k: PianoKey, s: PianoKeySpec) -> bool {
    &&& k.key_type == s.key_type
    &&& k.note_name@ == s.note_name
    &&& k.frequency == s.frequency
    &&& k.keyboard_key == s.keyboard_key
    &&& k.x == s.x
}

/// The piano's keys, none pressed.
pub fn setup() -> (r: Vec<PianoKey>)
    ensures
        r@.len() == key_layout().len(),
        forall|i: int| 0 <= i < r@.len() ==> key_matches(#[trigger] r@[i], key_layout()[i]) && !r@[i].is_pressed,
{
    let mut keys: Vec<PianoKey> = Vec::new();
    keys.push(PianoKey { key_type: PianoKeyType::White, note_name: String::from_str("C4"), frequency: 26163, keyboard_key: KeyCode::A, is_pressed: false, x: -350000 });
    keys.push(PianoKey { key_type: PianoKeyType::White, note_name: String::from_str("D4"), frequency: 29366, keyboard_key: KeyCode::S, is_pressed: false, x: -250000 });
    keys.push(PianoKey { key_type: PianoKeyType::White, note_name: String::from_str("E4"), frequency: 32963, keyboard_key: KeyCode::D, is_pressed: false, x: -150000 });
    keys.push(PianoKey { key_type: PianoKeyType::White, note_name: String::from_str("F4"), frequency: 34923, keyboard_key: KeyCode::F, is_pressed: false, x: -50000 });
    keys.push(PianoKey { key_type: PianoKeyType::White, note_name: String::from_str("G4"), frequency: 39200, keyboard_key: KeyCode::G, is_pressed: false, x: 50000 });
    keys.push(PianoKey { key_type: PianoKeyType::White, note_name: String::from_str("A4"), frequency: 44000, keyboard_key: KeyCode::H, is_pressed: false, x: 150000 });
    keys.push(PianoKey { key_type: PianoKeyType::White, note_name: String::from_str("B4"), frequency: 49388, keyboard_key: KeyCode::J, is_pressed: false, x: 250000 });
    keys.push(PianoKey { key_type: PianoKeyType::White, note_name: String::from_str("C5"), frequency: 52325, keyboard_key: KeyCode::K, is_pressed: false, x: 350000 });
    keys.push(PianoKey { key_type: PianoKeyType::Black, note_name: String::from_str("C#4"), frequency: 27718, keyboard_key: KeyCode::W, is_pressed: false, x: -300000 });
    keys.push(PianoKey { key_type: PianoKeyType::Black, note_name: String::from_str("D#4"), frequency: 31113, keyboard_key: KeyCode::E, is_pressed: false, x: -200000 });
    keys.push(PianoKey { key_type: PianoKeyType::Black, note_name: String::from_str("F#4"), frequency: 36999, keyboard_key: KeyCode::R, is_pressed: false, x: 0 });
    keys.push(PianoKey { key_type: PianoKeyType::Black, note_name: String::from_str("G#4"), frequency: 41530, keyboard_key: KeyCode::T, is_pressed: false, x: 100000 });
    keys.push(PianoKey { key_type: PianoKeyType::Black, note_name: String::from_str("A#4"), frequency: 46616, keyboard_key: KeyCode::Y, is_pressed: false, x: 200000 });
    keys
}

/// Whether `c` occurs in `s`.
fn holds_key(s: &Vec<KeyCode>, c: KeyCode) -> (r: bool)
    ensures
        r == s@.contains(c),
{
    let mut i: usize = 0;
    while i < s.len()
        invariant
            i <= s.len(),
            forall|j: int| 0 <= j < i ==> s@[j] != c,
        decreases s.len() - i,
    {
        if s[i] == c {
            return true;
        }
        i = i + 1;
    }
    false
}

/// Marks each key pressed exactly when its keyboard key is held.
pub fn handle_key_input(keys: &mut Vec<PianoKey>, held: &Vec<KeyCode>)
    ensures
        final(keys)@.len() == old(keys)@.len(),
        forall|i: int|
            0 <= i < final(keys)@.len() ==> {
                &&& (#[trigger] final(keys)@[i]).is_pressed == held@.contains(old(keys)@[i].keyboard_key)
                &&& final(keys)@[i].key_type == old(keys)@[i].key_type
                &&& final(keys)@[i].note_name == old(keys)@[i].note_name
                &&& final(keys)@[i].frequency == old(keys)@[i].frequency
                &&& final(keys)@[i].keyboard_key == old(keys)@[i].keyboard_key
                &&& final(keys)@[i].x == old(keys)@[i].x
            },
{
    let mut i: usize = 0;
    while i < keys.len()
        invariant
            i <= keys.len(),
            keys@.len() == old(keys)@.len(),
            forall|j: int|
                0 <= j < keys@.len() ==> {
                    &&& (#[trigger] keys@[j]).is_pressed == if j < i {
                        held@.contains(old(keys)@[j].keyboard_key)
                    } else {
                        old(keys)@[j].is_pressed
                    }
                    &&& keys@[j].key_type == old(keys)@[j].key_type
                    &&& keys@[j].note_name == old(keys)@[j].note_name
                    &&& keys@[j].frequency == old(keys)@[j].frequency
                    &&& keys@[j].keyboard_key == old(keys)@[j].keyboard_key
                    &&& keys@[j].x == old(keys)@[j].x
                },
        decreases keys.len() - i,
    {
        let pressed = holds_key(held, keys[i].keyboard_key);
        keys[i].is_pressed = pressed;
        i = i + 1;
    }
}

/// The colour of a key: white or black, tinted blue while pressed.
pub open spec fn key_color(key_type: PianoKeyType, pressed: bool) -> Rgb {
    match (key_type, pressed) {
        (PianoKeyType::White, true) => Rgb { r: 0xbb, g: 0xbb, b: 0xff },
        (PianoKeyType::White, false) => Rgb { r: 0xff, g: 0xff, b: 0xff },
        (PianoKeyType::Black, true) => Rgb { r: 0x33, g: 0x33, b: 0x55 },
        (PianoKeyType::Black, false) => Rgb { r: 0x1a, g: 0x1a, b: 0x1a },
    }
}

impl PianoKey {
    /// The colour the key is drawn in.
    pub fn color(&self) -> (r: Rgb)
        ensures
            r == key_color(self.key_type, self.is_pressed),
    {
        match (self.key_type, self.is_pressed) {
            (PianoKeyType::White, true) => Rgb { r: 0xbb, g: 0xbb, b: 0xff },
            (PianoKeyType::White, false) => Rgb { r: 0xff, g: 0xff, b: 0xff },
            (PianoKeyType::Black, true) => Rgb { r: 0x33, g: 0x33, b: 0x55 },
            (PianoKeyType::Black, false) => Rgb { r: 0x1a, g: 0x1a, b: 0x1a },
        }
    }
}

/// The colour of every key, in order.
pub fn update_key_visuals(keys: &Vec<PianoKey>) -> (r: Vec<Rgb>)
    ensures
        r@.len() == keys@.len(),
        forall|i: int| 0 <= i < r@.len() ==> #[trigger] r@[i] == key_color(keys@[i].key_type, keys@[i].is_pressed),
{
    let mut out: Vec<Rgb> = Vec::new();
    let mut i: usize = 0;
    while i < keys.len()
        invariant
            i <= keys.len(),
            out@.len() == i,
            forall|j: int| 0 <= j < i ==> #[trigger] out@[j] == key_color(keys@[j].key_type, keys@[j].is_pressed),
        decreases keys.len() - i,
    {
        out.push(keys[i].color());
        i = i + 1;
    }
    out
}

/// The names of the loaded sounds.
pub open spec fn name_views(v: Seq<String>) -> Seq<Seq<char>> {
    v.map_values(|s: String| s@)
}

/// Index of the first name equal to `name`.
pub open spec fn first_index(names: Seq<Seq<char>>, name: Seq<char>) -> Option<int>
    decreases names.len(),
{
    if names.len() == 0 {
        None
    } else {
        match first_index(names.drop_last(), name) {
            Some(i) => Some(i),
            None => if names.last() == name {
                Some(names.len() - 1)
            } else {
                None
            },
        }
    }
}

/// Index of the first sound named `name`, if any.
pub fn find_sound(sound_names: &Vec<String>, name: &String) -> (r: Option<usize>)
    ensures
        r matches Some(i) ==> first_index(name_views(sound_names@), name@) == Some(i as int),
        r is None ==> first_index(name_views(sound_names@), name@) is None,
{
    let ghost names = name_views(sound_names@);
    let mut i: usize = 0;
    assert(names.take(0) =~= Seq::<Seq<char>>::empty());
    while i < sound_names.len()
        invariant
            i <= sound_names.len(),
            names == name_views(sound_names@),
            first_index(names.take(i as int), name@) is None,
        decreases sound_names.len() - i,
    {
        assert(names.take(i + 1).drop_last() =~= names.take(i as int));
        if sound_names[i] == *name {
            proof {
                lemma_first_index_prefix(names, name@, i as int);
            }
            return Some(i);
        }
        i = i + 1;
    }
    assert(names.take(names.len() as int) =~= names);
    None
}

proof fn lemma_first_index_prefix(names: Seq<Seq<char>>, name: Seq<char>, i: int)
    requires
        0 <= i < names.len(),
        first_index(names.take(i), name) is None,
        names[i] == name,
    ensures
        first_index(names, name) == Some(i),
    decreases names.len(),
{
    assert(names.take(i + 1).drop_last() =~= names.take(i));
    if names.len() > i + 1 {
        assert(names.drop_last().take(i) =~= names.take(i));
        lemma_first_index_prefix(names.drop_last(), name, i);
    } else {
        assert(names.take(i + 1) =~= names);
    }
}

/// Indices of the sounds to play: for each key just pressed, in key order,
/// the first sound named after its note.
pub open spec fn sounds_for(keys: Seq<PianoKey>, just_pressed: Seq<KeyCode>, names: Seq<Seq<char>>) -> Seq<usize>
    decreases keys.len(),
{
    if keys.len() == 0 {
        Seq::empty()
    } else {
        let before = sounds_for(keys.drop_last(), just_pressed, names);
        let k = keys.last();
        if just_pressed.contains(k.keyboard_key) {
            match first_index(names, k.note_name@) {
                Some(i) => before.push(i as usize),
                None => before,
            }
        } else {
            before
        }
    }
}

/// The sounds to play for the keys just pressed.
pub fn play_sounds(keys: &Vec<PianoKey>, just_pressed: &Vec<KeyCode>, sound_names: &Vec<String>) -> (r: Vec<usize>)
    ensures
        r@ == sounds_for(keys@, just_pressed@, name_views(sound_names@)),
{
    let mut out: Vec<usize> = Vec::new();
    let mut i: usize = 0;
    assert(keys@.take(0) =~= Seq::<PianoKey>::empty());
    while i < keys.len()
        invariant
            i <= keys.len(),
            out@ == sounds_for(keys@.take(i as int), just_pressed@, name_views(sound_names@)),
        decreases keys.len() - i,
    {
        assert(keys@.take(i + 1).drop_last() =~= keys@.take(i as int));
        let key = &keys[i];
        if holds_key(just_pressed, key.keyboard_key) {
            match find_sound(sound_names, &key.note_name) {
                Some(j) => out.push(j),
                None => {},
            }
        }
        i = i + 1;
    }
    assert(keys@.take(keys@.len() as int) =~= keys@);
    out
}

/// A repeating timer for the decorative notes.
#[derive(Debug, Clone, Copy, PartialEq, Eq, Structural)]
pub struct NoteSpawnTimer {
    /// Milliseconds between two firings; zero fires on every tick.
    pub period: u64,
    /// Milliseconds since the last firing.
    pub elapsed: u64,
}

/// The timer's elapsed time and whether it fired, after a tick of `delta`.
pub open spec fn timer_after(t: NoteSpawnTimer, delta: u64) -> (NoteSpawnTimer, bool) {
    if t.period == 0 {
        (t, true)
    } else {
        (
            NoteSpawnTimer { period: t.period, elapsed: ((t.elapsed + delta) % (t.period as int)) as u64 },
            t.elapsed + delta >= t.period,
        )
    }
}

impl NoteSpawnTimer {
    /// The elapsed time stays below the period.
    pub open spec fn wf(&self) -> bool {
        &&& self.period == 0 ==> self.elapsed == 0
        &&& self.period > 0 ==> self.elapsed < self.period
    }

    /// A timer that fires every `period` milliseconds.
    pub fn new(period: u64) -> (r: NoteSpawnTimer)
        ensures
            r.wf(),
            r.period == period,
            r.elapsed == 0,
    {
        NoteSpawnTimer { period, elapsed: 0 }
    }

    /// Advances the timer by `delta`; returns whether it fired.
    pub fn tick(&mut self, delta: u64) -> (r: bool)
        requires
            old(self).wf(),
        ensures
            final(self).wf(),
            (*final(self), r) == timer_after(*old(self), delta),
    {
        if self.period == 0 {
            true
        } else {
            let total: u128 = self.elapsed as u128 + delta as u128;
            let fired = total >= self.period as u128;
            self.elapsed = (total % (self.period as u128)) as u64;
            fired
        }
    }
}

/// A decorative note falling from the top of the window.
#[derive(Debug, Clone, Copy, PartialEq, Eq, Structural)]
pub struct FallingNote {
    /// Index of the piano key it stands for.
    pub key_index: usize,
    pub keyboard_key: KeyCode,
    pub y: i64,
}

/// Relies on rand's `IteratorRandom::choose` over `0..n` with the
/// thread-local generator: `None` exactly when the range is empty, else a
/// member of the range.
#[verifier::external_body]
fn choose_index(n: usize) -> (r: Option<usize>)
    ensures
        r.is_some() == (n > 0),
        r.is_some() ==> r.unwrap() < n,
{
    (0..n).choose(&mut rand::thread_rng())
}

/// The note that appears for the key at `index`.
pub open spec fn new_falling_note(keys: Seq<PianoKey>, index: int) -> FallingNote {
    FallingNote { key_index: index as usize, keyboard_key: keys[index].keyboard_key, y: FALLING_NOTE_TOP }
}

/// A falling note for the key at `index`, at the top of the window.
pub fn spawn_falling_note(keys: &Vec<PianoKey>, index: usize) -> (r: FallingNote)
    requires
        index < keys@.len(),
    ensures
        r == new_falling_note(keys@, index as int),
{
    FallingNote { key_index: index, keyboard_key: keys[index].keyboard_key, y: FALLING_NOTE_TOP }
}

/// Ticks the spawn timer; when it fires and the piano has keys, a note for
/// a key drawn at random starts falling.
pub fn spawn_falling_notes(timer: &mut NoteSpawnTimer, delta: u64, keys: &Vec<PianoKey>, falling: &mut Vec<FallingNote>)
    requires
        old(timer).wf(),
    ensures
        final(timer).wf(),
        *final(timer) == timer_after(*old(timer), delta).0,
        timer_after(*old(timer), delta).1 && keys@.len() > 0 ==> exists|i: int|
            0 <= i < keys@.len() && final(falling)@ == old(falling)@.push(new_falling_note(keys@, i)),
        !(timer_after(*old(timer), delta).1 && keys@.len() > 0) ==> final(falling)@ == old(falling)@,
{
    if timer.tick(delta) {
        match choose_index(keys.len()) {
            Some(i) => {
                let n = spawn_falling_note(keys, i);
                falling.push(n);
            },
            None => {},
        }
    }
}

/// Height of a falling note after `delta` milliseconds more.
pub open spec fn fallen_y(n: FallingNote, delta: int) -> int {
    n.y - FALLING_NOTE_SPEED * delta
}

/// The falling notes after `delta` milliseconds, without those that left
/// the window.
pub open spec fn fallen_list(s: Seq<FallingNote>, delta: int) -> Seq<FallingNote>
    decreases s.len(),
{
    if s.len() == 0 {
        Seq::empty()
    } else {
        let before = fallen_list(s.drop_last(), delta);
        let n = s.last();
        if fallen_y(n, delta) >= FALLING_NOTE_BOTTOM {
            before.push(FallingNote { y: fallen_y(n, delta) as i64, ..n })
        } else {
            before
        }
    }
}

/// Moves the falling notes down and removes those below the window.
pub fn move_falling_notes(falling: &mut Vec<FallingNote>, delta: u64)
    ensures
        final(falling)@ == fallen_list(old(falling)@, delta as int),
{
    let ghost start = falling@;
    let mut kept: Vec<FallingNote> = Vec::new();
    let mut i: usize = 0;
    assert(start.take(0) =~= Seq::<FallingNote>::empty());
    while i < falling.len()
        invariant
            falling@ == start,
            i <= falling.len(),
            kept@ == fallen_list(start.take(i as int), delta as int),
        decreases falling.len() - i,
    {
        let n = falling[i];
        assert(start.take(i + 1).drop_last() =~= start.take(i as int));
        let y: i128 = n.y as i128 - FALLING_NOTE_SPEED as i128 * delta as i128;
        if y >= FALLING_NOTE_BOTTOM as i128 {
            kept.push(FallingNote { y: y as i64, ..n });
        }
        assert(kept@ =~= fallen_list(start.take(i + 1), delta as int));
        i = i + 1;
    }
    assert(start.take(start.len() as int) =~= start);
    *falling = kept;
}

} // verus!
