//! Note identities, keyboard codes, songs and the game phases.
use vstd::prelude::*;

verus! {

/// A physical keyboard key, as the input layer reports it.
#[derive(Debug, Clone, Copy, PartialEq, Eq, Hash, Structural)]
pub enum KeyCode {
    A,
    S,
    D,
    F,
    G,
    H,
    J,
    K,
    W,
    E,
    R,
    T,
    Y,
    U,
    Other,
}

/// A red, green, blue colour with components in `0..=255`.
#[derive(Debug, Clone, Copy, PartialEq, Eq, Hash, Structural)]
pub struct Rgb {
    pub r: u8,
    pub g: u8,
    pub b: u8,
}

/// The phase the game is in.
#[derive(Debug, Clone, Copy, PartialEq, Eq, Hash, Structural)]
pub enum GameState {
    MainMenu,
    Playing,
    GameOver,
}

impl Default for GameState {
    fn default() -> (r: Self)
        ensures
            r == GameState::MainMenu,
    {
        GameState::MainMenu
    }
}

/// A scale degree that can appear in a song; each one owns one lane.
#[derive(Debug, Clone, Copy, PartialEq, Eq, Hash, Structural)]
pub enum NoteKey {
    C,
    D,
    E,
    F,
    G,
    A,
}

/// Number of lanes, one per note key.
pub const LANE_COUNT: usize = 6;

/// The lane of a note key.
pub open spec fn lane_of(k: NoteKey) -> nat {
    match k {
        NoteKey::C => 0,
        NoteKey::D => 1,
        NoteKey::E => 2,
        NoteKey::F => 3,
        NoteKey::G => 4,
        NoteKey::A => 5,
    }
}

/// The note key that owns a lane.
pub open spec fn key_of_lane(lane: nat) -> NoteKey
    recommends
        lane < LANE_COUNT,
{
    if lane == 0 {
        NoteKey::C
    } else if lane == 1 {
        NoteKey::D
    } else if lane == 2 {
        NoteKey::E
    } else if lane == 3 {
        NoteKey::F
    } else if lane == 4 {
        NoteKey::G
    } else {
        NoteKey::A
    }
}

/// The keyboard key bound to each note key.
pub open spec fn key_code_of(k: NoteKey) -> KeyCode {
    match k {
        NoteKey::C => KeyCode::A,
        NoteKey::D => KeyCode::S,
        NoteKey::E => KeyCode::D,
        NoteKey::F => KeyCode::F,
        NoteKey::G => KeyCode::G,
        NoteKey::A => KeyCode::H,
    }
}

/// The note key a keyboard key plays, if any.
pub open spec fn note_of_code(c: KeyCode) -> Option<NoteKey> {
    match c {
        KeyCode::A => Some(NoteKey::C),
        KeyCode::S => Some(NoteKey::D),
        KeyCode::D => Some(NoteKey::E),
        KeyCode::F => Some(NoteKey::F),
        KeyCode::G => Some(NoteKey::G),
        KeyCode::H => Some(NoteKey::A),
        _ => None,
    }
}

/// The audio asset of each note key.
pub open spec fn audio_path_of(k: NoteKey) -> Seq<char> {
    match k {
        NoteKey::C => "audio/note_C.mp3"@,
        NoteKey::D => "audio/note_D.mp3"@,
        NoteKey::E => "audio/note_E.mp3"@,
        NoteKey::F => "audio/note_F.mp3"@,
        NoteKey::G => "audio/note_G.mp3"@,
        NoteKey::A => "audio/note_A.mp3"@,
    }
}

/// The display colour of each note key.
pub open spec fn color_of(k: NoteKey) -> Rgb {
    match k {
        NoteKey::C => Rgb { r: 255, g: 0, b: 0 },
        NoteKey::D => Rgb { r: 255, g: 128, b: 0 },
        NoteKey::E => Rgb { r: 255, g: 255, b: 0 },
        NoteKey::F => Rgb { r: 0, g: 255, b: 0 },
        NoteKey::G => Rgb { r: 0, g: 0, b: 255 },
        NoteKey::A => Rgb { r: 128, g: 0, b: 255 },
    }
}

/// Lanes and note keys are in one-to-one correspondence, and so are note keys
/// and the keyboard keys bound to them.
pub proof fn lemma_note_key_bijections(k: NoteKey, j: NoteKey, lane: nat)
    ensures
        lane_of(k) < LANE_COUNT,
        key_of_lane(lane_of(k)) == k,
        lane < LANE_COUNT ==> lane_of(key_of_lane(lane)) == lane,
        key_code_of(k) == key_code_of(j) ==> k == j,
        key_code_of(k) != KeyCode::Other,
{
}

impl NoteKey {
    /// The path of the audio asset played for this key.
    pub fn get_audio_path(&self) -> (r: &'static str)
        ensures
            r@ == audio_path_of(*self),
    {
        match self {
            NoteKey::C => "audio/note_C.mp3",
            NoteKey::D => "audio/note_D.mp3",
            NoteKey::E => "audio/note_E.mp3",
            NoteKey::F => "audio/note_F.mp3",
            NoteKey::G => "audio/note_G.mp3",
            NoteKey::A => "audio/note_A.mp3",
        }
    }

    /// The note key bound to a keyboard key, if any.
    pub fn from_key_code(key_code: KeyCode) -> (r: Option<NoteKey>)
        ensures
            r == note_of_code(key_code),
            r matches Some(k) ==> key_code_of(k) == key_code,
            r is None <==> (forall|k: NoteKey| key_code_of(k) != key_code),
    {
        match key_code {
            KeyCode::A => Some(NoteKey::C),
            KeyCode::S => Some(NoteKey::D),
            KeyCode::D => Some(NoteKey::E),
            KeyCode::F => Some(NoteKey::F),
            KeyCode::G => Some(NoteKey::G),
            KeyCode::H => Some(NoteKey::A),
            _ => None,
        }
    }

    /// The lane this key's notes fall in.
    pub fn lane(&self) -> (r: usize)
        ensures
            r == lane_of(*self),
            r < LANE_COUNT,
    {
        match self {
            NoteKey::C => 0,
            NoteKey::D => 1,
            NoteKey::E => 2,
            NoteKey::F => 3,
            NoteKey::G => 4,
            NoteKey::A => 5,
        }
    }

    /// The key owning a lane; `None` past the last lane.
    pub fn from_lane(lane: usize) -> (r: Option<NoteKey>)
        ensures
            lane < LANE_COUNT ==> r == Some(key_of_lane(lane as nat)),
            lane >= LANE_COUNT ==> r is None,
    {
        if lane == 0 {
            Some(NoteKey::C)
        } else if lane == 1 {
            Some(NoteKey::D)
        } else if lane == 2 {
            Some(NoteKey::E)
        } else if lane == 3 {
            Some(NoteKey::F)
        } else if lane == 4 {
            Some(NoteKey::G)
        } else if lane == 5 {
            Some(NoteKey::A)
        } else {
            None
        }
    }

    /// The colour the key's falling notes are drawn in.
    pub fn display_color(&self) -> (r: Rgb)
        ensures
            r == color_of(*self),
    {
        match self {
            NoteKey::C => Rgb { r: 255, g: 0, b: 0 },
            NoteKey::D => Rgb { r: 255, g: 128, b: 0 },
            NoteKey::E => Rgb { r: 255, g: 255, b: 0 },
            NoteKey::F => Rgb { r: 0, g: 255, b: 0 },
            NoteKey::G => Rgb { r: 0, g: 0, b: 255 },
            NoteKey::A => Rgb { r: 128, g: 0, b: 255 },
        }
    }
}

/// One event of a song: the key to strike and when, in milliseconds from the
/// start of play.
#[derive(Debug, Clone, Copy, PartialEq, Eq, Structural)]
pub struct SongNote {
    pub key: NoteKey,
    pub time: u64,
}

/// A song: a title, a tempo in beats per minute, and its events in order of
/// time.
#[derive(Debug, Clone)]
pub struct SongData {
    pub title: String,
    pub bpm: u32,
    pub notes: Vec<SongNote>,
}

/// The events of the built-in song.
pub open spec fn example_song_notes() -> Seq<SongNote> {
    seq![
        SongNote { key: NoteKey::C, time: 1000 },
        SongNote { key: NoteKey::D, time: 1500 },
        SongNote { key: NoteKey::E, time: 2000 },
        SongNote { key: NoteKey::F, time: 2500 },
        SongNote { key: NoteKey::G, time: 3000 },
        SongNote { key: NoteKey::A, time: 3500 },
        SongNote { key: NoteKey::C, time: 4000 },
        SongNote { key: NoteKey::E, time: 4500 },
        SongNote { key: NoteKey::G, time: 5000 },
    ]
}

/// The song played in each session.
pub fn load_song_data() -> (r: SongData)
    ensures
        r.title@ == "Example Song"@,
        r.bpm == 120,
        r.notes@ == example_song_notes(),
{
    let notes = vec![
        SongNote { key: NoteKey::C, time: 1000 },
        SongNote { key: NoteKey::D, time: 1500 },
        SongNote { key: NoteKey::E, time: 2000 },
        SongNote { key: NoteKey::F, time: 2500 },
        SongNote { key: NoteKey::G, time: 3000 },
        SongNote { key: NoteKey::A, time: 3500 },
        SongNote { key: NoteKey::C, time: 4000 },
        SongNote { key: NoteKey::E, time: 4500 },
        SongNote { key: NoteKey::G, time: 5000 },
    ];
    SongData { title: String::from_str("Example Song"), bpm: 120, notes }
}

} // verus!
