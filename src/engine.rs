//! The play session: clock, look-ahead spawning, falling notes, hit judgment
//! and the end-of-song test.
//!
//! Times are in milliseconds. Vertical positions are in thousandths of a
//! screen pixel, growing upwards.
use vstd::prelude::*;
use crate::notes::{
    NoteKey, KeyCode, SongNote, SongData, load_song_data, lane_of, note_of_code, example_song_notes,
};

verus! {

/// How long before its hit time a note appears.
pub const LOOK_AHEAD: u64 = 2000;

/// Height at which notes appear.
pub const SPAWN_Y: i64 = 400_000;

/// Height of the zone where notes should be struck.
pub const HIT_ZONE_Y: i64 = -300_000;

/// Height below which a note has left the screen.
pub const BOTTOM_Y: i64 = -400_000;

/// Fall speed per millisecond: the distance from the top to the hit zone
/// covered in exactly the look-ahead time.
pub const NOTE_SPEED: i64 = 350;

/// A note further than this from the hit zone cannot be struck.
pub const HIT_WINDOW: u64 = 50_000;

/// Time that must pass after the last event before the session may end.
pub const TRAILING_GRACE: u64 = 3000;

/// Points for a note struck exactly in the hit zone.
pub const MAX_SCORE_GAIN: u32 = 100;

/// A note falling in its lane.
#[derive(Debug, Clone, Copy, PartialEq, Eq, Structural)]
pub struct Note {
    pub key: NoteKey,
    pub lane: usize,
    pub spawn_time: u64,
    pub hit_time: u64,
    pub y: i64,
}

/// Score, streak and clock of a play session, with the song being played.
#[derive(Debug, Clone)]
pub struct GameResources {
    pub score: u32,
    pub combo: u32,
    pub max_combo: u32,
    pub song: Option<SongData>,
    /// Milliseconds since play started.
    pub song_time: u64,
}

impl Default for GameResources {
    fn default() -> (r: Self)
        ensures
            r.score == 0,
            r.combo == 0,
            r.max_combo == 0,
            r.song is None,
            r.song_time == 0,
    {
        GameResources { score: 0, combo: 0, max_combo: 0, song: None, song_time: 0 }
    }
}

/// The events of the loaded song; none when no song is loaded.
pub open spec fn song_events(song: Option<SongData>) -> Seq<SongNote> {
    match song {
        Some(s) => s.notes@,
        None => Seq::empty(),
    }
}

/// Height of a note spawned at `spawn` when the clock reads `clock`.
pub open spec fn position_at(spawn: int, clock: int) -> int {
    SPAWN_Y - NOTE_SPEED * (clock - spawn)
}

/// An event whose hit time comes within the look-ahead during the tick of
/// length `delta` that ends at `clock`.
pub open spec fn is_due(hit_time: int, clock: int, delta: int) -> bool {
    LOOK_AHEAD - delta < hit_time - clock <= LOOK_AHEAD
}

/// The note spawned for an event at `clock`.
pub open spec fn spawned_note(e: SongNote, clock: u64) -> Note {
    Note {
        key: e.key,
        lane: lane_of(e.key) as usize,
        spawn_time: clock,
        hit_time: e.time,
        y: SPAWN_Y,
    }
}

/// The notes spawned, in song order, by a tick of length `delta` ending at
/// `clock`.
pub open spec fn spawn_list(s: Seq<SongNote>, clock: u64, delta: u64) -> Seq<Note>
    decreases s.len(),
{
    if s.len() == 0 {
        Seq::empty()
    } else {
        let before = spawn_list(s.drop_last(), clock, delta);
        if is_due(s.last().time as int, clock as int, delta as int) {
            before.push(spawned_note(s.last(), clock))
        } else {
            before
        }
    }
}

/// Whether an event is due at the end of a tick of length `delta` ending at
/// `clock`.
pub fn note_is_due(hit_time: u64, clock: u64, delta: u64) -> (r: bool)
    ensures
        r == is_due(hit_time as int, clock as int, delta as int),
{
    let ahead: i128 = hit_time as i128 - clock as i128;
    ahead <= LOOK_AHEAD as i128 && ahead > LOOK_AHEAD as i128 - delta as i128
}

/// Appends to `notes` a note for every event of the loaded song that comes
/// due in the tick of length `delta` ending at the session clock.
pub fn spawn_notes(res: &GameResources, delta: u64, notes: &mut Vec<Note>)
    ensures
        final(notes)@ == old(notes)@ + spawn_list(song_events(res.song), res.song_time, delta),
{
    let song = match &res.song {
        Some(song) => song,
        None => {
            assert(spawn_list(Seq::empty(), res.song_time, delta) =~= Seq::empty());
            assert(old(notes)@ + Seq::<Note>::empty() =~= old(notes)@);
            return;
        },
    };
    let clock = res.song_time;
    let events = &song.notes;
    let ghost start = notes@;
    let mut i: usize = 0;
    assert(events@.take(0) =~= Seq::<SongNote>::empty());
    assert(start + Seq::<Note>::empty() =~= start);
    while i < events.len()
        invariant
            i <= events.len(),
            events@ == song_events(res.song),
            clock == res.song_time,
            notes@ == start + spawn_list(events@.take(i as int), clock, delta),
        decreases events.len() - i,
    {
        let e = events[i];
        assert(events@.take(i + 1).drop_last() =~= events@.take(i as int));
        if note_is_due(e.time, clock, delta) {
            let lane = e.key.lane();
            notes.push(Note { key: e.key, lane, spawn_time: clock, hit_time: e.time, y: SPAWN_Y });
            assert(notes@ =~= start + spawn_list(events@.take(i + 1), clock, delta));
        }
        i = i + 1;
    }
    assert(events@.take(events@.len() as int) =~= events@);
}

/// Whether a note is still on screen when the clock reads `clock`.
pub open spec fn on_screen(n: Note, clock: int) -> bool {
    position_at(n.spawn_time as int, clock) >= BOTTOM_Y
}

/// A note moved to its height at `clock`.
pub open spec fn moved_note(n: Note, clock: int) -> Note {
    Note { y: position_at(n.spawn_time as int, clock) as i64, ..n }
}

/// The notes left on screen at `clock`, in order, each at its height then.
pub open spec fn moved_list(s: Seq<Note>, clock: int) -> Seq<Note>
    decreases s.len(),
{
    if s.len() == 0 {
        Seq::empty()
    } else {
        let before = moved_list(s.drop_last(), clock);
        if on_screen(s.last(), clock) {
            before.push(moved_note(s.last(), clock))
        } else {
            before
        }
    }
}

/// No note was spawned after `clock`.
pub open spec fn spawned_by(s: Seq<Note>, clock: int) -> bool {
    forall|i: int| 0 <= i < s.len() ==> s[i].spawn_time <= clock
}

/// Places every note at its height for the clock reading `clock` and
/// removes those that have fallen below the screen.
pub fn move_notes(notes: &mut Vec<Note>, clock: u64)
    requires
        spawned_by(old(notes)@, clock as int),
    ensures
        final(notes)@ == moved_list(old(notes)@, clock as int),
{
    let ghost start = notes@;
    let mut kept: Vec<Note> = Vec::new();
    let mut i: usize = 0;
    assert(start.take(0) =~= Seq::<Note>::empty());
    while i < notes.len()
        invariant
            notes@ == start,
            i <= notes.len(),
            spawned_by(start, clock as int),
            kept@ == moved_list(start.take(i as int), clock as int),
        decreases notes.len() - i,
    {
        let n = notes[i];
        assert(start.take(i + 1).drop_last() =~= start.take(i as int));
        let elapsed: u64 = clock - n.spawn_time;
        if (elapsed as u128) * (NOTE_SPEED as u128) <= (SPAWN_Y - BOTTOM_Y) as u128 {
            let y: i64 = SPAWN_Y - NOTE_SPEED * (elapsed as i64);
            kept.push(Note { y, ..n });
        }
        assert(kept@ =~= moved_list(start.take(i + 1), clock as int));
        i = i + 1;
    }
    assert(start.take(start.len() as int) =~= start);
    *notes = kept;
}

/// Distance of a note from the hit zone.
pub open spec fn distance(n: Note) -> int {
    if n.y >= HIT_ZONE_Y {
        n.y - HIT_ZONE_Y
    } else {
        HIT_ZONE_Y - n.y
    }
}

/// A note that a press in `lane` may strike.
pub open spec fn is_candidate(n: Note, lane: int) -> bool {
    n.lane == lane && distance(n) < HIT_WINDOW
}

/// Index of the candidate nearest the hit zone, the first one on a tie.
pub open spec fn best_in(s: Seq<Note>, lane: int) -> Option<int>
    decreases s.len(),
{
    if s.len() == 0 {
        None
    } else {
        let before = best_in(s.drop_last(), lane);
        let last = s.len() - 1;
        if is_candidate(s[last], lane) {
            match before {
                Some(b) => if distance(s[last]) < distance(s[b]) {
                    Some(last)
                } else {
                    before
                },
                None => Some(last),
            }
        } else {
            before
        }
    }
}

/// What `best_in` picks: a candidate no further from the hit zone than any
/// other, and strictly nearer than every candidate before it.
pub open spec fn is_nearest(s: Seq<Note>, lane: int, i: int) -> bool {
    &&& 0 <= i < s.len()
    &&& is_candidate(s[i], lane)
    &&& forall|j: int| 0 <= j < s.len() && is_candidate(s[j], lane) ==> distance(s[i]) <= distance(s[j])
    &&& forall|j: int| 0 <= j < i && is_candidate(s[j], lane) ==> distance(s[i]) < distance(s[j])
}

/// The judged note is the nearest candidate in the lane, first on a tie, and
/// there is none exactly when no note of the lane is within the hit window.
pub proof fn lemma_best_is_nearest(s: Seq<Note>, lane: int)
    ensures
        best_in(s, lane) matches Some(i) ==> is_nearest(s, lane, i),
        best_in(s, lane) is None <==> (forall|j: int| 0 <= j < s.len() ==> !is_candidate(s[j], lane)),
    decreases s.len(),
{
    if s.len() > 0 {
        let t = s.drop_last();
        lemma_best_is_nearest(t, lane);
        assert forall|j: int| 0 <= j < t.len() implies t[j] == s[j] by {}
    }
}

/// At most one note of a lane is the nearest candidate.
pub proof fn lemma_nearest_unique(s: Seq<Note>, lane: int, i: int, j: int)
    requires
        is_nearest(s, lane, i),
        is_nearest(s, lane, j),
    ensures
        i == j,
{
}

/// Points for striking a candidate at distance `d`: `100 * (1 - d / W)`
/// rounded to the nearest integer, halves upwards.
pub open spec fn gain_of(d: int) -> int {
    (2 * MAX_SCORE_GAIN * (HIT_WINDOW - d) + HIT_WINDOW) / (2 * HIT_WINDOW)
}

/// Distance of a note from the hit zone.
pub fn note_distance(n: &Note) -> (r: u64)
    ensures
        r == distance(*n),
{
    if n.y >= HIT_ZONE_Y {
        (n.y as i128 - HIT_ZONE_Y as i128) as u64
    } else {
        (HIT_ZONE_Y as i128 - n.y as i128) as u64
    }
}

/// Points for striking a note at distance `distance` from the hit zone.
pub fn score_gain(distance: u64) -> (r: u32)
    requires
        distance < HIT_WINDOW,
    ensures
        r == gain_of(distance as int),
        r <= MAX_SCORE_GAIN,
{
    let num: u64 = 2 * (MAX_SCORE_GAIN as u64) * (HIT_WINDOW - distance) + HIT_WINDOW;
    let r = num / (2 * HIT_WINDOW);
    assert(r <= 100) by (nonlinear_arith)
        requires
            num <= 2 * 100 * 50_000 + 50_000,
            r == num / 100_000,
    ;
    r as u32
}

/// Index of the note a press in `lane` strikes, if any.
pub fn find_hit(notes: &Vec<Note>, lane: usize) -> (r: Option<usize>)
    ensures
        r matches Some(i) ==> best_in(notes@, lane as int) == Some(i as int) && is_nearest(notes@, lane as int, i as int),
        r is None <==> best_in(notes@, lane as int) is None,
        r is None <==> (forall|j: int| 0 <= j < notes@.len() ==> !is_candidate(notes@[j], lane as int)),
{
    let mut best: Option<usize> = None;
    let mut best_distance: u64 = 0;
    let mut i: usize = 0;
    while i < notes.len()
        invariant
            i <= notes.len(),
            best matches Some(b) ==> b < i && best_in(notes@.take(i as int), lane as int) == Some(b as int) && best_distance == distance(notes@[b as int]),
            best is None ==> best_in(notes@.take(i as int), lane as int) is None,
        decreases notes.len() - i,
    {
        let n = &notes[i];
        let ghost t = notes@.take(i + 1);
        assert(t.drop_last() =~= notes@.take(i as int));
        assert(t[i as int] == notes@[i as int]);
        if n.lane == lane {
            let d = note_distance(n);
            if d < HIT_WINDOW {
                match best {
                    Some(b) => {
                        assert(t[b as int] == notes@[b as int]);
                        if d < best_distance {
                            best = Some(i);
                            best_distance = d;
                        }
                    },
                    None => {
                        best = Some(i);
                        best_distance = d;
                    },
                }
            }
        }
        i = i + 1;
    }
    assert(notes@.take(notes@.len() as int) =~= notes@);
    proof {
        lemma_best_is_nearest(notes@, lane as int);
    }
    best
}

/// `x`, or the largest `u32` where `x` is larger.
pub open spec fn sat32(x: int) -> u32 {
    if x > u32::MAX {
        u32::MAX
    } else {
        x as u32
    }
}

/// `x`, or the largest `u64` where `x` is larger.
pub open spec fn sat64(x: int) -> u64 {
    if x > u64::MAX {
        u64::MAX
    } else {
        x as u64
    }
}

/// Score, combo, best combo and live notes after one press in `lane`, with
/// the points gained when a note was struck.
///
/// A struck note leaves the field, adds its points and extends the combo; a
/// press with nothing to strike ends the combo.
pub open spec fn press_outcome(score: u32, combo: u32, max_combo: u32, s: Seq<Note>, lane: int) -> (
    u32,
    u32,
    u32,
    Seq<Note>,
    Option<u32>,
) {
    match best_in(s, lane) {
        Some(i) => {
            let gain = gain_of(distance(s[i]));
            let c = sat32(combo + 1);
            (
                sat32(score + gain),
                c,
                if c > max_combo {
                    c
                } else {
                    max_combo
                },
                s.remove(i),
                Some(gain as u32),
            )
        },
        None => (score, 0, max_combo, s, None),
    }
}

/// Judges a press in the lane of `key`: strikes the nearest note in the hit
/// window and scores it, or ends the combo. Returns the points gained.
pub fn judge_press(res: &mut GameResources, notes: &mut Vec<Note>, key: NoteKey) -> (r: Option<u32>)
    ensures
        (final(res).score, final(res).combo, final(res).max_combo, final(notes)@, r) == press_outcome(
            old(res).score,
            old(res).combo,
            old(res).max_combo,
            old(notes)@,
            lane_of(key) as int,
        ),
        final(res).song == old(res).song,
        final(res).song_time == old(res).song_time,
{
    let lane = key.lane();
    match find_hit(notes, lane) {
        Some(i) => {
            let d = note_distance(&notes[i]);
            let gain = score_gain(d);
            notes.remove(i);
            res.score = res.score.saturating_add(gain);
            res.combo = res.combo.saturating_add(1);
            if res.combo > res.max_combo {
                res.max_combo = res.combo;
            }
            Some(gain)
        },
        None => {
            res.combo = 0;
            None
        },
    }
}

/// Score, combo, best combo and live notes after a run of key presses in
/// order, with the keys of the notes struck. Keys bound to no note are
/// ignored.
pub open spec fn presses_outcome(
    score: u32,
    combo: u32,
    max_combo: u32,
    s: Seq<Note>,
    keys: Seq<KeyCode>,
) -> (u32, u32, u32, Seq<Note>, Seq<NoteKey>)
    decreases keys.len(),
{
    if keys.len() == 0 {
        (score, combo, max_combo, s, Seq::empty())
    } else {
        let p = presses_outcome(score, combo, max_combo, s, keys.drop_last());
        match note_of_code(keys.last()) {
            None => p,
            Some(k) => {
                let q = press_outcome(p.0, p.1, p.2, p.3, lane_of(k) as int);
                (q.0, q.1, q.2, q.3, if q.4 is Some {
                    p.4.push(k)
                } else {
                    p.4
                })
            },
        }
    }
}

/// Judges the keys pressed in one tick, in order. Returns the keys of the
/// notes struck, whose sound is to be played.
pub fn handle_key_presses(res: &mut GameResources, notes: &mut Vec<Note>, pressed: &Vec<KeyCode>) -> (r: Vec<NoteKey>)
    ensures
        (final(res).score, final(res).combo, final(res).max_combo, final(notes)@, r@) == presses_outcome(
            old(res).score,
            old(res).combo,
            old(res).max_combo,
            old(notes)@,
            pressed@,
        ),
        final(res).song == old(res).song,
        final(res).song_time == old(res).song_time,
{
    let ghost (s0, c0, m0, n0) = (res.score, res.combo, res.max_combo, notes@);
    let mut hits: Vec<NoteKey> = Vec::new();
    let mut i: usize = 0;
    assert(pressed@.take(0) =~= Seq::<KeyCode>::empty());
    while i < pressed.len()
        invariant
            i <= pressed.len(),
            (res.score, res.combo, res.max_combo, notes@, hits@) == presses_outcome(s0, c0, m0, n0, pressed@.take(i as int)),
            res.song == old(res).song,
            res.song_time == old(res).song_time,
        decreases pressed.len() - i,
    {
        assert(pressed@.take(i + 1).drop_last() =~= pressed@.take(i as int));
        assert(pressed@.take(i + 1).last() == pressed@[i as int]);
        match NoteKey::from_key_code(pressed[i]) {
            Some(k) => {
                let gained = judge_press(res, notes, k);
                if gained.is_some() {
                    hits.push(k);
                }
            },
            None => {},
        }
        i = i + 1;
    }
    assert(pressed@.take(pressed@.len() as int) =~= pressed@);
    hits
}

/// Time of the latest event of a song; zero for a song without events.
pub open spec fn last_event_time(s: Seq<SongNote>) -> int
    decreases s.len(),
{
    if s.len() == 0 {
        0
    } else {
        let before = last_event_time(s.drop_last());
        if s.last().time > before {
            s.last().time as int
        } else {
            before
        }
    }
}

/// The session may end: a song is loaded, the trailing grace after its last
/// event has passed, and no note is left on the field.
pub open spec fn game_over_due(song: Option<SongData>, clock: int, live: int) -> bool {
    &&& song is Some
    &&& clock > last_event_time(song_events(song)) + TRAILING_GRACE
    &&& live == 0
}

/// Time of the latest event of a song.
pub fn last_note_time(events: &Vec<SongNote>) -> (r: u64)
    ensures
        r == last_event_time(events@),
{
    let mut latest: u64 = 0;
    let mut i: usize = 0;
    assert(events@.take(0) =~= Seq::<SongNote>::empty());
    while i < events.len()
        invariant
            i <= events.len(),
            latest == last_event_time(events@.take(i as int)),
        decreases events.len() - i,
    {
        assert(events@.take(i + 1).drop_last() =~= events@.take(i as int));
        if events[i].time > latest {
            latest = events[i].time;
        }
        i = i + 1;
    }
    assert(events@.take(events@.len() as int) =~= events@);
    latest
}

/// Whether the session is over.
pub fn check_game_over(res: &GameResources, notes: &Vec<Note>) -> (r: bool)
    ensures
        r == game_over_due(res.song, res.song_time as int, notes@.len() as int),
{
    match &res.song {
        Some(song) => {
            let last = last_note_time(&song.notes);
            res.song_time as u128 > last as u128 + TRAILING_GRACE as u128 && notes.len() == 0
        },
        None => false,
    }
}

/// Moves the session clock on by `delta`. Returns the time now elapsed.
pub fn advance(res: &mut GameResources, delta: u64) -> (r: u64)
    ensures
        r == sat64(old(res).song_time + delta),
        final(res).song_time == r,
        final(res).score == old(res).score,
        final(res).combo == old(res).combo,
        final(res).max_combo == old(res).max_combo,
        final(res).song == old(res).song,
{
    res.song_time = res.song_time.saturating_add(delta);
    res.song_time
}

/// Resets the session for a new play: zero score, combo, best combo and
/// clock, and the song loaded.
pub fn setup_game(res: &mut GameResources)
    ensures
        final(res).score == 0,
        final(res).combo == 0,
        final(res).max_combo == 0,
        final(res).song_time == 0,
        final(res).song matches Some(s) && s.title@ == "Example Song"@ && s.bpm == 120,
        song_events(final(res).song) == example_song_notes(),
{
    res.song = Some(load_song_data());
    res.song_time = 0;
    res.score = 0;
    res.combo = 0;
    res.max_combo = 0;
}

/// Discards every live note.
pub fn cleanup_game(notes: &mut Vec<Note>)
    ensures
        final(notes)@ == Seq::<Note>::empty(),
{
    notes.clear();
}

/// An event comes due on the tick at whose end its lead over the clock has
/// just fallen to the look-ahead or below.
pub proof fn lemma_due_iff_crossing(hit_time: int, prev_clock: int, clock: int)
    ensures
        is_due(hit_time, clock, clock - prev_clock) <==> (hit_time - prev_clock > LOOK_AHEAD && hit_time - clock <= LOOK_AHEAD),
{
}

/// Over a run of ticks whose clock readings rise strictly, an event whose
/// lead starts above the look-ahead and ends at or below it comes due on
/// exactly one tick.
pub proof fn lemma_spawn_exactly_once(hit_time: int, clocks: Seq<int>)
    requires
        clocks.len() >= 2,
        forall|i: int, j: int| 0 <= i < j < clocks.len() ==> clocks[i] < clocks[j],
        hit_time - clocks[0] > LOOK_AHEAD,
        hit_time - clocks.last() <= LOOK_AHEAD,
    ensures
        exists|k: int| 1 <= k < clocks.len() && is_due(hit_time, #[trigger] clocks[k], clocks[k] - clocks[k - 1]),
        forall|j: int, k: int|
            #![trigger clocks[j], clocks[k]]
            1 <= j < clocks.len() && 1 <= k < clocks.len() && is_due(hit_time, clocks[j], clocks[j] - clocks[j - 1])
                && is_due(hit_time, clocks[k], clocks[k] - clocks[k - 1]) ==> j == k,
    decreases clocks.len(),
{
    let n = clocks.len() as int;
    if hit_time - clocks[n - 2] > LOOK_AHEAD {
        assert(is_due(hit_time, clocks[n - 1], clocks[n - 1] - clocks[n - 2]));
    } else {
        let t = clocks.drop_last();
        assert forall|i: int, j: int| 0 <= i < j < t.len() implies t[i] < t[j] by {
            assert(t[i] == clocks[i] && t[j] == clocks[j]);
        }
        lemma_spawn_exactly_once(hit_time, t);
        let k = choose|k: int| 1 <= k < t.len() && is_due(hit_time, #[trigger] t[k], t[k] - t[k - 1]);
        assert(is_due(hit_time, clocks[k], clocks[k] - clocks[k - 1]));
    }
    assert forall|j: int, k: int|
        #![trigger clocks[j], clocks[k]]
        1 <= j < clocks.len() && 1 <= k < clocks.len() && is_due(hit_time, clocks[j], clocks[j] - clocks[j - 1])
            && is_due(hit_time, clocks[k], clocks[k] - clocks[k - 1]) implies j == k by {
        if j < k {
            assert(clocks[j] <= clocks[k - 1]);
        } else if k < j {
            assert(clocks[k] <= clocks[j - 1]);
        }
    }
}

/// A note in the hit zone earns full points, one half a window away earns
/// half, and one a full window away or further cannot be struck.
pub proof fn lemma_hit_scoring(n: Note, lane: int)
    ensures
        gain_of(0) == MAX_SCORE_GAIN,
        gain_of(HIT_WINDOW as int / 2) == MAX_SCORE_GAIN / 2,
        distance(n) >= HIT_WINDOW ==> !is_candidate(n, lane),
{
    assert(10_050_000int / 100_000int == 100) by (nonlinear_arith);
    assert(5_050_000int / 100_000int == 50) by (nonlinear_arith);
}

/// A press that strikes a note extends the combo by one and lifts the best
/// combo to at least the combo; a press with nothing to strike ends the
/// combo and keeps the best combo.
pub proof fn lemma_combo_step(score: u32, combo: u32, max_combo: u32, s: Seq<Note>, lane: int)
    ensures
        best_in(s, lane) is Some && combo < u32::MAX ==> press_outcome(score, combo, max_combo, s, lane).1 == combo + 1,
        best_in(s, lane) is Some ==> press_outcome(score, combo, max_combo, s, lane).2 >= press_outcome(
            score,
            combo,
            max_combo,
            s,
            lane,
        ).1,
        best_in(s, lane) is Some ==> press_outcome(score, combo, max_combo, s, lane).2 >= max_combo,
        best_in(s, lane) is None ==> press_outcome(score, combo, max_combo, s, lane).1 == 0,
        best_in(s, lane) is None ==> press_outcome(score, combo, max_combo, s, lane).2 == max_combo,
{
}

/// Three presses in a row that each strike a note, from a fresh streak,
/// raise the combo to three and the best combo to at least three.
pub proof fn lemma_three_hits(score: u32, max_combo: u32, s: Seq<Note>, lane1: int, lane2: int, lane3: int)
    requires
        best_in(s, lane1) is Some,
        best_in(press_outcome(score, 0, max_combo, s, lane1).3, lane2) is Some,
        best_in(
            press_outcome(
                press_outcome(score, 0, max_combo, s, lane1).0,
                press_outcome(score, 0, max_combo, s, lane1).1,
                press_outcome(score, 0, max_combo, s, lane1).2,
                press_outcome(score, 0, max_combo, s, lane1).3,
                lane2,
            ).3,
            lane3,
        ) is Some,
    ensures
        ({
            let a = press_outcome(score, 0, max_combo, s, lane1);
            let b = press_outcome(a.0, a.1, a.2, a.3, lane2);
            let c = press_outcome(b.0, b.1, b.2, b.3, lane3);
            c.1 == 3 && c.2 >= 3
        }),
{
}

} // verus!
