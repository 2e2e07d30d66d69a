//! The game's phases and the per-tick pipeline of a play session.
use vstd::prelude::*;
use crate::notes::{NoteKey, KeyCode, GameState, SongNote, example_song_notes, note_of_code, lane_of};
use crate::engine::{
    Note, GameResources, advance, spawn_notes, move_notes, handle_key_presses, check_game_over,
    setup_game, cleanup_game, song_events, spawn_list, moved_list, presses_outcome, best_in,
    spawned_by, game_over_due, sat64, lemma_best_is_nearest,
};

verus! {

/// The whole game: its phase, the session resources and the live notes.
#[derive(Debug)]
pub struct Game {
    pub state: GameState,
    pub resources: GameResources,
    pub notes: Vec<Note>,
}

/// Every note of `spawn_list` was spawned at `clock`.
proof fn lemma_spawn_list_at(s: Seq<SongNote>, clock: u64, delta: u64)
    ensures
        forall|i: int| 0 <= i < spawn_list(s, clock, delta).len() ==> spawn_list(s, clock, delta)[i].spawn_time == clock,
    decreases s.len(),
{
    if s.len() > 0 {
        lemma_spawn_list_at(s.drop_last(), clock, delta);
    }
}

/// Moving keeps the spawn times.
proof fn lemma_moved_spawned_by(s: Seq<Note>, clock: int)
    requires
        spawned_by(s, clock),
    ensures
        spawned_by(moved_list(s, clock), clock),
    decreases s.len(),
{
    if s.len() > 0 {
        assert(spawned_by(s.drop_last(), clock));
        lemma_moved_spawned_by(s.drop_last(), clock);
    }
}

/// Judging presses keeps the spawn times.
proof fn lemma_presses_spawned_by(score: u32, combo: u32, max_combo: u32, s: Seq<Note>, keys: Seq<KeyCode>, clock: int)
    requires
        spawned_by(s, clock),
    ensures
        spawned_by(presses_outcome(score, combo, max_combo, s, keys).3, clock),
    decreases keys.len(),
{
    if keys.len() > 0 {
        lemma_presses_spawned_by(score, combo, max_combo, s, keys.drop_last(), clock);
        let p = presses_outcome(score, combo, max_combo, s, keys.drop_last());
        match note_of_code(keys.last()) {
            Some(k) => {
                match best_in(p.3, lane_of(k) as int) {
                    Some(i) => {
                        lemma_best_is_nearest(p.3, lane_of(k) as int);
                        let q = p.3.remove(i);
                        assert forall|j: int| 0 <= j < q.len() implies q[j].spawn_time <= clock by {
                            if j < i {
                                assert(q[j] == p.3[j]);
                            } else {
                                assert(q[j] == p.3[j + 1]);
                            }
                        }
                    },
                    None => {},
                }
            },
            None => {},
        }
    }
}

impl Game {
    /// Live notes were all spawned by the session clock.
    pub open spec fn wf(&self) -> bool {
        spawned_by(self.notes@, self.resources.song_time as int)
    }

    /// Whether no live note was spawned after the session clock.
    pub fn is_well_formed(&self) -> (r: bool)
        ensures
            r == self.wf(),
    {
        let mut i: usize = 0;
        while i < self.notes.len()
            invariant
                i <= self.notes@.len(),
                forall|j: int| 0 <= j < i ==> self.notes@[j].spawn_time <= self.resources.song_time,
            decreases self.notes.len() - i,
        {
            if self.notes[i].spawn_time > self.resources.song_time {
                return false;
            }
            i = i + 1;
        }
        true
    }

    /// A game at the main menu, with nothing loaded.
    pub fn new() -> (r: Game)
        ensures
            r.wf(),
            r.state == GameState::MainMenu,
            r.resources.score == 0,
            r.resources.combo == 0,
            r.resources.max_combo == 0,
            r.resources.song is None,
            r.resources.song_time == 0,
            r.notes@.len() == 0,
    {
        Game { state: GameState::MainMenu, resources: GameResources::default(), notes: Vec::new() }
    }

    /// Confirms play from the main menu: enters `Playing` with a fresh
    /// session. Returns whether the phase changed; outside the main menu
    /// nothing happens.
    pub fn start(&mut self) -> (r: bool)
        requires
            old(self).wf(),
        ensures
            final(self).wf(),
            r == (old(self).state == GameState::MainMenu),
            r ==> {
                &&& final(self).state == GameState::Playing
                &&& final(self).resources.score == 0
                &&& final(self).resources.combo == 0
                &&& final(self).resources.max_combo == 0
                &&& final(self).resources.song_time == 0
                &&& final(self).resources.song is Some
                &&& song_events(final(self).resources.song) == example_song_notes()
                &&& final(self).notes@.len() == 0
            },
            !r ==> *final(self) == *old(self),
    {
        match self.state {
            GameState::MainMenu => {
                cleanup_game(&mut self.notes);
                setup_game(&mut self.resources);
                self.state = GameState::Playing;
                true
            },
            _ => false,
        }
    }

    /// Runs one tick of `delta` milliseconds with the keys pressed during it.
    /// While playing: advance the clock, spawn the notes that come due, move
    /// the live notes, judge the presses in order, then end the session if it
    /// is over. Returns the keys of the notes struck. Outside `Playing`
    /// nothing happens.
    pub fn tick(&mut self, delta: u64, pressed: &Vec<KeyCode>) -> (r: Vec<NoteKey>)
        requires
            old(self).wf(),
        ensures
            final(self).wf(),
            old(self).state != GameState::Playing ==> *final(self) == *old(self) && r@.len() == 0,
            old(self).state == GameState::Playing ==> {
                let clock = sat64(old(self).resources.song_time + delta);
                let spawned = old(self).notes@ + spawn_list(song_events(old(self).resources.song), clock, delta);
                let out = presses_outcome(
                    old(self).resources.score,
                    old(self).resources.combo,
                    old(self).resources.max_combo,
                    moved_list(spawned, clock as int),
                    pressed@,
                );
                &&& final(self).resources.song_time == clock
                &&& final(self).resources.song == old(self).resources.song
                &&& final(self).resources.score == out.0
                &&& final(self).resources.combo == out.1
                &&& final(self).resources.max_combo == out.2
                &&& final(self).notes@ == out.3
                &&& r@ == out.4
                &&& final(self).state == if game_over_due(old(self).resources.song, clock as int, out.3.len() as int) {
                    GameState::GameOver
                } else {
                    GameState::Playing
                }
            },
    {
        match self.state {
            GameState::Playing => {},
            _ => {
                return Vec::new();
            },
        }
        let ghost old_clock = self.resources.song_time;
        let clock = advance(&mut self.resources, delta);
        let ghost before = self.notes@;
        spawn_notes(&self.resources, delta, &mut self.notes);
        proof {
            lemma_spawn_list_at(song_events(self.resources.song), clock, delta);
            assert(spawned_by(self.notes@, clock as int)) by {
                assert forall|i: int| 0 <= i < self.notes@.len() implies self.notes@[i].spawn_time <= clock by {
                    if i >= before.len() {
                        assert(self.notes@[i] == spawn_list(song_events(self.resources.song), clock, delta)[i - before.len()]);
                    } else {
                        assert(self.notes@[i] == before[i]);
                    }
                }
            }
        }
        let ghost spawned = self.notes@;
        move_notes(&mut self.notes, clock);
        proof {
            lemma_moved_spawned_by(spawned, clock as int);
        }
        let ghost moved = self.notes@;
        let hits = handle_key_presses(&mut self.resources, &mut self.notes, pressed);
        proof {
            lemma_presses_spawned_by(
                old(self).resources.score,
                old(self).resources.combo,
                old(self).resources.max_combo,
                moved,
                pressed@,
                clock as int,
            );
        }
        if check_game_over(&self.resources, &self.notes) {
            cleanup_game(&mut self.notes);
            assert(self.notes@ =~= presses_outcome(
                old(self).resources.score,
                old(self).resources.combo,
                old(self).resources.max_combo,
                moved,
                pressed@,
            ).3);
            self.state = GameState::GameOver;
        }
        hits
    }
}

} // verus!
