//! The game state and its per-frame behaviour: an entity list, the
//! input state, a score, a frame counter and two millisecond clocks.
//! Each frame the shell reads the wall clock, hands the time here, and
//! the update moves every player entity by its velocity along the axes
//! whose keys are held. The draw pass only reads: the background scroll
//! offsets and the decision to report the frame rate are computed here.

use vstd::prelude::*;
use crate::entity::{Entity, EntityType, translated};
use crate::input::Input;

verus! {

/// The entity the game starts with: the player sprite (index 0 in the
/// shell's sprite table) at the origin.
pub open spec fn initial_player() -> Entity {
    Entity {
        entity_type: EntityType::Player,
        sprite: 0,
        x: 0,
        y: 0,
        hp: 100,
        vel: 10,
        bounds_w: 256,
        bounds_h: 171,
    }
}

/// `e` after one frame under the input `inp`: a player entity is moved
/// by its velocity once per held direction key, in the order left,
/// right, up, down; any other entity is kept as it is.
pub open spec fn stepped(e: Entity, inp: Input) -> Entity {
    if e.entity_type == EntityType::Player {
        let a = if inp.left {
            translated(e, -(e.vel as int), 0)
        } else {
            e
        };
        let b = if inp.right {
            translated(a, e.vel as int, 0)
        } else {
            a
        };
        let c = if inp.up {
            translated(b, 0, -(b.vel as int))
        } else {
            b
        };
        if inp.down {
            translated(c, 0, c.vel as int)
        } else {
            c
        }
    } else {
        e
    }
}

/// How far the background has scrolled at `elapsed_ms`: one game unit
/// every 40 milliseconds, wrapping at the background height of 1920.
pub open spec fn scroll_offset(elapsed_ms: u64) -> int {
    (elapsed_ms as int / 40) % 1920
}

/// The whole state of the game.
pub struct MainState {
    /// Frames drawn so far.
    pub frames: usize,
    pub entities: Vec<Entity>,
    pub input: Input,
    pub score: u32,
    /// Wall-clock milliseconds at the last update.
    pub elapsed_ms: u64,
    /// Milliseconds between the two last updates.
    pub delta_ms: u64,
}

impl MainState {
    /// The starting state: no frames drawn, score zero, no key held,
    /// both clocks at zero, and the player as the only entity.
    pub fn new() -> (s: MainState)
        ensures
            s.frames == 0,
            s.entities@ =~= seq![initial_player()],
            s.input == (Input { left: false, right: false, up: false, down: false, shoot: false }),
            s.score == 0,
            s.elapsed_ms == 0,
            s.delta_ms == 0,
    {
        let mut entities: Vec<Entity> = Vec::new();
        entities.push(Entity {
            entity_type: EntityType::Player,
            sprite: 0,
            x: 0,
            y: 0,
            hp: 100,
            vel: 10,
            bounds_w: 256,
            bounds_h: 171,
        });
        MainState {
            frames: 0,
            entities,
            input: Input::new(),
            score: 0,
            elapsed_ms: 0,
            delta_ms: 0,
        }
    }

    /// Take the wall clock's reading for this frame: `delta_ms` becomes
    /// the time since the previous reading and `elapsed_ms` the new
    /// reading. The clock must not run backwards.
    pub fn update_time(&mut self, now_ms: u64)
        requires
            now_ms >= old(self).elapsed_ms,
        ensures
            final(self).elapsed_ms == now_ms,
            final(self).delta_ms == now_ms - old(self).elapsed_ms,
            final(self).frames == old(self).frames,
            final(self).entities@ == old(self).entities@,
            final(self).input == old(self).input,
            final(self).score == old(self).score,
    {
        self.delta_ms = now_ms - self.elapsed_ms;
        self.elapsed_ms = now_ms;
    }

    /// One step of the game: take the clock reading, then move every
    /// player entity as the held keys direct. Input, score and frame
    /// count are not touched.
    pub fn update(&mut self, now_ms: u64)
        requires
            now_ms >= old(self).elapsed_ms,
        ensures
            final(self).elapsed_ms == now_ms,
            final(self).delta_ms == now_ms - old(self).elapsed_ms,
            final(self).entities@.len() == old(self).entities@.len(),
            forall|i: int|
                0 <= i < old(self).entities@.len() ==> final(self).entities@[i] == stepped(
                    old(self).entities@[i],
                    old(self).input,
                ),
            final(self).input == old(self).input,
            final(self).score == old(self).score,
            final(self).frames == old(self).frames,
    {
        self.update_time(now_ms);
        let inp = self.input;
        let n = self.entities.len();
        let mut i: usize = 0;
        while i < n
            invariant
                i <= n,
                n == self.entities@.len(),
                n == old(self).entities@.len(),
                inp == old(self).input,
                forall|j: int|
                    0 <= j < i ==> self.entities@[j] == stepped(
                        old(self).entities@[j],
                        old(self).input,
                    ),
                forall|j: int| i <= j < n ==> self.entities@[j] == old(self).entities@[j],
                self.elapsed_ms == now_ms,
                self.delta_ms == now_ms - old(self).elapsed_ms,
                self.input == old(self).input,
                self.score == old(self).score,
                self.frames == old(self).frames,
            decreases n - i,
        {
            let mut e = self.entities[i];
            match e.entity_type {
                EntityType::Player => {
                    let vel = e.vel as i64;
                    if inp.left {
                        e.translate(-vel, 0);
                    }
                    if inp.right {
                        e.translate(vel, 0);
                    }
                    if inp.up {
                        e.translate(0, -vel);
                    }
                    if inp.down {
                        e.translate(0, vel);
                    }
                    if inp.shoot {
                        // Bullets are not spawned yet.
                    }
                },
                _ => {},
            }
            self.entities[i] = e;
            i = i + 1;
        }
    }

    /// The vertical positions of the two staggered background copies
    /// for the current elapsed time: the lower copy at the scroll
    /// offset, the upper one a full background height of 1920 above it.
    pub fn background_offsets(&self) -> (r: (i64, i64))
        ensures
            r.0 == scroll_offset(self.elapsed_ms),
            r.1 == r.0 - 1920,
            0 <= r.0 < 1920,
    {
        let off = ((self.elapsed_ms / 40) % 1920) as i64;
        (off, off - 1920)
    }

    /// Count a drawn frame and say whether the shell should report the
    /// frame rate, which it does every hundredth frame.
    pub fn end_frame(&mut self) -> (report: bool)
        requires
            old(self).frames < usize::MAX,
        ensures
            final(self).frames == old(self).frames + 1,
            report == (final(self).frames % 100 == 0),
            final(self).entities@ == old(self).entities@,
            final(self).input == old(self).input,
            final(self).score == old(self).score,
            final(self).elapsed_ms == old(self).elapsed_ms,
            final(self).delta_ms == old(self).delta_ms,
    {
        self.frames = self.frames + 1;
        self.frames % 100 == 0
    }
}

/// Milliseconds from a wall-clock reading of whole seconds and the
/// nanoseconds of the current second, as the shell gets it from the
/// system clock.
pub fn millis_from(secs: u64, nanos: u32) -> (ms: u64)
    requires
        secs * 1000 + nanos as int / 1_000_000 <= u64::MAX,
    ensures
        ms == secs * 1000 + nanos as int / 1_000_000,
{
    secs * 1000 + (nanos / 1_000_000) as u64
}

} // verus!
