use vstd::prelude::*;

use crate::geometry::{bounding_boxes_overlap, rect_overlap, Point, Rect};
use crate::sprites::{
    ground_move, obstacle_height, obstacle_size, obstacle_width, obstacles_step_rel, trex_step,
    will_recycle, Ground, Obstacles, Trex, TrexState, CACTUS_Y, GROUND_X_START, GROUND_Y,
    OBSTACLE_SPAWN_X, OBSTACLE_VELOCITY, OLED_WIDTH, TREX_GROUND_Y, TREX_HEIGHT, TREX_WIDTH,
    TREX_X,
};

verus! {

/// The top-level game phase. `Playing` is initial; `GameOver` lasts until
/// the reset gesture re-initializes the whole engine.
#[derive(Clone, Copy, PartialEq, Eq, Structural, Debug)]
pub enum GameState {
    Playing,
    GameOver,
}

/// The reset gesture needs more than this many consecutive active input
/// samples.
pub const RESET_DEBOUNCE: u32 = 2;

/// The character's bounding box at its current position.
pub open spec fn trex_rect(t: Trex) -> Rect {
    Rect { origin: t.position, width: TREX_WIDTH, height: TREX_HEIGHT }
}

/// The bounding box of a queued obstacle, given as (sprite kind, x).
pub open spec fn obstacle_rect(item: (u32, i32)) -> Rect {
    Rect {
        origin: Point { x: item.1, y: CACTUS_Y },
        width: obstacle_width(item.0),
        height: obstacle_height(item.0),
    }
}

/// Whether the character overlaps any live obstacle.
pub open spec fn collides(trex: Trex, obstacles: Seq<(u32, i32)>) -> bool {
    exists|i: int|
        0 <= i < obstacles.len() && rect_overlap(trex_rect(trex), obstacle_rect(
            #[trigger] obstacles[i],
        ))
}

/// The game orchestrator: owns the character, the obstacle queue, the
/// ground and the score, and runs the fixed per-frame pipeline. Read the
/// fields freely; mutate only through the methods, which keep `wf`.
pub struct Game {
    pub state: GameState,
    pub obstacles: Obstacles,
    pub score: u32,
    pub trex: Trex,
    pub ground: Ground,
    pub reset_count: u32,
}

/// What one playing frame does, from the sampled input to the resulting
/// state: a pressed button starts a jump if the character is running (one
/// jumping step applies at once); the obstacles advance, with the score up
/// by one exactly when the front obstacle recycles; the ground scrolls; the
/// character advances one step; and the frame ends in game-over exactly
/// when the advanced character overlaps a live obstacle.
pub open spec fn frame_rel(pre: Game, post: Game, pressed: bool, hit: bool) -> bool {
    let jumped = pressed && pre.trex.state == TrexState::Running;
    let t1 = if jumped {
        trex_step(Trex { state: TrexState::Jumping, ..pre.trex })
    } else {
        pre.trex
    };
    let rec = will_recycle(pre.obstacles@);
    &&& obstacles_step_rel(pre.obstacles@, post.obstacles@, rec)
    &&& post.score == pre.score + (if rec {
        1int
    } else {
        0int
    })
    &&& post.ground.position.x == ground_move(pre.ground.position.x as int, OBSTACLE_VELOCITY as int)
    &&& post.ground.position.y == pre.ground.position.y
    &&& post.trex == trex_step(t1)
    &&& hit == collides(post.trex, post.obstacles@)
    &&& post.state == (if hit {
        GameState::GameOver
    } else {
        GameState::Playing
    })
    &&& post.reset_count == pre.reset_count
}

impl Game {
    /// Internal invariant of the whole engine.
    pub open spec fn wf(self) -> bool {
        &&& self.trex.wf()
        &&& self.obstacles.wf()
        &&& self.ground.wf()
        &&& self.reset_count <= RESET_DEBOUNCE
    }

    /// The state of a freshly initialized engine: playing, score zero, the
    /// character running on the ground, two obstacles seeded at the right
    /// screen edge and one gap beyond it, ground at the start offset.
    pub open spec fn is_initial(self) -> bool {
        &&& self.state == GameState::Playing
        &&& self.score == 0
        &&& self.trex == (Trex {
            position: Point { x: TREX_X, y: TREX_GROUND_Y },
            state: TrexState::Running,
        })
        &&& self.obstacles@ == seq![(0u32, OLED_WIDTH), (1u32, OBSTACLE_SPAWN_X)]
        &&& self.ground.position == (Point { x: GROUND_X_START, y: GROUND_Y })
        &&& self.reset_count == 0
    }

    /// A fresh game.
    pub fn new() -> (g: Game)
        ensures
            g.wf(),
            g.is_initial(),
    {
        Game {
            score: 0,
            trex: Trex::new(TREX_X, TREX_GROUND_Y),
            ground: Ground::new(),
            obstacles: Obstacles::new(),
            state: GameState::Playing,
            reset_count: 0,
        }
    }

    /// Advances the world by one frame: every obstacle scrolls left, the
    /// score goes up by one exactly when the front obstacle is recycled,
    /// and the ground scrolls with the same velocity. The character and the
    /// game phase are untouched.
    pub fn move_world(&mut self)
        requires
            old(self).wf(),
            old(self).score < u32::MAX,
        ensures
            final(self).wf(),
            obstacles_step_rel(
                old(self).obstacles@,
                final(self).obstacles@,
                will_recycle(old(self).obstacles@),
            ),
            final(self).score == old(self).score + (if will_recycle(old(self).obstacles@) {
                1int
            } else {
                0int
            }),
            final(self).ground.position.x == ground_move(
                old(self).ground.position.x as int,
                OBSTACLE_VELOCITY as int,
            ),
            final(self).ground.position.y == old(self).ground.position.y,
            final(self).trex == old(self).trex,
            final(self).state == old(self).state,
            final(self).reset_count == old(self).reset_count,
    {
        if self.obstacles.update_state() {
            self.score += 1;
        }
        self.ground.move_by_velocity(OBSTACLE_VELOCITY);
    }

    /// Starts a jump when the character is running: the state turns to
    /// jumping and one jumping step applies at once. Returns whether the
    /// jump was accepted; a jump while airborne is rejected and changes
    /// nothing.
    pub fn trex_jump(&mut self) -> (jumped: bool)
        requires
            old(self).trex.wf(),
        ensures
            final(self).trex.wf(),
            jumped == (old(self).trex.state == TrexState::Running),
            jumped ==> *final(self) == (Game {
                trex: trex_step(Trex { state: TrexState::Jumping, ..old(self).trex }),
                ..*old(self)
            }),
            !jumped ==> *final(self) == *old(self),
    {
        if self.trex.state == TrexState::Running {
            self.trex.state = TrexState::Jumping;
            self.trex.update_state();
            return true;
        }
        false
    }

    /// Advances the character by one physics step; a running character
    /// stays put.
    pub fn update_trex(&mut self)
        requires
            old(self).trex.wf(),
        ensures
            *final(self) == (Game { trex: trex_step(old(self).trex), ..*old(self) }),
            final(self).trex.wf(),
    {
        if self.trex.state != TrexState::Running {
            self.trex.update_state();
        }
    }

    /// Whether the character's bounding box overlaps any live obstacle's.
    /// Boxes that merely touch along an edge do not collide.
    pub fn check_collison(&self) -> (hit: bool)
        ensures
            hit == collides(self.trex, self.obstacles@),
    {
        let trex_bbox = Rect {
            origin: self.trex.position,
            width: TREX_WIDTH,
            height: TREX_HEIGHT,
        };
        let obstacles = self.obstacles.get_current();
        let mut i: usize = 0;
        while i < obstacles.len()
            invariant
                i <= obstacles@.len(),
                obstacles@.len() == self.obstacles@.len(),
                forall|j: int| 0 <= j < obstacles@.len() ==> (#[trigger] obstacles@[j]).sprite_id
                    == self.obstacles@[j].0 && obstacles@[j].x == self.obstacles@[j].1,
                trex_bbox == trex_rect(self.trex),
                forall|j: int| 0 <= j < i ==> !rect_overlap(trex_rect(self.trex), obstacle_rect(
                    #[trigger] self.obstacles@[j],
                )),
            decreases obstacles@.len() - i,
        {
            let obs = obstacles[i];
            let size = obstacle_size(obs.sprite_id);
            let obs_bbox = Rect {
                origin: Point { x: obs.x, y: CACTUS_Y },
                width: size.0,
                height: size.1,
            };
            if bounding_boxes_overlap(trex_bbox, obs_bbox) {
                proof {
                    assert(rect_overlap(trex_rect(self.trex), obstacle_rect(
                        self.obstacles@[i as int],
                    )));
                }
                return true;
            }
            i += 1;
        }
        false
    }

    /// Ends the run: the game phase turns to game-over; everything else is
    /// kept for the final screen.
    pub fn game_over(&mut self)
        ensures
            *final(self) == (Game { state: GameState::GameOver, ..*old(self) }),
    {
        self.state = GameState::GameOver;
    }

    /// One simulation frame while playing, in the fixed order: sample the
    /// input, start a jump when pressed and accepted, advance obstacles and
    /// score, advance the ground, advance the character, then detect
    /// collision; a hit ends the frame in game-over. Returns whether a
    /// collision ended the run.
    pub fn frame(&mut self, button_pressed: bool) -> (hit: bool)
        requires
            old(self).wf(),
            old(self).state == GameState::Playing,
            old(self).score < u32::MAX,
        ensures
            final(self).wf(),
            frame_rel(*old(self), *final(self), button_pressed, hit),
    {
        if button_pressed {
            let _ = self.trex_jump();
        }
        self.move_world();
        self.update_trex();
        let hit = self.check_collison();
        if hit {
            self.game_over();
        }
        hit
    }

    /// One poll of the reset gesture while game-over: an active sample
    /// raises the consecutive count, an inactive one clears it; once more
    /// than `RESET_DEBOUNCE` consecutive samples are active, the whole
    /// engine re-initializes and play resumes. Returns whether the reset
    /// happened.
    pub fn poll_reset(&mut self, button_pressed: bool) -> (reset: bool)
        requires
            old(self).wf(),
            old(self).state == GameState::GameOver,
        ensures
            final(self).wf(),
            reset == (button_pressed && old(self).reset_count + 1 > RESET_DEBOUNCE),
            reset ==> final(self).is_initial(),
            !reset && button_pressed ==> *final(self) == (Game {
                reset_count: (old(self).reset_count + 1) as u32,
                ..*old(self)
            }),
            !button_pressed ==> *final(self) == (Game { reset_count: 0u32, ..*old(self) }),
    {
        if button_pressed {
            self.reset_count += 1;
            if self.reset_count > RESET_DEBOUNCE {
                *self = Game::new();
                return true;
            }
        } else {
            self.reset_count = 0;
        }
        false
    }
}

} // verus!
