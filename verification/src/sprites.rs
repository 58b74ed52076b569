use vstd::prelude::*;

use crate::geometry::Point;
use crate::obstacle_queue::{
    buffer_contents, buffer_dequeue, buffer_enqueue, buffer_items, buffer_new, buffer_peek,
    ObstacleBuffer, QUEUE_CAPACITY,
};
use crate::rng::get_random_num;

verus! {

/// Width of the visible screen in pixels.
pub const OLED_WIDTH: i32 = 128;

/// Length of the repeating ground strip in pixels.
pub const GROUND_X_LENGTH: i32 = 1200;

/// y coordinate of the ground strip.
pub const GROUND_Y: i32 = 54;

/// Initial (and reset) x offset of the ground strip.
pub const GROUND_X_START: i32 = 0;

/// Fixed x coordinate of the character (camera-relative).
pub const TREX_X: i32 = 10;

/// y coordinate of the character while it runs on the ground.
pub const TREX_GROUND_Y: i32 = 29;

/// Highest point (smallest y) the character can reach during a jump.
pub const TREX_MIN_Y: i32 = 3;

/// y coordinate of every obstacle.
pub const CACTUS_Y: i32 = 35;

/// Per-frame change of the character's y while jumping (negative: upwards).
pub const TREX_VELOCITY: i32 = -10;

/// Per-frame change of the character's y while falling (positive: downwards).
pub const GRAVITY: i32 = 15;

/// Per-frame change of every obstacle's x (negative: leftwards).
pub const OBSTACLE_VELOCITY: i32 = -25;

/// Horizontal gap beyond the right screen edge at which obstacles spawn.
pub const OBSTACLE_GAP: i32 = 100;

/// x coordinate at which a freshly spawned obstacle appears.
pub const OBSTACLE_SPAWN_X: i32 = OLED_WIDTH + OBSTACLE_GAP;

/// How many obstacle sprite kinds exist.
pub const NUM_OBSTACLE_KINDS: u32 = 3;

/// Pixel width of the character sprite.
pub const TREX_WIDTH: u32 = 25;

/// Pixel height of the character sprite (it reaches from its position down
/// to just above the ground line).
pub const TREX_HEIGHT: u32 = 25;

/// Pixel width of each obstacle sprite kind.
pub open spec fn obstacle_width(sprite_id: u32) -> u32 {
    if sprite_id == 0 {
        11u32
    } else if sprite_id == 1 {
        22u32
    } else {
        21u32
    }
}

/// Pixel height of each obstacle sprite kind: every cactus reaches from
/// `CACTUS_Y` down to just above the ground line.
pub open spec fn obstacle_height(sprite_id: u32) -> u32 {
    19u32
}

/// The pixel size (width, height) of an obstacle sprite kind.
pub fn obstacle_size(sprite_id: u32) -> (s: (u32, u32))
    ensures
        s.0 == obstacle_width(sprite_id),
        s.1 == obstacle_height(sprite_id),
{
    if sprite_id == 0 {
        (11, 19)
    } else if sprite_id == 1 {
        (22, 19)
    } else {
        (21, 19)
    }
}

/// The character's vertical state. Exactly one is active at a time.
#[derive(Clone, Copy, PartialEq, Eq, Structural, Debug)]
pub enum TrexState {
    Running,
    Jumping,
    Falling,
}

/// The player character: a sprite at `position` in one of three vertical
/// states. `position.x` never changes; `position.y` stays within
/// `[TREX_MIN_Y, TREX_GROUND_Y]`.
#[derive(Clone, Copy, PartialEq, Eq, Structural, Debug)]
pub struct Trex {
    pub position: Point,
    pub state: TrexState,
}

/// One physics step of the character: while jumping, `y` moves up by
/// `TREX_VELOCITY` and clamps at `TREX_MIN_Y`, where the state turns to
/// falling; while falling, `y` moves down by `GRAVITY` and clamps at
/// `TREX_GROUND_Y`, where the state turns back to running; running holds.
pub open spec fn trex_step(t: Trex) -> Trex {
    match t.state {
        TrexState::Jumping => {
            let y2: int = t.position.y + TREX_VELOCITY;
            if y2 <= TREX_MIN_Y {
                Trex {
                    position: Point { x: t.position.x, y: TREX_MIN_Y },
                    state: TrexState::Falling,
                }
            } else {
                Trex {
                    position: Point { x: t.position.x, y: y2 as i32 },
                    state: TrexState::Jumping,
                }
            }
        },
        TrexState::Falling => {
            let y2: int = t.position.y + GRAVITY;
            if y2 >= TREX_GROUND_Y {
                Trex {
                    position: Point { x: t.position.x, y: TREX_GROUND_Y },
                    state: TrexState::Running,
                }
            } else {
                Trex {
                    position: Point { x: t.position.x, y: y2 as i32 },
                    state: TrexState::Falling,
                }
            }
        },
        TrexState::Running => t,
    }
}

impl Trex {
    /// The character's y stays within its vertical band.
    pub open spec fn wf(self) -> bool {
        TREX_MIN_Y <= self.position.y <= TREX_GROUND_Y
    }

    /// A fresh character at `(x, y)`, running.
    pub fn new(x: i32, y: i32) -> (t: Trex)
        ensures
            t.position.x == x,
            t.position.y == y,
            t.state == TrexState::Running,
    {
        Trex { position: Point::new(x, y), state: TrexState::Running }
    }

    /// Moves the character to `(x, y)` without touching its state.
    pub fn update_posistion(&mut self, x: i32, y: i32)
        ensures
            final(self).position.x == x,
            final(self).position.y == y,
            final(self).state == old(self).state,
    {
        self.position = Point::new(x, y);
    }

    /// Advances the character by one physics step; see `trex_step`.
    pub fn update_state(&mut self)
        requires
            old(self).wf(),
        ensures
            *final(self) == trex_step(*old(self)),
            final(self).wf(),
    {
        match self.state {
            TrexState::Jumping => {
                // Velocity is negative: y decreases, the character moves up.
                let y = self.position.y + TREX_VELOCITY;
                if y <= TREX_MIN_Y {
                    let x = self.position.x;
                    self.update_posistion(x, TREX_MIN_Y);
                    self.state = TrexState::Falling;
                } else {
                    let x = self.position.x;
                    self.update_posistion(x, y);
                }
            },
            TrexState::Falling => {
                // Gravity is positive: y increases, the character moves down.
                let y = self.position.y + GRAVITY;
                if y >= TREX_GROUND_Y {
                    let x = self.position.x;
                    self.update_posistion(x, TREX_GROUND_Y);
                    self.state = TrexState::Running;
                } else {
                    let x = self.position.x;
                    self.update_posistion(x, y);
                }
            },
            TrexState::Running => {},
        }
    }
}

/// While the character is jumping above the top of the arc, one step
/// strictly decreases y and never takes it below `TREX_MIN_Y`; the state
/// turns to falling exactly when the top of the arc is reached.
pub proof fn lemma_jump_ascent_monotone(t: Trex)
    requires
        t.wf(),
        t.state == TrexState::Jumping,
        t.position.y > TREX_MIN_Y,
    ensures
        trex_step(t).position.y < t.position.y,
        trex_step(t).position.y >= TREX_MIN_Y,
        trex_step(t).state == TrexState::Falling <==> trex_step(t).position.y == TREX_MIN_Y,
        trex_step(t).state == TrexState::Jumping <==> trex_step(t).position.y > TREX_MIN_Y,
        trex_step(t).wf(),
{
}

/// While the character is falling above the ground, one step strictly
/// increases y and never takes it past `TREX_GROUND_Y`; the state turns
/// back to running exactly when the ground is reached.
pub proof fn lemma_fall_descent_monotone(t: Trex)
    requires
        t.wf(),
        t.state == TrexState::Falling,
        t.position.y < TREX_GROUND_Y,
    ensures
        trex_step(t).position.y > t.position.y,
        trex_step(t).position.y <= TREX_GROUND_Y,
        trex_step(t).state == TrexState::Running <==> trex_step(t).position.y == TREX_GROUND_Y,
        trex_step(t).state == TrexState::Falling <==> trex_step(t).position.y < TREX_GROUND_Y,
        trex_step(t).wf(),
{
}

/// A running character holds its place: the physics step changes nothing.
pub proof fn lemma_running_holds(t: Trex)
    requires
        t.state == TrexState::Running,
    ensures
        trex_step(t) == t,
{
}

/// The exact arc of a jump from the ground. Starting a jump applies one
/// jumping step at once; the following steps pass through the states
/// running, jumping, jumping, falling, falling, running, with y strictly
/// decreasing to `TREX_MIN_Y` and then strictly increasing back to
/// `TREX_GROUND_Y`, where the character holds.
pub proof fn lemma_jump_arc(t: Trex)
    requires
        t.state == TrexState::Running,
        t.position.y == TREX_GROUND_Y,
    ensures
        ({
            let t1 = trex_step(Trex { state: TrexState::Jumping, ..t });
            let t2 = trex_step(t1);
            let t3 = trex_step(t2);
            let t4 = trex_step(t3);
            let t5 = trex_step(t4);
            &&& t1.state == TrexState::Jumping && t1.position.y == TREX_GROUND_Y + TREX_VELOCITY
            &&& t2.state == TrexState::Jumping && t2.position.y == TREX_GROUND_Y + 2
                * TREX_VELOCITY
            &&& t3.state == TrexState::Falling && t3.position.y == TREX_MIN_Y
            &&& t4.state == TrexState::Falling && t4.position.y == TREX_MIN_Y + GRAVITY
            &&& t5.state == TrexState::Running && t5.position.y == TREX_GROUND_Y
            &&& trex_step(t5) == t5
        }),
{
}

/// A scrolling obstacle: which cactus sprite it shows (an index below
/// `NUM_OBSTACLE_KINDS`), and the x coordinate of its left edge. Every
/// obstacle sits at `CACTUS_Y`.
#[derive(Clone, Copy, PartialEq, Eq, Structural, Debug)]
pub struct Obstacle {
    pub sprite_id: u32,
    pub x: i32,
}

impl Obstacle {
    /// A fresh obstacle of kind `sprite_id` with its left edge at `x`.
    pub fn new(sprite_id: u32, x: i32) -> (o: Obstacle)
        ensures
            o.sprite_id == sprite_id,
            o.x == x,
    {
        Obstacle { sprite_id, x }
    }

    /// Shifts the obstacle horizontally by `velocity` (negative: leftwards).
    pub fn move_by_velocity(&mut self, velocity: i32)
        requires
            i32::MIN <= old(self).x + velocity <= i32::MAX,
        ensures
            final(self).x == old(self).x + velocity,
            final(self).sprite_id == old(self).sprite_id,
    {
        self.x = self.x + velocity;
    }
}

/// Every queued obstacle moved left by one frame's velocity.
pub open spec fn shifted(s: Seq<(u32, i32)>) -> Seq<(u32, i32)> {
    s.map(|i: int, o: (u32, i32)| (o.0, (o.1 + OBSTACLE_VELOCITY) as i32))
}

/// Whether one frame's shift carries the front obstacle past the left
/// screen edge, which triggers a recycle.
pub open spec fn will_recycle(s: Seq<(u32, i32)>) -> bool {
    s.len() > 0 && s[0].1 + OBSTACLE_VELOCITY < 0
}

/// What one frame of the obstacle manager does to the queue: every obstacle
/// shifts left; when the front obstacle has left the screen it is dequeued
/// and a fresh obstacle of some valid kind is enqueued at the spawn point.
pub open spec fn obstacles_step_rel(
    pre: Seq<(u32, i32)>,
    post: Seq<(u32, i32)>,
    recycled: bool,
) -> bool {
    &&& recycled == will_recycle(pre)
    &&& if recycled {
        exists|k: u32|
            k < NUM_OBSTACLE_KINDS && post == shifted(pre).drop_first().push(
                (k, OBSTACLE_SPAWN_X),
            )
    } else {
        post == shifted(pre)
    }
}

/// Whether a sequence of obstacles satisfies the queue's invariant; see
/// `Obstacles::wf`.
pub open spec fn valid_items(s: Seq<(u32, i32)>) -> bool {
    &&& s.len() <= QUEUE_CAPACITY
    &&& forall|i: int| 0 <= i < s.len() ==> (#[trigger] s[i]).0 < NUM_OBSTACLE_KINDS
    &&& forall|i: int| 0 <= i < s.len() ==> 0 <= (#[trigger] s[i]).1 <= OBSTACLE_SPAWN_X
    &&& forall|i: int| 0 < i < s.len() ==> (#[trigger] s[i]).1 - s[i - 1].1 >= -OBSTACLE_VELOCITY
}

/// The obstacle manager: a bounded FIFO of live obstacles scrolling left,
/// ordered by non-decreasing x (front = leftmost = first to exit), with the
/// front recycled into a randomly chosen fresh obstacle once off-screen.
pub struct Obstacles {
    pub buffer: ObstacleBuffer,
}

impl View for Obstacles {
    type V = Seq<(u32, i32)>;

    open spec fn view(&self) -> Seq<(u32, i32)> {
        buffer_contents(self.buffer)
    }
}

impl Obstacles {
    /// Internal invariant: at most `QUEUE_CAPACITY` obstacles; every sprite
    /// kind valid; every x between the left screen edge and the spawn
    /// point; consecutive obstacles at least one frame's travel apart (so x
    /// is non-decreasing in queue order, and at most the front obstacle can
    /// be carried off-screen by one frame).
    pub open spec fn wf(self) -> bool {
        valid_items(self@)
    }

    /// The initial queue: two obstacles, one at the right screen edge and
    /// one a full gap beyond it.
    pub fn new() -> (o: Obstacles)
        ensures
            o.wf(),
            o@ == seq![(0u32, OLED_WIDTH), (1u32, OBSTACLE_SPAWN_X)],
    {
        let mut buffer = buffer_new();
        let _ = buffer_enqueue(&mut buffer, (0, OLED_WIDTH));
        let _ = buffer_enqueue(&mut buffer, (1, OBSTACLE_SPAWN_X));
        proof {
            assert(buffer_contents(buffer) =~= seq![(0u32, OLED_WIDTH), (1u32, OBSTACLE_SPAWN_X)]);
        }
        Obstacles { buffer }
    }

    /// Builds a manager holding the given obstacles (front first) when they
    /// satisfy the queue's invariant, and returns `None` otherwise.
    pub fn from_items(items: &Vec<Obstacle>) -> (r: Option<Obstacles>)
        ensures
            r is Some <==> valid_items(items@.map(|i: int, o: Obstacle| (o.sprite_id, o.x))),
            match r {
                Some(o) => o.wf() && o@ == items@.map(
                    |i: int, o: Obstacle| (o.sprite_id, o.x),
                ),
                None => true,
            },
    {
        let ghost target = items@.map(|i: int, o: Obstacle| (o.sprite_id, o.x));
        if items.len() > QUEUE_CAPACITY {
            return None;
        }
        let mut buffer = buffer_new();
        let mut i: usize = 0;
        while i < items.len()
            invariant
                i <= items@.len(),
                items@.len() <= QUEUE_CAPACITY,
                target == items@.map(|i: int, o: Obstacle| (o.sprite_id, o.x)),
                buffer_contents(buffer) == target.take(i as int),
                forall|j: int| 0 <= j < i ==> (#[trigger] target[j]).0 < NUM_OBSTACLE_KINDS,
                forall|j: int| 0 <= j < i ==> 0 <= (#[trigger] target[j]).1 <= OBSTACLE_SPAWN_X,
                forall|j: int| 0 < j < i ==> (#[trigger] target[j]).1 - target[j - 1].1
                    >= -OBSTACLE_VELOCITY,
            decreases items@.len() - i,
        {
            let it = items[i];
            proof {
                assert(target[i as int] == (items@[i as int].sprite_id, items@[i as int].x));
            }
            if !(it.sprite_id < NUM_OBSTACLE_KINDS && 0 <= it.x && it.x <= OBSTACLE_SPAWN_X) {
                return None;
            }
            if i > 0 {
                let prev = items[i - 1];
                proof {
                    assert(target[i - 1] == (items@[i - 1].sprite_id, items@[i - 1].x));
                    assert(0 <= target[i - 1].1 <= OBSTACLE_SPAWN_X);
                }
                if !(it.x >= prev.x + (-OBSTACLE_VELOCITY)) {
                    return None;
                }
            }
            let _ = buffer_enqueue(&mut buffer, (it.sprite_id, it.x));
            proof {
                assert(target.take(i + 1 as int) =~= target.take(i as int).push(target[i as int]));
            }
            i += 1;
        }
        proof {
            assert(target.take(items@.len() as int) =~= target);
        }
        Some(Obstacles { buffer })
    }

    /// The live obstacles, front (leftmost) first.
    pub fn get_current(&self) -> (v: Vec<Obstacle>)
        ensures
            v@.len() == self@.len(),
            forall|i: int| 0 <= i < v@.len() ==> (#[trigger] v@[i]).sprite_id == self@[i].0
                && v@[i].x == self@[i].1,
    {
        let items = buffer_items(&self.buffer);
        let mut v: Vec<Obstacle> = Vec::new();
        let mut i: usize = 0;
        while i < items.len()
            invariant
                i <= items@.len(),
                items@ == buffer_contents(self.buffer),
                v@.len() == i,
                forall|j: int| 0 <= j < i ==> (#[trigger] v@[j]).sprite_id == items@[j].0
                    && v@[j].x == items@[j].1,
            decreases items@.len() - i,
        {
            let it = items[i];
            v.push(Obstacle { sprite_id: it.0, x: it.1 });
            i += 1;
        }
        v
    }

    /// One frame of the obstacle manager: every obstacle shifts left by
    /// `OBSTACLE_VELOCITY`; if that carries the front obstacle past the
    /// left screen edge, the front is recycled: dequeued, and a fresh
    /// obstacle of a randomly chosen kind enqueued at `OBSTACLE_SPAWN_X`.
    /// Returns whether a recycle happened.
    pub fn update_state(&mut self) -> (new_cactus: bool)
        requires
            old(self).wf(),
        ensures
            final(self).wf(),
            obstacles_step_rel(old(self)@, final(self)@, new_cactus),
            final(self)@.len() == old(self)@.len(),
    {
        let items = buffer_items(&self.buffer);
        // Rebuild the queue with every obstacle moved left by one frame.
        let mut buffer = buffer_new();
        let mut i: usize = 0;
        while i < items.len()
            invariant
                old(self).wf(),
                items@ == old(self)@,
                i <= items@.len(),
                items@.len() <= QUEUE_CAPACITY,
                buffer_contents(buffer) == shifted(items@).take(i as int),
            decreases items@.len() - i,
        {
            let it = items[i];
            proof {
                assert(0 <= items@[i as int].1 <= OBSTACLE_SPAWN_X);
            }
            let _ = buffer_enqueue(&mut buffer, (it.0, it.1 + OBSTACLE_VELOCITY));
            proof {
                assert(shifted(items@).take(i + 1 as int) =~= shifted(items@).take(i as int).push(
                    shifted(items@)[i as int],
                ));
            }
            i += 1;
        }
        proof {
            assert(shifted(items@).take(items@.len() as int) =~= shifted(items@));
        }
        self.buffer = buffer;

        let mut new_cactus = false;
        // When the front obstacle has fully left the screen, replace it
        // with a fresh one at the spawn point.
        if let Some(first) = buffer_peek(&self.buffer) {
            if first.1 < 0 {
                new_cactus = true;
                let _ = buffer_dequeue(&mut self.buffer);
                let obs_idx = get_random_num(NUM_OBSTACLE_KINDS);
                let _ = buffer_enqueue(&mut self.buffer, (obs_idx, OBSTACLE_SPAWN_X));
                proof {
                    assert(buffer_contents(self.buffer) == shifted(old(self)@).drop_first().push(
                        (obs_idx, OBSTACLE_SPAWN_X),
                    ));
                }
            }
        }
        new_cactus
    }
}

/// Gap-spaced items are sorted: helper induction over the index distance.
proof fn lemma_gaps_sorted(s: Seq<(u32, i32)>, i: int, j: int)
    requires
        forall|k: int| 0 < k < s.len() ==> (#[trigger] s[k]).1 - s[k - 1].1 >= -OBSTACLE_VELOCITY,
        0 <= i <= j < s.len(),
    ensures
        s[i].1 <= s[j].1,
    decreases j - i,
{
    if i < j {
        lemma_gaps_sorted(s, i, j - 1);
        assert(s[j].1 - s[j - 1].1 >= -OBSTACLE_VELOCITY);
    }
}

/// Obstacles in the queue are ordered by non-decreasing x: the front is the
/// leftmost obstacle and the first to exit the screen.
pub proof fn lemma_queue_ordering(o: &Obstacles)
    requires
        o.wf(),
    ensures
        forall|i: int, j: int| 0 <= i <= j < o@.len() ==> (#[trigger] o@[i]).1 <= (
        #[trigger] o@[j]).1,
{
    assert forall|i: int, j: int| 0 <= i <= j < o@.len() implies (#[trigger] o@[i]).1 <= (
    #[trigger] o@[j]).1 by {
        lemma_gaps_sorted(o@, i, j);
    }
}

/// The scrolling ground strip: a finite, tileable texture whose x offset
/// wraps to imitate infinite terrain.
pub struct Ground {
    pub position: Point,
}

/// The ground offset after one frame at `velocity`: it accumulates, and
/// resets to `GROUND_X_START` once the strip has scrolled a full screen
/// width past its own length.
pub open spec fn ground_move(x: int, velocity: int) -> int {
    if x + velocity < OLED_WIDTH - GROUND_X_LENGTH {
        GROUND_X_START as int
    } else {
        x + velocity
    }
}

impl Ground {
    /// Invariant: the offset stays inside the wrap window and the strip
    /// sits on the ground line.
    pub open spec fn wf(self) -> bool {
        &&& OLED_WIDTH - GROUND_X_LENGTH <= self.position.x <= GROUND_X_START
        &&& self.position.y == GROUND_Y
    }

    /// A fresh ground strip at the start offset.
    pub fn new() -> (g: Ground)
        ensures
            g.wf(),
            g.position.x == GROUND_X_START,
            g.position.y == GROUND_Y,
    {
        Ground { position: Point::new(GROUND_X_START, GROUND_Y) }
    }

    /// Scrolls the strip by `velocity` (negative: leftwards), wrapping the
    /// offset back to the start exactly when it leaves the wrap window.
    pub fn move_by_velocity(&mut self, velocity: i32)
        requires
            i32::MIN <= old(self).position.x + velocity <= i32::MAX,
        ensures
            final(self).position.x == ground_move(old(self).position.x as int, velocity as int),
            final(self).position.y == old(self).position.y,
    {
        self.position.x = self.position.x + velocity;
        if self.position.x < OLED_WIDTH - GROUND_X_LENGTH {
            self.position.x = GROUND_X_START;
        }
    }

    /// The current scroll offset (x coordinate of the strip's left edge).
    pub fn offset(&self) -> (x: i32)
        ensures
            x == self.position.x,
    {
        self.position.x
    }
}

} // verus!
