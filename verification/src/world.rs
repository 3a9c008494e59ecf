//! The state of one game and the systems that advance it frame by frame:
//! the timer ticks, the obstacles scroll, the player rises or sinks, and an
//! overlap ends the game.

use crate::collision::{any_overlap, bodies, detect_collision};
use crate::entity::{
    body_at, Body, Entity, Kind, Player, Position, FALL_STEP, JUMP_STEP, SCROLL_STEP,
};
use crate::timer::{Clock, ScrollTimer, SCROLL_INTERVAL_NANOS};
use vstd::prelude::*;

verus! {

/// Everything the simulation owns. `game_over` is the one switch that ends
/// play: it starts `false`, only the collision system sets it, and nothing
/// clears it.
#[derive(Debug, PartialEq, Eq)]
pub struct World {
    player: Player,
    obstacles: Vec<Entity>,
    timer: ScrollTimer,
    game_over: bool,
}

/// The state of a game over unbounded numbers.
pub struct State {
    pub player: Body,
    pub collided: bool,
    pub obstacles: Seq<Body>,
    pub clock: Clock,
    pub game_over: bool,
}

/// Every body of `obstacles` one scroll step to the left.
pub open spec fn scroll(obstacles: Seq<Body>) -> Seq<Body> {
    Seq::new(obstacles.len(), |i: int| obstacles[i].moved(-(SCROLL_STEP as int), 0))
}

impl State {
    /// The player is a player, the obstacles are obstacles, each has the
    /// size of its kind, the clock is in order, and a player that has
    /// collided has ended the game.
    pub open spec fn wf(self) -> bool {
        &&& self.player.wf()
        &&& self.player.kind == Kind::Player
        &&& self.clock.wf()
        &&& self.collided ==> self.game_over
        &&& forall|i: int|
            0 <= i < self.obstacles.len() ==> (#[trigger] self.obstacles[i]).wf()
                && self.obstacles[i].is_obstacle()
    }

    /// The machine's numbers let the player rise and sink a step.
    pub open spec fn can_steer(self) -> bool {
        self.player.y + JUMP_STEP <= i64::MAX && self.player.y - FALL_STEP >= i64::MIN
    }

    /// The machine's numbers let every obstacle move a scroll step to the
    /// left.
    pub open spec fn can_scroll(self) -> bool {
        forall|i: int|
            0 <= i < self.obstacles.len() ==> (#[trigger] self.obstacles[i]).x - SCROLL_STEP
                >= i64::MIN
    }

    /// There is room in the machine's numbers for one more frame. A game
    /// that is over needs none: nothing moves any more.
    pub open spec fn has_room(self) -> bool {
        self.game_over || (self.can_steer() && self.can_scroll())
    }

    /// The clock takes the time since the last frame.
    pub open spec fn ticked(self, delta: nat) -> State {
        State { clock: self.clock.tick(delta), ..self }
    }

    /// While the game runs, a clock that fired moves every obstacle one
    /// step to the left. Otherwise nothing moves.
    pub open spec fn scrolled(self) -> State {
        if !self.game_over && self.clock.fired {
            State { obstacles: scroll(self.obstacles), ..self }
        } else {
            self
        }
    }

    /// While the game runs and the player has not collided, the player
    /// rises a jump step where the jump input is held and sinks a fall step
    /// where it is not. Otherwise the player stays. (In a world in order a
    /// player that has collided has ended the game.)
    pub open spec fn steered(self, jump: bool) -> State {
        if self.game_over || self.collided {
            self
        } else if jump {
            State { player: self.player.moved(0, JUMP_STEP as int), ..self }
        } else {
            State { player: self.player.moved(0, -(FALL_STEP as int)), ..self }
        }
    }

    /// Whether the player's box overlaps the box of some obstacle.
    pub open spec fn hit(self) -> bool {
        any_overlap(self.player, self.obstacles)
    }

    /// An overlap marks the player collided and ends the game.
    pub open spec fn struck(self) -> State {
        if self.hit() {
            State { collided: true, game_over: true, ..self }
        } else {
            self
        }
    }

    /// One frame: tick, scroll, steer, test for collision, in that order.
    pub open spec fn frame(self, delta: nat, jump: bool) -> State {
        self.ticked(delta).scrolled().steered(jump).struck()
    }
}

impl View for World {
    type V = State;

    closed spec fn view(&self) -> State {
        State {
            player: self.player.entity@,
            collided: self.player.collided,
            obstacles: bodies(self.obstacles@),
            clock: self.timer@,
            game_over: self.game_over,
        }
    }
}

/// Moves every obstacle one scroll step to the left, whatever its kind.
/// Nothing stops an obstacle from scrolling on to the left for ever, and
/// none is taken away or brought back.
pub fn scroll_obstacles(obstacles: &mut Vec<Entity>)
    requires
        forall|i: int|
            0 <= i < old(obstacles)@.len() ==> (#[trigger] old(obstacles)@[i]).position.x
                - SCROLL_STEP >= i64::MIN,
    ensures
        bodies(final(obstacles)@) == scroll(bodies(old(obstacles)@)),
    no_unwind
{
    let mut i: usize = 0;
    while i < obstacles.len()
        invariant
            i <= obstacles.len(),
            obstacles@.len() == old(obstacles)@.len(),
            forall|k: int|
                0 <= k < i ==> (#[trigger] obstacles@[k])@ == old(obstacles)@[k]@.moved(
                    -(SCROLL_STEP as int),
                    0,
                ),
            forall|k: int|
                i <= k < obstacles@.len() ==> #[trigger] obstacles@[k] == old(obstacles)@[k],
            forall|k: int|
                0 <= k < old(obstacles)@.len() ==> (#[trigger] old(obstacles)@[k]).position.x
                    - SCROLL_STEP >= i64::MIN,
        decreases obstacles.len() - i,
    {
        let x: i64 = obstacles[i].position.x;
        obstacles[i].position.x = x - SCROLL_STEP;
        i += 1;
    }
    proof {
        assert(bodies(obstacles@) =~= scroll(bodies(old(obstacles)@)));
    }
}

impl World {
    /// Every world is well formed: see [`State::wf`].
    #[verifier::type_invariant]
    pub open spec fn wf(&self) -> bool {
        self@.wf()
    }

    /// A world with the player at `player`, not collided, the given
    /// obstacles and timer, and the game running. There is none where an
    /// entry of `obstacles` is no obstacle or has another size than its
    /// kind prescribes, or where the timer is out of order.
    pub fn with_placement(
        player: Position,
        obstacles: Vec<Entity>,
        timer: ScrollTimer,
    ) -> (r: Option<World>)
        ensures
            r is Some <==> timer.wf() && forall|i: int|
                0 <= i < obstacles@.len() ==> (#[trigger] obstacles@[i]).wf()
                    && obstacles@[i].kind != Kind::Player,
            r is Some ==> r->0@ == (State {
                player: body_at(Kind::Player, player.x as int, player.y as int),
                collided: false,
                obstacles: bodies(obstacles@),
                clock: timer@,
                game_over: false,
            }),
    {
        if !timer.is_well_formed() {
            return None;
        }
        let mut i: usize = 0;
        while i < obstacles.len()
            invariant
                i <= obstacles.len(),
                forall|k: int|
                    0 <= k < i ==> (#[trigger] obstacles@[k]).wf() && obstacles@[k].kind
                        != Kind::Player,
            decreases obstacles.len() - i,
        {
            let obstacle: &Entity = &obstacles[i];
            if !obstacle.is_well_formed() || !obstacle.kind.is_obstacle() {
                return None;
            }
            i += 1;
        }
        Some(World { player: Player::new(player.x, player.y), obstacles, timer, game_over: false })
    }

    /// The game as it starts: the player at the origin, one obstacle above
    /// and one below at `(50, 150)` and `(50, -150)`, the scroll timer at
    /// rest, and the game running.
    pub fn new() -> (r: World)
        ensures
            r@.player == body_at(Kind::Player, 0, 0),
            r@.obstacles == seq![
                body_at(Kind::ObstacleTop, 50, 150),
                body_at(Kind::ObstacleBottom, 50, -150),
            ],
            r@.clock == (Clock {
                interval: SCROLL_INTERVAL_NANOS as nat,
                elapsed: 0,
                fired: false,
            }),
            !r@.collided,
            !r@.game_over,
    {
        let mut obstacles: Vec<Entity> = Vec::new();
        obstacles.push(Entity::new(Kind::ObstacleTop, 50, 150));
        obstacles.push(Entity::new(Kind::ObstacleBottom, 50, -150));
        let r = World {
            player: Player::new(0, 0),
            obstacles,
            timer: ScrollTimer::scroll(),
            game_over: false,
        };
        proof {
            assert(r@.obstacles =~= seq![
                body_at(Kind::ObstacleTop, 50, 150),
                body_at(Kind::ObstacleBottom, 50, -150),
            ]);
        }
        r
    }

    /// The player, with its place and whether it has collided.
    pub fn player(&self) -> (r: Player)
        ensures
            r.entity@ == self@.player,
            r.collided == self@.collided,
            r.wf(),
    {
        proof {
            use_type_invariant(self);
        }
        self.player
    }

    /// The obstacles, in the order in which the world was given them.
    pub fn obstacles(&self) -> (r: &Vec<Entity>)
        ensures
            bodies(r@) == self@.obstacles,
    {
        &self.obstacles
    }

    /// The scroll timer.
    pub fn timer(&self) -> (r: ScrollTimer)
        ensures
            r@ == self@.clock,
            r.wf(),
    {
        proof {
            use_type_invariant(self);
        }
        self.timer
    }

    /// Whether the game has ended.
    pub fn is_game_over(&self) -> (r: bool)
        ensures
            r == self@.game_over,
    {
        self.game_over
    }

    /// Whether the machine's numbers leave room for one more frame.
    pub fn has_room(&self) -> (r: bool)
        ensures
            r == self@.has_room(),
    {
        if self.game_over {
            return true;
        }
        let y: i64 = self.player.entity.position.y;
        let mut room: bool = y <= i64::MAX - JUMP_STEP && y >= i64::MIN + FALL_STEP;
        let mut i: usize = 0;
        while i < self.obstacles.len()
            invariant
                i <= self.obstacles.len(),
                room == (self@.can_steer() && forall|k: int|
                    0 <= k < i ==> (#[trigger] self@.obstacles[k]).x - SCROLL_STEP >= i64::MIN),
            decreases self.obstacles.len() - i,
        {
            proof {
                assert(self@.obstacles[i as int] == self.obstacles@[i as int]@);
            }
            if self.obstacles[i].position.x < i64::MIN + SCROLL_STEP {
                room = false;
            }
            i += 1;
        }
        room
    }

    /// Hands the time since the last frame to the scroll timer.
    pub fn tick_timer(&mut self, delta: u64)
        ensures
            final(self)@ == old(self)@.ticked(delta as nat),
    {
        proof {
            use_type_invariant(&*self);
        }
        let mut timer: ScrollTimer = self.timer;
        timer.tick(delta);
        self.timer = timer;
    }

    /// The motion system: while the game runs, a timer that fired on this
    /// frame's tick moves every obstacle 10 units to the left. On any other
    /// frame no obstacle moves.
    pub fn motion_system(&mut self)
        requires
            old(self)@.game_over || old(self)@.can_scroll(),
        ensures
            final(self)@ == old(self)@.scrolled(),
    {
        proof {
            use_type_invariant(&*self);
        }
        if !self.game_over && self.timer.fired() {
            proof {
                assert forall|i: int| 0 <= i < self.obstacles@.len() implies (
                #[trigger] self.obstacles@[i]).position.x - SCROLL_STEP >= i64::MIN by {
                    assert(self@.obstacles[i] == self.obstacles@[i]@);
                }
            }
            scroll_obstacles(&mut self.obstacles);
        }
    }

    /// The input system: while the game runs and the player has not
    /// collided, the player rises 25 units where the jump input is held and
    /// sinks 1 unit where it is not. After that the player stays where it
    /// is.
    pub fn input_system(&mut self, jump: bool)
        requires
            old(self)@.game_over || old(self)@.can_steer(),
        ensures
            final(self)@ == old(self)@.steered(jump),
    {
        proof {
            use_type_invariant(&*self);
        }
        if !self.game_over && !self.player.collided {
            let y: i64 = self.player.entity.position.y;
            if jump {
                self.player.entity.position.y = y + JUMP_STEP;
            } else {
                self.player.entity.position.y = y - FALL_STEP;
            }
        }
    }

    /// The collision system: tests the player against every obstacle and
    /// reports whether any overlaps. An overlap marks the player collided
    /// and ends the game; it runs on every frame, also after the game has
    /// ended.
    pub fn collision_system(&mut self) -> (hit: bool)
        ensures
            hit == old(self)@.hit(),
            final(self)@ == old(self)@.struck(),
            final(self)@.game_over == (old(self)@.game_over || hit),
    {
        proof {
            use_type_invariant(&*self);
        }
        let hit: bool = detect_collision(&self.player.entity, &self.obstacles);
        if hit {
            self.game_over = true;
            self.player.collided = true;
        }
        hit
    }

    /// Runs one frame: the timer takes `delta` nanoseconds, then the motion
    /// system, the input system and the collision system run in that order.
    /// Returns whether the game is over after the frame.
    pub fn frame(&mut self, delta: u64, jump: bool) -> (over: bool)
        requires
            old(self)@.has_room(),
        ensures
            final(self)@ == old(self)@.frame(delta as nat, jump),
            over == final(self)@.game_over,
            old(self)@.game_over ==> over,
    {
        self.tick_timer(delta);
        self.motion_system();
        self.input_system(jump);
        self.collision_system();
        self.game_over
    }
}

} // verus!
