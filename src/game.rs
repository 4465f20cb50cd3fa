//! The game-mode state machine: menu, playing, and the end screen.

use vstd::prelude::*;
use bracket_lib::random::RandomNumberGenerator;
use crate::Key;
use crate::obstacle::{gap_in_band, gap_size_of, Obstacle, START_GAP};
use crate::player::{
    displacement, fall_velocity, run_distance, trunc_div, Player, DEFAULT_ANIMATION_FRAME,
    FLAP_VELOCITY, STEP_MS, VELOCITY_SCALE,
};
use crate::{RENDER_OFFSET_X, SCREEN_HEIGHT, SCREEN_WIDTH, SPRITE_SIZE};

verus! {

/// Where a new run starts the player.
pub const START_X: i32 = 5;

/// Height at which a new run starts the player.
pub const START_Y: i32 = 25;

#[derive(Clone, Copy, Debug, PartialEq, Eq, Structural)]
pub enum GameMode {
    Menu,
    Playing,
    End,
}

/// The whole game: its mode, the player, the obstacle ahead, the score and
/// the generator that places obstacle gaps.
pub struct State {
    pub mode: GameMode,
    pub player: Player,
    pub obstacle: Obstacle,
    pub score: i32,
    pub rng: RandomNumberGenerator,
}

/// The player as a run starts it.
pub open spec fn start_player() -> Player {
    Player {
        x: START_X,
        y: START_Y,
        velocity: 0,
        curr_animation_index: DEFAULT_ANIMATION_FRAME,
        curr_frame_time: 0,
        is_animating: false,
    }
}

/// The player after one playing frame of `ms` milliseconds: movement, then a
/// flap if Space was pressed, then animation.
pub open spec fn played_player(p: Player, ms: u16, key: Option<Key>) -> Player {
    let m = p.moved(ms);
    let f = if key == Some(Key::Space) {
        Player { velocity: FLAP_VELOCITY, is_animating: true, ..m }
    } else {
        m
    };
    f.animated(ms)
}

/// The obstacle has been passed: the player is beyond its trailing edge by
/// more than a sprite.
pub open spec fn passed(p: Player, o: Obstacle) -> bool {
    p.x > o.x + SPRITE_SIZE + RENDER_OFFSET_X
}

/// A displacement over at most `u16::MAX` milliseconds stays within
/// 1.5e9 units either way.
proof fn lemma_displacement_bound(v: int, ms: int)
    requires
        -0x8000_0000 <= v < 0x8000_0000,
        0 <= ms <= 0xffff,
    ensures
        -1_500_000_000 <= displacement(v, ms) <= 1_500_000_000,
{
    assert(-0x8000_0000 * 0x1_0000 <= v * ms <= 0x8000_0000 * 0x1_0000) by (nonlinear_arith)
        requires
            -0x8000_0000 <= v < 0x8000_0000,
            0 <= ms <= 0xffff,
    ;
    let d = VELOCITY_SCALE * STEP_MS;
    assert(d == 100_000);
    if v * ms >= 0 {
        assert((v * ms) / 100_000 <= 0x8000_0000 * 0x1_0000 / 100_000) by (nonlinear_arith)
            requires
                0 <= v * ms <= 0x8000_0000 * 0x1_0000,
        ;
    } else {
        assert((-(v * ms)) / 100_000 <= 0x8000_0000 * 0x1_0000 / 100_000) by (nonlinear_arith)
            requires
                0 <= -(v * ms) <= 0x8000_0000 * 0x1_0000,
        ;
    }
    assert(trunc_div(v * ms, d) == trunc_div(v * ms, 100_000));
}

/// Passing scenario: a player one unit beyond the point that passes the
/// obstacle scores exactly one point in the next playing frame, and the next
/// obstacle stands a screen ahead of the player, sized for the new score,
/// its gap in the band.
pub proof fn lemma_passing_scores(s: State, next: State, ms: u16, key: Option<Key>)
    requires
        s.player.x == s.obstacle.x + SPRITE_SIZE + RENDER_OFFSET_X + 1,
        s.can_play(ms),
        s.play_step(next, ms, key),
    ensures
        next.score == s.score + 1,
        next.obstacle.x == next.player.x + SCREEN_WIDTH,
        next.obstacle.size == gap_size_of(next.score as int),
        gap_in_band(next.obstacle.gap_y as int),
{
}

impl State {
    /// The state that the game keeps: a well-formed player and obstacle, a
    /// score of zero or more, and while playing, a player not yet fallen
    /// past the bottom of the screen.
    pub open spec fn wf(self) -> bool {
        &&& self.player.wf()
        &&& self.obstacle.wf()
        &&& self.score >= 0
        &&& self.mode == GameMode::Playing ==> self.player.y <= SCREEN_HEIGHT
    }

    /// The positions and score that one playing frame of `ms` milliseconds
    /// produces fit an `i32`.
    pub open spec fn can_play(self, ms: u16) -> bool {
        &&& self.player.x + run_distance(ms as int) + SCREEN_WIDTH + SPRITE_SIZE <= i32::MAX
        &&& self.obstacle.x + SPRITE_SIZE + RENDER_OFFSET_X <= i32::MAX
        &&& self.score < i32::MAX
    }

    /// `self` is a fresh run: playing, the player at the start, score zero,
    /// the first obstacle one screen ahead.
    pub open spec fn is_fresh_run(self) -> bool {
        &&& self.mode == GameMode::Playing
        &&& self.player == start_player()
        &&& self.score == 0
        &&& self.obstacle.x == SCREEN_WIDTH
        &&& self.obstacle.size == START_GAP
        &&& gap_in_band(self.obstacle.gap_y as int)
    }

    /// `next` follows `self` by one playing frame of `ms` milliseconds with
    /// `key` pressed.
    pub open spec fn play_step(self, next: State, ms: u16, key: Option<Key>) -> bool {
        let p = played_player(self.player, ms, key);
        &&& next.player == p
        &&& if passed(p, self.obstacle) {
            &&& next.score == self.score + 1
            &&& next.obstacle.x == p.x + SCREEN_WIDTH
            &&& next.obstacle.size == gap_size_of(next.score as int)
            &&& gap_in_band(next.obstacle.gap_y as int)
        } else {
            &&& next.score == self.score
            &&& next.obstacle == self.obstacle
        }
        &&& next.mode == if p.y > SCREEN_HEIGHT || next.obstacle.hits_player(p) {
            GameMode::End
        } else {
            self.mode
        }
    }

    /// `next` follows `self` on a menu or end screen with `key` pressed:
    /// P starts a fresh run, any other key changes nothing.
    pub open spec fn menu_step(self, next: State, key: Option<Key>) -> bool {
        if key == Some(Key::P) {
            next.is_fresh_run()
        } else {
            &&& next.mode == self.mode
            &&& next.player == self.player
            &&& next.obstacle == self.obstacle
            &&& next.score == self.score
        }
    }

    /// A game on the menu screen whose obstacles are placed by `rng`.
    pub fn with_rng(rng: RandomNumberGenerator) -> (r: State)
        ensures
            r.mode == GameMode::Menu,
            r.player == start_player(),
            r.score == 0,
            r.obstacle.x == SCREEN_WIDTH,
            r.obstacle.size == START_GAP,
            gap_in_band(r.obstacle.gap_y as int),
            r.wf(),
    {
        let mut rng = rng;
        let obstacle = Obstacle::with_rng(SCREEN_WIDTH, 0, &mut rng);
        State { mode: GameMode::Menu, player: Player::new(START_X, START_Y), obstacle, score: 0, rng }
    }

    /// A game on the menu screen, with a freshly seeded generator.
    pub fn new() -> (r: State)
        ensures
            r.mode == GameMode::Menu,
            r.player == start_player(),
            r.score == 0,
            r.obstacle.x == SCREEN_WIDTH,
            r.obstacle.size == START_GAP,
            gap_in_band(r.obstacle.gap_y as int),
            r.wf(),
    {
        State::with_rng(RandomNumberGenerator::new())
    }

    /// Starts a fresh run.
    pub fn restart(&mut self)
        ensures
            final(self).is_fresh_run(),
            final(self).wf(),
    {
        self.player = Player::new(START_X, START_Y);
        self.mode = GameMode::Playing;
        self.obstacle = Obstacle::with_rng(SCREEN_WIDTH, 0, &mut self.rng);
        self.score = 0;
    }

    /// Whether one playing frame of `ms` milliseconds stays within `i32`.
    pub fn fits_play(&self, ms: u16) -> (r: bool)
        ensures
            r == self.can_play(ms),
    {
        let run = (6 * ms as i64) / 100;
        assert(run == run_distance(ms as int));
        &&& self.player.x as i64 + run + (SCREEN_WIDTH + SPRITE_SIZE) as i64 <= i32::MAX as i64
        &&& self.obstacle.x as i64 + (SPRITE_SIZE + RENDER_OFFSET_X) as i64 <= i32::MAX as i64
        &&& self.score < i32::MAX
    }

    /// One frame of play: the player moves, flaps on Space and animates;
    /// passing the obstacle scores a point and spawns the next one a screen
    /// ahead; falling past the bottom or hitting the obstacle ends the run.
    pub fn play(&mut self, ms: u16, key: Option<Key>)
        requires
            old(self).wf(),
            old(self).mode == GameMode::Playing,
            old(self).can_play(ms),
        ensures
            old(self).play_step(*final(self), ms, key),
            final(self).wf(),
    {
        proof {
            let v = fall_velocity(self.player.velocity as int, ms as int);
            lemma_displacement_bound(v, ms as int);
        }
        self.player.gravity_and_move(ms);
        match key {
            Some(Key::Space) => {
                self.player.flap();
                if !self.player.is_animating {
                    self.player.is_animating = true;
                }
            },
            _ => {},
        }
        self.player.update_animation(ms);
        if self.player.x > self.obstacle.x + SPRITE_SIZE + RENDER_OFFSET_X {
            self.score = self.score + 1;
            self.obstacle = Obstacle::with_rng(
                self.player.x + SCREEN_WIDTH,
                self.score,
                &mut self.rng,
            );
        }
        if self.player.y > SCREEN_HEIGHT || self.obstacle.hit_obstacle(&self.player) {
            self.mode = GameMode::End;
        }
    }

    /// The menu screen: P starts a run; returns whether Q asked to quit.
    pub fn main_menu(&mut self, key: Option<Key>) -> (quit: bool)
        ensures
            old(self).menu_step(*final(self), key),
            quit == (key == Some(Key::Q)),
            old(self).wf() ==> final(self).wf(),
    {
        self.menu_input(key)
    }

    /// The end screen: P starts a new run; returns whether Q asked to quit.
    pub fn dead(&mut self, key: Option<Key>) -> (quit: bool)
        ensures
            old(self).menu_step(*final(self), key),
            quit == (key == Some(Key::Q)),
            old(self).wf() ==> final(self).wf(),
    {
        self.menu_input(key)
    }

    fn menu_input(&mut self, key: Option<Key>) -> (quit: bool)
        ensures
            old(self).menu_step(*final(self), key),
            quit == (key == Some(Key::Q)),
            old(self).wf() ==> final(self).wf(),
    {
        match key {
            Some(Key::P) => {
                self.restart();
                false
            },
            Some(Key::Q) => true,
            _ => false,
        }
    }

    /// One frame of `ms` milliseconds with `key` pressed, dispatched on the
    /// mode. Returns whether the game should quit: on Escape in any mode,
    /// on Q on the menu and end screens.
    pub fn tick(&mut self, ms: u16, key: Option<Key>) -> (quit: bool)
        requires
            old(self).wf(),
            old(self).mode == GameMode::Playing ==> old(self).can_play(ms),
        ensures
            final(self).wf(),
            old(self).mode == GameMode::Playing ==> old(self).play_step(*final(self), ms, key),
            old(self).mode != GameMode::Playing ==> old(self).menu_step(*final(self), key),
            quit == (key == Some(Key::Escape) || (old(self).mode != GameMode::Playing && key
                == Some(Key::Q))),
    {
        let escape = match key {
            Some(Key::Escape) => true,
            _ => false,
        };
        let quit = match self.mode {
            GameMode::Menu => self.main_menu(key),
            GameMode::Playing => {
                self.play(ms, key);
                false
            },
            GameMode::End => self.dead(key),
        };
        escape || quit
    }
}

} // verus!
