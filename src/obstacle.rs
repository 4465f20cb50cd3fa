//! Obstacles: a column with a gap, its placement and the collision with
//! the player.

use vstd::prelude::*;
use bracket_lib::random::RandomNumberGenerator;
use crate::geometry::BBox;
use crate::player::Player;
use crate::random::random_range;
use crate::{RENDER_OFFSET_X, SCREEN_HEIGHT, SPRITE_SIZE};

verus! {

/// Gap size of the first obstacle, at score zero.
pub const START_GAP: i32 = 32;

/// Smallest gap size, reached at a score of `START_GAP - MIN_GAP`.
pub const MIN_GAP: i32 = 2;

/// Distance of the gap center from the top and from the bottom of the screen.
pub const GAP_MARGIN: i32 = SPRITE_SIZE * 4;

#[derive(Clone, Copy, Debug, PartialEq, Eq, Structural)]
pub struct Obstacle {
    pub x: i32,
    /// Vertical center of the gap.
    pub gap_y: i32,
    /// Height of the gap.
    pub size: i32,
}

/// Gap size at a given score: one less per point, never below `MIN_GAP`.
pub open spec fn gap_size_of(score: int) -> int {
    if START_GAP - score > MIN_GAP {
        START_GAP - score
    } else {
        MIN_GAP as int
    }
}

/// Past the floor's score every obstacle has the smallest gap.
pub proof fn lemma_gap_floor(score: int)
    requires
        score >= START_GAP - MIN_GAP,
    ensures
        gap_size_of(score) == MIN_GAP,
{
}

/// Below the floor's score the gap shrinks by one per point.
pub proof fn lemma_gap_shrinks(score: int)
    requires
        score < START_GAP - MIN_GAP,
    ensures
        gap_size_of(score) == START_GAP - score,
{
}

/// The gap size of an obstacle spawned at `score`.
pub fn gap_size(score: i32) -> (r: i32)
    requires
        score >= START_GAP - i32::MAX,
    ensures
        r == gap_size_of(score as int),
{
    let s = START_GAP - score;
    if s > MIN_GAP {
        s
    } else {
        MIN_GAP
    }
}

/// The bounding box of the player's sprite.
pub open spec fn player_box(p: Player) -> BBox {
    BBox { x: p.x, y: p.y, x_end: (p.x + SPRITE_SIZE) as i32, y_end: (p.y + SPRITE_SIZE) as i32 }
}

/// A gap center in the band that leaves `GAP_MARGIN` at both screen edges.
pub open spec fn gap_in_band(gap_y: int) -> bool {
    GAP_MARGIN <= gap_y < SCREEN_HEIGHT - GAP_MARGIN
}

/// A player whose horizontal extent stays clear of the obstacle's column
/// is not hit, whatever its height: with the gap at 20..40, a player at
/// height 60 beside the column is not hit.
pub proof fn lemma_clear_of_column(o: Obstacle, p: Player)
    requires
        o.wf(),
        o.x + SPRITE_SIZE <= i32::MAX,
        p.x + SPRITE_SIZE <= i32::MAX,
        p.y + SPRITE_SIZE <= i32::MAX,
        p.x + SPRITE_SIZE < o.x || p.x >= o.x + SPRITE_SIZE,
    ensures
        !o.hits_player(p),
{
}

impl Obstacle {
    /// The gap lies in its band and has a size between the floor and the
    /// size at score zero.
    pub open spec fn wf(self) -> bool {
        &&& gap_in_band(self.gap_y as int)
        &&& MIN_GAP <= self.size <= START_GAP
    }

    /// The column above the gap, from the top of the screen.
    pub open spec fn upper_box(self) -> BBox {
        BBox {
            x: self.x,
            y: 0,
            x_end: (self.x + SPRITE_SIZE) as i32,
            y_end: (self.gap_y - self.size / 2) as i32,
        }
    }

    /// The column below the gap, down to the bottom of the screen.
    pub open spec fn lower_box(self) -> BBox {
        BBox {
            x: self.x,
            y: (self.gap_y + self.size / 2) as i32,
            x_end: (self.x + SPRITE_SIZE) as i32,
            y_end: SCREEN_HEIGHT,
        }
    }

    /// The player's box hits the column above or the column below the gap.
    pub open spec fn hits_player(self, p: Player) -> bool {
        player_box(p).hits(self.upper_box()) || player_box(p).hits(self.lower_box())
    }

    /// Screen column at which the obstacle is drawn, seen from `player_x`.
    pub open spec fn screen_column(self, player_x: int) -> int {
        self.x - player_x + RENDER_OFFSET_X
    }

    /// Number of bricks drawn above the gap.
    pub open spec fn upper_bricks(self) -> int {
        (self.gap_y - self.size / 2) / SPRITE_SIZE as int
    }

    /// Number of bricks drawn below the gap.
    pub open spec fn lower_bricks(self) -> int {
        (SCREEN_HEIGHT - (self.gap_y + self.size / 2)) / 4 + 1
    }

    /// The top-left corners of the bricks that draw the obstacle: a column
    /// from the top of the screen down to the gap, then one from the gap's
    /// lower edge down past the bottom.
    pub open spec fn bricks(self, player_x: int) -> Seq<(i32, i32)> {
        let c = self.screen_column(player_x) as i32;
        Seq::new(self.upper_bricks() as nat, |i: int| (c, (i * SPRITE_SIZE) as i32)) + Seq::new(
            self.lower_bricks() as nat,
            |i: int| (c, (self.gap_y + self.size / 2 + i * SPRITE_SIZE) as i32),
        )
    }

    /// An obstacle at `x` with its gap centered at `gap_y`, sized for `score`.
    pub fn with_gap(x: i32, score: i32, gap_y: i32) -> (r: Obstacle)
        requires
            score >= START_GAP - i32::MAX,
        ensures
            r == (Obstacle { x, gap_y, size: gap_size_of(score as int) as i32 }),
    {
        Obstacle { x, gap_y, size: gap_size(score) }
    }

    /// An obstacle at `x`, sized for `score`, its gap center drawn from `rng`
    /// in the band.
    pub fn with_rng(x: i32, score: i32, rng: &mut RandomNumberGenerator) -> (r: Obstacle)
        requires
            score >= START_GAP - i32::MAX,
        ensures
            r.x == x,
            r.size == gap_size_of(score as int),
            gap_in_band(r.gap_y as int),
    {
        let gap_y = random_range(rng, GAP_MARGIN, SCREEN_HEIGHT - GAP_MARGIN);
        Obstacle::with_gap(x, score, gap_y)
    }

    /// An obstacle at `x`, sized for `score`, its gap center drawn from a
    /// freshly seeded generator.
    pub fn new(x: i32, score: i32) -> (r: Obstacle)
        requires
            score >= START_GAP - i32::MAX,
        ensures
            r.x == x,
            r.size == gap_size_of(score as int),
            gap_in_band(r.gap_y as int),
    {
        let mut rng = RandomNumberGenerator::new();
        Obstacle::with_rng(x, score, &mut rng)
    }

    /// Whether the player collides with the obstacle.
    pub fn hit_obstacle(&self, player: &Player) -> (r: bool)
        requires
            self.wf(),
            self.x + SPRITE_SIZE <= i32::MAX,
            player.x + SPRITE_SIZE <= i32::MAX,
            player.y + SPRITE_SIZE <= i32::MAX,
        ensures
            r == self.hits_player(*player),
    {
        let half_size = self.size / 2;
        let player_bbox = BBox {
            x: player.x,
            y: player.y,
            x_end: player.x + SPRITE_SIZE,
            y_end: player.y + SPRITE_SIZE,
        };
        let upper_bbox = BBox {
            x: self.x,
            y: 0,
            x_end: self.x + SPRITE_SIZE,
            y_end: self.gap_y - half_size,
        };
        let lower_bbox = BBox {
            x: self.x,
            y: self.gap_y + half_size,
            x_end: self.x + SPRITE_SIZE,
            y_end: SCREEN_HEIGHT,
        };
        player_bbox.is_hit(&upper_bbox) || player_bbox.is_hit(&lower_bbox)
    }

    /// Where to draw the obstacle's bricks, seen from a player at `player_x`.
    pub fn brick_cells(&self, player_x: i32) -> (r: Vec<(i32, i32)>)
        requires
            self.wf(),
            i32::MIN <= self.screen_column(player_x as int) <= i32::MAX,
        ensures
            r@ == self.bricks(player_x as int),
    {
        let screen_x = (self.x as i64 - player_x as i64 + RENDER_OFFSET_X as i64) as i32;
        let half_size = self.size / 2;
        let end_upper = (self.gap_y - half_size) / SPRITE_SIZE;
        let num_lower = (SCREEN_HEIGHT - (self.gap_y + half_size)) / 4 + 1;
        let ghost upper = Seq::new(end_upper as nat, |i: int| (screen_x, (i * SPRITE_SIZE) as i32));
        let ghost lower = Seq::new(
            num_lower as nat,
            |i: int| (screen_x, (self.gap_y + half_size + i * SPRITE_SIZE) as i32),
        );
        let mut cells: Vec<(i32, i32)> = Vec::new();
        let mut y: i32 = 0;
        while y < end_upper
            invariant
                0 <= y <= end_upper <= SCREEN_HEIGHT,
                upper == Seq::new(end_upper as nat, |i: int| (screen_x, (i * SPRITE_SIZE) as i32)),
                cells@ == upper.take(y as int),
            decreases end_upper - y,
        {
            cells.push((screen_x, y * SPRITE_SIZE));
            y = y + 1;
            assert(cells@ =~= upper.take(y as int));
        }
        assert(upper.take(end_upper as int) =~= upper);
        let mut y: i32 = 0;
        while y < num_lower
            invariant
                0 <= y <= num_lower <= SCREEN_HEIGHT,
                0 <= self.gap_y + half_size <= SCREEN_HEIGHT,
                lower == Seq::new(
                    num_lower as nat,
                    |i: int| (screen_x, (self.gap_y + half_size + i * SPRITE_SIZE) as i32),
                ),
                cells@ == upper + lower.take(y as int),
            decreases num_lower - y,
        {
            cells.push((screen_x, self.gap_y + half_size + y * SPRITE_SIZE));
            y = y + 1;
            assert(cells@ =~= upper + lower.take(y as int));
        }
        assert(lower.take(num_lower as int) =~= lower);
        cells
    }
}

} // verus!
