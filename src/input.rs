//! What a roguelike player's key press does: rest, attack or move.
//!
//! The entity store stays outside: the caller hands over the player's
//! position and health and the enemies' positions, and carries out the
//! action that comes back.

use vstd::prelude::*;
use crate::Key;

verus! {

/// A cell of the map.
#[derive(Clone, Copy, Debug, PartialEq, Eq, Structural)]
pub struct Point {
    pub x: i32,
    pub y: i32,
}

/// Current and maximum health.
#[derive(Clone, Copy, Debug, PartialEq, Eq, Structural)]
pub struct Health {
    pub current: i32,
    pub max: i32,
}

/// What the player's input asks for.
#[derive(Clone, Debug, PartialEq, Eq)]
pub enum PlayerAction {
    /// No key, or one that does nothing: the turn does not pass.
    Idle,
    /// The player rests; `health` is its health after healing, if it has any.
    Rest { health: Option<Health> },
    /// The player attacks each enemy at these indices, in order.
    Attack { victims: Vec<usize> },
    /// The player moves to `destination`.
    Move { destination: Point },
}

/// The step that a movement key asks for; (0, 0) for any other key.
pub open spec fn key_delta(key: Key) -> (int, int) {
    match key {
        Key::A => (-1, 0),
        Key::D => (1, 0),
        Key::W => (0, -1),
        Key::S => (0, 1),
        _ => (0, 0),
    }
}

/// Health after resting: one more, but never above the maximum.
pub open spec fn healed(h: Health) -> Health {
    Health { current: if h.current >= h.max { h.max } else { (h.current + 1) as i32 }, max: h.max }
}

/// The cell that `key` steps to from `p`.
pub open spec fn destination_of(p: Point, key: Key) -> Point {
    Point { x: (p.x + key_delta(key).0) as i32, y: (p.y + key_delta(key).1) as i32 }
}

/// The step from `p` stays within `i32`.
pub open spec fn step_fits(p: Point, key: Key) -> bool {
    &&& i32::MIN <= p.x + key_delta(key).0 <= i32::MAX
    &&& i32::MIN <= p.y + key_delta(key).1 <= i32::MAX
}

/// Indices, in increasing order, of the first `n` enemies that stand on `dest`.
pub open spec fn occupants(enemies: Seq<Point>, dest: Point, n: int) -> Seq<usize>
    decreases n,
{
    if n <= 0 {
        Seq::empty()
    } else if enemies[n - 1] == dest {
        occupants(enemies, dest, n - 1).push((n - 1) as usize)
    } else {
        occupants(enemies, dest, n - 1)
    }
}

/// `r` is what a press of `key` asks for, with the player at `player`
/// having `health`, and the enemies standing at `enemies`.
pub open spec fn answers(
    r: PlayerAction,
    key: Option<Key>,
    player: Point,
    health: Option<Health>,
    enemies: Seq<Point>,
) -> bool {
    match key {
        None => r == PlayerAction::Idle,
        Some(k) => if k == Key::Space {
            r == PlayerAction::Rest {
                health: match health {
                    Some(h) => Some(healed(h)),
                    None => None,
                },
            }
        } else if key_delta(k) == (0int, 0int) {
            r == PlayerAction::Idle
        } else {
            let dest = destination_of(player, k);
            let victims = occupants(enemies, dest, enemies.len() as int);
            if victims.len() > 0 {
                match r {
                    PlayerAction::Attack { victims: v } => v@ == victims,
                    _ => false,
                }
            } else {
                r == PlayerAction::Move { destination: dest }
            }
        },
    }
}

impl PlayerAction {
    /// Whether the action hands the turn over (everything but `Idle`).
    pub fn ends_turn(&self) -> (r: bool)
        ensures
            r == !(self is Idle),
    {
        match self {
            PlayerAction::Idle => false,
            _ => true,
        }
    }
}

fn heal(h: Health) -> (r: Health)
    ensures
        r == healed(h),
{
    let current = if h.current >= h.max {
        h.max
    } else {
        h.current + 1
    };
    Health { current, max: h.max }
}

/// The player's response to `key`: Space rests and heals by one up to the
/// maximum; a movement key attacks every enemy on the cell it steps to, or
/// moves there if none stands on it; other keys and no key do nothing.
pub fn player_input(
    key: Option<Key>,
    player: Point,
    health: Option<Health>,
    enemies: &Vec<Point>,
) -> (r: PlayerAction)
    requires
        key matches Some(k) ==> step_fits(player, k),
    ensures
        answers(r, key, player, health, enemies@),
{
    let k = match key {
        None => {
            return PlayerAction::Idle;
        },
        Some(k) => k,
    };
    if k == Key::Space {
        let health = match health {
            Some(h) => Some(heal(h)),
            None => None,
        };
        return PlayerAction::Rest { health };
    }
    let (dx, dy): (i32, i32) = match k {
        Key::A => (-1, 0),
        Key::D => (1, 0),
        Key::W => (0, -1),
        Key::S => (0, 1),
        _ => (0, 0),
    };
    if dx == 0 && dy == 0 {
        return PlayerAction::Idle;
    }
    let destination = Point { x: player.x + dx, y: player.y + dy };
    assert(destination == destination_of(player, k));
    let mut victims: Vec<usize> = Vec::new();
    let mut i: usize = 0;
    while i < enemies.len()
        invariant
            i <= enemies.len(),
            victims@ == occupants(enemies@, destination, i as int),
        decreases enemies.len() - i,
    {
        if enemies[i] == destination {
            victims.push(i);
        }
        i = i + 1;
    }
    if victims.len() > 0 {
        PlayerAction::Attack { victims }
    } else {
        PlayerAction::Move { destination }
    }
}

} // verus!
