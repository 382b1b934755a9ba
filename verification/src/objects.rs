//! The sprite table and the constants that tune the game.

use crate::game::Sprite;
use vstd::array::spec_array_as_slice;
use vstd::prelude::*;

verus! {

/// Frames drawn per second at most.
pub const FPS_LIMIT: u16 = 10;

/// Points that raise the difficulty by one level.
pub const LEVEL_SCORE: u8 = 40;

/// Frames the player waits after a shot before the next one.
pub const PLAYER_COOL_DOWN: u8 = 10;

/// Bullets of the player that can be in flight at once.
pub const MAX_PLAYER_BULLETS: usize = 4;

/// Enemies that can be in play at once.
pub const MAX_ENEMIES: usize = 10;

/// Bullets of the enemies that can be in flight at once.
pub const MAX_ENEMY_BULLETS: usize = 100;

/// Asteroids that can be in play at once.
pub const MAX_ASTEROIDS: usize = 20;

/// Bitmap of the player's ship, first frame: 11 by 10 pixels, two bytes a row.
pub const PLAYER_1_BITMAP: [u8; 20] = [
    0x04, 0x00, 0x04, 0x00, 0x0e, 0x00, 0x1f, 0x00, 0x3f, 0x80, 0x7f, 0xc0, 0xee, 0xe0, 0x9f, 0x20,
    0x35, 0x80, 0x20, 0x80,
];

/// Bitmap of the player's ship, second frame: 11 by 10 pixels, two bytes a row.
pub const PLAYER_2_BITMAP: [u8; 20] = [
    0x04, 0x00, 0x04, 0x00, 0x0e, 0x00, 0x1f, 0x00, 0x3f, 0x80, 0x7f, 0xc0, 0xff, 0xe0, 0xff, 0xe0,
    0x7f, 0xc0, 0x2e, 0x80,
];

/// Bitmap of a bullet: 3 by 3 pixels, one byte a row.
pub const BULLET_BITMAP: [u8; 3] = [0x40, 0xe0, 0xe0];

/// Bitmap of an enemy: 10 by 10 pixels, two bytes a row.
pub const ENEMY_BITMAP: [u8; 20] = [
    0xff, 0xc0, 0x80, 0x40, 0xa1, 0x40, 0x9e, 0x40, 0xa3, 0x40, 0xa1, 0x40, 0xa1, 0x40, 0x80, 0x40,
    0x80, 0x40, 0xff, 0xc0,
];

/// Bitmap of an asteroid: 10 by 10 pixels, two bytes a row.
pub const ASTEROID_BITMAP: [u8; 20] = [
    0x3f, 0x40, 0x7b, 0x00, 0xff, 0xc0, 0xff, 0xc0, 0xbf, 0xc0, 0xfb, 0xc0, 0xff, 0x80, 0xfe, 0x00,
    0x7e, 0xc0, 0x3c, 0xc0,
];

pub open spec fn spec_player_1_sprite() -> Sprite {
    Sprite { data: spec_array_as_slice(&PLAYER_1_BITMAP), width: 11, height: 10 }
}

pub open spec fn spec_player_2_sprite() -> Sprite {
    Sprite { data: spec_array_as_slice(&PLAYER_2_BITMAP), width: 11, height: 10 }
}

pub open spec fn spec_bullet_sprite() -> Sprite {
    Sprite { data: spec_array_as_slice(&BULLET_BITMAP), width: 3, height: 3 }
}

pub open spec fn spec_enemy_sprite() -> Sprite {
    Sprite { data: spec_array_as_slice(&ENEMY_BITMAP), width: 10, height: 10 }
}

pub open spec fn spec_asteroid_sprite() -> Sprite {
    Sprite { data: spec_array_as_slice(&ASTEROID_BITMAP), width: 10, height: 10 }
}

/// The player's ship, first frame.
#[verifier::when_used_as_spec(spec_player_1_sprite)]
pub fn player_1_sprite() -> (s: Sprite)
    ensures
        s == spec_player_1_sprite(),
{
    Sprite { data: &PLAYER_1_BITMAP, width: 11, height: 10 }
}

/// The player's ship, second frame.
#[verifier::when_used_as_spec(spec_player_2_sprite)]
pub fn player_2_sprite() -> (s: Sprite)
    ensures
        s == spec_player_2_sprite(),
{
    Sprite { data: &PLAYER_2_BITMAP, width: 11, height: 10 }
}

/// A bullet, whoever fired it.
#[verifier::when_used_as_spec(spec_bullet_sprite)]
pub fn bullet_sprite() -> (s: Sprite)
    ensures
        s == spec_bullet_sprite(),
{
    Sprite { data: &BULLET_BITMAP, width: 3, height: 3 }
}

/// An enemy.
#[verifier::when_used_as_spec(spec_enemy_sprite)]
pub fn enemy_sprite() -> (s: Sprite)
    ensures
        s == spec_enemy_sprite(),
{
    Sprite { data: &ENEMY_BITMAP, width: 10, height: 10 }
}

/// An asteroid.
#[verifier::when_used_as_spec(spec_asteroid_sprite)]
pub fn asteroid_sprite() -> (s: Sprite)
    ensures
        s == spec_asteroid_sprite(),
{
    Sprite { data: &ASTEROID_BITMAP, width: 10, height: 10 }
}

} // verus!
