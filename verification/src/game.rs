//! The entities of the game and the rules each one follows on its own.

use crate::geometry::{fits_i16, Rect};
use crate::objects::{bullet_sprite, spec_bullet_sprite, MAX_PLAYER_BULLETS, PLAYER_COOL_DOWN};
use crate::pools::Pool;
use vstd::prelude::*;

verus! {

/// A fixed bitmap and its size in pixels.
#[derive(Clone, Copy, Debug)]
pub struct Sprite {
    pub data: &'static [u8],
    pub width: u8,
    pub height: u8,
}

/// The playing field inside the border, in pixels.
#[derive(Clone, Copy, Debug)]
pub struct Screen {
    pub width: u8,
    pub height: u8,
}

/// A shot in flight. It moves along the vertical axis only.
#[derive(Clone, Copy, Debug)]
pub struct Bullet {
    pub x: i16,
    pub y: i16,
    /// Fired by the player, as opposed to an enemy.
    pub friendly: bool,
    pub vel_x: i8,
    pub vel_y: i8,
    pub sprite: Sprite,
    pub active: bool,
}

/// A rock that falls and drifts, bouncing off the side edges.
#[derive(Clone, Copy, Debug)]
pub struct Asteroid {
    pub x: i16,
    pub y: i16,
    pub vel_x: i8,
    pub vel_y: i8,
    pub sprite: Sprite,
    pub active: bool,
}

/// A stationary ship that fires downwards whenever its cool-down runs out.
#[derive(Clone, Copy, Debug)]
pub struct Enemy {
    pub x: i16,
    pub y: i16,
    pub sprite: Sprite,
    pub active: bool,
    /// Frames left until the next shot.
    pub bullet_cool_down: u16,
    /// Frames between two shots.
    pub cool_down: u16,
}

/// The player's ship.
#[derive(Debug)]
pub struct Player {
    pub x: i16,
    pub y: i16,
    pub vel_x: i16,
    pub vel_y: i16,
    pub active: bool,
    /// The player's bullets in flight.
    pub bullets: heapless::Vec<Bullet, 4>,
    pub sprite: Sprite,
    pub player_score: i16,
    /// Frames left until the player may fire again.
    pub cool_down: u8,
}

/// What a boundary check found.
#[derive(Clone, Copy, Debug, PartialEq, Eq)]
pub enum Boundary {
    Fine,
    Breach,
}

/// Something that lives in the game until it is deactivated and then buried.
pub trait Object: Sized {
    /// Whether the object is still in play.
    spec fn alive(&self) -> bool;

    /// The points the player earns when the object is buried.
    spec fn bounty(&self) -> nat;

    fn is_active(&self) -> (r: bool)
        ensures
            r == self.alive(),
    ;

    /// Disposes of the object and credits its bounty to `score`.
    fn bury(self, score: &mut i16)
        requires
            *old(score) + self.bounty() <= i16::MAX,
        ensures
            *final(score) == *old(score) + self.bounty(),
    ;
}

/// Something with a position that can be read and set.
pub trait Movable {
    /// The top-left corner of the object.
    spec fn position(&self) -> (i16, i16);

    fn set_pos(&mut self, x: i16, y: i16)
        ensures
            final(self).position() == (x, y),
    ;

    fn get_pos(&self) -> (p: (i16, i16))
        ensures
            p == self.position(),
    ;
}

/// Something that reacts to leaving the playing field. The entities of this
/// crate carry their boundary rules in their own `update`; the trait is for
/// objects defined elsewhere.
pub trait HasBoundary {
    fn boundary_check(&self) -> Boundary;

    fn breach_action(&mut self);
}

/// Something a bullet can hit.
pub trait Target: Object + Copy {
    /// The rectangle the target occupies.
    spec fn frame(&self) -> Rect;

    /// The target after a hit.
    spec fn struck(self) -> Self;

    fn hitbox(&self) -> (r: Rect)
        ensures
            r == self.frame(),
    ;

    /// Takes the target out of play.
    fn strike(&mut self)
        ensures
            *final(self) == old(self).struck(),
    ;

    /// A hit deactivates the target and leaves it where it is.
    proof fn lemma_struck(self)
        ensures
            !self.struck().alive(),
            self.struck().frame() == self.frame(),
            self.struck().bounty() == self.bounty(),
    ;
}

impl Screen {
    /// A playing field of `width` by `height` pixels.
    pub fn new(width: u8, height: u8) -> (s: Self)
        ensures
            s.width == width,
            s.height == height,
    {
        Self { height, width }
    }

    pub fn height(&self) -> (h: u8)
        ensures
            h == self.height,
    {
        self.height
    }

    pub fn width(&self) -> (w: u8)
        ensures
            w == self.width,
    {
        self.width
    }
}

impl Sprite {
    pub fn height(&self) -> (h: u8)
        ensures
            h == self.height,
    {
        self.height
    }

    pub fn width(&self) -> (w: u8)
        ensures
            w == self.width,
    {
        self.width
    }
}

/// The horizontal velocity asked for by the directional input `(left, right)`:
/// two pixels a frame towards the one side that is pressed alone, none when
/// both or neither are pressed.
pub open spec fn steer(dir: (bool, bool)) -> int {
    if dir.0 && !dir.1 {
        -2
    } else if dir.1 && !dir.0 {
        2
    } else {
        0
    }
}

/// The player as a mathematical value: the fields of [`Player`], with the
/// bullets in flight as a sequence.
pub struct PlayerState {
    pub x: i16,
    pub y: i16,
    pub vel_x: i16,
    pub vel_y: i16,
    pub active: bool,
    pub shots: Seq<Bullet>,
    pub sprite: Sprite,
    pub score: i16,
    pub cool_down: u8,
}

impl PlayerState {
    /// Half the width of the ship's sprite, the offset that the edges of the
    /// field are measured from.
    pub open spec fn half_width(self) -> int {
        self.sprite.width as int / 2
    }

    /// The player keeps to the horizontal line it was placed on, has not lost
    /// points, and has no more bullets in flight than it can have.
    pub open spec fn wf(self) -> bool {
        &&& self.vel_y == 0
        &&& self.score >= 0
        &&& self.shots.len() <= MAX_PLAYER_BULLETS
    }

    /// The ship stands within the field: its position is at least
    /// `1 - half_width` and below `screen.width - half_width`.
    pub open spec fn in_bounds(self, screen: Screen) -> bool {
        1 - self.half_width() <= self.x < screen.width - self.half_width()
    }

    /// Moving by `v` would take the ship onto or across an edge of the field.
    pub open spec fn blocked(self, v: int, screen: Screen) -> bool {
        let new_pos = self.x + v;
        new_pos <= 1 - self.half_width() || new_pos + self.half_width() >= screen.width
    }

    /// The sums that `update` computes for the input `dir` fit in 16 bits.
    pub open spec fn can_update(self, dir: (bool, bool)) -> bool {
        &&& fits_i16(self.x + steer(dir))
        &&& fits_i16(self.x + steer(dir) + self.half_width())
        &&& fits_i16(self.y + self.vel_y)
    }

    /// The position of a new bullet can be computed in 16 bits.
    pub open spec fn can_aim(self) -> bool {
        &&& fits_i16(self.x + self.half_width())
        &&& fits_i16(self.x + self.half_width() - spec_bullet_sprite().width as int / 2)
        &&& fits_i16(self.y - spec_bullet_sprite().height)
    }

    /// The player after taking the velocity that the input asks for.
    pub open spec fn steered(self, dir: (bool, bool)) -> PlayerState {
        PlayerState { vel_x: steer(dir) as i16, ..self }
    }

    /// The player after the boundary clamp: the velocity is dropped if the next
    /// position would touch an edge.
    pub open spec fn clamped(self, screen: Screen) -> PlayerState {
        if self.blocked(self.vel_x as int, screen) {
            PlayerState { vel_x: 0, ..self }
        } else {
            self
        }
    }

    /// The player one frame later: the cool-down has ticked, the velocity comes
    /// from the input and the boundary clamp, and the position has moved by it.
    pub open spec fn updated(self, dir: (bool, bool), screen: Screen) -> PlayerState {
        let v: int = if self.blocked(steer(dir), screen) {
            0
        } else {
            steer(dir)
        };
        PlayerState {
            cool_down: if self.cool_down != 0 {
                (self.cool_down - 1) as u8
            } else {
                0
            },
            vel_x: v as i16,
            x: (self.x + v) as i16,
            y: (self.y + self.vel_y) as i16,
            ..self
        }
    }

    /// The bullet that the player fires from where it stands: centred on the
    /// ship, one bullet height above it, moving up.
    pub open spec fn round(self) -> Bullet {
        Bullet {
            x: (self.x + self.half_width() - spec_bullet_sprite().width as int / 2) as i16,
            y: (self.y - spec_bullet_sprite().height) as i16,
            friendly: true,
            vel_x: 0,
            vel_y: -3i8,
            sprite: spec_bullet_sprite(),
            active: true,
        }
    }

    /// May the player fire: the cool-down has run out and a bullet is free.
    pub open spec fn ready(self) -> bool {
        self.cool_down == 0 && self.shots.len() < MAX_PLAYER_BULLETS
    }

    /// The player after a shot. With a free bullet the shot joins those in
    /// flight and the cool-down starts; with none nothing changes.
    pub open spec fn fired(self) -> PlayerState {
        if self.shots.len() < MAX_PLAYER_BULLETS {
            PlayerState { shots: self.shots.push(self.round()), cool_down: PLAYER_COOL_DOWN, ..self }
        } else {
            self
        }
    }

    /// The player after one pull of the trigger: a shot is fired if the player
    /// may fire, and nothing happens if not.
    pub open spec fn triggered(self) -> PlayerState {
        if self.ready() {
            self.fired()
        } else {
            self
        }
    }

    /// The number of bullets that are free to be fired.
    pub open spec fn ammo(self) -> int {
        MAX_PLAYER_BULLETS - self.shots.len()
    }

    /// The rectangle the ship occupies.
    pub open spec fn frame(self) -> Rect {
        Rect::spanning(
            self.x as int,
            self.y as int,
            self.sprite.width as int,
            self.sprite.height as int,
        )
    }

    /// The rectangle in which a hit ends the game: the ship's own, one pixel
    /// smaller at the top, the left and the right.
    pub open spec fn vulnerable_frame(self) -> Rect {
        Rect {
            x1: (self.x + 1) as i32,
            y1: (self.y + 1) as i32,
            x2: (self.x + self.sprite.width - 1) as i32,
            y2: (self.y + self.sprite.height) as i32,
        }
    }
}

impl View for Player {
    type V = PlayerState;

    open spec fn view(&self) -> PlayerState {
        PlayerState {
            x: self.x,
            y: self.y,
            vel_x: self.vel_x,
            vel_y: self.vel_y,
            active: self.active,
            shots: self.bullets.items(),
            sprite: self.sprite,
            score: self.player_score,
            cool_down: self.cool_down,
        }
    }
}

impl Player {
    /// A player at rest at `(x, y)`, with no bullets in flight and no points.
    pub fn new(x: i16, y: i16, sprite: &Sprite) -> (p: Self)
        ensures
            p@ == (PlayerState {
                x,
                y,
                vel_x: 0,
                vel_y: 0,
                active: true,
                shots: Seq::empty(),
                sprite: *sprite,
                score: 0,
                cool_down: 0,
            }),
            p@.wf(),
    {
        let bullets: heapless::Vec<Bullet, 4> = Pool::fresh();
        Self {
            x,
            y,
            vel_x: 0,
            vel_y: 0,
            sprite: *sprite,
            active: true,
            bullets,
            player_score: 0,
            cool_down: 0,
        }
    }

    /// Advances the player by one frame under the input `dir`, which says
    /// whether left and whether right is pressed.
    pub fn update(&mut self, dir: &(bool, bool), screen: &Screen)
        requires
            old(self)@.can_update(*dir),
        ensures
            final(self)@ == old(self)@.updated(*dir, *screen),
            old(self)@.wf() ==> final(self)@.wf(),
            old(self)@.in_bounds(*screen) ==> final(self)@.in_bounds(*screen),
    {
        if self.cool_down != 0 {
            self.cool_down -= 1;
        }
        self.mov(dir);
        self.boundary_check(screen);
        self.x += self.vel_x;
        self.y += self.vel_y;
    }

    /// Sets the horizontal velocity from the input.
    pub fn mov(&mut self, dir: &(bool, bool))
        ensures
            final(self)@ == old(self)@.steered(*dir),
    {
        if dir.0 && !dir.1 {
            self.vel_x = -2;
        } else if dir.1 && !dir.0 {
            self.vel_x = 2;
        } else {
            self.vel_x = 0;
        }
    }

    /// The bottom-right corner of the ship.
    pub fn get_corner_pos(&self) -> (c: (i16, i16))
        requires
            fits_i16(self.x + self.sprite.width),
            fits_i16(self.y + self.sprite.height),
        ensures
            c.0 == self.x + self.sprite.width,
            c.1 == self.y + self.sprite.height,
    {
        let (x, y) = self.get_pos();
        (x + self.sprite.width as i16, y + self.sprite.height as i16)
    }

    /// Whether a bullet fired by the player can be placed.
    pub fn has_aim(&self) -> (r: bool)
        ensures
            r == self@.can_aim(),
    {
        let x = self.x as i32 + self.sprite.width as i32 / 2;
        let y = self.y as i32 - bullet_sprite().height as i32;
        i16::MIN as i32 + 1 <= x && x <= i16::MAX as i32 && i16::MIN as i32 <= y
    }

    /// Whether the ship stands within the field.
    pub fn is_in_bounds(&self, screen: &Screen) -> (r: bool)
        ensures
            r == self@.in_bounds(*screen),
    {
        let half = self.sprite.width as i32 / 2;
        1 - half <= self.x as i32 && (self.x as i32) < screen.width as i32 - half
    }

    /// Fires a bullet if one is free, whatever the cool-down, and starts the
    /// cool-down. Does nothing if none is free.
    pub fn shoot(&mut self)
        requires
            old(self)@.can_aim(),
        ensures
            final(self)@ == old(self)@.fired(),
    {
        let sprite = bullet_sprite();
        let x = self.x + self.sprite.width as i16 / 2 - sprite.width as i16 / 2;
        let y = self.y - sprite.height as i16;
        let bullet = Bullet { x, y, friendly: true, vel_y: -3, vel_x: 0, sprite, active: true };
        if self.bullets.enlist(bullet).is_ok() {
            self.cool_down = PLAYER_COOL_DOWN;
        }
    }

    /// Handles one pull of the trigger: fires if the player may. Says whether
    /// a bullet is still free afterwards, so that the trigger can stay armed.
    pub fn pull_trigger(&mut self) -> (armed: bool)
        requires
            old(self)@.can_aim(),
        ensures
            final(self)@ == old(self)@.triggered(),
            armed == (final(self)@.ammo() > 0),
    {
        if self.can_shoot() {
            self.shoot();
        }
        self.ammo() > 0
    }

    /// The number of bullets that are free to be fired.
    pub fn ammo(&self) -> (n: usize)
        ensures
            n == self@.ammo(),
    {
        MAX_PLAYER_BULLETS - self.bullets.occupancy()
    }

    /// Drops the velocity if it would carry the ship onto an edge.
    pub fn boundary_check(&mut self, screen: &Screen)
        requires
            fits_i16(old(self).x + old(self).vel_x),
            fits_i16(old(self).x + old(self).vel_x + old(self)@.half_width()),
        ensures
            final(self)@ == old(self)@.clamped(*screen),
    {
        let new_pos = self.x + self.vel_x;
        if new_pos <= 1 - self.sprite.width as i16 / 2 || new_pos + self.sprite.width as i16 / 2
            >= screen.width as i16 {
            self.vel_x = 0;
        }
    }

    /// Whether a shot fired now would leave the ship.
    pub fn can_shoot(&self) -> (r: bool)
        ensures
            r == self@.ready(),
    {
        self.cool_down == 0 && self.bullets.occupancy() < MAX_PLAYER_BULLETS
    }

    /// The rectangle the ship occupies.
    pub fn hitbox(&self) -> (r: Rect)
        ensures
            r == self@.frame(),
    {
        Rect::of(self.x, self.y, self.sprite.width, self.sprite.height)
    }

    /// The rectangle in which a hit ends the game.
    pub fn vulnerable_hitbox(&self) -> (r: Rect)
        ensures
            r == self@.vulnerable_frame(),
    {
        Rect {
            x1: self.x as i32 + 1,
            y1: self.y as i32 + 1,
            x2: self.x as i32 + self.sprite.width as i32 - 1,
            y2: self.y as i32 + self.sprite.height as i32,
        }
    }
}

impl Enemy {
    /// The frames between two shots of an enemy made with the cadence `level`.
    pub open spec fn cadence(level: u16) -> int {
        level * 2 + 50
    }

    /// An enemy at `(x, y)` that fires for the first time after forty frames
    /// and from then on every `cadence(cool_down)` frames.
    pub fn new(x: i16, y: i16, sprite: &Sprite, cool_down: u16) -> (e: Self)
        requires
            Enemy::cadence(cool_down) <= u16::MAX,
        ensures
            e == (Enemy {
                x,
                y,
                sprite: *sprite,
                active: true,
                bullet_cool_down: 40,
                cool_down: Enemy::cadence(cool_down) as u16,
            }),
    {
        Self { x, y, sprite: *sprite, active: true, bullet_cool_down: 40, cool_down: cool_down * 2 + 50 }
    }

    /// The enemy one frame later: it has not moved, and its cool-down has
    /// ticked.
    pub open spec fn ticked(self) -> Enemy {
        Enemy {
            bullet_cool_down: if self.bullet_cool_down > 0 {
                (self.bullet_cool_down - 1) as u16
            } else {
                0
            },
            ..self
        }
    }

    /// Advances the enemy by one frame.
    pub fn update(&mut self)
        ensures
            *final(self) == old(self).ticked(),
    {
        if self.bullet_cool_down > 0 {
            self.bullet_cool_down -= 1;
        }
    }

    /// The bottom-right corner of the enemy.
    pub fn get_corner_pos(&self) -> (c: (i16, i16))
        requires
            fits_i16(self.x + self.sprite.width),
            fits_i16(self.y + self.sprite.height),
        ensures
            c.0 == self.x + self.sprite.width,
            c.1 == self.y + self.sprite.height,
    {
        let (x, y) = self.get_pos();
        (x + self.sprite.width as i16, y + self.sprite.height as i16)
    }

    /// The enemy's cool-down has run out.
    pub open spec fn ready(self) -> bool {
        self.bullet_cool_down == 0
    }

    /// The position of a new bullet can be computed in 16 bits.
    pub open spec fn can_aim(self) -> bool {
        &&& fits_i16(self.x + self.sprite.width as int / 2)
        &&& fits_i16(self.x + self.sprite.width as int / 2 - spec_bullet_sprite().width as int / 2)
        &&& fits_i16(self.y + spec_bullet_sprite().height)
    }

    /// The bullet that the enemy fires from where it stands: centred on the
    /// enemy, one bullet height below its top, moving down.
    pub open spec fn round(self) -> Bullet {
        Bullet {
            x: (self.x + self.sprite.width as int / 2 - spec_bullet_sprite().width as int / 2) as i16,
            y: (self.y + spec_bullet_sprite().height) as i16,
            friendly: false,
            vel_x: 0,
            vel_y: 2,
            sprite: spec_bullet_sprite(),
            active: true,
        }
    }

    /// The enemy after it has fired: the cool-down starts over.
    pub open spec fn reloaded(self) -> Enemy {
        Enemy { bullet_cool_down: self.cool_down, ..self }
    }

    /// Whether a bullet fired by the enemy can be placed.
    pub fn has_aim(&self) -> (r: bool)
        ensures
            r == self.can_aim(),
    {
        let x = self.x as i32 + self.sprite.width as i32 / 2;
        let y = self.y as i32 + bullet_sprite().height as i32;
        i16::MIN as i32 + 1 <= x && x <= i16::MAX as i32 && y <= i16::MAX as i32
    }

    /// Fires if the cool-down has run out, and only then.
    pub fn shoot(&mut self) -> (shot: Option<Bullet>)
        requires
            old(self).ready() ==> old(self).can_aim(),
        ensures
            old(self).ready() ==> shot == Some(old(self).round()) && *final(self) == old(self).reloaded(),
            !old(self).ready() ==> shot is None && *final(self) == *old(self),
    {
        if self.bullet_cool_down == 0 {
            let sprite = bullet_sprite();
            self.bullet_cool_down = self.cool_down;
            let x = self.x + self.sprite.width as i16 / 2 - sprite.width as i16 / 2;
            let y = self.y + sprite.height as i16;
            Some(Bullet { x, y, friendly: false, vel_y: 2, vel_x: 0, sprite, active: true })
        } else {
            None
        }
    }
}

impl Bullet {
    /// The bullet's next step would take it off the field: above the first row
    /// for the player's bullets, below the last row for an enemy's.
    pub open spec fn leaving(self, screen: Screen) -> bool {
        let new_pos = self.y + self.vel_y;
        if self.friendly {
            new_pos < 1
        } else {
            new_pos > screen.height
        }
    }

    /// The sums that `update` computes fit in 16 bits.
    pub open spec fn can_update(self) -> bool {
        &&& fits_i16(self.x + self.vel_x)
        &&& fits_i16(self.y + self.vel_y)
    }

    /// The bullet after its boundary check: deactivated if it is leaving.
    pub open spec fn checked(self, screen: Screen) -> Bullet {
        if self.leaving(screen) {
            Bullet { active: false, ..self }
        } else {
            self
        }
    }

    /// The bullet one frame later: checked against the boundary, then moved by
    /// its velocity.
    pub open spec fn advanced(self, screen: Screen) -> Bullet {
        Bullet {
            x: (self.x + self.vel_x) as i16,
            y: (self.y + self.vel_y) as i16,
            ..self.checked(screen)
        }
    }

    /// Advances the bullet by one frame.
    pub fn update(&mut self, screen: &Screen)
        requires
            old(self).can_update(),
        ensures
            *final(self) == old(self).advanced(*screen),
    {
        self.boundary_check(screen);
        self.x += self.vel_x as i16;
        self.y += self.vel_y as i16;
    }

    /// Whether the bullet has room for its next step.
    pub fn can_move(&self) -> (r: bool)
        ensures
            r == self.can_update(),
    {
        let x = self.x as i32 + self.vel_x as i32;
        let y = self.y as i32 + self.vel_y as i32;
        i16::MIN as i32 <= x && x <= i16::MAX as i32 && i16::MIN as i32 <= y && y <= i16::MAX as i32
    }

    /// Whether the player fired the bullet.
    pub fn is_friendly(&self) -> (r: bool)
        ensures
            r == self.friendly,
    {
        self.friendly
    }

    /// The bottom-right corner of the bullet.
    pub fn get_corner_pos(&self) -> (c: (i16, i16))
        requires
            fits_i16(self.x + self.sprite.width),
            fits_i16(self.y + self.sprite.height),
        ensures
            c.0 == self.x + self.sprite.width,
            c.1 == self.y + self.sprite.height,
    {
        let (x, y) = self.get_pos();
        (x + self.sprite.width as i16, y + self.sprite.height as i16)
    }

    /// Deactivates the bullet if its next step takes it off the field.
    pub fn boundary_check(&mut self, screen: &Screen)
        requires
            fits_i16(old(self).y + old(self).vel_y),
        ensures
            *final(self) == old(self).checked(*screen),
    {
        let new_pos: i16 = self.y + self.vel_y as i16;
        if self.friendly {
            if new_pos < 1 {
                self.active = false;
            }
        } else {
            if new_pos > screen.height() as i16 {
                self.active = false
            }
        }
    }
}

/// The horizontal drift that a random draw gives an asteroid: one pixel a frame
/// to the left, none, or one to the right.
pub open spec fn drift(random_val: u32) -> int {
    (random_val % 3) - 1
}

impl Asteroid {
    /// An asteroid at `(x, y)` that falls by one pixel a frame and drifts as
    /// `random_val` says.
    pub fn new(x: i16, y: i16, sprite: &Sprite, random_val: u32) -> (a: Self)
        ensures
            a == (Asteroid {
                x,
                y,
                vel_x: drift(random_val) as i8,
                vel_y: 1,
                sprite: *sprite,
                active: true,
            }),
            a.wf(),
    {
        let vel_x = (random_val % 3) as i8 - 1;
        Self { x, y, vel_x, vel_y: 1, sprite: *sprite, active: true }
    }

    /// The asteroid drifts by at most one pixel a frame and falls by one.
    pub open spec fn wf(self) -> bool {
        &&& -1 <= self.vel_x <= 1
        &&& self.vel_y == 1
    }

    /// The asteroid's next step would take it onto a side edge of the field.
    pub open spec fn at_side(self, screen: Screen) -> bool {
        let new_pos = self.x + self.vel_x;
        new_pos <= 1 || new_pos + self.sprite.width >= screen.width
    }

    /// The asteroid's next step would take it to the bottom of the field.
    pub open spec fn at_bottom(self, screen: Screen) -> bool {
        self.y + self.vel_y >= screen.height
    }

    /// The asteroid after its boundary check: turned round at a side edge and
    /// deactivated at the bottom.
    pub open spec fn checked(self, screen: Screen) -> Asteroid {
        Asteroid {
            vel_x: if self.at_side(screen) {
                (-self.vel_x) as i8
            } else {
                self.vel_x
            },
            active: self.active && !self.at_bottom(screen),
            ..self
        }
    }

    /// The asteroid is well-formed and the sums that `update` computes fit in
    /// 16 bits.
    pub open spec fn can_update(self, screen: Screen) -> bool {
        &&& self.wf()
        &&& fits_i16(self.x + self.vel_x)
        &&& fits_i16(self.x + self.vel_x + self.sprite.width)
        &&& fits_i16(self.x + self.checked(screen).vel_x)
        &&& fits_i16(self.y + self.vel_y)
    }

    /// The asteroid one frame later: checked against the boundary, then moved
    /// by its velocity.
    pub open spec fn advanced(self, screen: Screen) -> Asteroid {
        let c = self.checked(screen);
        Asteroid { x: (c.x + c.vel_x) as i16, y: (c.y + c.vel_y) as i16, ..c }
    }

    /// Advances the asteroid by one frame.
    pub fn update(&mut self, screen: &Screen)
        requires
            old(self).can_update(*screen),
        ensures
            *final(self) == old(self).advanced(*screen),
            final(self).wf(),
    {
        self.boundary_check(screen);
        self.x += self.vel_x as i16;
        self.y += self.vel_y as i16;
    }

    /// Whether the asteroid is well-formed and has room for its next step.
    pub fn can_move(&self, screen: &Screen) -> (r: bool)
        ensures
            r == self.can_update(*screen),
    {
        if !(-1 <= self.vel_x && self.vel_x <= 1 && self.vel_y == 1) {
            return false;
        }
        let new_pos = self.x as i32 + self.vel_x as i32;
        let far = new_pos + self.sprite.width as i32;
        let turned = if new_pos <= 1 || far >= screen.width as i32 {
            -(self.vel_x as i32)
        } else {
            self.vel_x as i32
        };
        let x = self.x as i32 + turned;
        let y = self.y as i32 + self.vel_y as i32;
        i16::MIN as i32 <= new_pos && far <= i16::MAX as i32 && i16::MIN as i32 <= x && x
            <= i16::MAX as i32 && y <= i16::MAX as i32
    }

    /// The bottom-right corner of the asteroid.
    pub fn get_corner_pos(&self) -> (c: (i16, i16))
        requires
            fits_i16(self.x + self.sprite.width),
            fits_i16(self.y + self.sprite.height),
        ensures
            c.0 == self.x + self.sprite.width,
            c.1 == self.y + self.sprite.height,
    {
        let (x, y) = self.get_pos();
        (x + self.sprite.width as i16, y + self.sprite.height as i16)
    }

    /// Turns the asteroid round at a side edge and deactivates it at the
    /// bottom.
    pub fn boundary_check(&mut self, screen: &Screen)
        requires
            old(self).wf(),
            fits_i16(old(self).x + old(self).vel_x),
            fits_i16(old(self).x + old(self).vel_x + old(self).sprite.width),
            fits_i16(old(self).y + old(self).vel_y),
        ensures
            *final(self) == old(self).checked(*screen),
    {
        let new_pos: i16 = self.x + self.vel_x as i16;
        if new_pos <= 1 || new_pos + self.sprite.width as i16 >= screen.width as i16 {
            self.vel_x = -self.vel_x;
        }
        if self.y + self.vel_y as i16 >= screen.height() as i16 {
            self.active = false;
        }
    }
}

impl Object for Player {
    open spec fn alive(&self) -> bool {
        self.active
    }

    open spec fn bounty(&self) -> nat {
        0
    }

    fn is_active(&self) -> (r: bool) {
        self.active
    }

    fn bury(self, score: &mut i16) {
    }
}

impl Object for Enemy {
    open spec fn alive(&self) -> bool {
        self.active
    }

    open spec fn bounty(&self) -> nat {
        1
    }

    fn is_active(&self) -> (r: bool) {
        self.active
    }

    fn bury(self, score: &mut i16) {
        *score += 1;
    }
}

impl Object for Bullet {
    open spec fn alive(&self) -> bool {
        self.active
    }

    open spec fn bounty(&self) -> nat {
        0
    }

    fn is_active(&self) -> (r: bool) {
        self.active
    }

    fn bury(self, score: &mut i16) {
    }
}

impl Object for Asteroid {
    open spec fn alive(&self) -> bool {
        self.active
    }

    open spec fn bounty(&self) -> nat {
        1
    }

    fn is_active(&self) -> (r: bool) {
        self.active
    }

    fn bury(self, score: &mut i16) {
        *score += 1;
    }
}

impl Movable for Player {
    open spec fn position(&self) -> (i16, i16) {
        (self.x, self.y)
    }

    fn get_pos(&self) -> (p: (i16, i16)) {
        (self.x, self.y)
    }

    fn set_pos(&mut self, x: i16, y: i16)
        ensures
            final(self)@ == (PlayerState { x, y, ..old(self)@ }),
    {
        self.x = x;
        self.y = y;
    }
}

impl Movable for Enemy {
    open spec fn position(&self) -> (i16, i16) {
        (self.x, self.y)
    }

    fn get_pos(&self) -> (p: (i16, i16)) {
        (self.x, self.y)
    }

    fn set_pos(&mut self, x: i16, y: i16)
        ensures
            *final(self) == (Enemy { x, y, ..*old(self) }),
    {
        self.x = x;
        self.y = y;
    }
}

impl Movable for Bullet {
    open spec fn position(&self) -> (i16, i16) {
        (self.x, self.y)
    }

    fn get_pos(&self) -> (p: (i16, i16)) {
        (self.x, self.y)
    }

    fn set_pos(&mut self, x: i16, y: i16)
        ensures
            *final(self) == (Bullet { x, y, ..*old(self) }),
    {
        self.x = x;
        self.y = y;
    }
}

impl Movable for Asteroid {
    open spec fn position(&self) -> (i16, i16) {
        (self.x, self.y)
    }

    fn get_pos(&self) -> (p: (i16, i16)) {
        (self.x, self.y)
    }

    fn set_pos(&mut self, x: i16, y: i16)
        ensures
            *final(self) == (Asteroid { x, y, ..*old(self) }),
    {
        self.x = x;
        self.y = y;
    }
}

impl Target for Enemy {
    open spec fn frame(&self) -> Rect {
        Rect::spanning(
            self.x as int,
            self.y as int,
            self.sprite.width as int,
            self.sprite.height as int,
        )
    }

    open spec fn struck(self) -> Enemy {
        Enemy { active: false, ..self }
    }

    fn hitbox(&self) -> (r: Rect) {
        Rect::of(self.x, self.y, self.sprite.width, self.sprite.height)
    }

    fn strike(&mut self) {
        self.active = false;
    }

    proof fn lemma_struck(self) {
    }
}

impl Target for Asteroid {
    open spec fn frame(&self) -> Rect {
        Rect::spanning(
            self.x as int,
            self.y as int,
            self.sprite.width as int,
            self.sprite.height as int,
        )
    }

    open spec fn struck(self) -> Asteroid {
        Asteroid { active: false, ..self }
    }

    fn hitbox(&self) -> (r: Rect) {
        Rect::of(self.x, self.y, self.sprite.width, self.sprite.height)
    }

    fn strike(&mut self) {
        self.active = false;
    }

    proof fn lemma_struck(self) {
    }
}

impl Target for Bullet {
    open spec fn frame(&self) -> Rect {
        Rect::spanning(
            self.x as int,
            self.y as int,
            self.sprite.width as int,
            self.sprite.height as int,
        )
    }

    open spec fn struck(self) -> Bullet {
        Bullet { active: false, ..self }
    }

    fn hitbox(&self) -> (r: Rect) {
        Rect::of(self.x, self.y, self.sprite.width, self.sprite.height)
    }

    fn strike(&mut self) {
        self.active = false;
    }

    proof fn lemma_struck(self) {
    }
}

} // verus!
