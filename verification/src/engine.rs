//! The game as a whole: the player, the three pools, the screen and the
//! status, with the frame pipeline `spawn`, `update`, `collect`.

use crate::collect::{
    compacted, count_dead, dead_bounty, lemma_compacted_from_there, lemma_compacted_len,
    lemma_dead_bounty_is_count, sweep,
};
use crate::game::{Asteroid, Bullet, Enemy, Object, Player, PlayerState, Screen};
use crate::objects::{
    asteroid_sprite, player_1_sprite, LEVEL_SCORE, MAX_ASTEROIDS, MAX_ENEMIES, MAX_ENEMY_BULLETS,
};
use crate::pools::Pool;
use crate::spawn::{
    after_salvo, asteroid_wave, asteroids_are_wf, asteroids_wf, enemies_can_aim, enemies_have_aim,
    enemy_wave, lemma_salvo_len,
    open_fire, raise_asteroids, raise_enemies, salvo, shortfall, topped_up,
};
use crate::update::{
    any_hit, asteroids_can_move, asteroids_have_room, bullets_can_move, bullets_have_room, fallen,
    flown, fly_asteroids, fly_bullets, fly_shots, tick_all, ticked, Skirmish,
};
use vstd::prelude::*;

verus! {

/// The game as a mathematical value: the pools are sequences in storage order.
pub struct GameState {
    pub player: PlayerState,
    pub enemies: Seq<Enemy>,
    /// The enemies' bullets in flight.
    pub bullets: Seq<Bullet>,
    pub asteroids: Seq<Asteroid>,
    pub screen: Screen,
    /// False once the player has been hit.
    pub running: bool,
}

/// The player, the pools of everything else in play, the screen and the
/// status of the game.
#[derive(Debug)]
pub struct GamePool {
    pub player: Player,
    pub enemies: heapless::Vec<Enemy, 10>,
    /// The enemies' bullets in flight.
    pub bullets: heapless::Vec<Bullet, 100>,
    pub asteroids: heapless::Vec<Asteroid, 20>,
    pub screen: Screen,
    /// True while the game runs, false once the player has been hit.
    pub status: bool,
}

/// How a frame ended.
#[derive(Clone, Copy, Debug, PartialEq, Eq)]
pub enum FrameEnd {
    /// The frame is complete and the game goes on.
    Running,
    /// The frame is complete and the game is over.
    GameOver,
    /// The frame was broken off because a position or the score would have
    /// left the range of 16 bits.
    OutOfRange,
}

impl View for GamePool {
    type V = GameState;

    open spec fn view(&self) -> GameState {
        GameState {
            player: self.player@,
            enemies: self.enemies.items(),
            bullets: self.bullets.items(),
            asteroids: self.asteroids.items(),
            screen: self.screen,
            running: self.status,
        }
    }
}

impl GameState {
    /// What every game that was set up by `init` and driven by `spawn`,
    /// `update` and `collect` satisfies: the pools hold no more than their
    /// capacity, the field is wider than an asteroid, the player stands
    /// within it and keeps to its line, every enemy stands where its bullets
    /// can be placed, and every asteroid drifts by at most a pixel a frame.
    pub open spec fn wf(self) -> bool {
        &&& self.player.wf()
        &&& self.player.in_bounds(self.screen)
        &&& self.player.can_aim()
        &&& self.screen.width > asteroid_sprite().width
        &&& self.enemies.len() <= MAX_ENEMIES
        &&& self.bullets.len() <= MAX_ENEMY_BULLETS
        &&& self.asteroids.len() <= MAX_ASTEROIDS
        &&& enemies_can_aim(self.enemies)
        &&& asteroids_wf(self.asteroids)
    }

    /// The game on a display of `disp_width` by `disp_height` pixels before
    /// the first frame. Twelve rows at the bottom belong to the status bar and
    /// one pixel all round to the border. The player stands in the middle of
    /// the bottom row; nothing else is in play.
    pub open spec fn initial(disp_width: u8, disp_height: u8) -> GameState {
        let screen = Screen { width: (disp_width - 2) as u8, height: (disp_height - 12 - 2) as u8 };
        GameState {
            player: PlayerState {
                x: (screen.width / 2 - player_1_sprite().width / 2 + 1) as i16,
                y: (screen.height - player_1_sprite().height - 1) as i16,
                vel_x: 0,
                vel_y: 0,
                active: true,
                shots: Seq::empty(),
                sprite: player_1_sprite(),
                score: 0,
                cool_down: 0,
            },
            enemies: Seq::empty(),
            bullets: Seq::empty(),
            asteroids: Seq::empty(),
            screen,
            running: true,
        }
    }

    /// The number of asteroids that the score calls for: one, and one more for
    /// each level.
    pub open spec fn asteroids_called_for(self) -> int {
        self.player.score as int / (LEVEL_SCORE as int) + 1
    }

    /// The number of enemies that the score calls for: one, and one more for
    /// every two levels.
    pub open spec fn enemies_called_for(self) -> int {
        self.player.score as int / (2 * LEVEL_SCORE as int) + 1
    }

    /// The number of asteroids that the next `spawn` adds.
    pub open spec fn asteroids_due(self) -> nat {
        shortfall(
            self.asteroids.len(),
            self.player.score as int,
            LEVEL_SCORE as int,
            MAX_ASTEROIDS as nat,
        )
    }

    /// The number of enemies that the next `spawn` adds.
    pub open spec fn enemies_due(self) -> nat {
        shortfall(
            self.enemies.len(),
            self.player.score as int,
            2 * LEVEL_SCORE as int,
            MAX_ENEMIES as nat,
        )
    }

    /// The enemies after the next `spawn` has added the new ones and before
    /// any has fired.
    pub open spec fn reinforced(self, draws: Seq<Option<u32>>) -> Seq<Enemy> {
        self.enemies + enemy_wave(
            self.enemies_due(),
            draws,
            self.asteroids_due() as int,
            self.screen,
            self.player.score,
        )
    }

    /// The game after spawning. The first draws of the tape place the new
    /// asteroids and the following ones the new enemies; then every enemy
    /// whose cool-down has run out fires.
    pub open spec fn spawned(self, draws: Seq<Option<u32>>) -> GameState {
        GameState {
            asteroids: self.asteroids + asteroid_wave(self.asteroids_due(), draws, 0, self.screen),
            enemies: after_salvo(self.reinforced(draws)),
            bullets: topped_up(
                self.bullets,
                salvo(self.reinforced(draws)),
                MAX_ENEMY_BULLETS as nat,
            ),
            ..self
        }
    }

    /// The sums that `update` computes fit in 16 bits: every bullet and every
    /// asteroid has room for its next step.
    pub open spec fn can_update(self) -> bool {
        &&& bullets_have_room(self.player.shots)
        &&& bullets_have_room(self.bullets)
        &&& asteroids_have_room(self.asteroids, self.screen)
    }

    /// The player's bullets, the enemies after their tick, and the asteroids:
    /// what the player's bullets fly into in the next frame.
    pub open spec fn skirmish(self) -> Skirmish {
        Skirmish { shots: self.player.shots, enemies: ticked(self.enemies), asteroids: self.asteroids }
    }

    /// The game one frame later under the input `dir`.
    ///
    /// The player moves first and the enemies' cool-downs tick. The player's
    /// bullets fly one after the other, each striking the first enemy it hits
    /// or else the first asteroid. Then the enemies' bullets fly and the
    /// asteroids fall. The game is over as soon as one of these, still in
    /// play, overlaps the vulnerable rectangle of a player in play, and it
    /// stays over.
    pub open spec fn updated(self, dir: (bool, bool)) -> GameState {
        let fight = self.skirmish().fought(self.screen);
        let player = PlayerState { shots: fight.shots, ..self.player.updated(dir, self.screen) };
        let bullets = flown(self.bullets, self.screen);
        let asteroids = fallen(fight.asteroids, self.screen);
        let hit = player.active && (any_hit(player.vulnerable_frame(), bullets) || any_hit(
            player.vulnerable_frame(),
            asteroids,
        ));
        GameState {
            player,
            enemies: fight.enemies,
            bullets,
            asteroids,
            screen: self.screen,
            running: self.running && !hit,
        }
    }

    /// A whole frame can be run: the game is well-formed, there is room for
    /// the frame's steps after spawning, and room for its points after that.
    pub open spec fn can_frame(self, draws: Seq<Option<u32>>, dir: (bool, bool)) -> bool {
        &&& self.wf()
        &&& self.spawned(draws).can_update()
        &&& self.spawned(draws).updated(dir).can_collect()
    }

    /// How a frame ends that leaves the game like this.
    pub open spec fn verdict(self) -> FrameEnd {
        if self.running {
            FrameEnd::Running
        } else {
            FrameEnd::GameOver
        }
    }

    /// The game after a whole frame: spawned, then updated, then collected.
    pub open spec fn framed(self, draws: Seq<Option<u32>>, dir: (bool, bool)) -> GameState {
        self.spawned(draws).updated(dir).collected()
    }

    /// The game after a frame that was broken off as soon as it could not go
    /// on: not begun if the game is not well-formed, stopped after spawning
    /// if the steps have no room, and stopped after the update if the points
    /// have none.
    pub open spec fn stalled(self, draws: Seq<Option<u32>>, dir: (bool, bool)) -> GameState {
        if !self.wf() {
            self
        } else if !self.spawned(draws).can_update() {
            self.spawned(draws)
        } else {
            self.spawned(draws).updated(dir)
        }
    }

    /// The points that the next `collect` credits: one for every enemy and
    /// every asteroid that is out of play.
    pub open spec fn spoils(self) -> nat {
        dead_bounty(self.enemies) + dead_bounty(self.asteroids)
    }

    /// The score has room for the points that the next `collect` credits.
    pub open spec fn can_collect(self) -> bool {
        self.player.score + self.spoils() <= i16::MAX
    }

    /// The game after collecting: every pool is swept, and the player is
    /// credited for the enemies and asteroids that were removed.
    pub open spec fn collected(self) -> GameState {
        GameState {
            player: PlayerState {
                shots: compacted(self.player.shots),
                score: (self.player.score + self.spoils()) as i16,
                ..self.player
            },
            enemies: compacted(self.enemies),
            bullets: compacted(self.bullets),
            asteroids: compacted(self.asteroids),
            ..self
        }
    }
}

/// Bullets earn nothing.
pub proof fn lemma_bullets_earn_nothing(bullets: Seq<Bullet>)
    ensures
        dead_bounty(bullets) == 0,
    decreases bullets.len(),
{
    if bullets.len() > 0 {
        lemma_bullets_earn_nothing(bullets.drop_last());
    }
}

impl GamePool {
    /// Sets the game up for a display of `disp_width` by `disp_height`
    /// pixels. The display must be large enough for the player's ship and
    /// wider than an asteroid.
    pub fn init(disp_width: u8, disp_height: u8) -> (game: Self)
        requires
            disp_width >= 13,
            disp_height >= 25,
        ensures
            game@ == GameState::initial(disp_width, disp_height),
            game@.wf(),
    {
        let disp_height = disp_height - 12;
        let screen = Screen::new(disp_width - 2, disp_height - 2);
        let sprite = player_1_sprite();
        let player = Player::new(
            (screen.width() / 2 - sprite.width() / 2 + 1) as i16,
            (screen.height() - sprite.height() - 1) as i16,
            &sprite,
        );
        let enemies: heapless::Vec<Enemy, 10> = Pool::fresh();
        let bullets: heapless::Vec<Bullet, 100> = Pool::fresh();
        let asteroids: heapless::Vec<Asteroid, 20> = Pool::fresh();
        Self { player, enemies, bullets, asteroids, screen, status: true }
    }

    /// The number of draws that the next `spawn` uses.
    pub fn draws_wanted(&self) -> (n: usize)
        requires
            self@.wf(),
        ensures
            n == self@.asteroids_due() + self@.enemies_due(),
    {
        let level = self.player.player_score / LEVEL_SCORE as i16;
        let asteroids = missing(self.asteroids.occupancy(), level, MAX_ASTEROIDS);
        let enemies = missing(self.enemies.occupancy(), level / 2, MAX_ENEMIES);
        asteroids + enemies
    }

    /// Spawns asteroids and enemies as the score calls for, placing them by
    /// the draws of the tape, and lets the enemies fire that are ready to. A
    /// draw that is `None`, or missing because the tape is too short, stands
    /// for a failure of the random source.
    pub fn spawn(&mut self, draws: &[Option<u32>])
        requires
            old(self)@.wf(),
        ensures
            final(self)@ == old(self)@.spawned(draws@),
            final(self)@.wf(),
    {
        let score = self.player.player_score;
        let next = raise_asteroids(&mut self.asteroids, score, &self.screen, draws, 0);
        let _ = raise_enemies(&mut self.enemies, score, &self.screen, draws, next);
        proof {
            lemma_salvo_len(self.enemies.items());
        }
        open_fire(&mut self.enemies, &mut self.bullets);
    }

    /// Advances the game by one frame under the input `dir`, which says
    /// whether left and whether right is pressed.
    pub fn update(&mut self, dir: &(bool, bool))
        requires
            old(self)@.wf(),
            old(self)@.can_update(),
        ensures
            final(self)@ == old(self)@.updated(*dir),
            final(self)@.wf(),
            !old(self)@.running ==> !final(self)@.running,
    {
        self.player.update(dir, &self.screen);
        tick_all(&mut self.enemies);
        proof {
            old(self)@.skirmish().lemma_volley(old(self)@.player.shots.len(), self.screen);
        }
        fly_shots(&mut self.player.bullets, &mut self.enemies, &mut self.asteroids, &self.screen);
        let zone = self.player.vulnerable_hitbox();
        let shot_down = fly_bullets(&mut self.bullets, &self.screen, &zone);
        let crushed = fly_asteroids(&mut self.asteroids, &self.screen, &zone);
        if self.player.is_active() && (shot_down || crushed) {
            self.status = false;
        }
    }

    /// Removes every entity that is out of play and credits the player with
    /// one point for each enemy and each asteroid among them.
    pub fn collect(&mut self)
        requires
            old(self)@.wf(),
            old(self)@.can_collect(),
        ensures
            final(self)@ == old(self)@.collected(),
            final(self)@.wf(),
    {
        proof {
            lemma_bullets_earn_nothing(self.player.bullets.items());
            lemma_bullets_earn_nothing(self.bullets.items());
            old(self)@.lemma_collected_wf();
        }
        sweep(&mut self.player.bullets, &mut self.player.player_score);
        sweep(&mut self.enemies, &mut self.player.player_score);
        sweep(&mut self.bullets, &mut self.player.player_score);
        sweep(&mut self.asteroids, &mut self.player.player_score);
    }

    /// Runs one frame: spawns with the draws of the tape, updates under the
    /// input `dir`, and collects. The frame is broken off, and the game left
    /// as it then is, where the next step would take a position or the score
    /// out of the range of 16 bits.
    pub fn frame(&mut self, draws: &[Option<u32>], dir: &(bool, bool)) -> (end: FrameEnd)
        ensures
            old(self)@.can_frame(draws@, *dir) ==> final(self)@ == old(self)@.framed(draws@, *dir)
                && final(self)@.wf() && end == final(self)@.verdict(),
            !old(self)@.can_frame(draws@, *dir) ==> final(self)@ == old(self)@.stalled(draws@, *dir)
                && end == FrameEnd::OutOfRange,
    {
        if !self.is_wf() {
            return FrameEnd::OutOfRange;
        }
        self.spawn(draws);
        if !self.can_update() {
            return FrameEnd::OutOfRange;
        }
        self.update(dir);
        if !self.can_collect() {
            return FrameEnd::OutOfRange;
        }
        self.collect();
        if self.is_ok() {
            FrameEnd::GameOver
        } else {
            FrameEnd::Running
        }
    }

    /// Whether the game is well-formed. It is after `init` and stays so under
    /// `spawn`, `update` and `collect`; writing to the fields can undo it.
    pub fn is_wf(&self) -> (r: bool)
        ensures
            r == self@.wf(),
    {
        let _ = self.player.bullets.occupancy();
        let _ = self.enemies.occupancy();
        let _ = self.bullets.occupancy();
        let _ = self.asteroids.occupancy();
        self.player.vel_y == 0 && self.player.player_score >= 0
            && self.player.is_in_bounds(&self.screen) && self.player.has_aim()
            && self.screen.width > asteroid_sprite().width && enemies_have_aim(&self.enemies)
            && asteroids_are_wf(&self.asteroids)
    }

    /// Whether every bullet and every asteroid has room for its next step, so
    /// that `update` can be called.
    pub fn can_update(&self) -> (r: bool)
        ensures
            r == self@.can_update(),
    {
        bullets_can_move(&self.player.bullets) && bullets_can_move(&self.bullets)
            && asteroids_can_move(&self.asteroids, &self.screen)
    }

    /// Whether the score has room for the points that `collect` would credit.
    pub fn can_collect(&self) -> (r: bool)
        ensures
            r == self@.can_collect(),
    {
        proof {
            lemma_dead_bounty_is_count(self.enemies.items());
            lemma_dead_bounty_is_count(self.asteroids.items());
        }
        let _ = self.enemies.occupancy();
        let _ = self.asteroids.occupancy();
        let dead = count_dead(&self.enemies) + count_dead(&self.asteroids);
        self.player.player_score as i32 + dead as i32 <= i16::MAX as i32
    }

    /// Whether the game is over.
    pub fn is_ok(&self) -> (over: bool)
        ensures
            over == !self@.running,
    {
        !self.status
    }
}

/// The number of entities still to spawn in a pool that holds `have` of at
/// most `limit`, when `level` more than one are due.
fn missing(have: usize, level: i16, limit: usize) -> (n: usize)
    requires
        level >= 0,
        have <= limit <= 100,
    ensures
        n == if have < level + 1 && have < limit {
            (if level + 1 < limit {
                level + 1
            } else {
                limit as int
            }) - have
        } else {
            0
        },
{
    let due: usize = if (level as usize) < limit {
        level as usize + 1
    } else {
        limit
    };
    if have < due {
        due - have
    } else {
        0
    }
}

impl GameState {
    /// Collecting keeps a well-formed game well-formed.
    pub proof fn lemma_collected_wf(self)
        requires
            self.wf(),
            self.can_collect(),
        ensures
            self.collected().wf(),
    {
        let after = self.collected();
        lemma_compacted_len(self.player.shots, 0);
        lemma_compacted_len(self.enemies, 0);
        lemma_compacted_len(self.bullets, 0);
        lemma_compacted_len(self.asteroids, 0);
        assert forall|i: int| 0 <= i < after.enemies.len() implies (#[trigger] after.enemies[i]).can_aim() by {
            lemma_compacted_from_there(self.enemies, after.enemies[i]);
        }
        assert forall|i: int| 0 <= i < after.asteroids.len() implies (#[trigger] after.asteroids[i]).wf() by {
            lemma_compacted_from_there(self.asteroids, after.asteroids[i]);
        }
    }
}

} // verus!
