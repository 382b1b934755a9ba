//! Spawning: how many asteroids and enemies the score calls for, where the
//! random draws put them, and which enemies open fire.

use crate::game::{drift, Asteroid, Bullet, Enemy, Screen};
use crate::objects::{asteroid_sprite, enemy_sprite, LEVEL_SCORE};
use crate::pools::Pool;
use vstd::prelude::*;

verus! {

/// The number of entities still to spawn in a pool that holds `have` and can
/// hold `limit`: one entity is due, and one more for every `per_level` points
/// of `score`.
pub open spec fn shortfall(have: nat, score: int, per_level: int, limit: nat) -> nat {
    let due = if score / per_level + 1 < limit {
        score / per_level + 1
    } else {
        limit as int
    };
    if have < due {
        (due - have) as nat
    } else {
        0
    }
}

/// The draw at position `k` of the tape. Past its end the random source has
/// failed.
pub open spec fn draw_at(draws: Seq<Option<u32>>, k: int) -> Option<u32> {
    if 0 <= k < draws.len() {
        draws[k]
    } else {
        None
    }
}

/// The asteroid that a draw gives rise to: just above the top edge, at a
/// column and with a drift taken from the draw. Without a draw it starts in
/// the left corner.
pub open spec fn asteroid_from(draw: Option<u32>, screen: Screen) -> Asteroid {
    let random_val: u32 = match draw {
        Some(v) => v,
        None => 0,
    };
    Asteroid {
        x: (random_val % ((screen.width - asteroid_sprite().width) as u32)) as i16,
        y: (1 - asteroid_sprite().height) as i16,
        vel_x: drift(random_val) as i8,
        vel_y: 1,
        sprite: asteroid_sprite(),
        active: true,
    }
}

/// The enemy that a draw gives rise to when the score is `score`. The upper
/// half of the draw picks the column and the lower half the row, each taken
/// modulo the width that an enemy leaves free, plus one; without a draw the
/// halves of the screen's width and height stand in for them. The higher the
/// score within its level, the shorter the time between two shots.
pub open spec fn enemy_from(draw: Option<u32>, screen: Screen, score: i16) -> Enemy {
    let (high, low): (int, int) = match draw {
        Some(v) => (v as int / 0x1_0000, v as int % 0x1_0000),
        None => (screen.width as int / 2, screen.height as int / 2),
    };
    let span = screen.width - enemy_sprite().width;
    Enemy {
        x: (high % span + 1) as i16,
        y: (low % span + 1) as i16,
        sprite: enemy_sprite(),
        active: true,
        bullet_cool_down: 40,
        cool_down: Enemy::cadence((LEVEL_SCORE - (score as int) % (LEVEL_SCORE as int)) as u16) as u16,
    }
}

/// Makes the asteroid that `draw` gives rise to.
pub fn new_asteroid(draw: Option<u32>, screen: &Screen) -> (a: Asteroid)
    requires
        screen.width > asteroid_sprite().width,
    ensures
        a == asteroid_from(draw, *screen),
        a.wf(),
{
    let sprite = asteroid_sprite();
    let random_val: u32 = match draw {
        Some(v) => v,
        None => 0,
    };
    let x_pos = random_val % (screen.width() - sprite.width) as u32;
    Asteroid::new(x_pos as i16, 1 - sprite.height as i16, &sprite, random_val)
}

/// Makes the enemy that `draw` gives rise to when the score is `score`.
pub fn new_enemy(draw: Option<u32>, screen: &Screen, score: i16) -> (e: Enemy)
    requires
        screen.width > enemy_sprite().width,
        score >= 0,
    ensures
        e == enemy_from(draw, *screen, score),
        e.can_aim(),
{
    let sprite = enemy_sprite();
    let half_width = screen.width() as u32 / 2;
    let half_height = screen.height() as u32 / 2;
    let rand_val: u32 = match draw {
        Some(v) => v,
        None => half_width << 16 | half_height,
    };
    proof {
        assert(rand_val >> 16 == rand_val / 0x1_0000) by (bit_vector);
        assert((rand_val >> 16) < 0x1_0000) by (bit_vector);
        assert(rand_val as u16 == rand_val % 0x1_0000) by (bit_vector);
        if draw is None {
            assert((half_width << 16 | half_height) / 0x1_0000 == half_width && (half_width << 16
                | half_height) % 0x1_0000 == half_height) by (bit_vector)
                requires
                    half_width < 128,
                    half_height < 128,
            ;
        }
    }
    let span = (screen.width() - sprite.width) as u16;
    let xpos: i16 = ((rand_val >> 16) as u16 % span + 1) as i16;
    let ypos: i16 = (rand_val as u16 % span + 1) as i16;
    let cooldown = LEVEL_SCORE as i16 - score % LEVEL_SCORE as i16;
    Enemy::new(xpos, ypos, &sprite, cooldown as u16)
}

/// The asteroids that the draws from position `first` on give rise to.
pub open spec fn asteroid_wave(count: nat, draws: Seq<Option<u32>>, first: int, screen: Screen) -> Seq<
    Asteroid,
> {
    Seq::new(count, |k: int| asteroid_from(draw_at(draws, first + k), screen))
}

/// The enemies that the draws from position `first` on give rise to.
pub open spec fn enemy_wave(
    count: nat,
    draws: Seq<Option<u32>>,
    first: int,
    screen: Screen,
    score: i16,
) -> Seq<Enemy> {
    Seq::new(count, |k: int| enemy_from(draw_at(draws, first + k), screen, score))
}

/// Reads the tape of draws at `k`.
pub fn read_draw(draws: &[Option<u32>], k: usize) -> (draw: Option<u32>)
    ensures
        draw == draw_at(draws@, k as int),
{
    if k < draws.len() {
        draws[k]
    } else {
        None
    }
}

/// Spawns asteroids until there is one more than the score has whole levels, or
/// the pool is full. Each takes one draw, starting at position `first` of the
/// tape. Returns the position of the next unused draw.
pub fn raise_asteroids<P: Pool<Item = Asteroid>>(
    pool: &mut P,
    score: i16,
    screen: &Screen,
    draws: &[Option<u32>],
    first: usize,
) -> (next: usize)
    requires
        score >= 0,
        screen.width > asteroid_sprite().width,
        P::limit() <= i16::MAX,
        first + P::limit() <= usize::MAX,
    ensures
        next == first + shortfall(old(pool).items().len(), score as int, LEVEL_SCORE as int, P::limit()),
        final(pool).items() == old(pool).items() + asteroid_wave(
            (next - first) as nat,
            draws@,
            first as int,
            *screen,
        ),
{
    let ghost start = pool.items();
    let ghost due = shortfall(start.len(), score as int, LEVEL_SCORE as int, P::limit());
    let mut next = first;
    let mut have = pool.occupancy();
    while have as i16 <= score / LEVEL_SCORE as i16 && have < P::ceiling()
        invariant
            have == pool.items().len(),
            score >= 0,
            screen.width > asteroid_sprite().width,
            P::limit() <= i16::MAX,
            first + P::limit() <= usize::MAX,
            start == old(pool).items(),
            due == shortfall(start.len(), score as int, LEVEL_SCORE as int, P::limit()),
            first <= next <= first + due,
            pool.items().len() == start.len() + (next - first),
            pool.items().len() <= P::limit(),
            pool.items() == start + asteroid_wave((next - first) as nat, draws@, first as int, *screen),
        decreases P::limit() - pool.items().len(),
    {
        let asteroid = new_asteroid(read_draw(draws, next), screen);
        let ghost before = pool.items();
        let _ = pool.enlist(asteroid);
        have += 1;
        next += 1;
        assert(pool.items() == before.push(asteroid));
        assert(pool.items() == start + asteroid_wave((next - first) as nat, draws@, first as int, *screen));
    }
    next
}

/// Spawns enemies until there is one more than the score has double levels, or
/// the pool is full. Each takes one draw, starting at position `first` of the
/// tape. Returns the position of the next unused draw.
pub fn raise_enemies<P: Pool<Item = Enemy>>(
    pool: &mut P,
    score: i16,
    screen: &Screen,
    draws: &[Option<u32>],
    first: usize,
) -> (next: usize)
    requires
        score >= 0,
        screen.width > enemy_sprite().width,
        P::limit() <= i16::MAX,
        first + P::limit() <= usize::MAX,
    ensures
        next == first + shortfall(
            old(pool).items().len(),
            score as int,
            2 * LEVEL_SCORE as int,
            P::limit(),
        ),
        final(pool).items() == old(pool).items() + enemy_wave(
            (next - first) as nat,
            draws@,
            first as int,
            *screen,
            score,
        ),
{
    let ghost start = pool.items();
    let ghost due = shortfall(start.len(), score as int, 2 * LEVEL_SCORE as int, P::limit());
    let mut next = first;
    let mut have = pool.occupancy();
    while have as i16 <= score / (LEVEL_SCORE * 2) as i16 && have < P::ceiling()
        invariant
            have == pool.items().len(),
            score >= 0,
            screen.width > enemy_sprite().width,
            P::limit() <= i16::MAX,
            first + P::limit() <= usize::MAX,
            start == old(pool).items(),
            due == shortfall(start.len(), score as int, 2 * LEVEL_SCORE as int, P::limit()),
            first <= next <= first + due,
            pool.items().len() == start.len() + (next - first),
            pool.items().len() <= P::limit(),
            pool.items() == start + enemy_wave(
                (next - first) as nat,
                draws@,
                first as int,
                *screen,
                score,
            ),
        decreases P::limit() - pool.items().len(),
    {
        let enemy = new_enemy(read_draw(draws, next), screen, score);
        let ghost before = pool.items();
        let _ = pool.enlist(enemy);
        have += 1;
        next += 1;
        assert(pool.items() == before.push(enemy));
        assert(pool.items() == start + enemy_wave(
            (next - first) as nat,
            draws@,
            first as int,
            *screen,
            score,
        ));
    }
    next
}

/// The bullets that the enemies whose cool-down has run out fire, in the order
/// of the enemies.
pub open spec fn salvo(enemies: Seq<Enemy>) -> Seq<Bullet> {
    enemies.filter(|e: Enemy| e.ready()).map_values(|e: Enemy| e.round())
}

/// The enemies after those whose cool-down has run out have fired.
pub open spec fn after_salvo(enemies: Seq<Enemy>) -> Seq<Enemy> {
    Seq::new(
        enemies.len(),
        |i: int|
            if enemies[i].ready() {
                enemies[i].reloaded()
            } else {
                enemies[i]
            },
    )
}

/// `bullets` with as many of `extra` appended, in order, as a pool of `limit`
/// has room for. The others are dropped.
pub open spec fn topped_up(bullets: Seq<Bullet>, extra: Seq<Bullet>, limit: nat) -> Seq<Bullet> {
    if bullets.len() + extra.len() <= limit {
        bullets + extra
    } else if bullets.len() <= limit {
        (bullets + extra).take(limit as int)
    } else {
        bullets
    }
}

/// One more enemy adds its bullet to the salvo if it is ready, and nothing if
/// not.
pub proof fn lemma_salvo_step(enemies: Seq<Enemy>, index: int)
    requires
        0 <= index < enemies.len(),
    ensures
        salvo(enemies.take(index + 1)) == if enemies[index].ready() {
            salvo(enemies.take(index)).push(enemies[index].round())
        } else {
            salvo(enemies.take(index))
        },
{
    let ready = |e: Enemy| e.ready();
    let round = |e: Enemy| e.round();
    let before = enemies.take(index);
    assert(enemies.take(index + 1) == before.push(enemies[index]));
    before.lemma_filter_push(enemies[index], ready);
    before.filter(ready).lemma_push_map_commute(round, enemies[index]);
}

/// The salvo holds no more bullets than there are enemies.
pub proof fn lemma_salvo_len(enemies: Seq<Enemy>)
    ensures
        salvo(enemies).len() <= enemies.len(),
{
    enemies.lemma_filter_len(|e: Enemy| e.ready());
}

/// A bullet fired by any of the enemies can be placed.
pub open spec fn enemies_can_aim(enemies: Seq<Enemy>) -> bool {
    forall|i: int| 0 <= i < enemies.len() ==> (#[trigger] enemies[i]).can_aim()
}

/// Every asteroid drifts and falls as asteroids do.
pub open spec fn asteroids_wf(asteroids: Seq<Asteroid>) -> bool {
    forall|i: int| 0 <= i < asteroids.len() ==> (#[trigger] asteroids[i]).wf()
}

/// Whether a bullet fired by any enemy of the pool can be placed.
pub fn enemies_have_aim<P: Pool<Item = Enemy>>(pool: &P) -> (r: bool)
    ensures
        r == enemies_can_aim(pool.items()),
{
    let n = pool.occupancy();
    let mut index: usize = 0;
    while index < n
        invariant
            index <= n,
            n == pool.items().len(),
            forall|i: int| 0 <= i < index ==> (#[trigger] pool.items()[i]).can_aim(),
        decreases n - index,
    {
        if !pool.peek(index).has_aim() {
            return false;
        }
        index += 1;
    }
    true
}

/// Whether every asteroid of the pool drifts and falls as asteroids do.
pub fn asteroids_are_wf<P: Pool<Item = Asteroid>>(pool: &P) -> (r: bool)
    ensures
        r == asteroids_wf(pool.items()),
{
    let n = pool.occupancy();
    let mut index: usize = 0;
    while index < n
        invariant
            index <= n,
            n == pool.items().len(),
            forall|i: int| 0 <= i < index ==> (#[trigger] pool.items()[i]).wf(),
        decreases n - index,
    {
        let asteroid = pool.peek(index);
        if !(-1 <= asteroid.vel_x && asteroid.vel_x <= 1 && asteroid.vel_y == 1) {
            return false;
        }
        index += 1;
    }
    true
}

/// Lets every enemy whose cool-down has run out fire. The bullets join the
/// pool as long as it has room.
pub fn open_fire<E: Pool<Item = Enemy>, B: Pool<Item = Bullet>>(enemies: &mut E, bullets: &mut B)
    requires
        forall|i: int|
            0 <= i < old(enemies).items().len() && (#[trigger] old(enemies).items()[i]).ready()
                ==> old(enemies).items()[i].can_aim(),
    ensures
        final(enemies).items() == after_salvo(old(enemies).items()),
        final(bullets).items() == topped_up(
            old(bullets).items(),
            salvo(old(enemies).items()),
            B::limit(),
        ),
{
    let ghost crew = enemies.items();
    let ghost stock = bullets.items();
    let n = enemies.occupancy();
    let mut index: usize = 0;
    while index < n
        invariant
            index <= n,
            n == crew.len(),
            n == enemies.items().len(),
            crew == old(enemies).items(),
            stock == old(bullets).items(),
            forall|j: int| 0 <= j < index ==> #[trigger] enemies.items()[j] == after_salvo(crew)[j],
            forall|j: int| index <= j < n ==> #[trigger] enemies.items()[j] == crew[j],
            forall|i: int| 0 <= i < n && (#[trigger] crew[i]).ready() ==> crew[i].can_aim(),
            bullets.items() == topped_up(stock, salvo(crew.take(index as int)), B::limit()),
        decreases n - index,
    {
        proof {
            lemma_salvo_step(crew, index as int);
        }
        let mut enemy = enemies.peek(index);
        if enemy.bullet_cool_down == 0 {
            if let Some(bullet) = enemy.shoot() {
                let _ = bullets.enlist(bullet);
            }
            enemies.poke(index, enemy);
        }
        index += 1;
    }
    assert(crew.take(n as int) == crew);
}

} // verus!
