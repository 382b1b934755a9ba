//! The physics step: moving every entity by one frame and finding out what hit
//! what.

use crate::game::{Asteroid, Bullet, Enemy, Object, Screen, Target};
use crate::geometry::{overlaps, rects_overlap, Rect};
use crate::pools::Pool;
use vstd::prelude::*;

verus! {

/// A bullet covering `frame` hits `target`: the target is in play and the two
/// rectangles overlap.
pub open spec fn is_hit<T: Target>(frame: Rect, target: T) -> bool {
    target.alive() && rects_overlap(frame, target.frame())
}

/// The index of the first of `targets`, from `from` on, that `frame` hits, or
/// their number if it hits none.
pub open spec fn first_hit_from<T: Target>(frame: Rect, targets: Seq<T>, from: int) -> int
    decreases targets.len() - from,
{
    if from < 0 || from >= targets.len() {
        targets.len() as int
    } else if is_hit(frame, targets[from]) {
        from
    } else {
        first_hit_from(frame, targets, from + 1)
    }
}

/// The index of the first of `targets` that `frame` hits, or their number if
/// it hits none.
pub open spec fn first_hit<T: Target>(frame: Rect, targets: Seq<T>) -> int {
    first_hit_from(frame, targets, 0)
}

/// `frame` hits at least one of `targets`.
pub open spec fn any_hit<T: Target>(frame: Rect, targets: Seq<T>) -> bool {
    first_hit(frame, targets) < targets.len()
}

/// `targets` after `frame` has struck the first one that it hits, if any.
pub open spec fn struck_by<T: Target>(frame: Rect, targets: Seq<T>) -> Seq<T> {
    let k = first_hit(frame, targets);
    if k < targets.len() {
        targets.update(k, targets[k].struck())
    } else {
        targets
    }
}

/// The first hit is a hit, and nothing before it is.
pub proof fn lemma_first_hit<T: Target>(frame: Rect, targets: Seq<T>, from: int)
    requires
        0 <= from <= targets.len(),
    ensures
        from <= first_hit_from(frame, targets, from) <= targets.len(),
        forall|j: int|
            from <= j < first_hit_from(frame, targets, from) ==> !is_hit(frame, #[trigger] targets[j]),
        first_hit_from(frame, targets, from) < targets.len() ==> is_hit(
            frame,
            targets[first_hit_from(frame, targets, from)],
        ),
    decreases targets.len() - from,
{
    if from < targets.len() && !is_hit(frame, targets[from]) {
        lemma_first_hit(frame, targets, from + 1);
    }
}

/// There is a hit exactly when some target is hit.
pub proof fn lemma_any_hit<T: Target>(frame: Rect, targets: Seq<T>)
    ensures
        any_hit(frame, targets) <==> exists|j: int|
            0 <= j < targets.len() && is_hit(frame, #[trigger] targets[j]),
{
    lemma_first_hit(frame, targets, 0);
    let k = first_hit(frame, targets);
    if k < targets.len() {
        assert(is_hit(frame, targets[k]));
    }
}

/// A strike changes no more than the activity of one target.
pub proof fn lemma_struck_by<T: Target>(frame: Rect, targets: Seq<T>)
    ensures
        struck_by(frame, targets).len() == targets.len(),
        forall|j: int|
            0 <= j < targets.len() ==> #[trigger] struck_by(frame, targets)[j] == targets[j]
                || struck_by(frame, targets)[j] == targets[j].struck(),
{
    lemma_first_hit(frame, targets, 0);
}

/// Strikes the first target in the pool that `frame` hits and says whether
/// there was one.
pub fn strike_first<P: Pool>(pool: &mut P, frame: &Rect) -> (hit: bool) where P::Item: Target
    ensures
        hit == any_hit(*frame, old(pool).items()),
        final(pool).items() == struck_by(*frame, old(pool).items()),
{
    let n = pool.occupancy();
    let mut index: usize = 0;
    while index < n
        invariant
            index <= n,
            n == pool.items().len(),
            pool.items() == old(pool).items(),
            first_hit_from(*frame, pool.items(), index as int) == first_hit(*frame, pool.items()),
        decreases n - index,
    {
        let mut target = pool.peek(index);
        if target.is_active() && overlaps(frame, &target.hitbox()) {
            target.strike();
            pool.poke(index, target);
            return true;
        }
        index += 1;
    }
    false
}

/// The enemies one frame later.
pub open spec fn ticked(enemies: Seq<Enemy>) -> Seq<Enemy> {
    Seq::new(enemies.len(), |i: int| enemies[i].ticked())
}

/// Lets every enemy's cool-down tick.
pub fn tick_all<P: Pool<Item = Enemy>>(pool: &mut P)
    ensures
        final(pool).items() == ticked(old(pool).items()),
{
    let n = pool.occupancy();
    let mut index: usize = 0;
    while index < n
        invariant
            index <= n,
            n == pool.items().len(),
            n == old(pool).items().len(),
            forall|j: int| 0 <= j < index ==> #[trigger] pool.items()[j] == old(pool).items()[j].ticked(),
            forall|j: int| index <= j < n ==> #[trigger] pool.items()[j] == old(pool).items()[j],
        decreases n - index,
    {
        let mut enemy = pool.peek(index);
        enemy.update();
        pool.poke(index, enemy);
        index += 1;
    }
}

/// The player's bullets in flight together with what they can hit.
pub struct Skirmish {
    pub shots: Seq<Bullet>,
    pub enemies: Seq<Enemy>,
    pub asteroids: Seq<Asteroid>,
}

impl Skirmish {
    /// The skirmish after the bullet at `index` has flown for one frame. If the
    /// bullet is then in play and hits an enemy, it takes the first such enemy
    /// out of play and is spent; if it hits no enemy but an asteroid, the same
    /// holds of the first such asteroid.
    pub open spec fn engaged(self, index: int, screen: Screen) -> Skirmish {
        let bullet = self.shots[index].advanced(screen);
        if bullet.active && any_hit(bullet.frame(), self.enemies) {
            Skirmish {
                shots: self.shots.update(index, bullet.struck()),
                enemies: struck_by(bullet.frame(), self.enemies),
                asteroids: self.asteroids,
            }
        } else if bullet.active && any_hit(bullet.frame(), self.asteroids) {
            Skirmish {
                shots: self.shots.update(index, bullet.struck()),
                enemies: self.enemies,
                asteroids: struck_by(bullet.frame(), self.asteroids),
            }
        } else {
            Skirmish { shots: self.shots.update(index, bullet), ..self }
        }
    }

    /// The skirmish after the first `n` bullets have flown, one after the
    /// other.
    pub open spec fn volley(self, n: nat, screen: Screen) -> Skirmish
        decreases n,
    {
        if n == 0 {
            self
        } else {
            self.volley((n - 1) as nat, screen).engaged(n - 1, screen)
        }
    }

    /// The skirmish after all bullets have flown.
    pub open spec fn fought(self, screen: Screen) -> Skirmish {
        self.volley(self.shots.len(), screen)
    }

    /// `other` has as many bullets as `self` and the same enemies and asteroids
    /// in the same places, but that some of these may have been struck.
    pub open spec fn same_targets(self, other: Skirmish) -> bool {
        &&& other.shots.len() == self.shots.len()
        &&& other.enemies.len() == self.enemies.len()
        &&& other.asteroids.len() == self.asteroids.len()
        &&& forall|j: int|
            0 <= j < self.enemies.len() ==> #[trigger] other.enemies[j] == self.enemies[j]
                || other.enemies[j] == self.enemies[j].struck()
        &&& forall|j: int|
            0 <= j < self.asteroids.len() ==> #[trigger] other.asteroids[j] == self.asteroids[j]
                || other.asteroids[j] == self.asteroids[j].struck()
    }

    /// A volley moves no enemy and no asteroid, takes none back into play, and
    /// leaves the bullets that have not flown yet as they were.
    pub proof fn lemma_volley(self, n: nat, screen: Screen)
        requires
            n <= self.shots.len(),
        ensures
            self.same_targets(self.volley(n, screen)),
            forall|j: int|
                n <= j < self.shots.len() ==> #[trigger] self.volley(n, screen).shots[j]
                    == self.shots[j],
        decreases n,
    {
        if n > 0 {
            let before = self.volley((n - 1) as nat, screen);
            self.lemma_volley((n - 1) as nat, screen);
            let bullet = before.shots[n - 1].advanced(screen);
            lemma_struck_by(bullet.frame(), before.enemies);
            lemma_struck_by(bullet.frame(), before.asteroids);
            let after = before.engaged(n - 1, screen);
            assert forall|j: int| 0 <= j < self.enemies.len() implies #[trigger] after.enemies[j]
                == self.enemies[j] || after.enemies[j] == self.enemies[j].struck() by {
                assert(before.enemies[j] == self.enemies[j] || before.enemies[j]
                    == self.enemies[j].struck());
            }
            assert forall|j: int| 0 <= j < self.asteroids.len() implies #[trigger] after.asteroids[j]
                == self.asteroids[j] || after.asteroids[j] == self.asteroids[j].struck() by {
                assert(before.asteroids[j] == self.asteroids[j] || before.asteroids[j]
                    == self.asteroids[j].struck());
            }
        }
    }
}

/// Lets the player's bullets fly for one frame, one after the other, each one
/// striking the first enemy that it hits or else the first asteroid.
pub fn fly_shots<S, E, A>(shots: &mut S, enemies: &mut E, asteroids: &mut A, screen: &Screen) where
    S: Pool<Item = Bullet>,
    E: Pool<Item = Enemy>,
    A: Pool<Item = Asteroid>,

    requires
        bullets_have_room(old(shots).items()),
    ensures
        (Skirmish {
            shots: final(shots).items(),
            enemies: final(enemies).items(),
            asteroids: final(asteroids).items(),
        }) == (Skirmish {
            shots: old(shots).items(),
            enemies: old(enemies).items(),
            asteroids: old(asteroids).items(),
        }).fought(*screen),
{
    let ghost start = Skirmish {
        shots: old(shots).items(),
        enemies: old(enemies).items(),
        asteroids: old(asteroids).items(),
    };
    let n = shots.occupancy();
    let mut index: usize = 0;
    while index < n
        invariant
            index <= n,
            n == start.shots.len(),
            start == (Skirmish {
                shots: old(shots).items(),
                enemies: old(enemies).items(),
                asteroids: old(asteroids).items(),
            }),
            (Skirmish {
                shots: shots.items(),
                enemies: enemies.items(),
                asteroids: asteroids.items(),
            }) == start.volley(index as nat, *screen),
            forall|i: int| 0 <= i < n ==> (#[trigger] start.shots[i]).can_update(),
        decreases n - index,
    {
        proof {
            start.lemma_volley(index as nat, *screen);
        }
        let mut bullet = shots.peek(index);
        bullet.update(screen);
        let mut spent = false;
        if bullet.is_active() {
            let frame = bullet.hitbox();
            spent = strike_first(enemies, &frame);
            if !spent {
                spent = strike_first(asteroids, &frame);
            }
        }
        if spent {
            bullet.strike();
        }
        shots.poke(index, bullet);
        index += 1;
    }
}

/// The bullets one frame later.
pub open spec fn flown(bullets: Seq<Bullet>, screen: Screen) -> Seq<Bullet> {
    Seq::new(bullets.len(), |i: int| bullets[i].advanced(screen))
}

/// The asteroids one frame later.
pub open spec fn fallen(asteroids: Seq<Asteroid>, screen: Screen) -> Seq<Asteroid> {
    Seq::new(asteroids.len(), |i: int| asteroids[i].advanced(screen))
}

/// Every bullet has room for its next step.
pub open spec fn bullets_have_room(bullets: Seq<Bullet>) -> bool {
    forall|i: int| 0 <= i < bullets.len() ==> (#[trigger] bullets[i]).can_update()
}

/// Every asteroid is well-formed and has room for its next step.
pub open spec fn asteroids_have_room(asteroids: Seq<Asteroid>, screen: Screen) -> bool {
    forall|i: int| 0 <= i < asteroids.len() ==> (#[trigger] asteroids[i]).can_update(screen)
}

/// Whether every bullet of the pool has room for its next step.
pub fn bullets_can_move<P: Pool<Item = Bullet>>(pool: &P) -> (r: bool)
    ensures
        r == bullets_have_room(pool.items()),
{
    let n = pool.occupancy();
    let mut index: usize = 0;
    while index < n
        invariant
            index <= n,
            n == pool.items().len(),
            forall|i: int| 0 <= i < index ==> (#[trigger] pool.items()[i]).can_update(),
        decreases n - index,
    {
        if !pool.peek(index).can_move() {
            return false;
        }
        index += 1;
    }
    true
}

/// Whether every asteroid of the pool is well-formed and has room for its next
/// step.
pub fn asteroids_can_move<P: Pool<Item = Asteroid>>(pool: &P, screen: &Screen) -> (r: bool)
    ensures
        r == asteroids_have_room(pool.items(), *screen),
{
    let n = pool.occupancy();
    let mut index: usize = 0;
    while index < n
        invariant
            index <= n,
            n == pool.items().len(),
            forall|i: int| 0 <= i < index ==> (#[trigger] pool.items()[i]).can_update(*screen),
        decreases n - index,
    {
        if !pool.peek(index).can_move(screen) {
            return false;
        }
        index += 1;
    }
    true
}

/// Lets the bullets of the pool fly for one frame and says whether one of
/// them then hits `zone`.
pub fn fly_bullets<P: Pool<Item = Bullet>>(pool: &mut P, screen: &Screen, zone: &Rect) -> (hit: bool)
    requires
        bullets_have_room(old(pool).items()),
    ensures
        final(pool).items() == flown(old(pool).items(), *screen),
        hit == any_hit(*zone, final(pool).items()),
{
    let n = pool.occupancy();
    let mut hit = false;
    let mut index: usize = 0;
    while index < n
        invariant
            index <= n,
            n == pool.items().len(),
            n == old(pool).items().len(),
            forall|j: int|
                0 <= j < index ==> #[trigger] pool.items()[j] == old(pool).items()[j].advanced(*screen),
            forall|j: int| index <= j < n ==> #[trigger] pool.items()[j] == old(pool).items()[j],
            forall|i: int| 0 <= i < n ==> (#[trigger] old(pool).items()[i]).can_update(),
            hit <==> exists|j: int| 0 <= j < index && is_hit(*zone, #[trigger] pool.items()[j]),
        decreases n - index,
    {
        let mut bullet = pool.peek(index);
        bullet.update(screen);
        let struck = bullet.is_active() && overlaps(zone, &bullet.hitbox());
        pool.poke(index, bullet);
        proof {
            let ghost now = pool.items();
            assert(struck == is_hit(*zone, now[index as int]));
            if hit && !struck {
                let j = choose|j: int|
                    0 <= j < index && is_hit(*zone, #[trigger] old(pool).items()[j].advanced(*screen));
                assert(is_hit(*zone, now[j]));
            }
        }
        if struck {
            hit = true;
        }
        index += 1;
    }
    proof {
        lemma_any_hit(*zone, pool.items());
    }
    hit
}

/// Lets the asteroids of the pool fall for one frame and says whether one of
/// them then hits `zone`.
pub fn fly_asteroids<P: Pool<Item = Asteroid>>(pool: &mut P, screen: &Screen, zone: &Rect) -> (hit:
    bool)
    requires
        asteroids_have_room(old(pool).items(), *screen),
    ensures
        final(pool).items() == fallen(old(pool).items(), *screen),
        hit == any_hit(*zone, final(pool).items()),
{
    let n = pool.occupancy();
    let mut hit = false;
    let mut index: usize = 0;
    while index < n
        invariant
            index <= n,
            n == pool.items().len(),
            n == old(pool).items().len(),
            forall|j: int|
                0 <= j < index ==> #[trigger] pool.items()[j] == old(pool).items()[j].advanced(*screen),
            forall|j: int| index <= j < n ==> #[trigger] pool.items()[j] == old(pool).items()[j],
            forall|i: int| 0 <= i < n ==> (#[trigger] old(pool).items()[i]).can_update(*screen),
            hit <==> exists|j: int| 0 <= j < index && is_hit(*zone, #[trigger] pool.items()[j]),
        decreases n - index,
    {
        let mut asteroid = pool.peek(index);
        asteroid.update(screen);
        let struck = asteroid.is_active() && overlaps(zone, &asteroid.hitbox());
        pool.poke(index, asteroid);
        proof {
            let ghost now = pool.items();
            assert(struck == is_hit(*zone, now[index as int]));
            if hit && !struck {
                let j = choose|j: int|
                    0 <= j < index && is_hit(*zone, #[trigger] old(pool).items()[j].advanced(*screen));
                assert(is_hit(*zone, now[j]));
            }
        }
        if struck {
            hit = true;
        }
        index += 1;
    }
    proof {
        lemma_any_hit(*zone, pool.items());
    }
    hit
}

} // verus!
