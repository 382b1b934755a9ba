//! Laws of the game: what holds of every state and of every input.

use crate::collect::{
    all_alive, dead_count, lemma_compacted_all_alive, lemma_compacted_drops_the_dead,
    lemma_compacted_idempotent, lemma_compacted_is_alive, lemma_compacted_keeps_the_living,
    lemma_dead_bounty_all_alive, lemma_dead_bounty_is_count, lemma_dead_bounty_update,
};
use crate::engine::GameState;
use crate::game::{steer, Asteroid, Enemy, Object, PlayerState, Screen, Target};
use crate::geometry::rects_overlap;
use crate::objects::{MAX_ASTEROIDS, MAX_ENEMIES, MAX_PLAYER_BULLETS};
use crate::spawn::lemma_salvo_len;
use crate::update::{is_hit, lemma_any_hit};
use vstd::prelude::*;

verus! {

/// With all its bullets in flight the player may not fire, and pulling the
/// trigger all the same adds no bullet.
pub proof fn lemma_full_magazine(player: PlayerState)
    requires
        player.shots.len() == MAX_PLAYER_BULLETS,
    ensures
        !player.ready(),
        player.fired().shots == player.shots,
{
}

/// The input decides the velocity: two pixels a frame to the left when left
/// alone is pressed, two to the right when right alone is pressed, none when
/// both or neither are.
pub proof fn lemma_steering(player: PlayerState)
    ensures
        player.steered((true, false)).vel_x == -2,
        player.steered((false, true)).vel_x == 2,
        player.steered((true, true)).vel_x == 0,
        player.steered((false, false)).vel_x == 0,
{
}

/// A frame leaves the player with the velocity that the input asks for, unless
/// the step would take the ship onto an edge of the field: then it stands
/// still.
pub proof fn lemma_update_velocity(player: PlayerState, dir: (bool, bool), screen: Screen)
    ensures
        !player.blocked(steer(dir), screen) ==> player.updated(dir, screen).vel_x == steer(dir),
        player.blocked(steer(dir), screen) ==> player.updated(dir, screen).vel_x == 0,
        player.updated(dir, screen).x == player.x + player.updated(dir, screen).vel_x,
{
}

/// The player after one frame for each of `inputs`, in order.
pub open spec fn after_frames(player: PlayerState, inputs: Seq<(bool, bool)>, screen: Screen) -> PlayerState
    decreases inputs.len(),
{
    if inputs.len() == 0 {
        player
    } else {
        after_frames(player, inputs.drop_last(), screen).updated(inputs.last(), screen)
    }
}

/// A player that stands within the field stays within it, whatever the inputs
/// and however many frames pass.
pub proof fn lemma_player_stays_in_bounds(player: PlayerState, inputs: Seq<(bool, bool)>, screen: Screen)
    requires
        player.in_bounds(screen),
    ensures
        after_frames(player, inputs, screen).in_bounds(screen),
    decreases inputs.len(),
{
    if inputs.len() > 0 {
        lemma_player_stays_in_bounds(player, inputs.drop_last(), screen);
    }
}

/// An asteroid that drifts to the right and stands one pixel short of the right
/// edge turns round in the next frame.
pub proof fn lemma_asteroid_bounce(asteroid: Asteroid, screen: Screen)
    requires
        asteroid.vel_x == 1,
        asteroid.x == screen.width - asteroid.sprite.width - 1,
    ensures
        asteroid.advanced(screen).vel_x == -1,
{
}

/// Collecting credits one point for each enemy and each asteroid that is out
/// of play, and nothing else.
pub proof fn lemma_collect_credits(game: GameState)
    requires
        game.can_collect(),
    ensures
        game.collected().player.score == game.player.score + dead_count(game.enemies) + dead_count(game.asteroids),
{
    lemma_dead_bounty_is_count(game.enemies);
    lemma_dead_bounty_is_count(game.asteroids);
}

/// Where one enemy alone is out of play, collecting raises the score by
/// exactly one.
pub proof fn lemma_one_kill_one_point(game: GameState, k: int)
    requires
        game.can_collect(),
        0 <= k < game.enemies.len(),
        !game.enemies[k].active,
        forall|j: int| 0 <= j < game.enemies.len() && j != k ==> (#[trigger] game.enemies[j]).active,
        all_alive(game.asteroids),
    ensures
        game.collected().player.score == game.player.score + 1,
{
    let revived = Enemy { active: true, ..game.enemies[k] };
    let others = game.enemies.update(k, revived);
    lemma_dead_bounty_update(game.enemies, k, revived);
    assert forall|j: int| 0 <= j < others.len() implies (#[trigger] others[j]).alive() by {
        if j != k {
            assert(game.enemies[j].active);
        }
    }
    lemma_dead_bounty_all_alive(others);
    lemma_dead_bounty_all_alive(game.asteroids);
}

/// Collecting removes nothing that is in play: each such enemy and asteroid
/// is in its pool as often afterwards as before. What is out of play is gone.
pub proof fn lemma_collect_keeps_the_living(game: GameState, enemy: Enemy, asteroid: Asteroid)
    ensures
        game.collected().enemies.to_multiset().count(enemy) == if enemy.active {
            game.enemies.to_multiset().count(enemy)
        } else {
            0
        },
        game.collected().asteroids.to_multiset().count(asteroid) == if asteroid.active {
            game.asteroids.to_multiset().count(asteroid)
        } else {
            0
        },
{
    lemma_compacted_keeps_the_living(game.enemies, 0, enemy);
    lemma_compacted_keeps_the_living(game.asteroids, 0, asteroid);
}

/// Collecting shortens every pool by the number of its entities that are out
/// of play, and leaves nothing in it that is out of play.
pub proof fn lemma_collect_lengths(game: GameState)
    ensures
        game.collected().player.shots.len() + dead_count(game.player.shots) == game.player.shots.len(),
        game.collected().enemies.len() + dead_count(game.enemies) == game.enemies.len(),
        game.collected().bullets.len() + dead_count(game.bullets) == game.bullets.len(),
        game.collected().asteroids.len() + dead_count(game.asteroids) == game.asteroids.len(),
        all_alive(game.collected().player.shots),
        all_alive(game.collected().enemies),
        all_alive(game.collected().bullets),
        all_alive(game.collected().asteroids),
{
    lemma_compacted_drops_the_dead(game.player.shots);
    lemma_compacted_drops_the_dead(game.enemies);
    lemma_compacted_drops_the_dead(game.bullets);
    lemma_compacted_drops_the_dead(game.asteroids);
    lemma_compacted_is_alive(game.player.shots, 0);
    lemma_compacted_is_alive(game.enemies, 0);
    lemma_compacted_is_alive(game.bullets, 0);
    lemma_compacted_is_alive(game.asteroids, 0);
}

/// Where nothing is out of play, collecting changes nothing.
pub proof fn lemma_collect_nothing(game: GameState)
    requires
        all_alive(game.player.shots),
        all_alive(game.enemies),
        all_alive(game.bullets),
        all_alive(game.asteroids),
    ensures
        game.collected() == game,
{
    lemma_compacted_all_alive(game.player.shots, 0);
    lemma_compacted_all_alive(game.enemies, 0);
    lemma_compacted_all_alive(game.bullets, 0);
    lemma_compacted_all_alive(game.asteroids, 0);
    lemma_dead_bounty_all_alive(game.enemies);
    lemma_dead_bounty_all_alive(game.asteroids);
}

/// Collecting twice in a row is collecting once: the second time nothing is
/// removed and nothing is credited.
pub proof fn lemma_collect_idempotent(game: GameState)
    ensures
        game.collected().collected() == game.collected(),
{
    lemma_compacted_idempotent(game.player.shots);
    lemma_compacted_idempotent(game.enemies);
    lemma_compacted_idempotent(game.bullets);
    lemma_compacted_idempotent(game.asteroids);
}

/// After spawning, a pool that was not above what the score calls for, and
/// can hold that many, holds exactly that many: one asteroid and one more for
/// each level of the score; one enemy and one more for every two levels.
pub proof fn lemma_spawn_counts(game: GameState, draws: Seq<Option<u32>>)
    requires
        game.wf(),
    ensures
        game.asteroids.len() <= game.asteroids_called_for() <= MAX_ASTEROIDS ==> game.spawned(draws).asteroids.len()
            == game.asteroids_called_for(),
        game.enemies.len() <= game.enemies_called_for() <= MAX_ENEMIES ==> game.spawned(draws).enemies.len()
            == game.enemies_called_for(),
        game.spawned(draws).asteroids.len() >= game.asteroids.len(),
        game.spawned(draws).enemies.len() >= game.enemies.len(),
        game.spawned(draws).asteroids.len() <= MAX_ASTEROIDS,
        game.spawned(draws).enemies.len() <= MAX_ENEMIES,
{
}

/// A frame keeps a well-formed game well-formed: in particular the player
/// stays within the field.
pub proof fn lemma_update_keeps_wf(game: GameState, dir: (bool, bool))
    requires
        game.wf(),
    ensures
        game.updated(dir).wf(),
{
    let fight = game.skirmish();
    fight.lemma_volley(fight.shots.len(), game.screen);
    let after = game.updated(dir);
    assert forall|i: int| 0 <= i < after.enemies.len() implies (#[trigger] after.enemies[i]).can_aim() by {
        assert(game.enemies[i].can_aim());
        assert(fight.enemies[i] == game.enemies[i].ticked());
    }
    assert forall|i: int| 0 <= i < after.asteroids.len() implies (#[trigger] after.asteroids[i]).wf() by {
        assert(game.asteroids[i].wf());
    }
}

/// Spawning keeps a well-formed game well-formed.
pub proof fn lemma_spawn_keeps_wf(game: GameState, draws: Seq<Option<u32>>)
    requires
        game.wf(),
    ensures
        game.spawned(draws).wf(),
{
    let joined = game.reinforced(draws);
    lemma_salvo_len(joined);
    let after = game.spawned(draws);
    assert forall|i: int| 0 <= i < after.enemies.len() implies (#[trigger] after.enemies[i]).can_aim() by {
        if i < game.enemies.len() {
            assert(game.enemies[i].can_aim());
        }
    }
    assert forall|i: int| 0 <= i < after.asteroids.len() implies (#[trigger] after.asteroids[i]).wf() by {
        if i < game.asteroids.len() {
            assert(game.asteroids[i].wf());
        }
    }
}

/// The score never falls: a frame and a spawn leave it alone, and collecting
/// can only raise it.
pub proof fn lemma_score_never_falls(game: GameState, dir: (bool, bool), draws: Seq<Option<u32>>)
    ensures
        game.updated(dir).player.score == game.player.score,
        game.spawned(draws).player.score == game.player.score,
        game.can_collect() ==> game.collected().player.score >= game.player.score,
{
}

/// Only a frame can end the game: spawning and collecting leave the status
/// alone.
pub proof fn lemma_only_a_frame_ends_the_game(game: GameState, draws: Seq<Option<u32>>)
    ensures
        game.spawned(draws).running == game.running,
        game.collected().running == game.running,
{
}

/// A bullet that was fired never leaves its column, and an enemy never moves.
pub proof fn lemma_columns_are_kept(player: PlayerState, enemy: Enemy, screen: Screen)
    ensures
        player.round().advanced(screen).x == player.round().x,
        player.round().advanced(screen).vel_x == 0,
        enemy.round().advanced(screen).x == enemy.round().x,
        enemy.round().advanced(screen).vel_x == 0,
        enemy.ticked().x == enemy.x,
        enemy.ticked().y == enemy.y,
        enemy.reloaded().x == enemy.x,
        enemy.reloaded().y == enemy.y,
{
}

/// A game that is over stays over, whatever is done to it.
pub proof fn lemma_game_over_is_final(game: GameState, dir: (bool, bool), draws: Seq<Option<u32>>)
    requires
        !game.running,
    ensures
        !game.updated(dir).running,
        !game.spawned(draws).running,
        !game.collected().running,
{
}

/// The game after one frame for each of `inputs`, in order.
pub open spec fn after_updates(game: GameState, inputs: Seq<(bool, bool)>) -> GameState
    decreases inputs.len(),
{
    if inputs.len() == 0 {
        game
    } else {
        after_updates(game, inputs.drop_last()).updated(inputs.last())
    }
}

/// However many frames follow, a game that is over stays over, a well-formed
/// game stays well-formed with its player within the field, and the score
/// stays what it was.
pub proof fn lemma_frames_on_end(game: GameState, inputs: Seq<(bool, bool)>)
    ensures
        !game.running ==> !after_updates(game, inputs).running,
        game.wf() ==> after_updates(game, inputs).wf(),
        game.wf() ==> after_updates(game, inputs).player.in_bounds(game.screen),
        after_updates(game, inputs).player.score == game.player.score,
        after_updates(game, inputs).screen == game.screen,
    decreases inputs.len(),
{
    if inputs.len() > 0 {
        lemma_frames_on_end(game, inputs.drop_last());
        if game.wf() {
            lemma_update_keeps_wf(after_updates(game, inputs.drop_last()), inputs.last());
        }
    }
}

/// A whole frame keeps a well-formed game well-formed and a finished game
/// finished.
pub proof fn lemma_frame(game: GameState, draws: Seq<Option<u32>>, dir: (bool, bool))
    requires
        game.can_frame(draws, dir),
    ensures
        game.framed(draws, dir).wf(),
        !game.running ==> !game.framed(draws, dir).running,
        game.framed(draws, dir).player.score >= game.player.score,
        game.framed(draws, dir).screen == game.screen,
{
    lemma_spawn_keeps_wf(game, draws);
    lemma_update_keeps_wf(game.spawned(draws), dir);
    game.spawned(draws).updated(dir).lemma_collected_wf();
}

/// The game is over as soon as, after a frame, an enemy's bullet in play
/// overlaps the vulnerable rectangle of a player in play.
pub proof fn lemma_bullet_ends_game(game: GameState, dir: (bool, bool), k: int)
    requires
        game.updated(dir).player.active,
        0 <= k < game.updated(dir).bullets.len(),
        game.updated(dir).bullets[k].active,
        rects_overlap(game.updated(dir).player.vulnerable_frame(), game.updated(dir).bullets[k].frame()),
    ensures
        !game.updated(dir).running,
{
    let after = game.updated(dir);
    lemma_any_hit(after.player.vulnerable_frame(), after.bullets);
    assert(is_hit(after.player.vulnerable_frame(), after.bullets[k]));
}

/// The game is over as soon as, after a frame, an asteroid in play overlaps
/// the vulnerable rectangle of a player in play.
pub proof fn lemma_asteroid_ends_game(game: GameState, dir: (bool, bool), k: int)
    requires
        game.updated(dir).player.active,
        0 <= k < game.updated(dir).asteroids.len(),
        game.updated(dir).asteroids[k].active,
        rects_overlap(
            game.updated(dir).player.vulnerable_frame(),
            game.updated(dir).asteroids[k].frame(),
        ),
    ensures
        !game.updated(dir).running,
{
    let after = game.updated(dir);
    lemma_any_hit(after.player.vulnerable_frame(), after.asteroids);
    assert(is_hit(after.player.vulnerable_frame(), after.asteroids[k]));
}

/// A running game keeps running through a frame in which nothing in play
/// overlaps the player's vulnerable rectangle.
pub proof fn lemma_no_hit_no_end(game: GameState, dir: (bool, bool))
    requires
        game.running,
        forall|k: int|
            0 <= k < game.updated(dir).bullets.len() ==> !is_hit(
                game.updated(dir).player.vulnerable_frame(),
                #[trigger] game.updated(dir).bullets[k],
            ),
        forall|k: int|
            0 <= k < game.updated(dir).asteroids.len() ==> !is_hit(
                game.updated(dir).player.vulnerable_frame(),
                #[trigger] game.updated(dir).asteroids[k],
            ),
    ensures
        game.updated(dir).running,
{
    let after = game.updated(dir);
    lemma_any_hit(after.player.vulnerable_frame(), after.bullets);
    lemma_any_hit(after.player.vulnerable_frame(), after.asteroids);
}

} // verus!
