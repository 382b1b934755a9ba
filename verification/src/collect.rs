//! Garbage collection: removing the entities that are no longer in play, and
//! crediting the player for them.

use crate::game::Object;
use crate::pools::{swap_removed, Pool};
use vstd::prelude::*;
use vstd::seq_lib::{to_multiset_contains, to_multiset_remove, to_multiset_update};

verus! {

/// The points an entity is worth once it is out of play.
pub open spec fn toll<T: Object>(item: T) -> nat {
    if item.alive() {
        0
    } else {
        item.bounty()
    }
}

/// The points that burying every dead entity of `s` earns.
pub open spec fn dead_bounty<T: Object>(s: Seq<T>) -> nat
    decreases s.len(),
{
    if s.len() == 0 {
        0
    } else {
        dead_bounty(s.drop_last()) + toll(s.last())
    }
}

/// `s` after a sweep that has reached `index`: every dead entity from there on
/// is removed in turn, each time moving the last entity into the gap.
pub open spec fn compacted_from<T: Object>(s: Seq<T>, index: int) -> Seq<T>
    decreases s.len() - index,
{
    if index < 0 || index >= s.len() {
        s
    } else if s[index].alive() {
        compacted_from(s, index + 1)
    } else {
        compacted_from(swap_removed(s, index), index)
    }
}

/// `s` after a whole sweep: the live entities of `s`, in the order that
/// removal by swapping leaves them in.
pub open spec fn compacted<T: Object>(s: Seq<T>) -> Seq<T> {
    compacted_from(s, 0)
}

/// Every entity of `s` is in play.
pub open spec fn all_alive<T: Object>(s: Seq<T>) -> bool {
    forall|i: int| 0 <= i < s.len() ==> (#[trigger] s[i]).alive()
}

/// Replacing one entity changes the dead bounty by the difference of the two
/// tolls.
pub proof fn lemma_dead_bounty_update<T: Object>(s: Seq<T>, index: int, item: T)
    requires
        0 <= index < s.len(),
    ensures
        dead_bounty(s.update(index, item)) + toll(s[index]) == dead_bounty(s) + toll(item),
    decreases s.len(),
{
    let u = s.update(index, item);
    if index == s.len() - 1 {
        assert(u.drop_last() == s.drop_last());
    } else {
        lemma_dead_bounty_update(s.drop_last(), index, item);
        assert(u.drop_last() == s.drop_last().update(index, item));
    }
}

/// Removing an entity by swapping lowers the dead bounty by its toll.
pub proof fn lemma_dead_bounty_swap_removed<T: Object>(s: Seq<T>, index: int)
    requires
        0 <= index < s.len(),
    ensures
        dead_bounty(swap_removed(s, index)) + toll(s[index]) == dead_bounty(s),
{
    let u = s.update(index, s.last());
    lemma_dead_bounty_update(s, index, s.last());
    assert(u.last() == s.last());
}

/// Where nothing is dead there is nothing to earn.
pub proof fn lemma_dead_bounty_all_alive<T: Object>(s: Seq<T>)
    requires
        all_alive(s),
    ensures
        dead_bounty(s) == 0,
    decreases s.len(),
{
    if s.len() > 0 {
        assert(s.last() == s[s.len() - 1]);
        assert forall|i: int| 0 <= i < s.drop_last().len() implies (#[trigger] s.drop_last()[i]).alive() by {
            assert(s.drop_last()[i] == s[i]);
        }
        lemma_dead_bounty_all_alive(s.drop_last());
    }
}

/// A sweep leaves a pool alone in which nothing is dead.
pub proof fn lemma_compacted_all_alive<T: Object>(s: Seq<T>, index: int)
    requires
        all_alive(s),
    ensures
        compacted_from(s, index) == s,
    decreases s.len() - index,
{
    if 0 <= index < s.len() {
        lemma_compacted_all_alive(s, index + 1);
    }
}

/// What a sweep keeps is in play.
pub proof fn lemma_compacted_is_alive<T: Object>(s: Seq<T>, index: int)
    requires
        0 <= index,
        forall|i: int| 0 <= i < index && i < s.len() ==> (#[trigger] s[i]).alive(),
    ensures
        all_alive(compacted_from(s, index)),
    decreases s.len() - index,
{
    if index < s.len() {
        if s[index].alive() {
            lemma_compacted_is_alive(s, index + 1);
        } else {
            lemma_compacted_is_alive(swap_removed(s, index), index);
        }
    }
}

/// A sweep keeps every live entity as often as it occurred, and no dead one.
pub proof fn lemma_compacted_keeps_the_living<T: Object>(s: Seq<T>, index: int, item: T)
    requires
        0 <= index,
        forall|i: int| 0 <= i < index && i < s.len() ==> (#[trigger] s[i]).alive(),
    ensures
        compacted_from(s, index).to_multiset().count(item) == if item.alive() {
            s.to_multiset().count(item)
        } else {
            0
        },
    decreases s.len() - index,
{
    if index < s.len() {
        if s[index].alive() {
            lemma_compacted_keeps_the_living(s, index + 1, item);
        } else {
            let u = s.update(index, s.last());
            let r = swap_removed(s, index);
            lemma_compacted_keeps_the_living(r, index, item);
            to_multiset_update(s, index, s.last());
            to_multiset_remove(u, u.len() - 1);
            assert(r == u.remove(u.len() - 1));
            assert(u[u.len() - 1] == s.last());
        }
    } else {
        if !item.alive() {
            to_multiset_contains(s, item);
        }
    }
}

/// What a sweep keeps was there before.
pub proof fn lemma_compacted_from_there<T: Object>(s: Seq<T>, item: T)
    requires
        compacted(s).contains(item),
    ensures
        s.contains(item),
        item.alive(),
{
    lemma_compacted_keeps_the_living(s, 0, item);
    to_multiset_contains(compacted(s), item);
    to_multiset_contains(s, item);
}

/// A sweep does not make a pool longer.
pub proof fn lemma_compacted_len<T: Object>(s: Seq<T>, index: int)
    ensures
        compacted_from(s, index).len() <= s.len(),
    decreases s.len() - index,
{
    if 0 <= index < s.len() {
        if s[index].alive() {
            lemma_compacted_len(s, index + 1);
        } else {
            lemma_compacted_len(swap_removed(s, index), index);
        }
    }
}

/// Sweeping a second time changes nothing and earns nothing.
pub proof fn lemma_compacted_idempotent<T: Object>(s: Seq<T>)
    ensures
        compacted(compacted(s)) == compacted(s),
        dead_bounty(compacted(s)) == 0,
{
    lemma_compacted_is_alive(s, 0);
    lemma_compacted_all_alive(compacted(s), 0);
    lemma_dead_bounty_all_alive(compacted(s));
}

/// The number of entities of `s` that are out of play.
pub open spec fn dead_count<T: Object>(s: Seq<T>) -> nat {
    s.filter(|item: T| !item.alive()).len()
}

/// One more entity adds one to the number of the dead if it is out of play,
/// and nothing if not.
pub proof fn lemma_dead_count_push<T: Object>(s: Seq<T>, item: T)
    ensures
        dead_count(s.push(item)) == if item.alive() {
            dead_count(s)
        } else {
            dead_count(s) + 1
        },
{
    s.lemma_filter_push(item, |item: T| !item.alive());
}

/// Replacing one entity changes the number of the dead by one if the two
/// differ in being in play, and not at all if not.
pub proof fn lemma_dead_count_update<T: Object>(s: Seq<T>, index: int, item: T)
    requires
        0 <= index < s.len(),
    ensures
        dead_count(s.update(index, item)) + (if s[index].alive() {
            0nat
        } else {
            1nat
        }) == dead_count(s) + (if item.alive() {
            0nat
        } else {
            1nat
        }),
    decreases s.len(),
{
    let u = s.update(index, item);
    assert(s.drop_last().push(s.last()) == s);
    lemma_dead_count_push(s.drop_last(), s.last());
    if index == s.len() - 1 {
        assert(u == s.drop_last().push(item));
        lemma_dead_count_push(s.drop_last(), item);
    } else {
        lemma_dead_count_update(s.drop_last(), index, item);
        assert(u == s.drop_last().update(index, item).push(s.last()));
        lemma_dead_count_push(s.drop_last().update(index, item), s.last());
    }
}

/// Removing a dead entity by swapping lowers the number of the dead by one.
pub proof fn lemma_dead_count_swap_removed<T: Object>(s: Seq<T>, index: int)
    requires
        0 <= index < s.len(),
        !s[index].alive(),
    ensures
        dead_count(swap_removed(s, index)) + 1 == dead_count(s),
{
    let u = s.update(index, s.last());
    lemma_dead_count_update(s, index, s.last());
    assert(u.drop_last().push(s.last()) == u);
    lemma_dead_count_push(u.drop_last(), s.last());
}

/// A sweep removes the dead and nothing else: what it keeps and the dead add
/// up to what was there.
pub proof fn lemma_compacted_len_exact<T: Object>(s: Seq<T>, index: int)
    ensures
        compacted_from(s, index).len() + dead_count(s) == s.len() + dead_count(compacted_from(s, index)),
    decreases s.len() - index,
{
    if 0 <= index < s.len() {
        if s[index].alive() {
            lemma_compacted_len_exact(s, index + 1);
        } else {
            lemma_compacted_len_exact(swap_removed(s, index), index);
            lemma_dead_count_swap_removed(s, index);
        }
    }
}

/// After a whole sweep the pool is shorter by the number of the dead.
pub proof fn lemma_compacted_drops_the_dead<T: Object>(s: Seq<T>)
    ensures
        compacted(s).len() + dead_count(s) == s.len(),
{
    lemma_compacted_len_exact(s, 0);
    lemma_compacted_is_alive(s, 0);
    lemma_dead_count_all_alive(compacted(s));
}

/// Where nothing is dead the number of the dead is nought.
pub proof fn lemma_dead_count_all_alive<T: Object>(s: Seq<T>)
    requires
        all_alive(s),
    ensures
        dead_count(s) == 0,
    decreases s.len(),
{
    s.lemma_filter_len(|item: T| !item.alive());
    if s.len() > 0 {
        assert(s.last() == s[s.len() - 1]);
        assert forall|i: int| 0 <= i < s.drop_last().len() implies (#[trigger] s.drop_last()[i]).alive() by {
            assert(s.drop_last()[i] == s[i]);
        }
        lemma_dead_count_all_alive(s.drop_last());
        lemma_dead_count_push(s.drop_last(), s.last());
        assert(s.drop_last().push(s.last()) == s);
    }
}

/// Where every entity is worth one point, the dead bounty is the number of
/// the dead.
pub proof fn lemma_dead_bounty_is_count<T: Object>(s: Seq<T>)
    requires
        forall|i: int| 0 <= i < s.len() ==> (#[trigger] s[i]).bounty() == 1,
    ensures
        dead_bounty(s) == dead_count(s),
        dead_count(s) <= s.len(),
    decreases s.len(),
{
    s.lemma_filter_len(|item: T| !item.alive());
    if s.len() > 0 {
        assert(s.last() == s[s.len() - 1]);
        assert forall|i: int| 0 <= i < s.drop_last().len() implies (#[trigger] s.drop_last()[i]).bounty()
            == 1 by {
            assert(s.drop_last()[i] == s[i]);
        }
        lemma_dead_bounty_is_count(s.drop_last());
        lemma_dead_count_push(s.drop_last(), s.last());
        assert(s.drop_last().push(s.last()) == s);
    } else {
        assert(s.filter(|item: T| !item.alive()).len() == 0);
    }
}

/// Counts the entities of the pool that are out of play.
pub fn count_dead<P: Pool>(pool: &P) -> (n: usize) where P::Item: Object
    ensures
        n == dead_count(pool.items()),
        n <= pool.items().len(),
{
    let len = pool.occupancy();
    let mut n: usize = 0;
    let mut index: usize = 0;
    proof {
        pool.items().take(0).lemma_filter_len(|item: P::Item| !item.alive());
    }
    while index < len
        invariant
            index <= len,
            len == pool.items().len(),
            n == dead_count(pool.items().take(index as int)),
            n <= index,
        decreases len - index,
    {
        proof {
            let seen = pool.items().take(index as int);
            lemma_dead_count_push(seen, pool.items()[index as int]);
            assert(pool.items().take(index + 1) == seen.push(pool.items()[index as int]));
        }
        if !pool.peek(index).is_active() {
            n += 1;
        }
        index += 1;
    }
    assert(pool.items().take(len as int) == pool.items());
    n
}

/// Removes every entity of the pool that is out of play, burying each one, and
/// leaves the others.
pub fn sweep<P: Pool>(pool: &mut P, score: &mut i16) where P::Item: Object
    requires
        *old(score) + dead_bounty(old(pool).items()) <= i16::MAX,
    ensures
        final(pool).items() == compacted(old(pool).items()),
        *final(score) == *old(score) + dead_bounty(old(pool).items()),
{
    let mut index: usize = 0;
    while index < pool.occupancy()
        invariant
            index <= pool.items().len(),
            forall|i: int| 0 <= i < index ==> (#[trigger] pool.items()[i]).alive(),
            compacted_from(pool.items(), index as int) == compacted(old(pool).items()),
            *score + dead_bounty(pool.items()) == *old(score) + dead_bounty(old(pool).items()),
            *old(score) + dead_bounty(old(pool).items()) <= i16::MAX,
        decreases pool.items().len() - index,
    {
        let item = pool.peek(index);
        if item.is_active() {
            index += 1;
        } else {
            proof {
                lemma_dead_bounty_swap_removed(pool.items(), index as int);
            }
            let gone = pool.evict(index);
            gone.bury(score);
        }
    }
    proof {
        lemma_dead_bounty_all_alive(pool.items());
    }
}

} // verus!
