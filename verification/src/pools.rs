//! Fixed-capacity pools of entities.
//!
//! The pools are `heapless::Vec`s. Verus does not read that crate, so what each
//! call does to a pool is stated here and believed: one block of declarations
//! for each of the four pool types, all of the same shape. Everything else in
//! the crate reaches the pools through the verified [`Pool`] impls below.

use crate::game::{Asteroid, Bullet, Enemy};
use vstd::prelude::*;

verus! {

/// `heapless::Vec`, a vector of at most `N` items stored inline. Verus sees
/// nothing inside it.
#[verifier::external_type_specification]
#[verifier::external_body]
#[verifier::reject_recursive_types(T)]
pub struct ExHeaplessVec<T, const N: usize>(heapless::Vec<T, N>);

/// A collection of at most `limit()` entities, kept in storage order.
pub trait Pool: Sized {
    type Item: Copy;

    /// The entities in the pool, in storage order.
    spec fn items(&self) -> Seq<Self::Item>;

    /// The most entities the pool can hold.
    spec fn limit() -> nat;

    /// The most entities the pool can hold.
    fn ceiling() -> (n: usize)
        ensures
            n == Self::limit(),
    ;

    /// An empty pool.
    fn fresh() -> (pool: Self)
        ensures
            pool.items() == Seq::<Self::Item>::empty(),
    ;

    /// The number of entities in the pool.
    fn occupancy(&self) -> (n: usize)
        ensures
            n == self.items().len(),
            n <= Self::limit(),
    ;

    /// A copy of the entity at `index`.
    fn peek(&self, index: usize) -> (item: Self::Item)
        requires
            index < self.items().len(),
        ensures
            item == self.items()[index as int],
    ;

    /// Replaces the entity at `index`.
    fn poke(&mut self, index: usize, item: Self::Item)
        requires
            index < old(self).items().len(),
        ensures
            final(self).items() == old(self).items().update(index as int, item),
    ;

    /// Appends `item` if there is room for it, and hands it back if not.
    fn enlist(&mut self, item: Self::Item) -> (r: Result<(), Self::Item>)
        ensures
            old(self).items().len() < Self::limit() ==> r is Ok
                && final(self).items() == old(self).items().push(item),
            old(self).items().len() >= Self::limit() ==> r is Err && r->Err_0 == item
                && final(self).items() == old(self).items(),
    ;

    /// Removes the entity at `index` and returns it. The last entity takes its
    /// place.
    fn evict(&mut self, index: usize) -> (item: Self::Item)
        requires
            index < old(self).items().len(),
        ensures
            item == old(self).items()[index as int],
            final(self).items() == swap_removed(old(self).items(), index as int),
    ;
}

/// `s` after its entity at `index` was removed and the last one moved into the
/// gap.
pub open spec fn swap_removed<T>(s: Seq<T>, index: int) -> Seq<T>
    recommends
        0 <= index < s.len(),
{
    s.update(index, s.last()).drop_last()
}

/// What a player's magazine of four bullets holds, in storage order.
pub uninterp spec fn magazine_items(pool: heapless::Vec<Bullet, 4>) -> Seq<Bullet>;

/// `heapless::Vec::new`: the new vector is empty.
#[verifier::external_body]
fn magazine_new() -> (pool: heapless::Vec<Bullet, 4>)
    ensures
        magazine_items(pool) == Seq::<Bullet>::empty(),
{
    heapless::Vec::new()
}

/// `heapless::Vec::as_slice`: the slice holds the vector's items in order, and
/// they are never more than its capacity of 4.
#[verifier::external_body]
fn magazine_as_slice(pool: &heapless::Vec<Bullet, 4>) -> (s: &[Bullet])
    ensures
        s@ == magazine_items(*pool),
        s@.len() <= 4,
{
    pool.as_slice()
}

/// `heapless::Vec::push`: with fewer than 4 items the item is appended;
/// otherwise the vector is left alone and the item comes back as the error.
#[verifier::external_body]
fn magazine_push(pool: &mut heapless::Vec<Bullet, 4>, item: Bullet) -> (r: Result<(), Bullet>)
    ensures
        magazine_items(*old(pool)).len() < 4 ==> r is Ok
            && magazine_items(*final(pool)) == magazine_items(*old(pool)).push(item),
        magazine_items(*old(pool)).len() >= 4 ==> r is Err && r->Err_0 == item
            && magazine_items(*final(pool)) == magazine_items(*old(pool)),
{
    pool.push(item)
}

/// `heapless::Vec::as_mut_slice`, written through at `index`: that item is
/// replaced and no other. The index must be in bounds.
#[verifier::external_body]
fn magazine_set(pool: &mut heapless::Vec<Bullet, 4>, index: usize, item: Bullet)
    requires
        index < magazine_items(*old(pool)).len(),
    ensures
        magazine_items(*final(pool)) == magazine_items(*old(pool)).update(index as int, item),
{
    pool.as_mut_slice()[index] = item;
}

/// `heapless::Vec::swap_remove`: returns the item at `index`, moves the last
/// item into its place and shortens the vector by one. The index must be in
/// bounds.
#[verifier::external_body]
fn magazine_swap_remove(pool: &mut heapless::Vec<Bullet, 4>, index: usize) -> (item: Bullet)
    requires
        index < magazine_items(*old(pool)).len(),
    ensures
        item == magazine_items(*old(pool))[index as int],
        magazine_items(*final(pool)) == swap_removed(magazine_items(*old(pool)), index as int),
{
    pool.swap_remove(index)
}

impl Pool for heapless::Vec<Bullet, 4> {
    type Item = Bullet;

    open spec fn items(&self) -> Seq<Bullet> {
        magazine_items(*self)
    }

    open spec fn limit() -> nat {
        4
    }

    fn ceiling() -> (n: usize) {
        4
    }

    fn fresh() -> (pool: Self) {
        magazine_new()
    }

    fn occupancy(&self) -> (n: usize) {
        magazine_as_slice(self).len()
    }

    fn peek(&self, index: usize) -> (item: Bullet) {
        magazine_as_slice(self)[index]
    }

    fn poke(&mut self, index: usize, item: Bullet) {
        magazine_set(self, index, item)
    }

    fn enlist(&mut self, item: Bullet) -> (r: Result<(), Bullet>) {
        magazine_push(self, item)
    }

    fn evict(&mut self, index: usize) -> (item: Bullet) {
        magazine_swap_remove(self, index)
    }
}

/// What a squadron of ten enemies holds, in storage order.
pub uninterp spec fn squadron_items(pool: heapless::Vec<Enemy, 10>) -> Seq<Enemy>;

/// `heapless::Vec::new`: the new vector is empty.
#[verifier::external_body]
fn squadron_new() -> (pool: heapless::Vec<Enemy, 10>)
    ensures
        squadron_items(pool) == Seq::<Enemy>::empty(),
{
    heapless::Vec::new()
}

/// `heapless::Vec::as_slice`: the slice holds the vector's items in order, and
/// they are never more than its capacity of 10.
#[verifier::external_body]
fn squadron_as_slice(pool: &heapless::Vec<Enemy, 10>) -> (s: &[Enemy])
    ensures
        s@ == squadron_items(*pool),
        s@.len() <= 10,
{
    pool.as_slice()
}

/// `heapless::Vec::push`: with fewer than 10 items the item is appended;
/// otherwise the vector is left alone and the item comes back as the error.
#[verifier::external_body]
fn squadron_push(pool: &mut heapless::Vec<Enemy, 10>, item: Enemy) -> (r: Result<(), Enemy>)
    ensures
        squadron_items(*old(pool)).len() < 10 ==> r is Ok
            && squadron_items(*final(pool)) == squadron_items(*old(pool)).push(item),
        squadron_items(*old(pool)).len() >= 10 ==> r is Err && r->Err_0 == item
            && squadron_items(*final(pool)) == squadron_items(*old(pool)),
{
    pool.push(item)
}

/// `heapless::Vec::as_mut_slice`, written through at `index`: that item is
/// replaced and no other. The index must be in bounds.
#[verifier::external_body]
fn squadron_set(pool: &mut heapless::Vec<Enemy, 10>, index: usize, item: Enemy)
    requires
        index < squadron_items(*old(pool)).len(),
    ensures
        squadron_items(*final(pool)) == squadron_items(*old(pool)).update(index as int, item),
{
    pool.as_mut_slice()[index] = item;
}

/// `heapless::Vec::swap_remove`: returns the item at `index`, moves the last
/// item into its place and shortens the vector by one. The index must be in
/// bounds.
#[verifier::external_body]
fn squadron_swap_remove(pool: &mut heapless::Vec<Enemy, 10>, index: usize) -> (item: Enemy)
    requires
        index < squadron_items(*old(pool)).len(),
    ensures
        item == squadron_items(*old(pool))[index as int],
        squadron_items(*final(pool)) == swap_removed(squadron_items(*old(pool)), index as int),
{
    pool.swap_remove(index)
}

impl Pool for heapless::Vec<Enemy, 10> {
    type Item = Enemy;

    open spec fn items(&self) -> Seq<Enemy> {
        squadron_items(*self)
    }

    open spec fn limit() -> nat {
        10
    }

    fn ceiling() -> (n: usize) {
        10
    }

    fn fresh() -> (pool: Self) {
        squadron_new()
    }

    fn occupancy(&self) -> (n: usize) {
        squadron_as_slice(self).len()
    }

    fn peek(&self, index: usize) -> (item: Enemy) {
        squadron_as_slice(self)[index]
    }

    fn poke(&mut self, index: usize, item: Enemy) {
        squadron_set(self, index, item)
    }

    fn enlist(&mut self, item: Enemy) -> (r: Result<(), Enemy>) {
        squadron_push(self, item)
    }

    fn evict(&mut self, index: usize) -> (item: Enemy) {
        squadron_swap_remove(self, index)
    }
}

/// What a barrage of a hundred enemy bullets holds, in storage order.
pub uninterp spec fn barrage_items(pool: heapless::Vec<Bullet, 100>) -> Seq<Bullet>;

/// `heapless::Vec::new`: the new vector is empty.
#[verifier::external_body]
fn barrage_new() -> (pool: heapless::Vec<Bullet, 100>)
    ensures
        barrage_items(pool) == Seq::<Bullet>::empty(),
{
    heapless::Vec::new()
}

/// `heapless::Vec::as_slice`: the slice holds the vector's items in order, and
/// they are never more than its capacity of 100.
#[verifier::external_body]
fn barrage_as_slice(pool: &heapless::Vec<Bullet, 100>) -> (s: &[Bullet])
    ensures
        s@ == barrage_items(*pool),
        s@.len() <= 100,
{
    pool.as_slice()
}

/// `heapless::Vec::push`: with fewer than 100 items the item is appended;
/// otherwise the vector is left alone and the item comes back as the error.
#[verifier::external_body]
fn barrage_push(pool: &mut heapless::Vec<Bullet, 100>, item: Bullet) -> (r: Result<(), Bullet>)
    ensures
        barrage_items(*old(pool)).len() < 100 ==> r is Ok
            && barrage_items(*final(pool)) == barrage_items(*old(pool)).push(item),
        barrage_items(*old(pool)).len() >= 100 ==> r is Err && r->Err_0 == item
            && barrage_items(*final(pool)) == barrage_items(*old(pool)),
{
    pool.push(item)
}

/// `heapless::Vec::as_mut_slice`, written through at `index`: that item is
/// replaced and no other. The index must be in bounds.
#[verifier::external_body]
fn barrage_set(pool: &mut heapless::Vec<Bullet, 100>, index: usize, item: Bullet)
    requires
        index < barrage_items(*old(pool)).len(),
    ensures
        barrage_items(*final(pool)) == barrage_items(*old(pool)).update(index as int, item),
{
    pool.as_mut_slice()[index] = item;
}

/// `heapless::Vec::swap_remove`: returns the item at `index`, moves the last
/// item into its place and shortens the vector by one. The index must be in
/// bounds.
#[verifier::external_body]
fn barrage_swap_remove(pool: &mut heapless::Vec<Bullet, 100>, index: usize) -> (item: Bullet)
    requires
        index < barrage_items(*old(pool)).len(),
    ensures
        item == barrage_items(*old(pool))[index as int],
        barrage_items(*final(pool)) == swap_removed(barrage_items(*old(pool)), index as int),
{
    pool.swap_remove(index)
}

impl Pool for heapless::Vec<Bullet, 100> {
    type Item = Bullet;

    open spec fn items(&self) -> Seq<Bullet> {
        barrage_items(*self)
    }

    open spec fn limit() -> nat {
        100
    }

    fn ceiling() -> (n: usize) {
        100
    }

    fn fresh() -> (pool: Self) {
        barrage_new()
    }

    fn occupancy(&self) -> (n: usize) {
        barrage_as_slice(self).len()
    }

    fn peek(&self, index: usize) -> (item: Bullet) {
        barrage_as_slice(self)[index]
    }

    fn poke(&mut self, index: usize, item: Bullet) {
        barrage_set(self, index, item)
    }

    fn enlist(&mut self, item: Bullet) -> (r: Result<(), Bullet>) {
        barrage_push(self, item)
    }

    fn evict(&mut self, index: usize) -> (item: Bullet) {
        barrage_swap_remove(self, index)
    }
}

/// What a belt of twenty asteroids holds, in storage order.
pub uninterp spec fn belt_items(pool: heapless::Vec<Asteroid, 20>) -> Seq<Asteroid>;

/// `heapless::Vec::new`: the new vector is empty.
#[verifier::external_body]
fn belt_new() -> (pool: heapless::Vec<Asteroid, 20>)
    ensures
        belt_items(pool) == Seq::<Asteroid>::empty(),
{
    heapless::Vec::new()
}

/// `heapless::Vec::as_slice`: the slice holds the vector's items in order, and
/// they are never more than its capacity of 20.
#[verifier::external_body]
fn belt_as_slice(pool: &heapless::Vec<Asteroid, 20>) -> (s: &[Asteroid])
    ensures
        s@ == belt_items(*pool),
        s@.len() <= 20,
{
    pool.as_slice()
}

/// `heapless::Vec::push`: with fewer than 20 items the item is appended;
/// otherwise the vector is left alone and the item comes back as the error.
#[verifier::external_body]
fn belt_push(pool: &mut heapless::Vec<Asteroid, 20>, item: Asteroid) -> (r: Result<(), Asteroid>)
    ensures
        belt_items(*old(pool)).len() < 20 ==> r is Ok
            && belt_items(*final(pool)) == belt_items(*old(pool)).push(item),
        belt_items(*old(pool)).len() >= 20 ==> r is Err && r->Err_0 == item
            && belt_items(*final(pool)) == belt_items(*old(pool)),
{
    pool.push(item)
}

/// `heapless::Vec::as_mut_slice`, written through at `index`: that item is
/// replaced and no other. The index must be in bounds.
#[verifier::external_body]
fn belt_set(pool: &mut heapless::Vec<Asteroid, 20>, index: usize, item: Asteroid)
    requires
        index < belt_items(*old(pool)).len(),
    ensures
        belt_items(*final(pool)) == belt_items(*old(pool)).update(index as int, item),
{
    pool.as_mut_slice()[index] = item;
}

/// `heapless::Vec::swap_remove`: returns the item at `index`, moves the last
/// item into its place and shortens the vector by one. The index must be in
/// bounds.
#[verifier::external_body]
fn belt_swap_remove(pool: &mut heapless::Vec<Asteroid, 20>, index: usize) -> (item: Asteroid)
    requires
        index < belt_items(*old(pool)).len(),
    ensures
        item == belt_items(*old(pool))[index as int],
        belt_items(*final(pool)) == swap_removed(belt_items(*old(pool)), index as int),
{
    pool.swap_remove(index)
}

impl Pool for heapless::Vec<Asteroid, 20> {
    type Item = Asteroid;

    open spec fn items(&self) -> Seq<Asteroid> {
        belt_items(*self)
    }

    open spec fn limit() -> nat {
        20
    }

    fn ceiling() -> (n: usize) {
        20
    }

    fn fresh() -> (pool: Self) {
        belt_new()
    }

    fn occupancy(&self) -> (n: usize) {
        belt_as_slice(self).len()
    }

    fn peek(&self, index: usize) -> (item: Asteroid) {
        belt_as_slice(self)[index]
    }

    fn poke(&mut self, index: usize, item: Asteroid) {
        belt_set(self, index, item)
    }

    fn enlist(&mut self, item: Asteroid) -> (r: Result<(), Asteroid>) {
        belt_push(self, item)
    }

    fn evict(&mut self, index: usize) -> (item: Asteroid) {
        belt_swap_remove(self, index)
    }
}

} // verus!
