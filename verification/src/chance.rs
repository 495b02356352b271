//! Random draws. The generator itself is trusted; everything that is built on
//! a draw is verified for every value the generator may return.

use rand::Rng;
use vstd::prelude::*;
use crate::vec2::{lemma_unit_component_bound, lemma_unit_vector_is_not_zero, Vec2};
use vstd::seq_lib::seq_to_set_is_finite;
use vstd::set_lib::{lemma_len_intersect, lemma_len_union};

verus! {

/// Calls `rand::Rng::random_range` on the thread-local generator `rand::rng()`
/// with the half-open range `0..bound`.
///
/// Trusted: the call panics on an empty range, which `requires` rules out, and
/// returns a member of the range. Nothing is claimed about which member.
#[verifier::external_body]
fn random_below(bound: u64) -> (r: u64)
    requires
        bound > 0,
    ensures
        r < bound,
{
    rand::rng().random_range(0..bound)
}

/// Calls `rand::Rng::random_ratio` on the thread-local generator `rand::rng()`.
///
/// Trusted: the call panics when the denominator is zero or smaller than the
/// numerator, which `requires` rules out. Its documentation guarantees `true`
/// for a ratio of one and `false` for a ratio of zero; any other ratio may
/// come out either way.
#[verifier::external_body]
fn random_ratio(numerator: u32, denominator: u32) -> (hit: bool)
    requires
        0 < denominator,
        numerator <= denominator,
    ensures
        numerator == denominator ==> hit,
        numerator == 0 ==> !hit,
{
    rand::rng().random_ratio(numerator, denominator)
}

/// Decides at random, with `numerator` chances in `denominator` of a hit.
/// A ratio of one always hits, a ratio of zero never.
pub fn roll(numerator: u32, denominator: u32) -> (hit: bool)
    requires
        0 < denominator,
        numerator <= denominator,
    ensures
        numerator == denominator ==> hit,
        numerator == 0 ==> !hit,
{
    random_ratio(numerator, denominator)
}

/// A random position in a list of `len` entries.
pub fn random_index(len: usize) -> (i: usize)
    requires
        len > 0,
    ensures
        i < len,
{
    random_below(len as u64) as usize
}

/// A random integer in the closed interval `[lo, hi]`.
pub fn random_between(lo: i32, hi: i32) -> (r: i32)
    requires
        lo <= hi,
    ensures
        lo <= r <= hi,
{
    let span: u64 = (hi as i64 - lo as i64 + 1) as u64;
    let offset: u64 = random_below(span);
    between_at(lo, hi, offset)
}

/// A random duration in the half-open interval `[lo, hi)`.
pub fn random_duration(lo: u64, hi: u64) -> (r: u64)
    requires
        lo < hi,
    ensures
        lo <= r < hi,
{
    duration_at(lo, hi, random_below(hi - lo))
}

/// The integer that lies `offset` above `lo` in the closed interval
/// `[lo, hi]`: what a draw of `offset` from the interval's span stands for.
pub fn between_at(lo: i32, hi: i32, offset: u64) -> (r: i32)
    requires
        lo <= hi,
        offset <= hi - lo,
    ensures
        r == lo + offset,
{
    (lo as i64 + offset as i64) as i32
}

/// The duration that lies `offset` above `lo` in the half-open interval
/// `[lo, hi)`: what a draw of `offset` from the interval's span stands
/// for.
pub fn duration_at(lo: u64, hi: u64, offset: u64) -> (r: u64)
    requires
        lo < hi,
        offset < hi - lo,
    ensures
        r == lo + offset,
{
    lo + offset
}

/// The direction toward `point`, if the point lies inside the unit circle
/// and off its centre.
pub open spec fn spec_heading_toward(point: Vec2) -> Option<Vec2> {
    if 0 < point.spec_length_squared() <= 1_000_000 {
        Some(point.spec_normalize_or(Vec2 { x: 1000, y: 0 }))
    } else {
        None
    }
}

/// The direction toward `point`, if the point lies inside the unit circle
/// and off its centre. Points outside the circle are turned down so that
/// no direction is likelier than another.
pub fn heading_toward(point: Vec2) -> (dir: Option<Vec2>)
    ensures
        dir == spec_heading_toward(point),
        dir matches Some(d) ==> -1000 <= d.x <= 1000 && -1000 <= d.y <= 1000 && !d.is_zero(),
{
    let d = point.length_squared();
    if d > 0 && d <= 1_000_000 {
        proof {
            lemma_unit_vector_is_not_zero(point.x as int, point.y as int);
            lemma_unit_component_bound(point.x as int, point.x as int, point.y as int);
            lemma_unit_component_bound(point.y as int, point.x as int, point.y as int);
        }
        Some(point.normalize_or(Vec2::unit_x()))
    } else {
        None
    }
}

/// `dir` is a heading that a draw can give: the unit vector toward some
/// point inside the unit circle and off its centre, or the first axis.
pub open spec fn spec_is_heading(dir: Vec2) -> bool {
    dir == (Vec2 { x: 1000, y: 0 }) || exists|p: Vec2| spec_heading_toward(p) == Some(dir)
}

/// A heading is not zero, and neither of its components exceeds unit size.
pub proof fn lemma_heading_is_unit_sized(dir: Vec2)
    requires
        spec_is_heading(dir),
    ensures
        -1000 <= dir.x <= 1000,
        -1000 <= dir.y <= 1000,
        !dir.is_zero(),
{
    if dir != (Vec2 { x: 1000, y: 0 }) {
        let p = choose|p: Vec2| spec_heading_toward(p) == Some(dir);
        lemma_unit_vector_is_not_zero(p.x as int, p.y as int);
        lemma_unit_component_bound(p.x as int, p.x as int, p.y as int);
        lemma_unit_component_bound(p.y as int, p.x as int, p.y as int);
    }
}

/// A random direction of unit length.
///
/// Points of the square around the unit circle are drawn until one falls
/// inside the circle and off its centre; the direction is the unit vector
/// toward that point. After sixty-four draws without such a point the
/// first axis is taken.
pub fn random_heading() -> (dir: Vec2)
    ensures
        spec_is_heading(dir),
        -1000 <= dir.x <= 1000,
        -1000 <= dir.y <= 1000,
        !dir.is_zero(),
{
    let mut attempts: u32 = 0;
    while attempts < 64
        invariant
            attempts <= 64,
        decreases 64 - attempts,
    {
        let x = random_between(-1000, 1000);
        let y = random_between(-1000, 1000);
        match heading_toward(Vec2 { x, y }) {
            Some(dir) => {
                assert(spec_heading_toward(Vec2 { x, y }) == Some(dir));
                return dir;
            },
            None => {},
        }
        attempts += 1;
    }
    Vec2::unit_x()
}

/// The test that a value is not one of `banned`.
pub open spec fn not_in<T>(banned: Seq<T>) -> spec_fn(T) -> bool {
    |x: T| !banned.contains(x)
}

/// Striking the banned values from a list without repetitions removes at
/// most as many entries as there are banned values.
pub proof fn lemma_unbanned_count<T>(pool: Seq<T>, banned: Seq<T>)
    requires
        pool.no_duplicates(),
    ensures
        pool.filter(not_in(banned)).len() + banned.len() >= pool.len(),
        pool.filter(not_in(banned)).no_duplicates(),
        forall|x: T|
            pool.filter(not_in(banned)).contains(x) <==> pool.contains(x) && !banned.contains(x),
{
    let pred = not_in(banned);
    let kept = pool.filter(pred);
    broadcast use vstd::seq_lib::group_filter_ensures;
    lemma_filter_keeps_distinct(pool, pred);
    assert forall|x: T| kept.contains(x) <==> pool.contains(x) && !banned.contains(x) by {
        if kept.contains(x) {
            let i = choose|i: int| 0 <= i < kept.len() && kept[i] == x;
            assert(pred(kept[i]));
            pool.lemma_filter_contains_rev(pred, x);
        }
        if pool.contains(x) && !banned.contains(x) {
            let i = choose|i: int| 0 <= i < pool.len() && pool[i] == x;
            assert(pred(pool[i]));
        }
    }
    let hit = pool.to_set().intersect(banned.to_set());
    seq_to_set_is_finite(pool);
    seq_to_set_is_finite(banned);
    seq_to_set_is_finite(kept);
    assert(pool.to_set() =~= kept.to_set().union(hit));
    lemma_len_intersect(banned.to_set(), pool.to_set());
    assert(banned.to_set().intersect(pool.to_set()) =~= hit);
    lemma_len_union(kept.to_set(), hit);
    pool.unique_seq_to_set();
    kept.lemma_cardinality_of_set();
    banned.lemma_cardinality_of_set();
}

/// A selection from a list without repetitions has no repetitions.
pub proof fn lemma_filter_keeps_distinct<T>(pool: Seq<T>, pred: spec_fn(T) -> bool)
    requires
        pool.no_duplicates(),
    ensures
        pool.filter(pred).no_duplicates(),
    decreases pool.len(),
{
    reveal(Seq::filter);
    if pool.len() > 0 {
        let front = pool.drop_last();
        lemma_filter_keeps_distinct(front, pred);
        if pred(pool.last()) {
            assert forall|i: int| 0 <= i < front.filter(pred).len() implies front.filter(pred)[i]
                != pool.last() by {
                front.lemma_filter_contains_rev(pred, front.filter(pred)[i]);
                let j = choose|j: int| 0 <= j < front.len() && front[j] == front.filter(pred)[i];
                assert(pool[j] == front[j]);
            }
        }
    }
}

/// Draws up to `count` entries from `stock` at random, without putting any
/// back, and hands them out in the order drawn. The entries that were not
/// drawn stay in `stock`.
pub fn draw_distinct<T>(stock: &mut Vec<T>, count: usize) -> (drawn: Vec<T>)
    requires
        old(stock)@.no_duplicates(),
    ensures
        drawn.len() == if count <= old(stock).len() { count } else { old(stock).len() },
        drawn@.no_duplicates(),
        final(stock)@.no_duplicates(),
        final(stock).len() + drawn.len() == old(stock).len(),
        forall|x: T|
            #![trigger old(stock)@.contains(x)]
            #![trigger drawn@.contains(x)]
            #![trigger final(stock)@.contains(x)]
            old(stock)@.contains(x) <==> (drawn@.contains(x) || final(stock)@.contains(x)),
        forall|x: T|
            #![trigger drawn@.contains(x)]
            #![trigger final(stock)@.contains(x)]
            !(drawn@.contains(x) && final(stock)@.contains(x)),
{
    let mut drawn: Vec<T> = Vec::new();
    while drawn.len() < count && stock.len() > 0
        invariant
            drawn.len() <= count,
            stock@.no_duplicates(),
            drawn@.no_duplicates(),
            stock.len() + drawn.len() == old(stock).len(),
            forall|x: T|
                #![trigger old(stock)@.contains(x)]
                #![trigger drawn@.contains(x)]
                #![trigger stock@.contains(x)]
                old(stock)@.contains(x) <==> (drawn@.contains(x) || stock@.contains(x)),
            forall|x: T|
                #![trigger drawn@.contains(x)]
                #![trigger stock@.contains(x)]
                !(drawn@.contains(x) && stock@.contains(x)),
        decreases stock.len(),
    {
        let idx = random_index(stock.len());
        let ghost before = stock@;
        let ghost prior = drawn@;
        let item = stock.remove(idx);
        drawn.push(item);
        proof {
            assert(before[idx as int] == item);
            assert(before.contains(item));
            assert forall|i: int| 0 <= i < stock@.len() implies stock@[i] == before[if i < idx {
                i
            } else {
                i + 1
            }] by {}
            assert forall|i: int, j: int|
                0 <= i < stock@.len() && 0 <= j < stock@.len() && i != j implies stock@[i]
                != stock@[j] by {
                let a = if i < idx { i } else { i + 1 };
                let b = if j < idx { j } else { j + 1 };
                assert(before[a] != before[b]);
            }
            assert forall|x: T| stock@.contains(x) implies before.contains(x) && x != item by {
                let j = choose|j: int| 0 <= j < stock@.len() && stock@[j] == x;
                let a = if j < idx { j } else { j + 1 };
                assert(before[a] == x);
            }
            assert forall|x: T| before.contains(x) && x != item implies stock@.contains(x) by {
                let j = choose|j: int| 0 <= j < before.len() && before[j] == x;
                let a = if j < idx { j } else { j - 1 };
                assert(stock@[a] == x);
            }
            assert(drawn@ =~= prior.push(item));
            assert forall|x: T| drawn@.contains(x) <==> (prior.contains(x) || x == item) by {
                if drawn@.contains(x) {
                    let j = choose|j: int| 0 <= j < drawn@.len() && drawn@[j] == x;
                    if j < prior.len() {
                        assert(prior[j] == x);
                    }
                }
                if prior.contains(x) {
                    let j = choose|j: int| 0 <= j < prior.len() && prior[j] == x;
                    assert(drawn@[j] == x);
                }
                if x == item {
                    assert(drawn@[prior.len() as int] == x);
                }
            }
            assert forall|i: int, j: int|
                0 <= i < drawn@.len() && 0 <= j < drawn@.len() && i != j implies drawn@[i]
                != drawn@[j] by {
                if i < prior.len() {
                    assert(prior.contains(prior[i]));
                }
                if j < prior.len() {
                    assert(prior.contains(prior[j]));
                }
            }
            assert forall|x: T|
                old(stock)@.contains(x) <==> (drawn@.contains(x) || stock@.contains(x)) by {
                assert(old(stock)@.contains(x) <==> (prior.contains(x) || before.contains(x)));
                assert(drawn@.contains(x) <==> (prior.contains(x) || x == item));
                if stock@.contains(x) {
                    assert(before.contains(x) && x != item);
                }
                if before.contains(x) && x != item {
                    assert(stock@.contains(x));
                }
            }
            assert forall|x: T| !(drawn@.contains(x) && stock@.contains(x)) by {
                assert(drawn@.contains(x) <==> (prior.contains(x) || x == item));
                assert(!(prior.contains(x) && before.contains(x)));
                if stock@.contains(x) {
                    assert(before.contains(x) && x != item);
                }
            }
        }
    }
    drawn
}

} // verus!
