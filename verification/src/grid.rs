//! A uniform grid over a snapshot of the flock, and the scan that finds the
//! neighbours of a sheep in it.

use std::collections::HashMap;
use vstd::prelude::*;
use crate::vec2::Vec2;

verus! {

/// How far a sheep looks for company.
pub const HERD_RADIUS: u32 = 10_000;

/// `HERD_RADIUS` squared.
pub const HERD_RADIUS_SQ: u128 = 100_000_000;

/// The side of a grid cell: one herd radius, so that the neighbours of a
/// sheep all stand in its own cell or in one of the eight around it.
pub const HERD_CELL_SIZE: i32 = 10_000;

/// The most neighbours that one sheep takes into account.
pub const HERD_MAX_NEIGHBORS: usize = 20;

/// A sheep as the grid sees it: who it is and where it stood when the
/// snapshot was taken.
#[derive(Debug, Copy, Clone, PartialEq, Eq, Structural)]
pub struct FlockMember {
    pub id: u64,
    pub position: Vec2,
}

/// The grid cell that holds a coordinate: the coordinate divided by the
/// cell size, rounded down.
pub open spec fn spec_cell_coord(v: int) -> int {
    v / (HERD_CELL_SIZE as int)
}

/// The grid cell that holds `position`.
pub open spec fn spec_spatial_cell(position: Vec2) -> (int, int) {
    (spec_cell_coord(position.x as int), spec_cell_coord(position.y as int))
}

/// The number under which the cell `(cx, cy)` is filed. Different cells
/// have different numbers.
pub open spec fn spec_cell_key(cx: int, cy: int) -> int {
    (cx + 0x8000_0000) * 0x1_0000_0000 + (cy + 0x8000_0000)
}

/// The number under which the cell of `position` is filed.
pub open spec fn spec_key_of(position: Vec2) -> int {
    spec_cell_key(spec_cell_coord(position.x as int), spec_cell_coord(position.y as int))
}

/// The positions in `snapshot`, in rising order, of the members that stand
/// in the cell filed under `key`.
pub open spec fn spec_members(snapshot: Seq<FlockMember>, key: int) -> Seq<usize>
    decreases snapshot.len(),
{
    if snapshot.len() == 0 {
        Seq::empty()
    } else {
        let rest = spec_members(snapshot.drop_last(), key);
        if spec_key_of(snapshot.last().position) == key {
            rest.push((snapshot.len() - 1) as usize)
        } else {
            rest
        }
    }
}

/// Every entry of a cell's list points into the snapshot, at a member that
/// stands in that cell.
pub proof fn lemma_members_in_range(snapshot: Seq<FlockMember>, key: int)
    requires
        snapshot.len() <= usize::MAX,
    ensures
        forall|j: int|
            0 <= j < spec_members(snapshot, key).len() ==> (#[trigger] spec_members(
                snapshot,
                key,
            )[j]) < snapshot.len() && spec_key_of(
                snapshot[spec_members(snapshot, key)[j] as int].position,
            ) == key,
        spec_members(snapshot, key).len() <= snapshot.len(),
    decreases snapshot.len(),
{
    if snapshot.len() > 0 {
        lemma_members_in_range(snapshot.drop_last(), key);
        let rest = spec_members(snapshot.drop_last(), key);
        assert forall|j: int| 0 <= j < spec_members(snapshot, key).len() implies (
        #[trigger] spec_members(snapshot, key)[j]) < snapshot.len() && spec_key_of(
            snapshot[spec_members(snapshot, key)[j] as int].position,
        ) == key by {
            if j < rest.len() {
                assert(spec_members(snapshot, key)[j] == rest[j]);
                assert(snapshot.drop_last()[rest[j] as int] == snapshot[rest[j] as int]);
            } else {
                assert(spec_members(snapshot, key)[j] == snapshot.len() - 1);
                assert(snapshot.last() == snapshot[snapshot.len() - 1]);
            }
        }
    }
}

/// The number of the `k`-th of the nine cells around `(cx, cy)`, counted
/// row by row from the corner with the smallest coordinates.
pub open spec fn spec_scan_key(cx: int, cy: int, k: int) -> int {
    spec_cell_key(cx + k % 3 - 1, cy + k / 3 - 1)
}

/// The members of the first `cells` of the nine cells around `(cx, cy)`,
/// cell after cell.
pub open spec fn spec_scan_order(snapshot: Seq<FlockMember>, cx: int, cy: int, cells: int) -> Seq<
    usize,
>
    decreases cells,
{
    if cells <= 0 {
        Seq::empty()
    } else {
        spec_scan_order(snapshot, cx, cy, cells - 1) + spec_members(
            snapshot,
            spec_scan_key(cx, cy, cells - 1),
        )
    }
}

/// The members of the nine cells around `(cx, cy)` from the `from`-th on.
pub open spec fn spec_scan_tail(snapshot: Seq<FlockMember>, cx: int, cy: int, from: int) -> Seq<
    usize,
>
    decreases 9 - from,
{
    if from >= 9 {
        Seq::empty()
    } else {
        spec_members(snapshot, spec_scan_key(cx, cy, from)) + spec_scan_tail(
            snapshot,
            cx,
            cy,
            from + 1,
        )
    }
}

/// The first cells of a scan and the cells after them make up the scan.
pub proof fn lemma_scan_split(snapshot: Seq<FlockMember>, cx: int, cy: int, k: int)
    requires
        0 <= k <= 9,
    ensures
        spec_scan_order(snapshot, cx, cy, k) + spec_scan_tail(snapshot, cx, cy, k)
            == spec_scan_order(snapshot, cx, cy, 9),
    decreases 9 - k,
{
    if k < 9 {
        lemma_scan_split(snapshot, cx, cy, k + 1);
        assert(spec_scan_order(snapshot, cx, cy, k) + spec_scan_tail(snapshot, cx, cy, k)
            =~= spec_scan_order(snapshot, cx, cy, k + 1) + spec_scan_tail(
            snapshot,
            cx,
            cy,
            k + 1,
        ));
    } else {
        assert(spec_scan_order(snapshot, cx, cy, k) + spec_scan_tail(snapshot, cx, cy, k)
            =~= spec_scan_order(snapshot, cx, cy, 9));
    }
}

/// Every member of a snapshot is listed under its own cell.
pub proof fn lemma_member_is_listed(snapshot: Seq<FlockMember>, i: int)
    requires
        0 <= i < snapshot.len() <= usize::MAX,
    ensures
        spec_members(snapshot, spec_key_of(snapshot[i].position)).contains(i as usize),
    decreases snapshot.len(),
{
    let key = spec_key_of(snapshot[i].position);
    let list = spec_members(snapshot, key);
    let rest = spec_members(snapshot.drop_last(), key);
    if i == snapshot.len() - 1 {
        assert(list == rest.push(i as usize));
        assert(list[rest.len() as int] == i as usize);
    } else {
        assert(snapshot.drop_last()[i] == snapshot[i]);
        lemma_member_is_listed(snapshot.drop_last(), i);
        let j = choose|j: int| 0 <= j < rest.len() && rest[j] == i as usize;
        assert(list[j] == rest[j]);
    }
}

/// The scan of the first `cells` cells lists everything that the lists of
/// those cells hold.
pub proof fn lemma_scan_lists_cell(
    snapshot: Seq<FlockMember>,
    cx: int,
    cy: int,
    cells: int,
    k: int,
    index: usize,
)
    requires
        0 <= k < cells,
        spec_members(snapshot, spec_scan_key(cx, cy, k)).contains(index),
    ensures
        spec_scan_order(snapshot, cx, cy, cells).contains(index),
    decreases cells,
{
    let before = spec_scan_order(snapshot, cx, cy, cells - 1);
    let last = spec_members(snapshot, spec_scan_key(cx, cy, cells - 1));
    if k == cells - 1 {
        let j = choose|j: int| 0 <= j < last.len() && last[j] == index;
        assert((before + last)[before.len() + j] == index);
    } else {
        lemma_scan_lists_cell(snapshot, cx, cy, cells - 1, k, index);
        let j = choose|j: int| 0 <= j < before.len() && before[j] == index;
        assert((before + last)[j] == index);
    }
}

/// Two coordinates that lie no farther apart than a cell is wide lie in
/// the same cell or in cells next to each other.
pub proof fn lemma_near_cells(a: int, b: int)
    requires
        -HERD_CELL_SIZE <= b - a <= HERD_CELL_SIZE,
    ensures
        -1 <= spec_cell_coord(b) - spec_cell_coord(a) <= 1,
{
}

/// The scan of the nine cells around a sheep misses nobody: every member
/// of the snapshot that stands within the herd radius of `pos` is listed
/// by the scan, and is a neighbour unless it is the sheep itself.
pub proof fn lemma_scan_covers_herd_radius(
    snapshot: Seq<FlockMember>,
    id: u64,
    pos: Vec2,
    i: int,
)
    requires
        0 <= i < snapshot.len() <= usize::MAX,
        pos.spec_distance_squared(snapshot[i].position) <= HERD_RADIUS_SQ,
    ensures
        spec_scan_order(
            snapshot,
            spec_spatial_cell(pos).0,
            spec_spatial_cell(pos).1,
            9,
        ).contains(i as usize),
        snapshot[i].id != id ==> spec_scan_order(
            snapshot,
            spec_spatial_cell(pos).0,
            spec_spatial_cell(pos).1,
            9,
        ).filter(spec_is_neighbor(snapshot, id, pos)).contains(i as usize),
{
    let other = snapshot[i].position;
    let dx = other.x - pos.x;
    let dy = other.y - pos.y;
    assert(-10_000 <= dx <= 10_000 && -10_000 <= dy <= 10_000) by (nonlinear_arith)
        requires
            dx * dx + dy * dy <= 100_000_000,
    ;
    lemma_near_cells(pos.x as int, other.x as int);
    lemma_near_cells(pos.y as int, other.y as int);
    let cx = spec_spatial_cell(pos).0;
    let cy = spec_spatial_cell(pos).1;
    let ox = spec_cell_coord(other.x as int) - cx;
    let oy = spec_cell_coord(other.y as int) - cy;
    let k = (oy + 1) * 3 + (ox + 1);
    assert(spec_scan_key(cx, cy, k) == spec_key_of(other));
    lemma_member_is_listed(snapshot, i);
    lemma_scan_lists_cell(snapshot, cx, cy, 9, k, i as usize);
    if snapshot[i].id != id {
        let scan = spec_scan_order(snapshot, cx, cy, 9);
        let pred = spec_is_neighbor(snapshot, id, pos);
        let j = choose|j: int| 0 <= j < scan.len() && scan[j] == i as usize;
        assert(pred(scan[j]));
        scan.lemma_filter_contains(pred, j);
    }
}

/// The test that entry `i` of the snapshot is a neighbour of the sheep
/// `id` at `pos`: another sheep, no farther away than the herd radius.
pub open spec fn spec_is_neighbor(snapshot: Seq<FlockMember>, id: u64, pos: Vec2) -> spec_fn(
    usize,
) -> bool {
    |i: usize|
        i < snapshot.len() && snapshot[i as int].id != id && pos.spec_distance_squared(
            snapshot[i as int].position,
        ) <= HERD_RADIUS_SQ
}

/// The first `cap` entries of `list`, or all of it if it has no more.
pub open spec fn spec_capped(list: Seq<usize>, cap: int) -> Seq<usize> {
    if list.len() > cap {
        list.take(cap)
    } else {
        list
    }
}

/// The neighbours that the sheep `id` at `pos` takes into account: the
/// neighbours found in the nine cells around it, in the order of the scan,
/// up to the cap.
pub open spec fn spec_neighbors(snapshot: Seq<FlockMember>, id: u64, pos: Vec2) -> Seq<usize> {
    spec_capped(
        spec_scan_order(snapshot, spec_spatial_cell(pos).0, spec_spatial_cell(pos).1, 9).filter(
            spec_is_neighbor(snapshot, id, pos),
        ),
        HERD_MAX_NEIGHBORS as int,
    )
}

/// Once a scan has found as many neighbours as the cap allows, nothing
/// that it would find later counts.
pub proof fn lemma_capped_prefix(
    scanned: Seq<usize>,
    rest: Seq<usize>,
    pred: spec_fn(usize) -> bool,
    cap: int,
)
    requires
        scanned.filter(pred).len() == cap || (rest.len() == 0 && scanned.filter(pred).len()
            <= cap),
    ensures
        spec_capped((scanned + rest).filter(pred), cap) == scanned.filter(pred),
{
    Seq::filter_distributes_over_add(scanned, rest, pred);
    let found = scanned.filter(pred);
    let all = (scanned + rest).filter(pred);
    if rest.len() == 0 {
        reveal(Seq::filter);
        assert(rest.filter(pred) =~= Seq::<usize>::empty());
        assert(all =~= found);
        if found.len() == cap {
            assert(all.take(cap) =~= found);
        }
    } else {
        assert(all.take(cap) =~= found);
    }
}

/// The grid cell that holds `position`.
pub fn spatial_cell(position: Vec2) -> (cell: (i32, i32))
    ensures
        cell.0 == spec_spatial_cell(position).0,
        cell.1 == spec_spatial_cell(position).1,
        -214_749 <= cell.0 <= 214_748,
        -214_749 <= cell.1 <= 214_748,
{
    (cell_coord(position.x), cell_coord(position.y))
}

/// One coordinate divided by the cell size, rounded down.
pub fn cell_coord(v: i32) -> (c: i32)
    ensures
        c == spec_cell_coord(v as int),
        -214_749 <= c <= 214_748,
{
    if v >= 0 {
        v / HERD_CELL_SIZE
    } else {
        (v + 1) / HERD_CELL_SIZE - 1
    }
}

/// The number under which the cell `(cx, cy)` is filed.
pub fn cell_key(cx: i32, cy: i32) -> (key: u64)
    ensures
        key == spec_cell_key(cx as int, cy as int),
{
    let x: u64 = (cx as i64 + 0x8000_0000) as u64;
    let y: u64 = (cy as i64 + 0x8000_0000) as u64;
    x * 0x1_0000_0000 + y
}

/// The list filed under `key`, which is empty if nothing is filed there.
pub open spec fn spec_cell_list(cells: Map<u64, Vec<usize>>, key: u64) -> Seq<usize> {
    if cells.contains_key(key) {
        cells[key]@
    } else {
        Seq::empty()
    }
}

/// A uniform grid over a snapshot of the flock: for every cell that holds a
/// member, the list of the members in it.
pub struct SpatialGrid {
    pub cells: HashMap<u64, Vec<usize>>,
}

impl SpatialGrid {
    /// The grid files exactly the members of `snapshot`, each under its
    /// cell, in the order of the snapshot.
    pub open spec fn indexes(&self, snapshot: Seq<FlockMember>) -> bool {
        forall|key: u64| #[trigger]
            spec_cell_list(self.cells@, key) == spec_members(snapshot, key as int)
    }

    /// Files every member of `snapshot` under its cell.
    pub fn build(snapshot: &Vec<FlockMember>) -> (grid: SpatialGrid)
        ensures
            grid.indexes(snapshot@),
    {
        broadcast use vstd::std_specs::hash::group_hash_axioms;

        let mut cells: HashMap<u64, Vec<usize>> = HashMap::new();
        let mut index: usize = 0;
        while index < snapshot.len()
            invariant
                index <= snapshot.len(),
                forall|key: u64| #[trigger]
                    spec_cell_list(cells@, key) == spec_members(
                        snapshot@.take(index as int),
                        key as int,
                    ),
            decreases snapshot.len() - index,
        {
            let cell = spatial_cell(snapshot[index].position);
            let key = cell_key(cell.0, cell.1);
            let ghost old_cells = cells@;
            let mut list: Vec<usize> = match cells.remove(&key) {
                Some(list) => list,
                None => Vec::new(),
            };
            assert(list@ == spec_cell_list(old_cells, key));
            list.push(index);
            cells.insert(key, list);
            proof {
                let before = snapshot@.take(index as int);
                let after = snapshot@.take(index as int + 1);
                assert(after.drop_last() =~= before);
                assert(after.last() == snapshot@[index as int]);
                assert forall|k: u64| #[trigger]
                    spec_cell_list(cells@, k) == spec_members(after, k as int) by {
                    assert(spec_cell_list(old_cells, k) == spec_members(before, k as int));
                    if k == key {
                        assert(spec_members(after, k as int) == spec_members(
                            before,
                            k as int,
                        ).push(index));
                    } else {
                        assert(spec_members(after, k as int) == spec_members(before, k as int));
                        assert(cells@.contains_key(k) == old_cells.contains_key(k));
                    }
                }
            }
            index += 1;
        }
        assert(snapshot@.take(snapshot.len() as int) =~= snapshot@);
        SpatialGrid { cells }
    }

    /// The neighbours that the sheep `id` at `pos` takes into account, as
    /// positions in `snapshot`. The scan covers the cell of `pos` and the
    /// eight cells around it, and ends as soon as the cap is reached.
    pub fn neighbors(&self, snapshot: &Vec<FlockMember>, id: u64, pos: Vec2) -> (found: Vec<usize>)
        requires
            self.indexes(snapshot@),
        ensures
            found@ == spec_neighbors(snapshot@, id, pos),
            found.len() <= HERD_MAX_NEIGHBORS,
            forall|j: int|
                0 <= j < found.len() ==> (#[trigger] found[j]) < snapshot.len() && snapshot[found[j] as int].id
                    != id,
    {
        let cell = spatial_cell(pos);
        let ghost cx = cell.0 as int;
        let ghost cy = cell.1 as int;
        let ghost pred = spec_is_neighbor(snapshot@, id, pos);
        let ghost full = spec_scan_order(snapshot@, cx, cy, 9);
        let mut found: Vec<usize> = Vec::new();
        let ghost mut scanned: Seq<usize> = Seq::empty();
        let ghost mut rest: Seq<usize> = full;
        let mut k: i32 = 0;
        proof {
            reveal(Seq::filter);
            assert(scanned.filter(pred) =~= Seq::<usize>::empty());
            assert(scanned + rest =~= full);
            lemma_scan_split(snapshot@, cx, cy, 0);
            assert(Seq::<usize>::empty() + spec_scan_tail(snapshot@, cx, cy, 0) =~= spec_scan_tail(
                snapshot@,
                cx,
                cy,
                0,
            ));
        }
        while k < 9 && found.len() < HERD_MAX_NEIGHBORS
            invariant
                0 <= k <= 9,
                self.indexes(snapshot@),
                cx == cell.0,
                cy == cell.1,
                cx == spec_spatial_cell(pos).0,
                cy == spec_spatial_cell(pos).1,
                -214_749 <= cell.0 <= 214_748,
                -214_749 <= cell.1 <= 214_748,
                pred == spec_is_neighbor(snapshot@, id, pos),
                full == spec_scan_order(snapshot@, cx, cy, 9),
                scanned == spec_scan_order(snapshot@, cx, cy, k as int),
                rest == spec_scan_tail(snapshot@, cx, cy, k as int),
                found@ == scanned.filter(pred),
                found.len() <= HERD_MAX_NEIGHBORS,
            decreases 9 - k,
        {
            let dx: i32 = k % 3 - 1;
            let dy: i32 = k / 3 - 1;
            let ghost key = spec_scan_key(cx, cy, k as int);
            let ghost list_spec = spec_members(snapshot@, key);
            proof {
                assert(snapshot@.len() == snapshot.len());
                lemma_members_in_range(snapshot@, key);
                assert(0 <= key <= u64::MAX);
                assert(spec_cell_list(self.cells@, key as u64) == list_spec);
            }
            let ghost base = scanned;
            let ghost after = spec_scan_tail(snapshot@, cx, cy, k as int + 1);
            match self.lookup(cell.0 + dx, cell.1 + dy) {
                Some(list) => {
                    let mut j: usize = 0;
                    proof {
                        assert(base + list@.take(0) =~= base);
                    }
                    while j < list.len() && found.len() < HERD_MAX_NEIGHBORS
                        invariant
                            j <= list.len(),
                            list@ == list_spec,
                            forall|t: int|
                                0 <= t < list_spec.len() ==> (#[trigger] list_spec[t])
                                    < snapshot.len(),
                            pred == spec_is_neighbor(snapshot@, id, pos),
                            scanned == base + list@.take(j as int),
                            found@ == scanned.filter(pred),
                            found.len() <= HERD_MAX_NEIGHBORS,
                        decreases list.len() - j,
                    {
                        let idx = list[j];
                        assert(idx == list_spec[j as int]);
                        let other = snapshot[idx];
                        let near = pos.distance_squared(other.position) <= HERD_RADIUS_SQ;
                        proof {
                            scanned.lemma_filter_push(idx, pred);
                            assert(base + list@.take(j as int + 1) =~= scanned.push(idx));
                            scanned = scanned.push(idx);
                        }
                        if other.id != id && near {
                            found.push(idx);
                        }
                        j += 1;
                    }
                    if j < list.len() {
                        proof {
                            lemma_scan_split(snapshot@, cx, cy, k as int);
                            let tail = list@.skip(j as int) + after;
                            assert(spec_scan_tail(snapshot@, cx, cy, k as int) == list_spec
                                + after);
                            assert(list@.take(j as int) + list@.skip(j as int) =~= list@);
                            assert(scanned + tail =~= base + (list_spec + after));
                            assert(found.len() == HERD_MAX_NEIGHBORS);
                            lemma_capped_prefix(scanned, tail, pred, HERD_MAX_NEIGHBORS as int);
                            assert(scanned + tail == full);
                            assert forall|t: int| 0 <= t < found.len() implies pred(
                                #[trigger] found[t],
                            ) by {
                                scanned.lemma_filter_pred(pred, t);
                            }
                        }
                        return found;
                    }
                    proof {
                        assert(list@.take(j as int) =~= list@);
                    }
                },
                None => {
                    proof {
                        assert(base + list_spec =~= base);
                    }
                },
            }
            k += 1;
            proof {
                rest = after;
            }
        }
        proof {
            lemma_scan_split(snapshot@, cx, cy, k as int);
            lemma_capped_prefix(scanned, rest, pred, HERD_MAX_NEIGHBORS as int);
            assert forall|t: int| 0 <= t < found.len() implies pred(#[trigger] found[t]) by {
                scanned.lemma_filter_pred(pred, t);
            }
        }
        found
    }

    /// The members that stand in the cell `(cx, cy)`, or nothing if the
    /// cell is empty.
    pub fn lookup(&self, cx: i32, cy: i32) -> (found: Option<&Vec<usize>>)
        ensures
            match found {
                Some(list) => list@ == spec_cell_list(
                    self.cells@,
                    spec_cell_key(cx as int, cy as int) as u64,
                ),
                None => spec_cell_list(self.cells@, spec_cell_key(cx as int, cy as int) as u64)
                    == Seq::<usize>::empty(),
            },
    {
        broadcast use vstd::std_specs::hash::group_hash_axioms;

        let key = cell_key(cx, cy);
        self.cells.get(&key)
    }
}

} // verus!
