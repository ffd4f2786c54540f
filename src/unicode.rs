use vstd::prelude::*;

verus! {

/// A range table is a non-empty sequence of an even number of code points,
/// read in pairs `[t[2i], t[2i+1]]` of inclusive bounds, in ascending order,
/// where each range ends below the start of the next: no two ranges overlap.
#[verifier::opaque]
pub open spec fn well_formed_table(t: Seq<u32>) -> bool {
    &&& t.len() > 0
    &&& t.len() % 2 == 0
    &&& forall|i: int, j: int| 0 <= i <= j < t.len() ==> t[i] <= t[j]
    &&& forall|i: int| 0 <= i && i + 1 < t.len() && i % 2 == 1 ==> #[trigger] t[i] < t[i + 1]
}

/// The table is ordered from index `i` on, checked one neighbour at a time:
/// bounds never decrease, and a range ends below the start of the next.
pub open spec fn ordered_from(t: Seq<u32>, i: int) -> bool
    decreases t.len() - i,
{
    if i < 0 || i + 1 >= t.len() {
        true
    } else {
        t[i] <= t[i + 1] && (i % 2 == 1 ==> t[i] < t[i + 1]) && ordered_from(t, i + 1)
    }
}

proof fn lemma_ordered_from_later(t: Seq<u32>, a: int, k: int)
    requires
        0 <= a <= k,
        ordered_from(t, a),
    ensures
        ordered_from(t, k),
    decreases k - a,
{
    if a < k && a + 1 < t.len() {
        lemma_ordered_from_later(t, a + 1, k);
    }
}

proof fn lemma_ordered_chain(t: Seq<u32>, i: int, j: int)
    requires
        ordered_from(t, 0),
        0 <= i <= j < t.len(),
    ensures
        t[i] <= t[j],
    decreases j - i,
{
    if i < j {
        lemma_ordered_from_later(t, 0, j - 1);
        lemma_ordered_chain(t, i, j - 1);
    }
}

/// A table of even, non-zero length that is ordered neighbour by neighbour is well formed.
pub proof fn lemma_ordered_well_formed(t: Seq<u32>)
    requires
        t.len() > 0,
        t.len() % 2 == 0,
        ordered_from(t, 0),
    ensures
        well_formed_table(t),
{
    reveal(well_formed_table);
    assert forall|i: int, j: int| 0 <= i <= j < t.len() implies t[i] <= t[j] by {
        lemma_ordered_chain(t, i, j);
    }
    assert forall|i: int| 0 <= i && i + 1 < t.len() && i % 2 == 1 implies #[trigger] t[i] < t[i + 1] by {
        lemma_ordered_from_later(t, 0, i);
    }
}

/// The pair that starts at index `i` of the table covers `cp`.
pub open spec fn range_covers(t: Seq<u32>, i: int, cp: u32) -> bool {
    &&& 0 <= i
    &&& i + 1 < t.len()
    &&& i % 2 == 0
    &&& t[i] <= cp <= t[i + 1]
}

/// `cp` lies in one of the table's ranges.
pub open spec fn table_contains(t: Seq<u32>, cp: u32) -> bool {
    exists|i: int| #[trigger] range_covers(t, i, cp)
}

/// Whether `code` lies in one of the inclusive ranges of `map`, found by a
/// binary search over the pairs.
pub fn lookup_in_unicode_map(code: u32, map: &[u32]) -> (r: bool)
    requires
        well_formed_table(map@),
    ensures
        r == table_contains(map@, code),
{
    reveal(well_formed_table);
    if code < map[0] {
        assert forall|i: int| !#[trigger] range_covers(map@, i, code) by {
            if range_covers(map@, i, code) {
                assert(map@[0] <= map@[i]);
            }
        }
        return false;
    }
    let mut lo: usize = 0;
    let mut hi: usize = map.len();
    while lo + 1 < hi
        invariant
            well_formed_table(map@),
            lo % 2 == 0,
            hi % 2 == 0,
            lo <= hi <= map.len(),
            forall|i: int| 0 <= i < lo ==> !#[trigger] range_covers(map@, i, code),
            forall|i: int| hi <= i ==> !#[trigger] range_covers(map@, i, code),
        decreases hi - lo,
    {
        proof {
            reveal(well_formed_table);
        }
        let mut mid: usize = lo + (hi - lo) / 2;
        // an even index addresses the lower bound of a range
        mid = mid - mid % 2;
        if map[mid] <= code && code <= map[mid + 1] {
            assert(range_covers(map@, mid as int, code));
            return true;
        }
        if code < map[mid] {
            assert forall|i: int| mid <= i implies !#[trigger] range_covers(map@, i, code) by {
                if range_covers(map@, i, code) {
                    assert(map@[mid as int] <= map@[i]);
                }
            }
            hi = mid;
        } else {
            assert forall|i: int| 0 <= i < mid + 2 implies !#[trigger] range_covers(
                map@,
                i,
                code,
            ) by {
                if range_covers(map@, i, code) && i < lo {
                } else if range_covers(map@, i, code) {
                    assert(i <= mid);
                    assert(map@[i + 1] <= map@[mid + 1]);
                }
            }
            lo = mid + 2;
        }
    }
    assert forall|i: int| !#[trigger] range_covers(map@, i, code) by {
        if range_covers(map@, i, code) {
            assert(i < lo || hi <= i);
        }
    }
    false
}

/// Whether `map` is a well-formed range table, checked neighbour by neighbour.
pub fn is_well_formed_table(map: &[u32]) -> (r: bool)
    ensures
        r == well_formed_table(map@),
{
    reveal(well_formed_table);
    if map.len() == 0 || map.len() % 2 != 0 {
        return false;
    }
    let mut k: usize = map.len() - 1;
    while k > 0
        invariant
            0 <= k < map@.len(),
            ordered_from(map@, k as int),
        decreases k,
    {
        let i = k - 1;
        if map[i] > map[k] || (i % 2 == 1 && map[i] >= map[k]) {
            assert(!well_formed_table(map@)) by {
                reveal(well_formed_table);
                if map@[i as int] > map@[k as int] {
                    assert(!(map@[i as int] <= map@[k as int]));
                } else {
                    assert(!(map@[i as int] < map@[i + 1]));
                }
            }
            return false;
        }
        k = i;
    }
    proof {
        lemma_ordered_well_formed(map@);
    }
    true
}

} // verus!
