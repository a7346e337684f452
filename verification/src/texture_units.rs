//! The texture-unit table as a mathematical sequence, and the rules by which
//! it changes.
//!
//! The table is a sequence of entries ordered by recency: the least recently
//! used unit stands at the head, the most recently used at the tail. The
//! functions here say, for a request to bind a texture, which unit the
//! request gets and what the table holds afterwards. The executable cache in
//! [`crate::context`] is verified against them.

use crate::resource::{Handle, Texture, WeakHandle};
use vstd::prelude::*;

verus! {

/// One row of the table: a unit index and the texture last bound to it.
pub type Entry = (u32, WeakHandle<Texture>);

/// One request to bind a texture: the texture, the resources alive when the
/// request is made, and whether the device accepts the bind should one be
/// needed.
pub type Request = (Handle<Texture>, Set<u64>, bool);

/// The first index at or after `from` whose element satisfies `pred`.
pub open spec fn first_from<A>(s: Seq<A>, pred: spec_fn(A) -> bool, from: int) -> Option<int>
    decreases s.len() - from,
{
    if from < 0 || from >= s.len() {
        None
    } else if pred(s[from]) {
        Some(from)
    } else {
        first_from(s, pred, from + 1)
    }
}

/// The entries whose reference resolves to the texture `tex`.
pub open spec fn holds(tex: Handle<Texture>, live: Set<u64>) -> spec_fn(Entry) -> bool {
    |e: Entry| e.1.points_to(tex, live)
}

/// The entries whose reference no longer resolves.
pub open spec fn dead(live: Set<u64>) -> spec_fn(Entry) -> bool {
    |e: Entry| !e.1.resolves(live)
}

/// The position of the first entry that holds `tex`, if there is one.
pub open spec fn find_spec(table: Seq<Entry>, tex: Handle<Texture>, live: Set<u64>) -> Option<int> {
    first_from(table, holds(tex, live), 0)
}

/// The position of the first dead entry, if there is one.
pub open spec fn first_dead(table: Seq<Entry>, live: Set<u64>) -> Option<int> {
    first_from(table, dead(live), 0)
}

/// What a table must satisfy at all times: it has room for at least one
/// unit and holds no more entries than units, its unit indices are those
/// below its length, and no unit index occurs twice.
pub open spec fn table_wf(table: Seq<Entry>, capacity: int) -> bool {
    &&& 1 <= capacity <= u32::MAX
    &&& table.len() <= capacity
    &&& forall|i: int| 0 <= i < table.len() ==> (#[trigger] table[i]).0 < table.len()
    &&& forall|i: int, j: int|
        0 <= i < j < table.len() ==> (#[trigger] table[i]).0 != (#[trigger] table[j]).0
}

/// The entry that a full table gives up: the first dead one, or the head
/// where every entry is alive.
pub open spec fn victim(table: Seq<Entry>, live: Set<u64>) -> int {
    match first_dead(table, live) {
        Some(pos) => pos,
        None => 0,
    }
}

/// The unit that a texture not yet in the table is bound to: the next
/// unused index while the table has room, the victim's unit once it is full.
pub open spec fn free_unit(table: Seq<Entry>, capacity: int, live: Set<u64>) -> u32 {
    if table.len() < capacity {
        table.len() as u32
    } else {
        table[victim(table, live)].0
    }
}

/// The table once the unit for a new texture has been taken out of it.
pub open spec fn without_victim(table: Seq<Entry>, capacity: int, live: Set<u64>) -> Seq<Entry> {
    if table.len() < capacity {
        table
    } else {
        table.remove(victim(table, live))
    }
}

/// What holds between taking a unit out of the table and putting it back:
/// the table has room for one more entry, none of its entries has `unit`,
/// and `unit` together with its unit indices are pairwise distinct and at
/// most its length.
pub open spec fn reserved(table: Seq<Entry>, capacity: int, unit: u32) -> bool {
    &&& table.len() < capacity <= u32::MAX
    &&& unit <= table.len()
    &&& forall|i: int|
        0 <= i < table.len() ==> (#[trigger] table[i]).0 <= table.len() && table[i].0 != unit
    &&& forall|i: int, j: int|
        0 <= i < j < table.len() ==> (#[trigger] table[i]).0 != (#[trigger] table[j]).0
}

/// The table after a request for the texture at `pos`: its entry moves to
/// the tail and nothing else changes.
pub open spec fn after_hit(table: Seq<Entry>, pos: int) -> Seq<Entry> {
    table.remove(pos).push(table[pos])
}

/// A reserved table once the bind at `unit` has been tried: on success the
/// texture stands at the tail, on failure the unit stands at the head with a
/// reference that never resolves.
pub open spec fn settled(
    rest: Seq<Entry>,
    unit: u32,
    tex: Handle<Texture>,
    bound: bool,
) -> Seq<Entry> {
    if bound {
        rest.push((unit, tex.weak()))
    } else {
        seq![(unit, WeakHandle::<Texture>::empty())] + rest
    }
}

/// The table after a request for a texture that it does not hold.
pub open spec fn after_miss(
    table: Seq<Entry>,
    capacity: int,
    tex: Handle<Texture>,
    live: Set<u64>,
    bound: bool,
) -> Seq<Entry> {
    settled(
        without_victim(table, capacity, live),
        free_unit(table, capacity, live),
        tex,
        bound,
    )
}

/// The table after a request for `tex`.
pub open spec fn table_after(
    table: Seq<Entry>,
    capacity: int,
    tex: Handle<Texture>,
    live: Set<u64>,
    bound: bool,
) -> Seq<Entry> {
    match find_spec(table, tex, live) {
        Some(pos) => after_hit(table, pos),
        None => after_miss(table, capacity, tex, live, bound),
    }
}

/// The unit that a request for `tex` names: the one that holds the texture,
/// or else the one that it is about to be bound to.
pub open spec fn unit_for(
    table: Seq<Entry>,
    capacity: int,
    tex: Handle<Texture>,
    live: Set<u64>,
) -> u32 {
    match find_spec(table, tex, live) {
        Some(pos) => table[pos].0,
        None => free_unit(table, capacity, live),
    }
}

/// The table after a run of requests, starting from an empty one.
pub open spec fn table_after_all(capacity: int, requests: Seq<Request>) -> Seq<Entry>
    decreases requests.len(),
{
    if requests.len() == 0 {
        Seq::empty()
    } else {
        let last = requests.last();
        table_after(
            table_after_all(capacity, requests.drop_last()),
            capacity,
            last.0,
            last.1,
            last.2,
        )
    }
}

/// `first_from` finds an element that satisfies the predicate and has none
/// before it, and finds nothing only where there is nothing to find.
pub proof fn lemma_first_from<A>(s: Seq<A>, pred: spec_fn(A) -> bool, from: int)
    requires
        0 <= from <= s.len(),
    ensures
        match first_from(s, pred, from) {
            Some(pos) => {
                &&& from <= pos < s.len()
                &&& pred(s[pos])
                &&& forall|j: int| from <= j < pos ==> !pred(#[trigger] s[j])
            },
            None => forall|j: int| from <= j < s.len() ==> !pred(#[trigger] s[j]),
        },
    decreases s.len() - from,
{
    if from < s.len() && !pred(s[from]) {
        lemma_first_from(s, pred, from + 1);
    }
}

/// The position that `find_spec` gives is the first entry that resolves to
/// the texture; it gives none only where no entry does.
pub proof fn lemma_find_is_first(table: Seq<Entry>, tex: Handle<Texture>, live: Set<u64>)
    ensures
        match find_spec(table, tex, live) {
            Some(pos) => {
                &&& 0 <= pos < table.len()
                &&& table[pos].1.points_to(tex, live)
                &&& forall|j: int| 0 <= j < pos ==> !(#[trigger] table[j]).1.points_to(tex, live)
            },
            None => forall|j: int|
                0 <= j < table.len() ==> !(#[trigger] table[j]).1.points_to(tex, live),
        },
{
    lemma_first_from(table, holds(tex, live), 0);
}

/// The position that `first_dead` gives is the first entry whose reference
/// does not resolve; it gives none only where every entry is alive.
pub proof fn lemma_first_dead_is_first(table: Seq<Entry>, live: Set<u64>)
    ensures
        match first_dead(table, live) {
            Some(pos) => {
                &&& 0 <= pos < table.len()
                &&& !table[pos].1.resolves(live)
                &&& forall|j: int| 0 <= j < pos ==> (#[trigger] table[j]).1.resolves(live)
            },
            None => forall|j: int| 0 <= j < table.len() ==> (#[trigger] table[j]).1.resolves(live),
        },
{
    lemma_first_from(table, dead(live), 0);
}

/// Taking the unit for a new texture out of a well-formed table leaves a
/// reserved one.
pub proof fn lemma_reserve(table: Seq<Entry>, capacity: int, live: Set<u64>)
    requires
        table_wf(table, capacity),
    ensures
        reserved(
            without_victim(table, capacity, live),
            capacity,
            free_unit(table, capacity, live),
        ),
        table.len() == capacity ==> 0 <= victim(table, live) < table.len(),
{
    if table.len() == capacity {
        lemma_first_dead_is_first(table, live);
        let v = victim(table, live);
        let rest = table.remove(v);
        table.remove_ensures(v);
        assert forall|i: int| 0 <= i < rest.len() implies (#[trigger] rest[i]).0 <= rest.len()
            && rest[i].0 != table[v].0 by {
            if i < v {
                assert(rest[i] == table[i]);
            } else {
                assert(rest[i] == table[i + 1]);
            }
        }
        assert forall|i: int, j: int| 0 <= i < j < rest.len() implies (#[trigger] rest[i]).0 != (
        #[trigger] rest[j]).0 by {
            let si = if i < v { i } else { i + 1 };
            let sj = if j < v { j } else { j + 1 };
            assert(rest[i] == table[si]);
            assert(rest[j] == table[sj]);
        }
    }
}

/// Putting the unit back into a reserved table, at either end and with
/// whatever reference, gives a well-formed one.
pub proof fn lemma_settle(
    rest: Seq<Entry>,
    capacity: int,
    unit: u32,
    tex: Handle<Texture>,
    bound: bool,
)
    requires
        reserved(rest, capacity, unit),
    ensures
        table_wf(settled(rest, unit, tex, bound), capacity),
{
    let table = settled(rest, unit, tex, bound);
    if bound {
        assert forall|i: int, j: int| 0 <= i < j < table.len() implies (#[trigger] table[i]).0 != (
        #[trigger] table[j]).0 by {
            assert(table[i] == rest[i]);
            if j < rest.len() {
                assert(table[j] == rest[j]);
            }
        }
        assert forall|i: int| 0 <= i < table.len() implies (#[trigger] table[i]).0
            < table.len() by {
            if i < rest.len() {
                assert(table[i] == rest[i]);
            }
        }
    } else {
        assert forall|i: int, j: int| 0 <= i < j < table.len() implies (#[trigger] table[i]).0 != (
        #[trigger] table[j]).0 by {
            assert(table[j] == rest[j - 1]);
            if 0 < i {
                assert(table[i] == rest[i - 1]);
            }
        }
        assert forall|i: int| 0 <= i < table.len() implies (#[trigger] table[i]).0
            < table.len() by {
            if 0 < i {
                assert(table[i] == rest[i - 1]);
            }
        }
    }
}

/// Moving an entry of a well-formed table to the tail keeps it well-formed.
pub proof fn lemma_hit(table: Seq<Entry>, capacity: int, pos: int)
    requires
        table_wf(table, capacity),
        0 <= pos < table.len(),
    ensures
        table_wf(after_hit(table, pos), capacity),
{
    let rest = table.remove(pos);
    let moved = after_hit(table, pos);
    table.remove_ensures(pos);
    assert forall|i: int| 0 <= i < moved.len() implies (#[trigger] moved[i]).0 < moved.len() by {
        if i < pos {
            assert(moved[i] == table[i]);
        } else if i < rest.len() {
            assert(moved[i] == table[i + 1]);
        } else {
            assert(moved[i] == table[pos]);
        }
    }
    assert forall|i: int, j: int| 0 <= i < j < moved.len() implies (#[trigger] moved[i]).0 != (
    #[trigger] moved[j]).0 by {
        let si = if i < pos { i } else { i + 1 };
        assert(moved[i] == table[si]);
        if j < rest.len() {
            let sj = if j < pos { j } else { j + 1 };
            assert(moved[j] == table[sj]);
        } else {
            assert(moved[j] == table[pos]);
        }
    }
}

/// Whatever is requested and however the bind ends, a well-formed table
/// stays well-formed.
pub proof fn lemma_table_after_wf(
    table: Seq<Entry>,
    capacity: int,
    tex: Handle<Texture>,
    live: Set<u64>,
    bound: bool,
)
    requires
        table_wf(table, capacity),
    ensures
        table_wf(table_after(table, capacity, tex, live, bound), capacity),
{
    lemma_find_is_first(table, tex, live);
    match find_spec(table, tex, live) {
        Some(pos) => {
            lemma_hit(table, capacity, pos);
        },
        None => {
            lemma_reserve(table, capacity, live);
            lemma_settle(
                without_victim(table, capacity, live),
                capacity,
                free_unit(table, capacity, live),
                tex,
                bound,
            );
        },
    }
}

/// Texture unit uniqueness. Whatever textures are requested, whichever of
/// them are alive at each request and however each bind ends, the table
/// never holds a unit index twice and never more entries than there are
/// units.
pub proof fn lemma_units_stay_unique(capacity: int, requests: Seq<Request>)
    requires
        1 <= capacity <= u32::MAX,
    ensures
        table_wf(table_after_all(capacity, requests), capacity),
        table_after_all(capacity, requests).len() <= capacity,
        forall|i: int, j: int|
            0 <= i < j < table_after_all(capacity, requests).len() ==> (
            #[trigger] table_after_all(capacity, requests)[i]).0 != (#[trigger] table_after_all(
                capacity,
                requests,
            )[j]).0,
    decreases requests.len(),
{
    if requests.len() > 0 {
        let last = requests.last();
        lemma_units_stay_unique(capacity, requests.drop_last());
        lemma_table_after_wf(
            table_after_all(capacity, requests.drop_last()),
            capacity,
            last.0,
            last.1,
            last.2,
        );
    }
}

/// Reuse before eviction. When every unit is taken and a texture that the
/// table does not hold is requested, the unit it gets is that of an entry
/// whose texture is gone, the first such, wherever there is one; all other
/// entries stay, in their order. Only where every entry is alive does the
/// head, the least recently used, give up its unit.
pub proof fn lemma_dead_unit_is_reused_first(
    table: Seq<Entry>,
    capacity: int,
    tex: Handle<Texture>,
    live: Set<u64>,
    bound: bool,
)
    requires
        table_wf(table, capacity),
        table.len() == capacity,
        find_spec(table, tex, live) is None,
    ensures
        ({
            let pos = victim(table, live);
            let after = table_after(table, capacity, tex, live, bound);
            &&& 0 <= pos < table.len()
            &&& unit_for(table, capacity, tex, live) == table[pos].0
            &&& after == settled(table.remove(pos), table[pos].0, tex, bound)
            &&& (exists|i: int| 0 <= i < table.len() && !(#[trigger] table[i]).1.resolves(live))
                ==> {
                &&& !table[pos].1.resolves(live)
                &&& forall|i: int| 0 <= i < pos ==> (#[trigger] table[i]).1.resolves(live)
            }
            &&& (forall|i: int| 0 <= i < table.len() ==> (#[trigger] table[i]).1.resolves(live))
                ==> pos == 0
        }),
{
    lemma_first_dead_is_first(table, live);
}

/// LRU ordering. A request for a texture that a unit holds moves that
/// entry to the tail, the most recently used place, and names the unit it
/// had; the other entries keep their order and no entry is added or lost.
pub proof fn lemma_hit_moves_to_tail(
    table: Seq<Entry>,
    capacity: int,
    tex: Handle<Texture>,
    live: Set<u64>,
    bound: bool,
)
    requires
        table_wf(table, capacity),
        find_spec(table, tex, live) is Some,
    ensures
        ({
            let pos = find_spec(table, tex, live)->0;
            let after = table_after(table, capacity, tex, live, bound);
            &&& 0 <= pos < table.len()
            &&& unit_for(table, capacity, tex, live) == table[pos].0
            &&& after.len() == table.len()
            &&& after.last() == table[pos]
            &&& after.last() == (table[pos].0, tex.weak())
            &&& forall|i: int| 0 <= i < pos ==> #[trigger] after[i] == table[i]
            &&& forall|i: int| pos <= i < table.len() - 1 ==> #[trigger] after[i] == table[i + 1]
        }),
{
    lemma_find_is_first(table, tex, live);
    table.remove_ensures(find_spec(table, tex, live)->0);
}

/// Failure keeps the unit. After a bind that failed, the unit that was
/// chosen stands at the head of the table with a reference that resolves
/// under no circumstances. If the table is full by then, the next texture
/// that it does not hold gets this very unit, and the table gives up
/// nothing but that entry.
pub proof fn lemma_failed_unit_is_reusable(
    table: Seq<Entry>,
    capacity: int,
    tex: Handle<Texture>,
    live: Set<u64>,
    live_next: Set<u64>,
)
    requires
        table_wf(table, capacity),
        find_spec(table, tex, live) is None,
    ensures
        ({
            let unit = free_unit(table, capacity, live);
            let rest = without_victim(table, capacity, live);
            let after = table_after(table, capacity, tex, live, false);
            &&& after == seq![(unit, WeakHandle::<Texture>::empty())] + rest
            &&& after[0].0 == unit
            &&& !after[0].1.resolves(live_next)
            &&& after.len() == capacity ==> {
                &&& free_unit(after, capacity, live_next) == unit
                &&& without_victim(after, capacity, live_next) == rest
            }
        }),
{
    let unit = free_unit(table, capacity, live);
    let rest = without_victim(table, capacity, live);
    let after = table_after(table, capacity, tex, live, false);
    lemma_reserve(table, capacity, live);
    if after.len() == capacity {
        assert(after.remove(0) =~= rest);
    }
}

} // verus!
