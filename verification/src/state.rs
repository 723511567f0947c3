//! The current state of a log: the entities that are still in effect.

use vstd::prelude::*;

use crate::id::Id;
use crate::stream::{Entity, EntityView, Event, EventView, Stream};

verus! {

/// The entities of `s` whose identity is not `id`, in their order.
pub open spec fn without(s: Seq<EntityView>, id: Id) -> Seq<EntityView>
    decreases s.len(),
{
    if s.len() == 0 {
        s
    } else if s.last().id() == id {
        without(s.drop_last(), id)
    } else {
        without(s.drop_last(), id).push(s.last())
    }
}

/// The entities that are in effect after the events of `log`, each with the
/// value that was written last, in the order of those last writes.
///
/// A creation or an edit replaces whatever its entity was before; a deletion
/// removes the entity, and does nothing where there is none.
pub open spec fn live(log: Seq<EventView>) -> Seq<EntityView>
    decreases log.len(),
{
    if log.len() == 0 {
        Seq::empty()
    } else {
        let kept = without(live(log.drop_last()), log.last().entity_id());
        match log.last() {
            EventView::Create { entity, .. } => kept.push(entity),
            EventView::Edit { entity, .. } => kept.push(entity),
            EventView::Delete { .. } => kept,
        }
    }
}

/// `s` with `e` put behind the last entity that is not later than `e`.
pub open spec fn insert_by_time(s: Seq<EntityView>, e: EntityView) -> Seq<EntityView>
    decreases s.len(),
{
    if s.len() == 0 {
        seq![e]
    } else if s.last().timestamp().le(e.timestamp()) {
        s.push(e)
    } else {
        insert_by_time(s.drop_last(), e).push(s.last())
    }
}

/// The entities of `s` in ascending order of time; entities of equal time
/// keep the order they have in `s`.
pub open spec fn sorted_by_time(s: Seq<EntityView>) -> Seq<EntityView>
    decreases s.len(),
{
    if s.len() == 0 {
        s
    } else {
        insert_by_time(sorted_by_time(s.drop_last()), s.last())
    }
}

/// The state that a log stands for: its live entities in order of time.
pub open spec fn projection(log: Seq<EventView>) -> Seq<EntityView> {
    sorted_by_time(live(log))
}

/// No entity of `s` is later than one that follows it.
pub open spec fn ascending(s: Seq<EntityView>) -> bool {
    forall|i: int, j: int|
        0 <= i < j < s.len() ==> (#[trigger] s[i]).timestamp().le((#[trigger] s[j]).timestamp())
}

/// No two entities of `s` share an identity.
pub open spec fn distinct_ids(s: Seq<EntityView>) -> bool {
    forall|i: int, j: int| 0 <= i < j < s.len() ==> (#[trigger] s[i]).id() != (#[trigger] s[j]).id()
}

/// The entities of `s` that occurred at `t`, in their order.
pub open spec fn at_time(s: Seq<EntityView>, t: crate::time::Timestamp) -> Seq<EntityView>
    decreases s.len(),
{
    if s.len() == 0 {
        s
    } else if s.last().timestamp() == t {
        at_time(s.drop_last(), t).push(s.last())
    } else {
        at_time(s.drop_last(), t)
    }
}

/// Event `i` of `log` writes the entity `e`.
pub open spec fn writes(log: Seq<EventView>, i: int, e: EntityView) -> bool {
    &&& 0 <= i < log.len()
    &&& match log[i] {
        EventView::Create { entity, .. } => entity == e,
        EventView::Edit { entity, .. } => entity == e,
        EventView::Delete { .. } => false,
    }
}

/// No event of `log` behind event `i` acts on the entity that event `i` acts on.
pub open spec fn unchallenged(log: Seq<EventView>, i: int) -> bool {
    forall|j: int| i < j < log.len() ==> (#[trigger] log[j]).entity_id() != log[i].entity_id()
}

/// The values of a sequence of entities.
pub open spec fn views(entities: Seq<Entity>) -> Seq<EntityView> {
    entities.map_values(|entity: Entity| entity@)
}

/// What is left after taking an identity out: the other entities, in
/// their order, still with distinct identities if they had them.
proof fn lemma_without(s: Seq<EntityView>, id: Id)
    ensures
        without(s, id).len() <= s.len(),
        forall|e: EntityView| #[trigger] without(s, id).contains(e) <==> s.contains(e) && e.id() != id,
        distinct_ids(s) ==> distinct_ids(without(s, id)),
    decreases s.len(),
{
    if s.len() > 0 {
        let front = s.drop_last();
        let rest = without(front, id);
        lemma_without(front, id);
        assert forall|e: EntityView| #[trigger] without(s, id).contains(e) <==> s.contains(e) && e.id() != id by {
            if without(s, id).contains(e) {
                let k = choose|k: int| 0 <= k < without(s, id).len() && without(s, id)[k] == e;
                if k < rest.len() {
                    assert(rest.contains(e));
                    let m = choose|m: int| 0 <= m < front.len() && front[m] == e;
                    assert(s[m] == e);
                } else {
                    assert(s[s.len() - 1] == e);
                }
            }
            if s.contains(e) && e.id() != id {
                let m = choose|m: int| 0 <= m < s.len() && s[m] == e;
                if m < front.len() {
                    assert(front[m] == e);
                    assert(front.contains(e));
                    assert(rest.contains(e));
                    let k = choose|k: int| 0 <= k < rest.len() && rest[k] == e;
                    assert(without(s, id)[k] == e);
                } else {
                    assert(without(s, id)[rest.len() as int] == e);
                }
            }
        }
        if distinct_ids(s) {
            assert(distinct_ids(front)) by {
                assert forall|i: int, j: int| 0 <= i < j < front.len() implies (#[trigger] front[i]).id() != (#[trigger] front[j]).id() by {
                    assert(s[i].id() != s[j].id());
                }
            }
            if s.last().id() != id {
                let out = without(s, id);
                assert forall|i: int, j: int| 0 <= i < j < out.len() implies (#[trigger] out[i]).id() != (#[trigger] out[j]).id() by {
                    if j < rest.len() {
                        assert(rest[i].id() != rest[j].id());
                    } else {
                        assert(rest.contains(out[i]));
                        let m = choose|m: int| 0 <= m < front.len() && front[m] == out[i];
                        assert(s[m].id() != s[s.len() - 1].id());
                    }
                }
            }
        }
    }
}

/// Taking an identity out gives the same whether or not one entity of
/// that identity was removed before.
proof fn lemma_without_remove(s: Seq<EntityView>, i: int, id: Id)
    requires
        0 <= i < s.len(),
        s[i].id() == id,
    ensures
        without(s.remove(i), id) == without(s, id),
    decreases s.len(),
{
    if i == s.len() - 1 {
        assert(s.remove(i) =~= s.drop_last());
    } else {
        lemma_without_remove(s.drop_last(), i, id);
        assert(s.remove(i).drop_last() =~= s.drop_last().remove(i));
        assert(s.remove(i).last() == s.last());
    }
}

/// Taking out an identity that no entity has changes nothing.
proof fn lemma_without_absent(s: Seq<EntityView>, id: Id)
    requires
        forall|j: int| 0 <= j < s.len() ==> (#[trigger] s[j]).id() != id,
    ensures
        without(s, id) == s,
    decreases s.len(),
{
    if s.len() > 0 {
        lemma_without_absent(s.drop_last(), id);
        assert(s.drop_last().push(s.last()) =~= s);
    }
}

/// Where `insert_by_time` puts `e`: behind every entity that is not later,
/// before every entity that is.
proof fn lemma_insert_position(s: Seq<EntityView>, e: EntityView) -> (p: int)
    ensures
        0 <= p <= s.len(),
        insert_by_time(s, e) == s.insert(p, e),
        forall|j: int| p <= j < s.len() ==> e.timestamp().lt((#[trigger] s[j]).timestamp()),
        p > 0 ==> s[p - 1].timestamp().le(e.timestamp()),
    decreases s.len(),
{
    if s.len() == 0 {
        assert(seq![e] =~= s.insert(0, e));
        0
    } else if s.last().timestamp().le(e.timestamp()) {
        assert(s.push(e) =~= s.insert(s.len() as int, e));
        s.len() as int
    } else {
        let front = s.drop_last();
        let p = lemma_insert_position(front, e);
        assert(front.insert(p, e).push(s.last()) =~= s.insert(p, e));
        assert forall|j: int| p <= j < s.len() implies e.timestamp().lt((#[trigger] s[j]).timestamp()) by {
            if j < front.len() {
                assert(e.timestamp().lt(front[j].timestamp()));
            }
        }
        p
    }
}

/// The position at which an entity lands is the one that the search from
/// the back finds.
proof fn lemma_insert_at(s: Seq<EntityView>, e: EntityView, p: int)
    requires
        0 <= p <= s.len(),
        forall|j: int| p <= j < s.len() ==> e.timestamp().lt((#[trigger] s[j]).timestamp()),
        p > 0 ==> s[p - 1].timestamp().le(e.timestamp()),
    ensures
        insert_by_time(s, e) == s.insert(p, e),
    decreases s.len(),
{
    if s.len() == 0 {
        assert(seq![e] =~= s.insert(0, e));
    } else if p == s.len() {
        assert(s.push(e) =~= s.insert(p, e));
    } else {
        assert(e.timestamp().lt(s[s.len() - 1].timestamp()));
        lemma_insert_at(s.drop_last(), e, p);
        assert(s.drop_last().insert(p, e).push(s.last()) =~= s.insert(p, e));
    }
}

/// Sorting by time gives an ascending sequence with the same entities,
/// and keeps identities distinct.
proof fn lemma_sorted(s: Seq<EntityView>)
    ensures
        ascending(sorted_by_time(s)),
        sorted_by_time(s).to_multiset() == s.to_multiset(),
        sorted_by_time(s).len() == s.len(),
        forall|e: EntityView| #[trigger] sorted_by_time(s).contains(e) <==> s.contains(e),
        distinct_ids(s) ==> distinct_ids(sorted_by_time(s)),
    decreases s.len(),
{
    broadcast use vstd::seq_lib::to_multiset_build, vstd::seq_lib::to_multiset_insert;

    let out = sorted_by_time(s);
    if s.len() > 0 {
        let front = s.drop_last();
        let e = s.last();
        let base = sorted_by_time(front);
        lemma_sorted(front);
        let p = lemma_insert_position(base, e);
        assert(out == base.insert(p, e));
        assert(front.push(e) =~= s);
        assert(ascending(out)) by {
            assert forall|i: int, j: int| 0 <= i < j < out.len() implies (#[trigger] out[i]).timestamp().le((#[trigger] out[j]).timestamp()) by {
                if j < p {
                    assert(base[i].timestamp().le(base[j].timestamp()));
                } else if j == p {
                    if i < p - 1 {
                        assert(base[i].timestamp().le(base[p - 1].timestamp()));
                    }
                } else if i == p {
                    assert(e.timestamp().lt(base[j - 1].timestamp()));
                } else if i < p {
                    assert(base[i].timestamp().le(base[j - 1].timestamp()));
                } else {
                    assert(base[i - 1].timestamp().le(base[j - 1].timestamp()));
                }
            }
        }
        assert forall|x: EntityView| #[trigger] out.contains(x) <==> s.contains(x) by {
            if out.contains(x) {
                let k = choose|k: int| 0 <= k < out.len() && out[k] == x;
                if k == p {
                    assert(s[s.len() - 1] == x);
                } else {
                    let b = if k < p { k } else { k - 1 };
                    assert(base[b] == x);
                    assert(base.contains(x));
                    let m = choose|m: int| 0 <= m < front.len() && front[m] == x;
                    assert(s[m] == x);
                }
            }
            if s.contains(x) {
                let m = choose|m: int| 0 <= m < s.len() && s[m] == x;
                if m == s.len() - 1 {
                    assert(out[p] == x);
                } else {
                    assert(front[m] == x);
                    assert(front.contains(x));
                    assert(base.contains(x));
                    let b = choose|b: int| 0 <= b < base.len() && base[b] == x;
                    let k = if b < p { b } else { b + 1 };
                    assert(out[k] == x);
                }
            }
        }
        if distinct_ids(s) {
            assert(distinct_ids(front)) by {
                assert forall|i: int, j: int| 0 <= i < j < front.len() implies (#[trigger] front[i]).id() != (#[trigger] front[j]).id() by {
                    assert(s[i].id() != s[j].id());
                }
            }
            assert forall|i: int, j: int| 0 <= i < j < out.len() implies (#[trigger] out[i]).id() != (#[trigger] out[j]).id() by {
                if i == p || j == p {
                    let other = if i == p { out[j] } else { out[i] };
                    let b = if i == p { j - 1 } else { i };
                    assert(base[b] == other);
                    assert(base.contains(other));
                    let m = choose|m: int| 0 <= m < front.len() && front[m] == other;
                    assert(s[m].id() != s[s.len() - 1].id());
                } else {
                    let a = if i < p { i } else { i - 1 };
                    let b = if j < p { j } else { j - 1 };
                    assert(base[a].id() != base[b].id());
                }
            }
        }
    }
}

/// The live entities have distinct identities, and are the values that
/// were written last under them and not deleted since.
proof fn lemma_live(log: Seq<EventView>)
    ensures
        distinct_ids(live(log)),
        forall|e: EntityView| #[trigger]
            live(log).contains(e) <==> exists|i: int| #[trigger] writes(log, i, e) && unchallenged(log, i),
    decreases log.len(),
{
    if log.len() == 0 {
        assert forall|e: EntityView| #[trigger] live(log).contains(e) <==> exists|i: int| #[trigger] writes(log, i, e) && unchallenged(log, i) by {}
    } else {
        let front = log.drop_last();
        let last = log.last();
        let id = last.entity_id();
        let prev = live(front);
        let kept = without(prev, id);
        let n = log.len() - 1;
        lemma_live(front);
        lemma_without(prev, id);
        assert(distinct_ids(live(log))) by {
            if !(last is Delete) {
                let out = live(log);
                assert forall|i: int, j: int| 0 <= i < j < out.len() implies (#[trigger] out[i]).id() != (#[trigger] out[j]).id() by {
                    if j < kept.len() {
                        assert(kept[i].id() != kept[j].id());
                    } else {
                        assert(kept.contains(out[i]));
                    }
                }
            }
        }
        assert forall|e: EntityView| #[trigger] live(log).contains(e) <==> exists|i: int| #[trigger] writes(log, i, e) && unchallenged(log, i) by {
            if live(log).contains(e) {
                let k = choose|k: int| 0 <= k < live(log).len() && live(log)[k] == e;
                if k < kept.len() {
                    assert(kept.contains(e));
                    assert(prev.contains(e));
                    let i = choose|i: int| #[trigger] writes(front, i, e) && unchallenged(front, i);
                    assert(log[i] == front[i]);
                    assert(unchallenged(log, i)) by {
                        assert forall|j: int| i < j < log.len() implies (#[trigger] log[j]).entity_id() != log[i].entity_id() by {
                            if j < n {
                                assert(front[j].entity_id() != front[i].entity_id());
                            }
                        }
                    }
                    assert(writes(log, i, e));
                } else {
                    assert(writes(log, n, e));
                    assert(unchallenged(log, n));
                }
            }
            if exists|i: int| #[trigger] writes(log, i, e) && unchallenged(log, i) {
                let i = choose|i: int| #[trigger] writes(log, i, e) && unchallenged(log, i);
                if i == n {
                    assert(live(log)[kept.len() as int] == e);
                } else {
                    assert(front[i] == log[i]);
                    assert(log[n].entity_id() != log[i].entity_id());
                    assert(unchallenged(front, i)) by {
                        assert forall|j: int| i < j < front.len() implies (#[trigger] front[j]).entity_id() != front[i].entity_id() by {
                            assert(log[j].entity_id() != log[i].entity_id());
                        }
                    }
                    assert(writes(front, i, e));
                    assert(prev.contains(e));
                    assert(kept.contains(e));
                    let k = choose|k: int| 0 <= k < kept.len() && kept[k] == e;
                    assert(live(log)[k] == e);
                }
            }
        }
    }
}

/// The state depends on the sequence of events alone: logs with the same
/// events have the same state, however often it is asked for.
pub proof fn projection_is_determined(first: Seq<EventView>, second: Seq<EventView>)
    requires
        first.len() == second.len(),
        forall|i: int| 0 <= i < first.len() ==> first[i] == second[i],
    ensures
        projection(first) == projection(second),
{
    assert(first =~= second);
}

/// The state is in ascending order of time.
pub proof fn projection_is_ascending(log: Seq<EventView>)
    ensures
        ascending(projection(log)),
{
    lemma_sorted(live(log));
}

/// No two entities of the state share an identity.
pub proof fn projection_has_distinct_ids(log: Seq<EventView>)
    ensures
        distinct_ids(projection(log)),
{
    lemma_live(log);
    lemma_sorted(live(log));
}

/// An entity value is in the state exactly when some creation or edit wrote
/// it and no later event acts on the same entity.
pub proof fn projection_holds_last_writes(log: Seq<EventView>, e: EntityView)
    ensures
        projection(log).contains(e) <==> exists|i: int| #[trigger] writes(log, i, e) && unchallenged(log, i),
{
    lemma_live(log);
    lemma_sorted(live(log));
}

/// Putting an entity in before entities of other times only adds it to
/// the entities of its own time, at their end.
proof fn lemma_at_time_insert(s: Seq<EntityView>, p: int, e: EntityView, t: crate::time::Timestamp)
    requires
        0 <= p <= s.len(),
        forall|j: int| p <= j < s.len() ==> (#[trigger] s[j]).timestamp() != e.timestamp(),
    ensures
        at_time(s.insert(p, e), t) == if e.timestamp() == t {
            at_time(s, t).push(e)
        } else {
            at_time(s, t)
        },
    decreases s.len() - p,
{
    let out = s.insert(p, e);
    if p == s.len() {
        assert(out.drop_last() =~= s);
    } else {
        let front = s.drop_last();
        assert forall|j: int| p <= j < front.len() implies (#[trigger] front[j]).timestamp() != e.timestamp() by {
            assert(s[j].timestamp() != e.timestamp());
        }
        lemma_at_time_insert(front, p, e, t);
        assert(out.drop_last() =~= front.insert(p, e));
        assert(out.last() == s.last());
        assert(s[s.len() - 1].timestamp() != e.timestamp());
    }
}

/// Sorting by time keeps entities of equal time in their order.
pub proof fn sorting_is_stable(s: Seq<EntityView>, t: crate::time::Timestamp)
    ensures
        at_time(sorted_by_time(s), t) == at_time(s, t),
    decreases s.len(),
{
    if s.len() > 0 {
        let base = sorted_by_time(s.drop_last());
        sorting_is_stable(s.drop_last(), t);
        let p = lemma_insert_position(base, s.last());
        lemma_at_time_insert(base, p, s.last(), t);
    }
}

/// Sorting by time gives an ascending sequence with the same entities, each
/// as often as before.
pub proof fn sorting_is_ascending_permutation(s: Seq<EntityView>)
    ensures
        ascending(sorted_by_time(s)),
        sorted_by_time(s).to_multiset() == s.to_multiset(),
{
    lemma_sorted(s);
}

/// Entities of the state that occurred at the same time stand in the order
/// in which the log wrote their current values.
pub proof fn projection_keeps_write_order(log: Seq<EventView>, t: crate::time::Timestamp)
    ensures
        at_time(projection(log), t) == at_time(live(log), t),
{
    sorting_is_stable(live(log), t);
}

/// After a creation or an edit of `e` the state is the state before with
/// whatever stood under the identity of `e` taken out and `e` put in by
/// time: it holds `e`, and nothing else under that identity.
pub proof fn write_replaces(log: Seq<EventView>, event: EventView, e: EntityView)
    requires
        writes(log.push(event), log.len() as int, e),
    ensures
        projection(log.push(event)).contains(e),
        forall|x: EntityView| #[trigger]
            projection(log.push(event)).contains(x) && x.id() == e.id() ==> x == e,
        projection(log.push(event)) == insert_by_time(without(projection(log), e.id()), e),
{
    let next = log.push(event);
    let kept = without(live(log), e.id());
    assert(next.drop_last() =~= log);
    assert(live(next) == kept.push(e));
    assert(live(next)[kept.len() as int] == e);
    assert(live(next).drop_last() =~= kept);
    lemma_without(live(log), e.id());
    lemma_sorted(live(next));
    lemma_sorted(live(log));
    lemma_without_sorted(live(log), e.id());
    assert forall|x: EntityView| #[trigger]
        projection(next).contains(x) && x.id() == e.id() implies x == e by {
        assert(live(next).contains(x));
        let k = choose|k: int| 0 <= k < live(next).len() && live(next)[k] == x;
        if k < kept.len() {
            assert(kept.contains(x));
        }
    }
}

/// After a deletion the state holds nothing under the deleted identity, and
/// everything else that it held before.
pub proof fn delete_removes(log: Seq<EventView>, event: EventView)
    requires
        event is Delete,
    ensures
        projection(log.push(event)) == without(projection(log), event.entity_id()),
        forall|x: EntityView| #[trigger]
            projection(log.push(event)).contains(x) <==> projection(log).contains(x) && x.id()
                != event.entity_id(),
{
    let next = log.push(event);
    assert(next.drop_last() =~= log);
    lemma_without_sorted(live(log), event.entity_id());
    lemma_without(projection(log), event.entity_id());
}

/// Taking an identity out and sorting by time can be done in either order.
proof fn lemma_without_sorted(s: Seq<EntityView>, id: Id)
    ensures
        sorted_by_time(without(s, id)) == without(sorted_by_time(s), id),
    decreases s.len(),
{
    if s.len() > 0 {
        let front = s.drop_last();
        let e = s.last();
        let base = sorted_by_time(front);
        lemma_without_sorted(front, id);
        lemma_sorted(front);
        if e.id() == id {
            let p = lemma_insert_position(base, e);
            lemma_without_remove(base.insert(p, e), p, id);
            assert(base.insert(p, e).remove(p) =~= base);
        } else {
            assert(without(front, id).push(e).drop_last() =~= without(front, id));
            lemma_without_insert(base, e, id);
        }
    }
}

/// In an ascending sequence, taking an identity out commutes with putting
/// an entity of another identity in by time.
proof fn lemma_without_insert(s: Seq<EntityView>, e: EntityView, id: Id)
    requires
        e.id() != id,
        ascending(s),
    ensures
        without(insert_by_time(s, e), id) == insert_by_time(without(s, id), e),
    decreases s.len(),
{
    assert(without(Seq::<EntityView>::empty(), id) =~= Seq::<EntityView>::empty());
    if s.len() == 0 {
        assert(seq![e].drop_last() =~= Seq::<EntityView>::empty());
        assert(without(seq![e], id) =~= seq![e]);
    } else {
        let front = s.drop_last();
        let last = s.last();
        let kept = without(s, id);
        lemma_without(s, id);
        if last.timestamp().le(e.timestamp()) {
            assert(s.push(e).drop_last() =~= s);
            if kept.len() > 0 {
                assert(kept.contains(kept[kept.len() - 1]));
                let k = choose|k: int| 0 <= k < s.len() && s[k] == kept.last();
                if k < s.len() - 1 {
                    assert(s[k].timestamp().le(s[s.len() - 1].timestamp()));
                }
            } else {
                assert(seq![e] =~= kept.push(e));
            }
        } else {
            assert(ascending(front)) by {
                assert forall|i: int, j: int| 0 <= i < j < front.len() implies (#[trigger] front[i]).timestamp().le((#[trigger] front[j]).timestamp()) by {
                    assert(s[i].timestamp().le(s[j].timestamp()));
                }
            }
            lemma_without_insert(front, e, id);
            assert(insert_by_time(front, e).push(last).drop_last() =~= insert_by_time(front, e));
            if last.id() != id {
                assert(without(front, id).push(last).drop_last() =~= without(front, id));
            }
        }
    }
}

/// The current state of a log, in ascending order of time.
pub struct State {
    entities: Vec<Entity>,
}

impl View for State {
    type V = Seq<EntityView>;

    closed spec fn view(&self) -> Seq<EntityView> {
        views(self.entities@)
    }
}

impl State {
    /// The number of entities in the state.
    pub fn len(&self) -> (n: usize)
        ensures
            n == self@.len(),
    {
        self.entities.len()
    }

    /// The entities in order of time.
    pub fn iter(&self) -> (entities: std::slice::Iter<'_, Entity>)
        ensures
            views(vstd::std_specs::slice::into_iter_elts(entities)) == self@,
    {
        broadcast use vstd::std_specs::slice::axiom_spec_slice_iter;

        let entities = self.entities.as_slice().iter();
        assert(vstd::std_specs::slice::into_iter_elts(entities) =~= self.entities@);
        entities
    }

    /// The entity at position `index` in order of time, counted from zero.
    pub fn get(&self, index: usize) -> (entity: Option<&Entity>)
        ensures
            index < self@.len() ==> (entity matches Some(e) && e@ == self@[index as int]),
            index >= self@.len() ==> entity is None,
    {
        if index < self.entities.len() {
            Some(&self.entities[index])
        } else {
            None
        }
    }
}

/// Takes every entity with the identity `id` out of `entities`.
fn remove_entity(entities: &mut Vec<Entity>, id: Id)
    ensures
        views(final(entities)@) == without(views(old(entities)@), id),
{
    let mut i: usize = 0;
    while i < entities.len()
        invariant
            i <= entities.len(),
            without(views(entities@), id) == without(views(old(entities)@), id),
            forall|j: int| 0 <= j < i ==> (#[trigger] views(entities@)[j]).id() != id,
        decreases entities.len() - i,
    {
        if entities[i].id() == id {
            proof {
                lemma_without_remove(views(entities@), i as int, id);
                assert(views(entities@.remove(i as int)) =~= views(entities@).remove(i as int));
            }
            entities.remove(i);
        } else {
            i += 1;
        }
    }
    proof {
        lemma_without_absent(views(entities@), id);
    }
}

/// Puts `entity` into `sorted` behind the last entity that is not later.
fn insert_entity(sorted: &mut Vec<Entity>, entity: Entity)
    ensures
        views(final(sorted)@) == insert_by_time(views(old(sorted)@), entity@),
{
    let time = entity.timestamp();
    let mut p: usize = sorted.len();
    while p > 0 && !sorted[p - 1].timestamp().not_after(&time)
        invariant
            p <= sorted.len(),
            sorted@ == old(sorted)@,
            time == entity@.timestamp(),
            forall|j: int| p <= j < sorted.len() ==> time.lt((#[trigger] views(sorted@)[j]).timestamp()),
        decreases p,
    {
        p -= 1;
    }
    proof {
        lemma_insert_at(views(sorted@), entity@, p as int);
        assert(views(sorted@.insert(p as int, entity)) =~= views(sorted@).insert(p as int, entity@));
    }
    sorted.insert(p, entity);
}

/// Folds a log into its current state.
///
/// The result depends on the sequence of events alone, and every log has
/// one: an event that the append rules would have refused is replayed like
/// any other. The live entities are kept in a vector, in the order of
/// their last writes, and put in order of time one by one: a hash map would
/// hand them out in an order of its own, and entities of equal time would
/// come out differently from one run to the next.
pub fn replay(events: &Stream) -> (state: State)
    ensures
        state@ == projection(events@),
{
    let mut current: Vec<Entity> = Vec::new();
    let mut i: usize = 0;
    while i < events.len()
        invariant
            i <= events@.len(),
            views(current@) == live(events@.take(i as int)),
        decreases events@.len() - i,
    {
        let event = events.get(i).unwrap();
        remove_entity(&mut current, event.entity_id());
        match event {
            Event::Create { entity, .. } => {
                current.push(entity.clone());
            },
            Event::Edit { entity, .. } => {
                current.push(entity.clone());
            },
            Event::Delete { .. } => {},
        }
        proof {
            let next = events@.take(i + 1);
            assert(next.drop_last() =~= events@.take(i as int));
            assert(next.last() == events@[i as int]);
            assert(views(current@) =~= live(next));
        }
        i += 1;
    }
    assert(events@.take(i as int) =~= events@);
    let ghost unsorted = views(current@);
    let mut sorted: Vec<Entity> = Vec::new();
    while current.len() > 0
        invariant
            views(current@).len() <= unsorted.len(),
            views(sorted@) == sorted_by_time(unsorted.take(unsorted.len() - views(current@).len())),
            views(current@) == unsorted.skip(unsorted.len() - views(current@).len()),
        decreases current.len(),
    {
        let ghost done = unsorted.len() - views(current@).len();
        let ghost before = current@;
        let entity = current.remove(0);
        proof {
            assert(views(before)[0] == entity@);
            assert(unsorted.skip(done)[0] == unsorted[done]);
            assert(unsorted.take(done + 1).drop_last() =~= unsorted.take(done));
            assert(views(current@) =~= views(before).remove(0));
            assert(views(before).remove(0) =~= unsorted.skip(done + 1));
        }
        insert_entity(&mut sorted, entity);
    }
    assert(unsorted.take(unsorted.len() as int) =~= unsorted);
    State { entities: sorted }
}

} // verus!
