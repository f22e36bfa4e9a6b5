//! What holds of the walk over the members of a wire object, and of what is
//! made of the slots that it fills.

use vstd::prelude::*;
use crate::decode::{
    collect_spec, finish_spec, lemma_collect_error_stays, lemma_collect_push, record_spec, Resolved,
    SlotsView,
};
use crate::error::DecodeErrorView;
use crate::field::{Field, WireFieldView};
use crate::state::StateEventView;
use crate::timestamp::MAX_SAFE_UINT;

verus! {

/// Whether every required member but `field` has been seen.
pub open spec fn others_filled(slots: SlotsView, field: Field) -> bool {
    forall|other: Field| other.required() && other != field ==> #[trigger] slots.filled(other)
}

/// Whether the content type accepted every payload it was asked about.
pub open spec fn payloads_resolved<C>(content: Resolved<C>, prev: Option<Resolved<C>>) -> bool {
    content is Ok && !(prev is Some && prev->Some_0 is Err)
}

/// Missing members. Slots in which a required member is empty make no
/// event, whatever the content type answered. Where that member is the only
/// one missing and the payloads resolved, the error names it.
pub proof fn lemma_missing_refused<C>(
    slots: SlotsView,
    field: Field,
    content: Resolved<C>,
    prev: Option<Resolved<C>>,
)
    requires
        field.required(),
        !slots.filled(field),
    ensures
        finish_spec(slots, content, prev) is Err,
        others_filled(slots, field) && payloads_resolved(content, prev) ==> finish_spec(
            slots,
            content,
            prev,
        ) == Err::<StateEventView<C>, DecodeErrorView>(DecodeErrorView::MissingField(field)),
{
    if others_filled(slots, field) {
        assert(field != Field::Type ==> slots.filled(Field::Type));
        assert(field != Field::Content ==> slots.filled(Field::Content));
        assert(field != Field::EventId ==> slots.filled(Field::EventId));
        assert(field != Field::Sender ==> slots.filled(Field::Sender));
        assert(field != Field::OriginServerTs ==> slots.filled(Field::OriginServerTs));
        assert(field != Field::RoomId ==> slots.filled(Field::RoomId));
        assert(field != Field::StateKey ==> slots.filled(Field::StateKey));
    }
}

/// Timestamp bounds. Slots whose timestamp exceeds the largest wire integer
/// make no event. Where nothing else is wrong, the error is the overflow of
/// the timestamp.
pub proof fn lemma_timestamp_overflow<C>(
    slots: SlotsView,
    content: Resolved<C>,
    prev: Option<Resolved<C>>,
)
    requires
        slots.origin_server_ts is Some,
        slots.origin_server_ts->Some_0 > MAX_SAFE_UINT,
    ensures
        finish_spec(slots, content, prev) is Err,
        others_filled(slots, Field::OriginServerTs) && payloads_resolved(content, prev)
            ==> finish_spec(slots, content, prev) == Err::<StateEventView<C>, DecodeErrorView>(
            DecodeErrorView::TimestampOverflow,
        ),
{
    if others_filled(slots, Field::OriginServerTs) {
        assert(slots.filled(Field::Type));
        assert(slots.filled(Field::Content));
        assert(slots.filled(Field::EventId));
        assert(slots.filled(Field::Sender));
        assert(slots.filled(Field::RoomId));
        assert(slots.filled(Field::StateKey));
    }
}

/// Whether no member stands under the key of `field` among `members`.
pub open spec fn absent(members: Seq<WireFieldView>, field: Field) -> bool {
    forall|i: int| 0 <= i < members.len() ==> Field::of_key(#[trigger] members[i].key) != Some(field)
}

/// A walk fills no slot whose member it has not seen, and it leaves no slot
/// empty whose member it has seen.
pub proof fn lemma_filled_iff_seen(members: Seq<WireFieldView>, field: Field)
    requires
        collect_spec(members) is Ok,
    ensures
        collect_spec(members)->Ok_0.filled(field) <==> !absent(members, field),
    decreases members.len(),
{
    if members.len() == 0 {
    } else {
        let before = members.drop_last();
        lemma_filled_iff_seen(before, field);
        let slots = collect_spec(before)->Ok_0;
        let last = members.last();
        if absent(members, field) {
            assert forall|i: int| 0 <= i < before.len() implies Field::of_key(
                #[trigger] before[i].key,
            ) != Some(field) by {
                assert(before[i] == members[i]);
            }
            assert(Field::of_key(members[members.len() - 1].key) != Some(field));
        } else {
            let i = choose|i: int|
                0 <= i < members.len() && Field::of_key(#[trigger] members[i].key) == Some(
                    field,
                );
            if i < before.len() {
                assert(before[i] == members[i]);
                assert(!absent(before, field));
            }
        }
    }
}

/// Missing members. A wire object without a member under the key of `field`
/// makes no event where `field` is required, whatever the content type
/// answers. Where that member is the only one missing and the payloads
/// resolve, the error names it.
pub proof fn lemma_missing_member<C>(
    members: Seq<WireFieldView>,
    field: Field,
    content: Resolved<C>,
    prev: Option<Resolved<C>>,
)
    requires
        field.required(),
        absent(members, field),
        collect_spec(members) is Ok,
    ensures
        finish_spec(collect_spec(members)->Ok_0, content, prev) is Err,
        others_filled(collect_spec(members)->Ok_0, field) && payloads_resolved(content, prev)
            ==> finish_spec(collect_spec(members)->Ok_0, content, prev) == Err::<
            StateEventView<C>,
            DecodeErrorView,
        >(DecodeErrorView::MissingField(field)),
{
    lemma_filled_iff_seen(members, field);
    lemma_missing_refused(collect_spec(members)->Ok_0, field, content, prev);
}

/// Duplicates. A wire object in which two members stand under the key of
/// one recognised field is refused. Where the walk accepts every member
/// before the second of the two, the error is the duplicate, whatever the
/// two values are.
pub proof fn lemma_duplicate_refused(members: Seq<WireFieldView>, i: int, j: int, field: Field)
    requires
        0 <= i < j < members.len(),
        Field::of_key(members[i].key) == Some(field),
        Field::of_key(members[j].key) == Some(field),
    ensures
        collect_spec(members) is Err,
        collect_spec(members.take(j)) is Ok ==> collect_spec(members) == Err::<
            SlotsView,
            DecodeErrorView,
        >(DecodeErrorView::DuplicateField(field)),
{
    let before = members.take(j);
    let upto = members.take(j + 1);
    assert(upto.drop_last() =~= before);
    assert(upto.last() == members[j]);
    if collect_spec(before) is Ok {
        assert(before[i] == members[i]);
        assert(!absent(before, field));
        lemma_filled_iff_seen(before, field);
    }
    assert(collect_spec(upto) is Err);
    lemma_collect_error_stays(members, j + 1);
}

/// The walk after one more member, from an outcome so far.
pub open spec fn record_next(
    so_far: Result<SlotsView, DecodeErrorView>,
    member: WireFieldView,
) -> Result<SlotsView, DecodeErrorView> {
    match so_far {
        Ok(slots) => record_spec(slots, member),
        Err(e) => Err(e),
    }
}

/// Whether two members stand under the key of one recognised field.
pub open spec fn same_field(a: WireFieldView, b: WireFieldView) -> bool {
    Field::of_key(a.key) is Some && Field::of_key(a.key) == Field::of_key(b.key)
}

/// `members` with the members at `i` and `i + 1` in each other's place.
pub open spec fn swapped(members: Seq<WireFieldView>, i: int) -> Seq<WireFieldView> {
    members.update(i, members[i + 1]).update(i + 1, members[i])
}

/// Two members of different fields, of which the walk accepts at least one,
/// are recorded with the same outcome in either order.
pub proof fn lemma_record_commutes(slots: SlotsView, a: WireFieldView, b: WireFieldView)
    requires
        !same_field(a, b),
        record_spec(slots, a) is Ok || record_spec(slots, b) is Ok,
    ensures
        record_next(record_spec(slots, a), b) == record_next(record_spec(slots, b), a),
{
}

/// Two wire objects that agree from the member at `n` on, and whose walks
/// agree up to it, have walks that agree.
pub proof fn lemma_same_tail(p: Seq<WireFieldView>, q: Seq<WireFieldView>, n: int)
    requires
        p.len() == q.len(),
        0 <= n <= p.len(),
        collect_spec(p.take(n)) == collect_spec(q.take(n)),
        forall|k: int| n <= k < p.len() ==> p[k] == q[k],
    ensures
        collect_spec(p) == collect_spec(q),
    decreases p.len() - n,
{
    if n == p.len() {
        assert(p.take(n) =~= p);
        assert(q.take(n) =~= q);
    } else {
        assert(p.take(n + 1).drop_last() =~= p.take(n));
        assert(q.take(n + 1).drop_last() =~= q.take(n));
        assert(p.take(n + 1).last() == p[n]);
        assert(q.take(n + 1).last() == q[n]);
        lemma_same_tail(p, q, n + 1);
    }
}

/// Order independence. Two neighbours in a wire object may change places
/// without any change to the outcome of the walk, provided that they are
/// members of different fields and that the walk, having come as far as the
/// two, accepts at least one of them.
pub proof fn lemma_swap_adjacent(members: Seq<WireFieldView>, i: int)
    requires
        0 <= i,
        i + 1 < members.len(),
        collect_spec(members.take(i)) is Ok ==> {
            let slots = collect_spec(members.take(i))->Ok_0;
            &&& !same_field(members[i], members[i + 1])
            &&& record_spec(slots, members[i]) is Ok || record_spec(slots, members[i + 1]) is Ok
        },
    ensures
        collect_spec(swapped(members, i)) == collect_spec(members),
{
    let other = swapped(members, i);
    let start = members.take(i);
    assert(other.take(i) =~= start);
    lemma_two_steps(members, i);
    lemma_two_steps(other, i);
    if collect_spec(start) is Ok {
        lemma_record_commutes(collect_spec(start)->Ok_0, members[i], members[i + 1]);
    }
    lemma_same_tail(other, members, i + 2);
}

/// The walk over the first `i + 2` members is the walk over the first `i`
/// followed by the two members after them.
proof fn lemma_two_steps(members: Seq<WireFieldView>, i: int)
    requires
        0 <= i,
        i + 1 < members.len(),
    ensures
        collect_spec(members.take(i + 2)) == record_next(
            record_next(collect_spec(members.take(i)), members[i]),
            members[i + 1],
        ),
{
    assert(members.take(i + 1) =~= members.take(i).push(members[i]));
    assert(members.take(i + 2) =~= members.take(i + 1).push(members[i + 1]));
    lemma_collect_push(members.take(i), members[i]);
    lemma_collect_push(members.take(i + 1), members[i + 1]);
}

/// Order independence of what is accepted. Where the walk accepts a wire
/// object, it accepts it with any two neighbours in each other's place, and
/// fills the slots alike.
pub proof fn lemma_swap_accepted(members: Seq<WireFieldView>, i: int)
    requires
        0 <= i,
        i + 1 < members.len(),
        collect_spec(members) is Ok,
    ensures
        collect_spec(swapped(members, i)) == collect_spec(members),
{
    lemma_two_steps(members, i);
    if collect_spec(members.take(i + 2)) is Err {
        lemma_collect_error_stays(members, i + 2);
    }
    lemma_swap_adjacent(members, i);
}

/// `members` with the member at `i` taken out and put after all the others.
pub open spec fn moved_to_end(members: Seq<WireFieldView>, i: int) -> Seq<WireFieldView> {
    members.remove(i).push(members[i])
}

/// Order independence of a single member. Where the walk accepts a wire
/// object, any one member, the discriminator among them, may stand after all
/// the others instead of where it stands: the walk fills the slots alike.
pub proof fn lemma_move_to_end(members: Seq<WireFieldView>, i: int)
    requires
        0 <= i < members.len(),
        collect_spec(members) is Ok,
    ensures
        collect_spec(moved_to_end(members, i)) == collect_spec(members),
    decreases members.len() - i,
{
    if i == members.len() - 1 {
        assert(moved_to_end(members, i) =~= members);
    } else {
        let next = swapped(members, i);
        lemma_swap_accepted(members, i);
        lemma_move_to_end(next, i + 1);
        assert(moved_to_end(next, i + 1) =~= moved_to_end(members, i));
    }
}

/// Order independence. Where the walk accepts a wire object, it accepts
/// the same members in any other order, and fills the slots alike.
pub proof fn lemma_order_independent(members: Seq<WireFieldView>, other: Seq<WireFieldView>)
    requires
        members.to_multiset() == other.to_multiset(),
        collect_spec(members) is Ok,
    ensures
        collect_spec(other) == collect_spec(members),
    decreases members.len(),
{
    members.to_multiset_ensures();
    other.to_multiset_ensures();
    if other.len() == 0 {
        assert(members =~= other);
    } else {
        let last = other.last();
        let rest = other.drop_last();
        assert(other[other.len() - 1] == last);
        assert(other.contains(last));
        assert(other.to_multiset().count(last) > 0);
        assert(members.to_multiset().count(last) > 0);
        assert(members.contains(last));
        let i = choose|i: int| 0 <= i < members.len() && members[i] == last;
        let without = members.remove(i);
        lemma_move_to_end(members, i);
        lemma_collect_push(without, last);
        lemma_collect_push(rest, last);
        assert(other =~= rest.push(last));
        rest.to_multiset_ensures();
        assert(rest.to_multiset() =~= other.to_multiset().remove(last)) by {
            assert(rest =~= other.remove(other.len() - 1));
        }
        assert(without.to_multiset() =~= rest.to_multiset());
        lemma_order_independent(without, rest);
    }
}

} // verus!
