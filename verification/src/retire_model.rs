//! A model of the cache as the clean-up sees it, and what the clean-up
//! leaves behind when every call succeeds: each item that the retiring item
//! lists no longer lists it, an entry that would be left empty is deleted,
//! and the entries of the retiring item are gone.

use vstd::prelude::*;
use crate::keys::{
    details_key, lemma_prefixed_injective, lemma_similar_and_details_apart, similar_key,
};
use crate::retire::{RetireActionView, RetireEventView, RetireFlowView, RetirePhase};
use crate::similar::{
    all_plain, ids_of, joined, similar_of, lemma_ids_plain, lemma_without_absent, lemma_without_members,
    lemma_without_plain, lemma_write_then_read, without,
};

verus! {

/// The text entries of the cache, by key.
pub type TextCache = Map<Seq<char>, Seq<char>>;

/// What a call returns when the cache works.
pub open spec fn cache_answer(cache: TextCache, action: RetireActionView) -> RetireEventView {
    match action {
        RetireActionView::Get { key } => if cache.dom().contains(key) {
            RetireEventView::Found { text: cache[key] }
        } else {
            RetireEventView::Absent
        },
        _ => RetireEventView::Stored,
    }
}

/// What a call leaves behind when the cache works.
pub open spec fn cache_apply(cache: TextCache, action: RetireActionView) -> TextCache {
    match action {
        RetireActionView::Put { key, value } => cache.insert(key, value),
        RetireActionView::Delete { key } => cache.remove(key),
        _ => cache,
    }
}

/// Makes the pending call of `flow` on `cache` and hands the flow what came
/// of it, at most `fuel` times or until the flow is finished.
pub open spec fn sweep(flow: RetireFlowView, cache: TextCache, fuel: nat) -> (
    RetireFlowView,
    TextCache,
)
    decreases fuel,
{
    if fuel == 0 || flow.finished() {
        (flow, cache)
    } else {
        let action = flow.pending();
        sweep(flow.after(cache_answer(cache, action)), cache_apply(cache, action), (fuel - 1) as nat)
    }
}

/// The items that `item_id` lists as similar; none where it has no entry.
pub open spec fn listed(cache: TextCache, item_id: Seq<char>) -> Seq<Seq<char>> {
    similar_of(
        if cache.dom().contains(similar_key(item_id)) {
            Some(cache[similar_key(item_id)])
        } else {
            None
        },
    )
}

/// The clean-up for `item_id`, with two calls for each listed item and
/// three for the entries of the item itself: it never needs more. (A list
/// is held in memory while it is worked on, so the statements below are
/// made of lists that a vector can hold.)
pub open spec fn retire(cache: TextCache, item_id: Seq<char>) -> (RetireFlowView, TextCache) {
    sweep(RetireFlowView::start(item_id), cache, 2 * listed(cache, item_id).len() + 3)
}

/// Whether `key` is the similar-items key of one of the first `upto` members.
pub open spec fn member_key(members: Seq<Seq<char>>, upto: int, key: Seq<char>) -> bool {
    exists|j: int| 0 <= j < upto && j < members.len() && key == similar_key(#[trigger] members[j])
}

/// The cache with the lists of the first `upto` members shortened by
/// `item_id`, and deleted where nothing is left of them.
pub open spec fn shortened_lists(
    cache: TextCache,
    item_id: Seq<char>,
    members: Seq<Seq<char>>,
    upto: int,
) -> TextCache {
    Map::new(
        |key: Seq<char>|
            cache.dom().contains(key) && !(member_key(members, upto, key) && without(
                ids_of(cache[key]),
                item_id,
            ).len() == 0),
        |key: Seq<char>|
            if member_key(members, upto, key) {
                joined(without(ids_of(cache[key]), item_id))
            } else {
                cache[key]
            },
    )
}

/// What the clean-up for `item_id` leaves of `cache`.
pub open spec fn retired(cache: TextCache, item_id: Seq<char>) -> TextCache {
    let members = listed(cache, item_id);
    shortened_lists(cache, item_id, members, members.len() as int).remove(
        similar_key(item_id),
    ).remove(details_key(item_id))
}

proof fn lemma_member_key_next(members: Seq<Seq<char>>, at: int, key: Seq<char>)
    requires
        0 <= at < members.len(),
    ensures
        member_key(members, at + 1, key) <==> (member_key(members, at, key) || key == similar_key(
            members[at],
        )),
{
    if member_key(members, at + 1, key) {
        let j = choose|j: int|
            0 <= j < at + 1 && j < members.len() && key == similar_key(#[trigger] members[j]);
        if j < at {
            assert(member_key(members, at, key));
        }
    }
    if member_key(members, at, key) {
        let j = choose|j: int|
            0 <= j < at && j < members.len() && key == similar_key(#[trigger] members[j]);
        assert(0 <= j < at + 1 && key == similar_key(members[j]));
    }
    if key == similar_key(members[at]) {
        assert(0 <= at < at + 1 && key == similar_key(members[at]));
    }
}

proof fn lemma_sweep_members(
    flow: RetireFlowView,
    cache: TextCache,
    origin: TextCache,
    at: int,
    fuel: nat,
)
    requires
        0 <= at <= flow.members.len() <= usize::MAX,
        flow.phase == flow.turn_to(at),
        flow.clean(),
        cache == shortened_lists(origin, flow.item_id, flow.members, at),
        fuel >= 2 * (flow.members.len() - at) + 2,
    ensures
        sweep(flow, cache, fuel).0.finished(),
        sweep(flow, cache, fuel).0.clean(),
        sweep(flow, cache, fuel).0.item_id == flow.item_id,
        sweep(flow, cache, fuel).0.members == flow.members,
        sweep(flow, cache, fuel).1 == shortened_lists(
            origin,
            flow.item_id,
            flow.members,
            flow.members.len() as int,
        ).remove(similar_key(flow.item_id)).remove(details_key(flow.item_id)),
    decreases flow.members.len() - at,
{
    let id = flow.item_id;
    let members = flow.members;
    if at == members.len() {
        reveal_with_fuel(sweep, 3);
        assert(flow.phase is DropOwnList);
    } else {
        let member = members[at];
        let key = similar_key(member);
        let left = without(ids_of(origin[key]), id);
        let next = shortened_lists(origin, id, members, at + 1);
        assert(flow.phase == RetirePhase::ReadMember { at: at as usize });
        assert(flow.pending() == RetireActionView::Get { key });
        assert forall|other: Seq<char>| #[trigger]
            member_key(members, at + 1, other) <==> (member_key(members, at, other) || other
                == key) by {
            lemma_member_key_next(members, at, other);
        }
        if origin.dom().contains(key) {
            lemma_ids_plain(origin[key]);
            lemma_without_plain(ids_of(origin[key]), id);
            lemma_without_members(ids_of(origin[key]), id);
            lemma_write_then_read(left);
            assert(!left.contains(id));
            lemma_without_absent(left, id);
        }
        if cache.dom().contains(key) {
            let read = flow.after(cache_answer(cache, flow.pending()));
            assert(read.phase == RetirePhase::WriteMember { at: at as usize });
            assert(read.shortened == left) by {
                if member_key(members, at, key) {
                    assert(cache[key] == joined(left));
                } else {
                    assert(cache[key] == origin[key]);
                }
            }
            let written = read.after(cache_answer(cache, read.pending()));
            let stored = cache_apply(cache, read.pending());
            assert(written.phase == written.turn_to(at + 1));
            assert(stored =~= next);
            assert(sweep(flow, cache, fuel) == sweep(written, stored, (fuel - 2) as nat)) by {
                reveal_with_fuel(sweep, 3);
            }
            lemma_sweep_members(written, stored, origin, at + 1, (fuel - 2) as nat);
        } else {
            let skipped = flow.after(cache_answer(cache, flow.pending()));
            assert(skipped.phase == skipped.turn_to(at + 1));
            assert(cache =~= next);
            assert(sweep(flow, cache, fuel) == sweep(skipped, cache, (fuel - 1) as nat)) by {
                reveal_with_fuel(sweep, 2);
            }
            lemma_sweep_members(skipped, cache, origin, at + 1, (fuel - 1) as nat);
        }
    }
}

/// With the cache at work the clean-up is finished within its calls, no
/// step of it fails, and it leaves what `retired` says.
pub proof fn lemma_retire(cache: TextCache, item_id: Seq<char>)
    requires
        listed(cache, item_id).len() <= usize::MAX,
    ensures
        retire(cache, item_id).0.finished(),
        retire(cache, item_id).0.clean(),
        retire(cache, item_id).1 == retired(cache, item_id),
{
    let start = RetireFlowView::start(item_id);
    let members = listed(cache, item_id);
    let fuel = (2 * members.len() + 3) as nat;
    let read = start.after(cache_answer(cache, start.pending()));
    assert(read.members =~= members);
    assert(read.phase == read.turn_to(0));
    assert(cache =~= shortened_lists(cache, item_id, members, 0));
    assert(sweep(start, cache, fuel) == sweep(read, cache, (fuel - 1) as nat)) by {
        reveal_with_fuel(sweep, 2);
    }
    lemma_sweep_members(read, cache, cache, 0, (fuel - 1) as nat);
}

/// After the clean-up the cache holds neither the similar-items list nor
/// the detail record of the retired item.
pub proof fn lemma_own_entries_gone(cache: TextCache, item_id: Seq<char>)
    requires
        listed(cache, item_id).len() <= usize::MAX,
    ensures
        !retire(cache, item_id).1.dom().contains(similar_key(item_id)),
        !retire(cache, item_id).1.dom().contains(details_key(item_id)),
{
    lemma_retire(cache, item_id);
}

/// After the clean-up an item that the retired item listed lists what it
/// listed before, less the retired item; its entry is gone if nothing is
/// left to list, and an entry that it did not have is not made.
pub proof fn lemma_listed_item_shortened(cache: TextCache, item_id: Seq<char>, other: Seq<char>)
    requires
        listed(cache, item_id).len() <= usize::MAX,
        other != item_id,
        listed(cache, item_id).contains(other),
    ensures
        listed(retire(cache, item_id).1, other) == without(listed(cache, other), item_id),
        retire(cache, item_id).1.dom().contains(similar_key(other)) <==> without(
            listed(cache, other),
            item_id,
        ).len() > 0,
{
    lemma_retire(cache, item_id);
    let members = listed(cache, item_id);
    let key = similar_key(other);
    let j = choose|j: int| 0 <= j < members.len() && members[j] == other;
    assert(member_key(members, members.len() as int, key)) by {
        assert(key == similar_key(members[j]));
    }
    if key == similar_key(item_id) {
        lemma_prefixed_injective("similar_items"@, other, item_id);
    }
    lemma_similar_and_details_apart(other, item_id);
    if cache.dom().contains(key) {
        let left = without(ids_of(cache[key]), item_id);
        lemma_ids_plain(cache[key]);
        lemma_without_plain(ids_of(cache[key]), item_id);
        lemma_write_then_read(left);
        if left.len() == 0 {
            assert(left =~= Seq::<Seq<char>>::empty());
        }
    } else {
        assert(without(Seq::<Seq<char>>::empty(), item_id) =~= Seq::<Seq<char>>::empty()) by {
            lemma_without_absent(Seq::<Seq<char>>::empty(), item_id);
        }
    }
}

/// The clean-up leaves every entry alone that belongs neither to the
/// retired item nor to an item on its list.
pub proof fn lemma_unlisted_item_untouched(cache: TextCache, item_id: Seq<char>, other: Seq<char>)
    requires
        listed(cache, item_id).len() <= usize::MAX,
        other != item_id,
        !listed(cache, item_id).contains(other),
    ensures
        listed(retire(cache, item_id).1, other) == listed(cache, other),
        retire(cache, item_id).1.dom().contains(similar_key(other)) <==> cache.dom().contains(
            similar_key(other),
        ),
{
    lemma_retire(cache, item_id);
    let members = listed(cache, item_id);
    let key = similar_key(other);
    if member_key(members, members.len() as int, key) {
        let j = choose|j: int|
            0 <= j < members.len() && j < members.len() && key == similar_key(
                #[trigger] members[j],
            );
        lemma_prefixed_injective("similar_items"@, other, members[j]);
        assert(members.contains(other));
    }
    if key == similar_key(item_id) {
        lemma_prefixed_injective("similar_items"@, other, item_id);
    }
    lemma_similar_and_details_apart(other, item_id);
}

/// Where every item that lists the retired item is on the list of the
/// retired item, no other item lists it after the clean-up.
pub proof fn lemma_no_reference_left(cache: TextCache, item_id: Seq<char>, other: Seq<char>)
    requires
        listed(cache, item_id).len() <= usize::MAX,
        other != item_id,
        listed(cache, other).contains(item_id) ==> listed(cache, item_id).contains(other),
    ensures
        !listed(retire(cache, item_id).1, other).contains(item_id),
{
    if listed(cache, item_id).contains(other) {
        lemma_listed_item_shortened(cache, item_id, other);
        lemma_without_members(listed(cache, other), item_id);
    } else {
        lemma_unlisted_item_untouched(cache, item_id, other);
    }
}

/// Whether `event` is an answer to the call `action`: what a read can come
/// to for a read, what a write can come to for a write or a deletion.
pub open spec fn answers(action: RetireActionView, event: RetireEventView) -> bool {
    match action {
        RetireActionView::Get { .. } => event is Found || event is Absent || event is ReadFailed,
        RetireActionView::Put { .. } => event is Stored || event is StoreFailed,
        RetireActionView::Delete { .. } => event is Stored || event is StoreFailed,
        RetireActionView::Finish => false,
    }
}

/// The most calls that a clean-up can still ask for once the list of the
/// retiring item was read.
pub open spec fn calls_left(flow: RetireFlowView) -> nat {
    match flow.phase {
        RetirePhase::ReadOwn => 0,
        RetirePhase::ReadMember { at } => (2 * (flow.members.len() - at) + 2) as nat,
        RetirePhase::WriteMember { at } => (2 * (flow.members.len() - at) + 1) as nat,
        RetirePhase::DropOwnList => 2,
        RetirePhase::DropDetails => 1,
        RetirePhase::Finished => 0,
    }
}

/// Whatever the cache answers, failures included, the clean-up goes on:
/// after the list of the retiring item was read, two calls for each listed
/// item and two for the own entries are the most that are left, and each
/// answer leaves fewer. A clean-up never ends without having asked for the
/// deletion of both entries of the retiring item.
pub proof fn lemma_clean_up_goes_on(flow: RetireFlowView, event: RetireEventView)
    requires
        flow.wf(),
        flow.members.len() <= usize::MAX,
        answers(flow.pending(), event),
    ensures
        flow.after(event).wf(),
        flow.phase is ReadOwn ==> !(flow.after(event).phase is ReadOwn) && calls_left(
            flow.after(event),
        ) <= 2 * flow.after(event).members.len() + 2,
        !(flow.phase is ReadOwn) ==> calls_left(flow.after(event)) < calls_left(flow)
            && flow.after(event).members == flow.members,
        flow.after(event).phase is Finished ==> flow.phase is DropDetails,
        flow.after(event).phase is DropDetails ==> flow.phase is DropOwnList,
{
}

} // verus!
