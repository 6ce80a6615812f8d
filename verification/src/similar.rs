//! The text form of a similar-items list: identifiers joined by commas.
//!
//! Reading is lenient: empty stretches between commas are skipped. Writing
//! joins the identifiers as they are, so a list reads back unchanged exactly
//! when each identifier is non-empty and holds no comma.

use vstd::prelude::*;
use crate::text::str_eq;

verus! {

/// The identifiers in `text`: its maximal comma-free stretches, in order.
pub open spec fn ids_of(text: Seq<char>) -> Seq<Seq<char>>
    decreases text.len(),
{
    if text.len() == 0 {
        Seq::empty()
    } else {
        let body = text.drop_last();
        let c = text.last();
        let before = ids_of(body);
        if c == ',' {
            before
        } else if body.len() == 0 || body.last() == ',' {
            before.push(seq![c])
        } else {
            before.drop_last().push(before.last().push(c))
        }
    }
}

/// The identifiers of `ids`, with a comma between neighbours.
pub open spec fn joined(ids: Seq<Seq<char>>) -> Seq<char>
    decreases ids.len(),
{
    if ids.len() == 0 {
        Seq::empty()
    } else if ids.len() == 1 {
        ids[0]
    } else {
        joined(ids.drop_last()) + seq![','] + ids.last()
    }
}

/// An identifier that survives writing and reading: non-empty, no comma.
pub open spec fn plain(id: Seq<char>) -> bool {
    id.len() > 0 && forall|k: int| 0 <= k < id.len() ==> id[k] != ','
}

/// Every identifier of the list is plain.
pub open spec fn all_plain(ids: Seq<Seq<char>>) -> bool {
    forall|k: int| 0 <= k < ids.len() ==> plain(#[trigger] ids[k])
}

/// The test that every identifier but `id` passes.
pub open spec fn other_than(id: Seq<char>) -> spec_fn(Seq<char>) -> bool {
    |other: Seq<char>| other != id
}

/// `ids` without the occurrences of `id`, the others in their order.
pub open spec fn without(ids: Seq<Seq<char>>, id: Seq<char>) -> Seq<Seq<char>> {
    ids.filter(other_than(id))
}

/// Reads a stored list.
pub fn decode_similar(text: &str) -> (ids: Vec<String>)
    ensures
        ids.deep_view() == ids_of(text@),
{
    let n: usize = text.unicode_len();
    let mut ids: Vec<String> = Vec::new();
    let mut start: usize = 0;
    let mut i: usize = 0;
    assert(text@.take(0) =~= Seq::<char>::empty());
    assert(ids.deep_view() =~= Seq::<Seq<char>>::empty());
    while i < n
        invariant
            n == text@.len(),
            start <= i <= n,
            start == i <==> (i == 0 || text@[i - 1] == ','),
            ids_of(text@.take(i as int)) == ids.deep_view() + (if start < i {
                seq![text@.subrange(start as int, i as int)]
            } else {
                Seq::<Seq<char>>::empty()
            }),
        decreases n - i,
    {
        let c = text.get_char(i);
        let ghost before = ids.deep_view();
        let ghost read = text@.take(i as int);
        let ghost next = text@.take(i + 1);
        assert(next.drop_last() =~= read);
        assert(next.last() == c);
        if c == ',' {
            if start < i {
                let piece = text.substring_char(start, i);
                ids.push(String::from_str(piece));
                assert(ids.deep_view() =~= before + seq![text@.subrange(start as int, i as int)]);
            }
            start = i + 1;
            assert(ids_of(next) =~= ids.deep_view() + Seq::<Seq<char>>::empty());
        } else {
            proof {
                if start == i {
                    assert(text@.subrange(start as int, i + 1) =~= seq![c]);
                    assert(before + Seq::<Seq<char>>::empty() =~= before);
                    assert(ids_of(next) =~= before + seq![text@.subrange(start as int, i + 1)]);
                } else {
                    let open = text@.subrange(start as int, i as int);
                    assert(read.len() > 0 && read.last() != ',');
                    assert((before + seq![open]).last() == open);
                    assert((before + seq![open]).drop_last() =~= before);
                    assert(open.push(c) =~= text@.subrange(start as int, i + 1));
                    assert(ids_of(next) =~= before + seq![text@.subrange(start as int, i + 1)]);
                }
            }
        }
        i = i + 1;
    }
    assert(text@.take(n as int) =~= text@);
    if start < n {
        let ghost before = ids.deep_view();
        let piece = text.substring_char(start, n);
        ids.push(String::from_str(piece));
        assert(ids.deep_view() =~= before + seq![text@.subrange(start as int, n as int)]);
    } else {
        assert(ids.deep_view() + Seq::<Seq<char>>::empty() =~= ids.deep_view());
    }
    ids
}

/// The list that an entry of the cache stands for: an item without an
/// entry lists nothing.
pub open spec fn similar_of(entry: Option<Seq<char>>) -> Seq<Seq<char>> {
    match entry {
        Some(text) => ids_of(text),
        None => Seq::empty(),
    }
}

/// The items that are similar to an item, given what the cache holds
/// under its key.
pub fn get_similar(entry: Option<&str>) -> (ids: Vec<String>)
    ensures
        ids.deep_view() == similar_of(
            match entry {
                Some(text) => Some(text@),
                None => None,
            },
        ),
{
    match entry {
        Some(text) => decode_similar(text),
        None => {
            let ids: Vec<String> = Vec::new();
            assert(ids.deep_view() =~= Seq::<Seq<char>>::empty());
            ids
        },
    }
}

/// Writes a list for storing.
pub fn encode_similar(ids: &Vec<String>) -> (text: String)
    ensures
        text@ == joined(ids.deep_view()),
{
    proof {
        reveal_strlit(",");
    }
    let mut text = String::new();
    let mut i: usize = 0;
    assert(ids.deep_view().take(0) =~= Seq::<Seq<char>>::empty());
    while i < ids.len()
        invariant
            i <= ids.len(),
            text@ == joined(ids.deep_view().take(i as int)),
        decreases ids.len() - i,
    {
        let ghost done = ids.deep_view().take(i as int);
        let ghost more = ids.deep_view().take(i + 1);
        assert(more.drop_last() =~= done);
        assert(more.last() == ids[i as int]@);
        if i > 0 {
            proof {
                reveal_strlit(",");
            }
            text.append(",");
            assert(","@ =~= seq![',']);
        } else {
            assert(more[0] == ids[0]@);
            assert(Seq::<char>::empty() + ids[0]@ =~= ids[0]@);
        }
        text.append(ids[i].as_str());
        i = i + 1;
    }
    assert(ids.deep_view().take(ids.len() as int) =~= ids.deep_view());
    text
}

/// Copies the list, leaving out every occurrence of `id`.
pub fn remove_id(ids: &Vec<String>, id: &str) -> (kept: Vec<String>)
    ensures
        kept.deep_view() == without(ids.deep_view(), id@),
{
    let mut kept: Vec<String> = Vec::new();
    let mut i: usize = 0;
    let ghost keep = other_than(id@);
    assert(ids.deep_view().take(0) =~= Seq::<Seq<char>>::empty());
    assert(kept.deep_view() =~= Seq::<Seq<char>>::empty());
    proof {
        reveal_with_fuel(Seq::filter, 2);
    }
    while i < ids.len()
        invariant
            i <= ids.len(),
            keep == other_than(id@),
            kept.deep_view() == ids.deep_view().take(i as int).filter(keep),
        decreases ids.len() - i,
    {
        let ghost before = kept.deep_view();
        let ghost done = ids.deep_view().take(i as int);
        let ghost more = ids.deep_view().take(i + 1);
        proof {
            reveal_with_fuel(Seq::filter, 2);
            assert(more.drop_last() =~= done);
            assert(more.last() == ids[i as int]@);
        }
        let same = str_eq(ids[i].as_str(), id);
        if !same {
            kept.push(ids[i].clone());
            assert(kept.deep_view() =~= before.push(ids[i as int]@));
        }
        i = i + 1;
    }
    assert(ids.deep_view().take(ids.len() as int) =~= ids.deep_view());
    kept
}

/// Whether the list names `id`.
pub fn contains_id(ids: &Vec<String>, id: &str) -> (found: bool)
    ensures
        found == ids.deep_view().contains(id@),
{
    let mut i: usize = 0;
    while i < ids.len()
        invariant
            i <= ids.len(),
            forall|k: int| 0 <= k < i ==> ids.deep_view()[k] != id@,
        decreases ids.len() - i,
    {
        if str_eq(ids[i].as_str(), id) {
            assert(ids.deep_view()[i as int] == id@);
            return true;
        }
        i = i + 1;
    }
    false
}

/// Reading never yields an empty identifier or one with a comma in it.
pub proof fn lemma_ids_plain(text: Seq<char>)
    ensures
        all_plain(ids_of(text)),
        text.len() > 0 && text.last() != ',' ==> ids_of(text).len() > 0,
    decreases text.len(),
{
    if text.len() > 0 {
        let body = text.drop_last();
        lemma_ids_plain(body);
        let c = text.last();
        let before = ids_of(body);
        if c == ',' {
        } else if body.len() == 0 || body.last() == ',' {
            assert(plain(seq![c]));
        } else {
            let grown = before.last().push(c);
            assert(plain(before.last()));
            assert(plain(grown));
            assert forall|k: int| 0 <= k < ids_of(text).len() implies plain(
                #[trigger] ids_of(text)[k],
            ) by {
                if k < before.len() - 1 {
                    assert(ids_of(text)[k] == before[k]);
                }
            }
        }
    }
}

/// A plain identifier written after a comma, or at the start, reads back
/// as one more identifier.
pub proof fn lemma_ids_of_append(head: Seq<char>, id: Seq<char>)
    requires
        plain(id),
        head.len() == 0 || head.last() == ',',
    ensures
        ids_of(head + id) == ids_of(head).push(id),
    decreases id.len(),
{
    let whole = head + id;
    let c = id.last();
    assert(whole.last() == c);
    if id.len() == 1 {
        assert(whole.drop_last() =~= head);
        assert(seq![c] =~= id);
    } else {
        let shorter = id.drop_last();
        assert(plain(shorter)) by {
            assert forall|k: int| 0 <= k < shorter.len() implies shorter[k] != ',' by {
                assert(shorter[k] == id[k]);
            }
        }
        lemma_ids_of_append(head, shorter);
        assert(whole.drop_last() =~= head + shorter);
        assert((head + shorter).last() == shorter.last());
        assert(shorter.last() == id[id.len() - 2]);
        assert(ids_of(head).push(shorter).drop_last() =~= ids_of(head));
        assert(shorter.push(c) =~= id);
    }
}

/// A list of plain identifiers reads back as it was written.
pub proof fn lemma_write_then_read(ids: Seq<Seq<char>>)
    requires
        all_plain(ids),
    ensures
        ids_of(joined(ids)) == ids,
    decreases ids.len(),
{
    if ids.len() == 0 {
        assert(ids =~= Seq::<Seq<char>>::empty());
    } else if ids.len() == 1 {
        assert(plain(ids[0]));
        lemma_ids_of_append(Seq::<char>::empty(), ids[0]);
        assert(Seq::<char>::empty() + ids[0] =~= ids[0]);
        assert(Seq::<Seq<char>>::empty().push(ids[0]) =~= ids);
    } else {
        let front = ids.drop_last();
        assert(all_plain(front)) by {
            assert forall|k: int| 0 <= k < front.len() implies plain(#[trigger] front[k]) by {
                assert(front[k] == ids[k]);
            }
        }
        lemma_write_then_read(front);
        let head = joined(front) + seq![','];
        assert(head.drop_last() =~= joined(front));
        assert(ids_of(head) == front);
        assert(plain(ids.last()));
        lemma_ids_of_append(head, ids.last());
        assert(front.push(ids.last()) =~= ids);
    }
}

/// What is left after leaving `id` out: the others, and nothing else.
pub proof fn lemma_without_members(ids: Seq<Seq<char>>, id: Seq<char>)
    ensures
        forall|other: Seq<char>| #[trigger]
            without(ids, id).contains(other) <==> (ids.contains(other) && other != id),
    decreases ids.len(),
{
    reveal_with_fuel(Seq::filter, 2);
    let keep = other_than(id);
    if ids.len() == 0 {
        assert(without(ids, id) =~= Seq::<Seq<char>>::empty());
    } else {
        let front = ids.drop_last();
        let last = ids.last();
        let rest = front.filter(keep);
        lemma_without_members(front, id);
        assert forall|other: Seq<char>| #[trigger]
            without(ids, id).contains(other) <==> (ids.contains(other) && other != id) by {
            assert(without(front, id) == rest);
            if ids.contains(other) {
                let k = choose|k: int| 0 <= k < ids.len() && ids[k] == other;
                if k < front.len() {
                    assert(front[k] == other);
                    assert(front.contains(other));
                } else {
                    assert(other == last);
                }
            }
            if front.contains(other) {
                let k = choose|k: int| 0 <= k < front.len() && front[k] == other;
                assert(ids[k] == other);
            }
            assert(ids[ids.len() - 1] == last);
            if last != id {
                let all = rest.push(last);
                assert(without(ids, id) == all);
                if all.contains(other) {
                    let k = choose|k: int| 0 <= k < all.len() && all[k] == other;
                    if k < rest.len() {
                        assert(rest[k] == other);
                        assert(rest.contains(other));
                    }
                }
                if rest.contains(other) {
                    let k = choose|k: int| 0 <= k < rest.len() && rest[k] == other;
                    assert(all[k] == other);
                }
                assert(all[rest.len() as int] == last);
            } else {
                assert(without(ids, id) == rest);
            }
        }
    }
}

/// Leaving an identifier out keeps the others plain.
pub proof fn lemma_without_plain(ids: Seq<Seq<char>>, id: Seq<char>)
    requires
        all_plain(ids),
    ensures
        all_plain(without(ids, id)),
{
    let rest = without(ids, id);
    lemma_without_members(ids, id);
    assert forall|k: int| 0 <= k < rest.len() implies plain(#[trigger] rest[k]) by {
        assert(rest.contains(rest[k]));
        assert(ids.contains(rest[k]));
    }
}

/// A list that does not name `id` is left as it is.
pub proof fn lemma_without_absent(ids: Seq<Seq<char>>, id: Seq<char>)
    requires
        !ids.contains(id),
    ensures
        without(ids, id) == ids,
    decreases ids.len(),
{
    reveal_with_fuel(Seq::filter, 2);
    if ids.len() > 0 {
        let front = ids.drop_last();
        assert(!front.contains(id)) by {
            if front.contains(id) {
                let k = choose|k: int| 0 <= k < front.len() && front[k] == id;
                assert(ids[k] == id);
            }
        }
        lemma_without_absent(front, id);
        assert(ids.last() != id) by {
            assert(ids[ids.len() - 1] == ids.last());
        }
        assert(front.push(ids.last()) =~= ids);
    } else {
        assert(without(ids, id) =~= ids);
    }
}

} // verus!
