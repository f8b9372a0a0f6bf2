//! Event listings: the distinct venues of a page of events.
//!
//! Listing events pairs each event with its venue; the venues are loaded
//! once, by the sorted, deduplicated list of the events' venue ids.

use vstd::prelude::*;

verus! {

/// The set of venue ids the events name.
pub open spec fn named_venue_ids(venue_ids: Seq<Option<u128>>) -> Set<u128> {
    Set::new(
        |x: u128| exists|k: int| 0 <= k < venue_ids.len() && #[trigger] venue_ids[k] == Some(x),
    )
}

/// Whether the ids are strictly increasing.
pub open spec fn strictly_increasing(ids: Seq<u128>) -> bool {
    forall|i: int, j: int| 0 <= i < j < ids.len() ==> (#[trigger] ids[i]) < (#[trigger] ids[j])
}

/// Whether the vector holds the id.
fn contains_id(ids: &Vec<u128>, id: u128) -> (r: bool)
    ensures
        r == ids@.contains(id),
{
    let mut i: usize = 0;
    while i < ids.len()
        invariant
            0 <= i <= ids@.len(),
            forall|j: int| 0 <= j < i ==> ids@[j] != id,
        decreases ids@.len() - i,
    {
        if ids[i] == id {
            proof {
                assert(ids@[i as int] == id);
            }
            return true;
        }
        i = i + 1;
    }
    false
}

/// Inserts an id the vector does not yet hold at its ordered position.
#[verifier::loop_isolation(false)]
fn insert_sorted(ids: &mut Vec<u128>, id: u128)
    requires
        strictly_increasing(old(ids)@),
        !old(ids)@.contains(id),
    ensures
        strictly_increasing(final(ids)@),
        final(ids)@.to_set() == old(ids)@.to_set().insert(id),
{
    let ghost old_ids = ids@;
    let mut pos: usize = 0;
    while pos < ids.len() && ids[pos] < id
        invariant
            0 <= pos <= ids@.len(),
            forall|j: int| 0 <= j < pos ==> (#[trigger] ids@[j]) < id,
        decreases ids@.len() - pos,
    {
        pos = pos + 1;
    }
    proof {
        if (pos as int) < ids@.len() {
            // The id is absent, so the first element not below it lies above.
            assert(ids@[pos as int] != id);
            assert(ids@[pos as int] > id);
        }
    }
    ids.insert(pos, id);
    proof {
        let p = pos as int;
        assert forall|i: int, j: int|
            0 <= i < j < ids@.len() implies (#[trigger] ids@[i]) < (#[trigger] ids@[j]) by {
            if i < p && j < p {
                assert(ids@[i] == old_ids[i] && ids@[j] == old_ids[j]);
            } else if i < p && j == p {
                assert(ids@[i] == old_ids[i]);
            } else if i < p && j > p {
                assert(ids@[i] == old_ids[i] && ids@[j] == old_ids[j - 1]);
            } else if i == p {
                assert(ids@[j] == old_ids[j - 1]);
                assert(old_ids[j - 1] > id);
            } else {
                assert(ids@[i] == old_ids[i - 1] && ids@[j] == old_ids[j - 1]);
            }
        }
        assert forall|x: u128| ids@.to_set().contains(x) implies old_ids.to_set().insert(
            id,
        ).contains(x) by {
            let k = choose|k: int| 0 <= k < ids@.len() && ids@[k] == x;
            if k < p {
                assert(old_ids[k] == x);
            } else if k > p {
                assert(old_ids[k - 1] == x);
            }
        }
        assert forall|x: u128| old_ids.to_set().insert(id).contains(x) implies ids@.to_set()
            .contains(x) by {
            if x == id {
                assert(ids@[p] == x);
            } else {
                let k = choose|k: int| 0 <= k < old_ids.len() && old_ids[k] == x;
                if k < p {
                    assert(ids@[k] == x);
                } else {
                    assert(ids@[k + 1] == x);
                }
            }
        }
        assert(ids@.to_set() =~= old_ids.to_set().insert(id));
    }
}

/// The distinct venue ids of the events, in increasing order. Events held
/// nowhere in particular name no venue and contribute nothing.
pub fn unique_venue_ids(venue_ids: &Vec<Option<u128>>) -> (r: Vec<u128>)
    ensures
        strictly_increasing(r@),
        r@.to_set() == named_venue_ids(venue_ids@),
{
    let mut out: Vec<u128> = Vec::new();
    let mut i: usize = 0;
    proof {
        assert(out@.to_set() =~= named_venue_ids(venue_ids@.take(0)));
    }
    while i < venue_ids.len()
        invariant
            0 <= i <= venue_ids@.len(),
            strictly_increasing(out@),
            out@.to_set() == named_venue_ids(venue_ids@.take(i as int)),
        decreases venue_ids@.len() - i,
    {
        let ghost before = out@;
        if let Some(id) = venue_ids[i] {
            if !contains_id(&out, id) {
                proof {
                    assert(!before.to_set().contains(id));
                }
                insert_sorted(&mut out, id);
            }
        }
        proof {
            let k = i as int;
            assert forall|x: u128| out@.to_set().contains(x) implies named_venue_ids(
                venue_ids@.take(k + 1),
            ).contains(x) by {
                if before.to_set().contains(x) {
                    let w = choose|w: int|
                        0 <= w < venue_ids@.take(k).len() && #[trigger] venue_ids@.take(k)[w]
                            == Some(x);
                    assert(venue_ids@.take(k + 1)[w] == Some(x));
                } else {
                    assert(venue_ids@.take(k + 1)[k] == Some(x));
                }
            }
            assert forall|x: u128| named_venue_ids(venue_ids@.take(k + 1)).contains(
                x,
            ) implies out@.to_set().contains(x) by {
                let w = choose|w: int|
                    0 <= w < venue_ids@.take(k + 1).len() && #[trigger] venue_ids@.take(k + 1)[w]
                        == Some(x);
                if w < k {
                    assert(venue_ids@.take(k)[w] == Some(x));
                    assert(before.to_set().contains(x));
                } else {
                    assert(venue_ids@[k] == Some(x));
                }
            }
            assert(out@.to_set() =~= named_venue_ids(venue_ids@.take(k + 1)));
        }
        i = i + 1;
    }
    proof {
        assert(venue_ids@.take(venue_ids@.len() as int) =~= venue_ids@);
        assert(out@.to_set() =~= named_venue_ids(venue_ids@));
    }
    out
}

} // verus!
