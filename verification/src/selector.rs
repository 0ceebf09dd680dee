//! The choice of the next episode: one of the catalog that the history does
//! not hold, taken in a random order.

use crate::catalog::{
    catalog, lemma_catalog_has_no_duplicates, lemma_catalog_len, lemma_episodes_are_catalog,
    EPISODES,
};
use crate::history::is_record;
use rand::seq::IndexedRandom;
use vstd::hash_set::StringHashSet;
use vstd::prelude::*;

verus! {

/// Whether the catalog holds an episode that `seen` does not.
pub open spec fn has_unseen(seen: Seq<Seq<char>>) -> bool {
    exists|i: int| 0 <= i < catalog().len() && !seen.contains(#[trigger] catalog()[i])
}

/// Whether `order[k]` is the first entry of `order` that is not in `seen`.
pub open spec fn is_first_unseen(order: Seq<&str>, seen: Set<Seq<char>>, k: int) -> bool {
    &&& 0 <= k < order.len()
    &&& !seen.contains(order[k]@)
    &&& forall|j: int| 0 <= j < k ==> seen.contains(#[trigger] order[j]@)
}

/// The set of the entries of `seen_episodes`.
pub fn seen_set(seen_episodes: &[String]) -> (set: StringHashSet)
    ensures
        set@ == seen_episodes.deep_view().to_set(),
{
    let ghost seen = seen_episodes.deep_view();
    let mut set = StringHashSet::new();
    let mut i: usize = 0;
    while i < seen_episodes.len()
        invariant
            i <= seen_episodes@.len(),
            seen == seen_episodes.deep_view(),
            set@ == seen.take(i as int).to_set(),
        decreases seen_episodes@.len() - i,
    {
        set.insert(seen_episodes[i].clone());
        proof {
            let upto = seen.take(i as int);
            upto.lemma_push_to_set_commute(seen[i as int]);
            assert(seen.take(i + 1) =~= upto.push(seen[i as int]));
        }
        i = i + 1;
    }
    assert(seen.take(i as int) =~= seen);
    set
}

/// The first entry of `order` that is not in `seen`, or `None` where all of
/// them are.
pub fn first_unseen<'a>(order: &[&'a str], seen: &StringHashSet) -> (found: Option<&'a str>)
    ensures
        match found {
            Some(episode) => exists|k: int| is_first_unseen(order@, seen@, k) && order@[k] == episode,
            None => forall|k: int| 0 <= k < order@.len() ==> seen@.contains(#[trigger] order@[k]@),
        },
{
    let mut k: usize = 0;
    while k < order.len()
        invariant
            k <= order@.len(),
            forall|j: int| 0 <= j < k ==> seen@.contains(#[trigger] order@[j]@),
        decreases order@.len() - k,
    {
        if !seen.contains(order[k]) {
            return Some(order[k]);
        }
        k = k + 1;
    }
    None
}

/// The entries of `items` in an order drawn at random.
///
/// Verus does not check this contract; it rests on the source of `rand`. The
/// body calls `rand::seq::IndexedRandom::choose_multiple` on `items`, asking
/// for as many entries as `items` holds, with the generator of the running
/// thread, `rand::rng()`. The call draws that many positions of the slice, no
/// position twice, and hands out the entry at each. So what comes back holds
/// every entry of `items` as often as `items` does; nothing is claimed of the
/// order. Slices longer than `u32::MAX` are left out: for them `rand` draws by
/// rejection, which is not meant for drawing every position. The generator
/// gets its seed from the operating system when the thread first asks for it,
/// and stops the program where that fails, whatever `items` holds.
#[verifier::external_body]
fn shuffled<'a>(items: &[&'a str]) -> (order: Vec<&'a str>)
    requires
        items@.len() <= u32::MAX,
    ensures
        order@.to_multiset() == items@.to_multiset(),
{
    items.choose_multiple(&mut rand::rng(), items.len()).copied().collect()
}

/// Whether an episode is left that `seen_episodes` does not hold.
pub fn has_unseen_episode(seen_episodes: &[String]) -> (left: bool)
    ensures
        left == has_unseen(seen_episodes.deep_view()),
{
    let seen_set = seen_set(seen_episodes);
    let found = first_unseen(EPISODES.as_slice(), &seen_set);
    proof {
        let seen = seen_episodes.deep_view();
        lemma_episodes_are_catalog();
        lemma_catalog_len();
        match found {
            Some(episode) => {
                let k = choose|k: int|
                    is_first_unseen(EPISODES@, seen_set@, k) && EPISODES@[k] == episode;
                assert(catalog()[k] == EPISODES@[k]@);
            },
            None => {
                assert forall|i: int| 0 <= i < catalog().len() implies seen.contains(
                    #[trigger] catalog()[i],
                ) by {}
            },
        }
    }
    found.is_some()
}

/// An episode of the catalog that `seen_episodes` does not hold: the first
/// such one in an order drawn at random.
///
/// There has to be such an episode. A caller that Verus has not held to this
/// is stopped, with a message, where none is left.
pub fn select_next_episode(seen_episodes: &[String]) -> (episode: &'static str)
    requires
        has_unseen(seen_episodes.deep_view()),
    ensures
        catalog().contains(episode@),
        !seen_episodes.deep_view().contains(episode@),
{
    let seen_set = seen_set(seen_episodes);
    let order = shuffled(EPISODES.as_slice());
    let found = first_unseen(order.as_slice(), &seen_set);
    proof {
        let seen = seen_episodes.deep_view();
        lemma_episodes_are_catalog();
        lemma_catalog_len();
        order@.to_multiset_ensures();
        EPISODES@.to_multiset_ensures();
        match found {
            Some(episode) => {
                assert(EPISODES@.to_multiset().count(episode) > 0);
                let i = choose|i: int| 0 <= i < EPISODES@.len() && EPISODES@[i] == episode;
                assert(catalog()[i] == episode@);
            },
            None => {
                let i = choose|i: int| 0 <= i < catalog().len() && !seen.contains(catalog()[i]);
                assert(order@.to_multiset().count(EPISODES@[i]) > 0);
            },
        }
    }
    found.expect("No unseen episodes available")
}

/// A record holds no more episodes than the catalog, and an episode is left
/// for as long as it holds fewer.
pub proof fn lemma_record_fills_the_catalog(seen: Seq<Seq<char>>)
    requires
        is_record(seen),
    ensures
        seen.len() <= catalog().len(),
        has_unseen(seen) <==> seen.len() < catalog().len(),
{
    let held = seen.to_set();
    let all = catalog().to_set();
    lemma_catalog_has_no_duplicates();
    seen.unique_seq_to_set();
    catalog().unique_seq_to_set();
    vstd::seq_lib::seq_to_set_is_finite(seen);
    vstd::seq_lib::seq_to_set_is_finite(catalog());
    assert(held.subset_of(all)) by {
        assert forall|entry: Seq<char>| held.contains(entry) implies all.contains(entry) by {}
    }
    vstd::set_lib::lemma_len_subset(held, all);
    if has_unseen(seen) {
        let i = choose|i: int| 0 <= i < catalog().len() && !seen.contains(catalog()[i]);
        let left = catalog()[i];
        vstd::set_lib::lemma_len_subset(held, all.remove(left));
    } else {
        assert(all.subset_of(held)) by {
            assert forall|entry: Seq<char>| all.contains(entry) implies held.contains(entry) by {}
        }
        vstd::set_lib::lemma_len_subset(all, held);
    }
}

} // verus!
