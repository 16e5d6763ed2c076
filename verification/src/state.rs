//! The persistent state: one owner record and the score of each user.

use vstd::prelude::*;
use crate::addr::Addr;
use crate::text::same_text;

verus! {

/// The owner record.
#[derive(Debug)]
pub struct State {
    /// The one account that may write scores.
    pub owner: Addr,
}

impl Clone for State {
    fn clone(&self) -> (copy: State)
        ensures
            copy.owner@ == self.owner@,
    {
        State { owner: self.owner.clone() }
    }
}

/// One stored score.
#[derive(Debug)]
struct ScoreEntry {
    user: String,
    score: u32,
}

/// What a store holds, as mathematics.
pub struct StoreView {
    /// The owner's identity, once one was recorded.
    pub owner: Option<Seq<char>>,
    /// The stored scores, by user. A user without an entry has score 0.
    pub scores: Map<Seq<char>, u32>,
}

impl StoreView {
    /// The store that nothing was written to.
    pub open spec fn empty() -> StoreView {
        StoreView { owner: None, scores: Map::empty() }
    }

    /// The score that `user` reads as: the stored one, or 0 without an entry.
    pub open spec fn score_of(self, user: Seq<char>) -> u32 {
        if self.scores.dom().contains(user) {
            self.scores[user]
        } else {
            0
        }
    }

    /// This store with `owner` recorded as its owner.
    pub open spec fn with_owner(self, owner: Seq<char>) -> StoreView {
        StoreView { owner: Some(owner), scores: self.scores }
    }

    /// This store with `score` written under `user`.
    pub open spec fn with_score(self, user: Seq<char>, score: u32) -> StoreView {
        StoreView { owner: self.owner, scores: self.scores.insert(user, score) }
    }
}

/// Whether position `i` of `entries` holds the score of `user`.
spec fn holds(entries: Seq<ScoreEntry>, i: int, user: Seq<char>) -> bool {
    0 <= i < entries.len() && entries[i].user@ == user
}

/// No user has two entries.
spec fn distinct_users(entries: Seq<ScoreEntry>) -> bool {
    forall|i: int, j: int|
        0 <= i < entries.len() && 0 <= j < entries.len() && #[trigger] entries[i].user@
            == #[trigger] entries[j].user@ ==> i == j
}

/// The mapping that a list of entries stands for.
spec fn entries_map(entries: Seq<ScoreEntry>) -> Map<Seq<char>, u32> {
    Map::new(
        |user: Seq<char>| exists|i: int| holds(entries, i, user),
        |user: Seq<char>| entries[choose|i: int| holds(entries, i, user)].score,
    )
}

/// With distinct users, the entry at `i` decides what its user maps to.
proof fn lemma_entry_decides(entries: Seq<ScoreEntry>, i: int)
    requires
        distinct_users(entries),
        0 <= i < entries.len(),
    ensures
        entries_map(entries).dom().contains(entries[i].user@),
        entries_map(entries)[entries[i].user@] == entries[i].score,
{
    let user = entries[i].user@;
    assert(holds(entries, i, user));
    let j = choose|j: int| holds(entries, j, user);
    assert(holds(entries, j, user));
    assert(entries[j].user@ == entries[i].user@);
}

/// The state that outlives a call: the owner record and the scores.
///
/// Every handler receives the store by reference; nothing else keeps state.
#[derive(Debug)]
pub struct Store {
    state: Option<State>,
    entries: Vec<ScoreEntry>,
}

impl View for Store {
    type V = StoreView;

    closed spec fn view(&self) -> StoreView {
        StoreView {
            owner: match self.state {
                Some(state) => Some(state.owner@),
                None => None,
            },
            scores: entries_map(self.entries@),
        }
    }
}

impl Store {
    #[verifier::type_invariant]
    spec fn well_formed(&self) -> bool {
        distinct_users(self.entries@)
    }

    /// A store with no owner record and no score.
    pub fn new() -> (store: Store)
        ensures
            store@ == StoreView::empty(),
    {
        let store = Store { state: None, entries: Vec::new() };
        assert(store@.scores =~= Map::empty());
        store
    }

    /// Writes the owner record, over the one that was there.
    pub fn save_state(&mut self, state: State)
        ensures
            final(self)@ == old(self)@.with_owner(state.owner@),
    {
        proof {
            use_type_invariant(&*self);
        }
        self.state = Some(state);
    }

    /// The owner record, or `None` where none was written.
    pub fn may_load_state(&self) -> (found: Option<&State>)
        ensures
            match found {
                Some(state) => self@.owner == Some(state.owner@),
                None => self@.owner is None,
            },
    {
        self.state.as_ref()
    }

    /// The stored score of `user`, or `None` where it has no entry.
    pub fn may_load_score(&self, user: &str) -> (found: Option<u32>)
        ensures
            found == if self@.scores.dom().contains(user@) {
                Some(self@.scores[user@])
            } else {
                None
            },
    {
        proof {
            use_type_invariant(self);
        }
        match find(&self.entries, user) {
            Some(i) => {
                proof {
                    lemma_entry_decides(self.entries@, i as int);
                }
                Some(self.entries[i].score)
            },
            None => None,
        }
    }

    /// Writes `score` under `user`, over the score that was there if any.
    /// No other entry changes, and the owner record stays.
    pub fn save_score(&mut self, user: String, score: u32)
        ensures
            final(self)@ == old(self)@.with_score(user@, score),
    {
        proof {
            use_type_invariant(&*self);
        }
        let mut entries: Vec<ScoreEntry> = Vec::new();
        core::mem::swap(&mut self.entries, &mut entries);
        put(&mut entries, user, score);
        self.entries = entries;
    }
}

/// The position of the entry of `user`, if there is one.
fn find(entries: &Vec<ScoreEntry>, user: &str) -> (found: Option<usize>)
    ensures
        match found {
            Some(i) => holds(entries@, i as int, user@),
            None => forall|i: int| !holds(entries@, i, user@),
        },
{
    let mut i: usize = 0;
    while i < entries.len()
        invariant
            i <= entries.len(),
            forall|j: int| 0 <= j < i ==> !holds(entries@, j, user@),
        decreases entries.len() - i,
    {
        if same_text(entries[i].user.as_str(), user) {
            return Some(i);
        }
        i += 1;
    }
    None
}

/// Overwrites the entry of `user` where there is one, and appends one where
/// there is none.
fn put(entries: &mut Vec<ScoreEntry>, user: String, score: u32)
    requires
        distinct_users(old(entries)@),
    ensures
        distinct_users(final(entries)@),
        entries_map(final(entries)@) == entries_map(old(entries)@).insert(user@, score),
{
    let ghost before = entries@;
    let found = find(entries, user.as_str());
    match found {
        Some(i) => {
            entries.set(i, ScoreEntry { user, score });
        },
        None => {
            entries.push(ScoreEntry { user, score });
        },
    }
    proof {
        let after = entries@;
        assert forall|k: int| 0 <= k < before.len() && before[k].user@ != user@ implies after[k]
            == before[k] by {
            assert(!holds(before, k, user@) || found is Some);
        }
        assert forall|k: int| holds(after, k, user@) implies after[k].score == score by {
            if k < before.len() && found is None {
                assert(!holds(before, k, user@));
            }
        }
        assert forall|k: int, l: int|
            0 <= k < after.len() && 0 <= l < after.len() && #[trigger] after[k].user@
                == #[trigger] after[l].user@ implies k == l by {
            if found is None {
                assert(!holds(before, k, user@));
                assert(!holds(before, l, user@));
            }
            if k < before.len() && l < before.len() {
                assert(before[k].user@ == after[k].user@);
                assert(before[l].user@ == after[l].user@);
            }
        }
        assert forall|u: Seq<char>| entries_map(after).dom().contains(u) <==> (u == user@
            || entries_map(before).dom().contains(u)) by {
            if entries_map(after).dom().contains(u) && u != user@ {
                let k = choose|k: int| holds(after, k, u);
                assert(holds(before, k, u));
            }
            if entries_map(before).dom().contains(u) {
                let k = choose|k: int| holds(before, k, u);
                assert(holds(after, k, u));
            }
            if u == user@ {
                let k: int = match found {
                    Some(i) => i as int,
                    None => before.len() as int,
                };
                assert(holds(after, k, u));
            }
        }
        assert forall|u: Seq<char>| entries_map(after).dom().contains(u) implies entries_map(
            after,
        )[u] == entries_map(before).insert(user@, score)[u] by {
            let k = choose|k: int| holds(after, k, u);
            assert(holds(after, k, u));
            lemma_entry_decides(after, k);
            if u != user@ {
                assert(holds(before, k, u));
                lemma_entry_decides(before, k);
            }
        }
        assert(entries_map(after) =~= entries_map(before).insert(user@, score));
    }
}

} // verus!
