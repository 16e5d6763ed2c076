//! What holds of the board over its whole life, stated over the
//! mathematical store and proved from what the handlers ensure.

use vstd::prelude::*;
use crate::contract::{after_update_score, update_score_spec};
use crate::error::ContractError;
use crate::state::StoreView;

verus! {

/// A call that the host makes once the board is instantiated.
pub enum Call {
    /// The command `UpdateScore(user, score)`, made by `caller`.
    UpdateScore { caller: Seq<char>, user: Seq<char>, score: u32 },
    /// The query for the owner.
    GetOwner,
    /// The query for the score of `user`.
    GetScore { user: Seq<char> },
}

impl Call {
    /// Whether this call is a command that names `user` as its target.
    pub open spec fn targets(self, user: Seq<char>) -> bool {
        match self {
            Call::UpdateScore { user: target, .. } => target == user,
            _ => false,
        }
    }
}

/// The store after one call: a command does what
/// [`after_update_score`] says, a query changes nothing.
pub open spec fn step(store: StoreView, call: Call) -> StoreView {
    match call {
        Call::UpdateScore { caller, user, score } => after_update_score(
            store,
            caller,
            user,
            score,
        ),
        Call::GetOwner => store,
        Call::GetScore { .. } => store,
    }
}

/// The store after the calls of `calls`, made in order from the first.
pub open spec fn run(store: StoreView, calls: Seq<Call>) -> StoreView
    decreases calls.len(),
{
    if calls.len() == 0 {
        store
    } else {
        step(run(store, calls.drop_last()), calls.last())
    }
}

/// Once an owner is recorded, no sequence of calls changes it: after
/// instantiation by `owner`, the owner that a query reads is `owner` for
/// good.
pub proof fn lemma_owner_persists(store: StoreView, owner: Seq<char>, calls: Seq<Call>)
    ensures
        run(store.with_owner(owner), calls).owner == Some(owner),
    decreases calls.len(),
{
    if calls.len() > 0 {
        lemma_owner_persists(store, owner, calls.drop_last());
    }
}

/// No call changes the owner record, whatever it holds.
pub proof fn lemma_step_keeps_owner(store: StoreView, call: Call)
    ensures
        step(store, call).owner == store.owner,
{
}

/// The command writes exactly when the caller is the owner. Any other
/// caller is refused as unauthorized, and the store, its scores included,
/// is what it was.
pub proof fn lemma_only_owner_writes(
    store: StoreView,
    owner: Seq<char>,
    caller: Seq<char>,
    user: Seq<char>,
    score: u32,
)
    requires
        store.owner == Some(owner),
    ensures
        update_score_spec(store, caller, user, score) is Ok <==> caller == owner,
        caller == owner ==> after_update_score(store, caller, user, score) == store.with_score(
            user,
            score,
        ),
        caller != owner ==> update_score_spec(store, caller, user, score) == Err::<
            StoreView,
            ContractError,
        >(ContractError::Unauthorized {  }),
        caller != owner ==> after_update_score(store, caller, user, score) == store,
{
}

/// A user whom no command of `calls` names as its target reads after them
/// as before them.
pub proof fn lemma_untargeted_user_keeps_score(
    store: StoreView,
    calls: Seq<Call>,
    user: Seq<char>,
)
    requires
        forall|i: int| 0 <= i < calls.len() ==> !(#[trigger] calls[i]).targets(user),
    ensures
        run(store, calls).score_of(user) == store.score_of(user),
    decreases calls.len(),
{
    if calls.len() > 0 {
        let earlier = calls.drop_last();
        assert forall|i: int| 0 <= i < earlier.len() implies !(#[trigger] earlier[i]).targets(
            user,
        ) by {
            assert(earlier[i] == calls[i]);
        }
        lemma_untargeted_user_keeps_score(store, earlier, user);
        assert(!calls[calls.len() - 1].targets(user));
        lemma_other_users_keep_score(run(store, earlier), calls.last(), user);
    }
}

/// On a board that starts without scores, a user whom no command ever
/// named as its target has score 0.
pub proof fn lemma_untargeted_user_reads_zero(owner: Seq<char>, calls: Seq<Call>, user: Seq<char>)
    requires
        forall|i: int| 0 <= i < calls.len() ==> !(#[trigger] calls[i]).targets(user),
    ensures
        run(StoreView::empty().with_owner(owner), calls).score_of(user) == 0,
{
    lemma_untargeted_user_keeps_score(StoreView::empty().with_owner(owner), calls, user);
}

/// Of two writes by the owner to one user, the second stands, whether it
/// is larger or smaller than the first.
pub proof fn lemma_last_write_wins(
    store: StoreView,
    owner: Seq<char>,
    user: Seq<char>,
    first: u32,
    second: u32,
)
    requires
        store.owner == Some(owner),
    ensures
        after_update_score(
            after_update_score(store, owner, user, first),
            owner,
            user,
            second,
        ).score_of(user) == second,
{
}

/// A call changes the score of no user but the one it names as its target.
pub proof fn lemma_other_users_keep_score(store: StoreView, call: Call, other: Seq<char>)
    requires
        !call.targets(other),
    ensures
        step(store, call).score_of(other) == store.score_of(other),
{
}

} // verus!
