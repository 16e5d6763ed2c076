//! The handlers: instantiation, the one command, and the queries.

use vstd::prelude::*;
use crate::addr::Addr;
use crate::error::ContractError;
use crate::host::{MessageInfo, Response, ResponseView};
use crate::msg::{ExecuteMsg, InstantiateMsg, OwnerResponse, QueryMsg, QueryResponse, ScoreResponse};
use crate::state::{State, Store, StoreView};

verus! {

/// What `UpdateScore(user, score)` by `caller` does to `store`: the store
/// after the write, or the reason why nothing is written.
///
/// Without an owner record the call fails as uninitialized. A caller other
/// than the owner is refused. For the owner, `score` is written under `user`,
/// whatever was there before.
pub open spec fn update_score_spec(
    store: StoreView,
    caller: Seq<char>,
    user: Seq<char>,
    score: u32,
) -> Result<StoreView, ContractError> {
    match store.owner {
        None => Err(ContractError::Uninitialized {  }),
        Some(owner) => if owner == caller {
            Ok(store.with_score(user, score))
        } else {
            Err(ContractError::Unauthorized {  })
        },
    }
}

/// The store after `UpdateScore(user, score)` by `caller`, whether the call
/// succeeded or not: a call that fails leaves the store as it was.
pub open spec fn after_update_score(
    store: StoreView,
    caller: Seq<char>,
    user: Seq<char>,
    score: u32,
) -> StoreView {
    match update_score_spec(store, caller, user, score) {
        Ok(next) => next,
        Err(_) => store,
    }
}

/// The response to a successful `UpdateScore`: no message, and the one
/// attribute `method` = `try_update_score`.
pub open spec fn update_score_response() -> ResponseView {
    ResponseView::empty().with_attribute("method"@, "try_update_score"@)
}

/// Records the caller as the owner. The scores stay as they are.
///
/// The host calls this once, before any other handler.
pub fn instantiate(store: &mut Store, info: MessageInfo, _msg: InstantiateMsg) -> (res: Result<
    Response,
    ContractError,
>)
    ensures
        final(store)@ == old(store)@.with_owner(info.sender@),
        res is Ok,
        res->Ok_0@ == ResponseView::empty(),
{
    let state = State { owner: info.sender.clone() };
    store.save_state(state);
    Ok(Response::default())
}

/// Carries out a command.
pub fn execute(store: &mut Store, info: MessageInfo, msg: ExecuteMsg) -> (res: Result<
    Response,
    ContractError,
>)
    ensures
        match msg {
            ExecuteMsg::UpdateScore { user, score } => {
                &&& final(store)@ == after_update_score(old(store)@, info.sender@, user@, score)
                &&& match update_score_spec(old(store)@, info.sender@, user@, score) {
                    Ok(_) => res is Ok && res->Ok_0@ == update_score_response(),
                    Err(e) => res is Err && res->Err_0 == e,
                }
            },
        },
{
    match msg {
        ExecuteMsg::UpdateScore { user, score } => try_update_score(store, info, user, score),
    }
}

/// Sets the score of `user` to `score`, if the caller is the owner.
///
/// The call succeeds exactly when the store has an owner record and the
/// caller is that owner. Then the entry of `user` holds `score`, whether or
/// not it held a score before, and no other entry has changed. A call that
/// fails changes nothing.
pub fn try_update_score(store: &mut Store, info: MessageInfo, user: Addr, score: u32) -> (res:
    Result<Response, ContractError>)
    ensures
        res is Ok <==> old(store)@.owner == Some(info.sender@),
        res is Ok ==> final(store)@ == old(store)@.with_score(user@, score),
        res is Ok ==> res->Ok_0@ == update_score_response(),
        res is Err ==> final(store)@ == old(store)@,
        res is Err ==> res->Err_0 == if old(store)@.owner is None {
            ContractError::Uninitialized {  }
        } else {
            ContractError::Unauthorized {  }
        },
        final(store)@ == after_update_score(old(store)@, info.sender@, user@, score),
        match update_score_spec(old(store)@, info.sender@, user@, score) {
            Ok(_) => res is Ok,
            Err(e) => res is Err && res->Err_0 == e,
        },
{
    let authorized = match store.may_load_state() {
        None => {
            return Err(ContractError::Uninitialized {  });
        },
        Some(state) => info.sender == state.owner,
    };
    if !authorized {
        return Err(ContractError::Unauthorized {  });
    }
    store.save_score(user.into_string(), score);
    Ok(Response::new().add_attribute("method", "try_update_score"))
}

/// Answers a query. The store is only read.
pub fn query(store: &Store, msg: QueryMsg) -> (res: Result<QueryResponse, ContractError>)
    ensures
        match msg {
            QueryMsg::GetOwner {  } => match store@.owner {
                Some(owner) => res matches Ok(QueryResponse::Owner(answer)) && answer.owner@
                    == owner,
                None => res == Err::<QueryResponse, ContractError>(
                    ContractError::Uninitialized {  },
                ),
            },
            QueryMsg::GetScore { user } => res == Ok::<QueryResponse, ContractError>(
                QueryResponse::Score(ScoreResponse { score: store@.score_of(user@) }),
            ),
        },
{
    match msg {
        QueryMsg::GetOwner {  } => match query_owner(store) {
            Ok(answer) => Ok(QueryResponse::Owner(answer)),
            Err(e) => Err(e),
        },
        QueryMsg::GetScore { user } => match query_score(store, user) {
            Ok(answer) => Ok(QueryResponse::Score(answer)),
            Err(e) => Err(e),
        },
    }
}

/// The owner, or the failure `Uninitialized` where none was recorded.
pub fn query_owner(store: &Store) -> (res: Result<OwnerResponse, ContractError>)
    ensures
        match store@.owner {
            Some(owner) => res is Ok && res->Ok_0.owner@ == owner,
            None => res == Err::<OwnerResponse, ContractError>(ContractError::Uninitialized {  }),
        },
{
    match store.may_load_state() {
        Some(state) => Ok(OwnerResponse { owner: state.owner.clone() }),
        None => Err(ContractError::Uninitialized {  }),
    }
}

/// The score of `user`: the stored one, or 0 for a user without an entry.
/// This never fails.
pub fn query_score(store: &Store, user: String) -> (res: Result<ScoreResponse, ContractError>)
    ensures
        res == Ok::<ScoreResponse, ContractError>(ScoreResponse { score: store@.score_of(user@) }),
{
    let score = match store.may_load_score(user.as_str()) {
        Some(score) => score,
        None => 0,
    };
    Ok(ScoreResponse { score })
}

} // verus!
