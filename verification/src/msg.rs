//! The messages that the handlers take, and the answers to queries.

use vstd::prelude::*;
use crate::addr::Addr;

verus! {

/// The message of instantiation. It has nothing to say.
#[derive(Debug, Clone, PartialEq, Eq)]
pub struct InstantiateMsg {}

/// The commands.
#[derive(Debug, Clone, PartialEq, Eq)]
pub enum ExecuteMsg {
    /// Set the score of `user` to `score`.
    UpdateScore { user: Addr, score: u32 },
}

/// The queries.
#[derive(Debug, Clone, PartialEq, Eq)]
pub enum QueryMsg {
    /// Who owns the board?
    GetOwner {},
    /// What is the score of `user`?
    GetScore { user: String },
}

/// The answer to [`QueryMsg::GetOwner`].
#[derive(Debug, Clone, PartialEq, Eq)]
pub struct OwnerResponse {
    pub owner: Addr,
}

/// The answer to [`QueryMsg::GetScore`].
#[derive(Debug, Clone, PartialEq, Eq)]
pub struct ScoreResponse {
    pub score: u32,
}

/// The answer to a query, before it is encoded for the host.
#[derive(Debug, Clone, PartialEq, Eq)]
pub enum QueryResponse {
    Owner(OwnerResponse),
    Score(ScoreResponse),
}

} // verus!
