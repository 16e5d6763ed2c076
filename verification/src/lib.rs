//! A score board with a single owner.
//!
//! The board keeps one owner record and a mapping from user identities to
//! scores. Only the owner may write scores; anybody may read them. The
//! persistent state is an explicit [`state::Store`] value that every handler
//! receives by reference.

pub mod addr;
pub mod contract;
pub mod error;
pub mod history;
pub mod host;
pub mod msg;
pub mod state;
pub mod text;
