use scoreboard::addr::Addr;
use scoreboard::contract::{
    execute, instantiate, query, query_owner, query_score, try_update_score,
};
use scoreboard::error::ContractError;
use scoreboard::host::{Attribute, MessageInfo, Response};
use scoreboard::msg::{ExecuteMsg, InstantiateMsg, QueryMsg, QueryResponse, ScoreResponse};
use scoreboard::state::{State, Store};
use scoreboard::text::same_text;

fn from(sender: &str) -> MessageInfo {
    MessageInfo { sender: Addr::unchecked(sender) }
}

fn board_of(owner: &str) -> Store {
    let mut store = Store::new();
    instantiate(&mut store, from(owner), InstantiateMsg {}).unwrap();
    store
}

fn update(store: &mut Store, caller: &str, user: &str, score: u32) -> Result<Response, ContractError> {
    let msg = ExecuteMsg::UpdateScore { user: Addr::unchecked(user), score };
    execute(store, from(caller), msg)
}

fn score(store: &Store, user: &str) -> u32 {
    query_score(store, user.to_string()).unwrap().score
}

fn owner(store: &Store) -> String {
    query_owner(store).unwrap().owner.into_string()
}

#[test]
fn instantiate_answers_with_an_empty_response() {
    let mut store = Store::new();
    let res = instantiate(&mut store, from("creator"), InstantiateMsg {}).unwrap();
    assert!(res.messages.is_empty());
    assert!(res.attributes.is_empty());
    assert_eq!(res, Response::default());
}

#[test]
fn instantiate_leaves_scores_alone() {
    let mut store = Store::new();
    store.save_score("alice".to_string(), 7);
    instantiate(&mut store, from("creator"), InstantiateMsg {}).unwrap();
    assert_eq!(owner(&store), "creator");
    assert_eq!(score(&store, "alice"), 7);
}

#[test]
fn owner_survives_every_later_call() {
    let mut store = board_of("creator");
    update(&mut store, "creator", "alice", 1).unwrap();
    assert_eq!(owner(&store), "creator");
    assert!(update(&mut store, "mallory", "mallory", 2).is_err());
    assert_eq!(owner(&store), "creator");
    // A score written under the owner's own name is no owner record.
    update(&mut store, "creator", "creator", 3).unwrap();
    assert_eq!(owner(&store), "creator");
    let _ = query(&store, QueryMsg::GetScore { user: "alice".to_string() }).unwrap();
    let _ = query(&store, QueryMsg::GetOwner {}).unwrap();
    assert_eq!(owner(&store), "creator");
}

#[test]
fn update_answers_with_the_method_attribute() {
    let mut store = board_of("creator");
    let res = update(&mut store, "creator", "alice", 10).unwrap();
    assert_eq!(res.messages.len(), 0);
    assert_eq!(
        res.attributes,
        vec![Attribute { key: "method".to_string(), value: "try_update_score".to_string() }]
    );
}

#[test]
fn stranger_is_refused_and_nothing_changes() {
    let mut store = board_of("creator");
    update(&mut store, "creator", "creator", 1120).unwrap();
    let res = update(&mut store, "someone_new", "creator", 500);
    assert_eq!(res, Err(ContractError::Unauthorized {}));
    assert_eq!(score(&store, "creator"), 1120);
    assert_eq!(score(&store, "someone_new"), 0);
    assert_eq!(store.may_load_score("someone_new"), None);
    // The refusal is not held against later calls.
    update(&mut store, "creator", "creator", 500).unwrap();
    assert_eq!(score(&store, "creator"), 500);
}

#[test]
fn stranger_cannot_create_an_entry() {
    let mut store = board_of("creator");
    let res = try_update_score(&mut store, from("mallory"), Addr::unchecked("mallory"), 99);
    assert_eq!(res, Err(ContractError::Unauthorized {}));
    assert_eq!(store.may_load_score("mallory"), None);
}

#[test]
fn caller_is_compared_exactly() {
    let mut store = board_of("creator");
    assert_eq!(update(&mut store, "Creator", "a", 1), Err(ContractError::Unauthorized {}));
    assert_eq!(update(&mut store, "creator ", "a", 1), Err(ContractError::Unauthorized {}));
    assert_eq!(update(&mut store, "creato", "a", 1), Err(ContractError::Unauthorized {}));
    assert_eq!(update(&mut store, "", "a", 1), Err(ContractError::Unauthorized {}));
    assert_eq!(score(&store, "a"), 0);
    assert!(update(&mut store, "creator", "a", 1).is_ok());
    assert_eq!(score(&store, "a"), 1);
}

#[test]
fn update_before_instantiation_is_uninitialized() {
    let mut store = Store::new();
    let res = update(&mut store, "creator", "creator", 5);
    assert_eq!(res, Err(ContractError::Uninitialized {}));
    assert_eq!(score(&store, "creator"), 0);
    assert_eq!(store.may_load_score("creator"), None);
}

#[test]
fn owner_query_before_instantiation_is_uninitialized() {
    let store = Store::new();
    assert_eq!(query_owner(&store).err(), Some(ContractError::Uninitialized {}));
    assert_eq!(
        query(&store, QueryMsg::GetOwner {}).err(),
        Some(ContractError::Uninitialized {})
    );
}

#[test]
fn score_query_needs_no_owner() {
    let store = Store::new();
    assert_eq!(
        query(&store, QueryMsg::GetScore { user: "anyone".to_string() }),
        Ok(QueryResponse::Score(ScoreResponse { score: 0 }))
    );
}

#[test]
fn unknown_user_reads_zero() {
    let mut store = board_of("creator");
    assert_eq!(score(&store, "alice"), 0);
    update(&mut store, "creator", "bob", 9).unwrap();
    update(&mut store, "creator", "carol", 8).unwrap();
    assert_eq!(score(&store, "alice"), 0);
    assert_eq!(score(&store, ""), 0);
}

#[test]
fn stored_zero_reads_like_no_entry() {
    let mut store = board_of("creator");
    update(&mut store, "creator", "alice", 0).unwrap();
    assert_eq!(score(&store, "alice"), 0);
    assert_eq!(score(&store, "bob"), 0);
    assert_eq!(store.may_load_score("alice"), Some(0));
    assert_eq!(store.may_load_score("bob"), None);
}

#[test]
fn second_write_replaces_the_first() {
    let mut store = board_of("creator");
    update(&mut store, "creator", "alice", 100).unwrap();
    update(&mut store, "creator", "alice", 200).unwrap();
    assert_eq!(score(&store, "alice"), 200);
    // Downwards too.
    update(&mut store, "creator", "alice", 50).unwrap();
    assert_eq!(score(&store, "alice"), 50);
    // And over a stored zero, and back to zero.
    update(&mut store, "creator", "alice", 0).unwrap();
    assert_eq!(score(&store, "alice"), 0);
    update(&mut store, "creator", "alice", 3).unwrap();
    assert_eq!(score(&store, "alice"), 3);
}

#[test]
fn writing_the_same_score_twice_keeps_it() {
    let mut store = board_of("creator");
    update(&mut store, "creator", "alice", 42).unwrap();
    update(&mut store, "creator", "alice", 42).unwrap();
    assert_eq!(score(&store, "alice"), 42);
}

#[test]
fn writes_do_not_reach_other_users() {
    let mut store = board_of("creator");
    update(&mut store, "creator", "alice", 1).unwrap();
    update(&mut store, "creator", "bob", 2).unwrap();
    update(&mut store, "creator", "alice", 3).unwrap();
    assert_eq!(score(&store, "alice"), 3);
    assert_eq!(score(&store, "bob"), 2);
    update(&mut store, "creator", "bob", 4).unwrap();
    assert_eq!(score(&store, "alice"), 3);
    assert_eq!(score(&store, "bob"), 4);
    // A name that another name begins with is another user.
    update(&mut store, "creator", "bobby", 5).unwrap();
    update(&mut store, "creator", "bo", 6).unwrap();
    assert_eq!(score(&store, "bob"), 4);
    assert_eq!(score(&store, "bobby"), 5);
    assert_eq!(score(&store, "bo"), 6);
    assert_eq!(score(&store, "Bob"), 0);
}

#[test]
fn largest_score_is_stored() {
    let mut store = board_of("creator");
    update(&mut store, "creator", "alice", u32::MAX).unwrap();
    assert_eq!(score(&store, "alice"), 4294967295);
    update(&mut store, "creator", "alice", 1).unwrap();
    assert_eq!(score(&store, "alice"), 1);
}

#[test]
fn target_need_not_be_the_caller() {
    let mut store = board_of("creator");
    update(&mut store, "creator", "new_human", 456).unwrap();
    assert_eq!(score(&store, "new_human"), 456);
    assert_eq!(score(&store, "creator"), 0);
}

#[test]
fn many_users_keep_their_scores() {
    let mut store = board_of("creator");
    for i in 0..50u32 {
        update(&mut store, "creator", &format!("user{}", i), i + 1).unwrap();
    }
    for i in 0..50u32 {
        if i % 2 == 0 {
            update(&mut store, "creator", &format!("user{}", i), 1000 + i).unwrap();
        }
    }
    for i in 0..50u32 {
        let expected = if i % 2 == 0 { 1000 + i } else { i + 1 };
        assert_eq!(score(&store, &format!("user{}", i)), expected);
    }
    assert_eq!(score(&store, "user50"), 0);
}

#[test]
fn store_starts_empty() {
    let store = Store::new();
    assert!(store.may_load_state().is_none());
    assert_eq!(store.may_load_score("creator"), None);
}

#[test]
fn store_keeps_the_last_owner_record_written() {
    let mut store = Store::new();
    store.save_state(State { owner: Addr::unchecked("first") });
    assert_eq!(store.may_load_state().unwrap().owner.as_str(), "first");
    store.save_state(State { owner: Addr::unchecked("second") });
    assert_eq!(store.may_load_state().unwrap().owner.as_str(), "second");
}

#[test]
fn store_overwrites_and_appends() {
    let mut store = Store::new();
    store.save_score("a".to_string(), 1);
    store.save_score("b".to_string(), 2);
    store.save_score("a".to_string(), 3);
    assert_eq!(store.may_load_score("a"), Some(3));
    assert_eq!(store.may_load_score("b"), Some(2));
    assert_eq!(store.may_load_score("c"), None);
    assert!(store.may_load_state().is_none());
}

#[test]
fn addr_keeps_its_text() {
    let addr = Addr::unchecked("Creator-1");
    assert_eq!(addr.as_str(), "Creator-1");
    assert_eq!(addr.clone().into_string(), "Creator-1".to_string());
    assert_eq!(addr, Addr::unchecked("Creator-1"));
    assert_ne!(addr, Addr::unchecked("creator-1"));
    assert_ne!(addr, Addr::unchecked("Creator-"));
}

#[test]
fn response_collects_attributes_in_order() {
    let res = Response::new().add_attribute("a", "1").add_attribute("b", "2");
    assert_eq!(res.messages.len(), 0);
    assert_eq!(
        res.attributes,
        vec![
            Attribute { key: "a".to_string(), value: "1".to_string() },
            Attribute { key: "b".to_string(), value: "2".to_string() },
        ]
    );
}

#[test]
fn same_text_compares_every_character() {
    assert!(same_text("", ""));
    assert!(same_text("creator", "creator"));
    assert!(!same_text("creator", "creatoR"));
    assert!(!same_text("creator", "creato"));
    assert!(!same_text("creato", "creator"));
    assert!(!same_text("", "x"));
    assert!(!same_text("abc", "abd"));
    assert!(!same_text("xbc", "abc"));
}

#[test]
fn same_text_tells_texts_of_many_bytes_apart() {
    assert!(same_text("zo\u{eb}", "zo\u{eb}"));
    assert!(!same_text("zo\u{eb}", "zo\u{e9}"));
    assert!(!same_text("zo\u{eb}", "zoe"));
    assert!(same_text("\u{1f600}", "\u{1f600}"));
    assert!(!same_text("\u{1f600}", "\u{1f601}"));
}

#[test]
fn users_with_names_beyond_ascii() {
    let mut store = board_of("creator");
    update(&mut store, "creator", "zo\u{eb}", 11).unwrap();
    update(&mut store, "creator", "zo\u{e9}", 12).unwrap();
    assert_eq!(score(&store, "zo\u{eb}"), 11);
    assert_eq!(score(&store, "zo\u{e9}"), 12);
    assert_eq!(score(&store, "zoe"), 0);
}
