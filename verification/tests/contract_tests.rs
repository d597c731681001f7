use hello_world::contract::{execute, instantiate, query, query_count, query_message, try_send_message};
use hello_world::msg::{ExecuteMsg, GetCountResponse, GetMessageResponse, InstantiateMsg, QueryAnswer, QueryMsg};
use hello_world::state::State;

const MOCK_TIME_SECONDS: u64 = 1_571_797_419;

fn instantiated(count: i32, sender: &str) -> State {
    instantiate(InstantiateMsg { count }, String::from(sender))
}

fn count_of(state: &State) -> i32 {
    match query(state, QueryMsg::GetCount {}) {
        QueryAnswer::Count(GetCountResponse { count }) => count,
        other => panic!("GetCount answered {:?}", other),
    }
}

fn message_of(state: &State, index: u64) -> String {
    match query(state, QueryMsg::GetMessage { index }) {
        QueryAnswer::Message(GetMessageResponse { message }) => message,
        other => panic!("GetMessage answered {:?}", other),
    }
}

#[test]
fn proper_initialization() {
    let state = instantiated(17, "creator");

    // the log starts empty
    assert_eq!(0, state.messages.len());

    // it worked, let's query the state
    let value = query_count(&state);
    assert_eq!(17, value.count);
}

#[test]
fn send_message() {
    let mut state = instantiated(0, "creator");

    // Calling GetMessage on an invalid index returns the string "Invalid Index"
    let value = query_message(&state, 0);
    assert_eq!(String::from("Invalid Index"), value.message);

    // Execute SendMessage("Hello, World!")
    let msg = ExecuteMsg::SendMessage { message: String::from("Hello, World!") };
    execute(&mut state, String::from("anyone"), MOCK_TIME_SECONDS, msg);

    // should increase counter by 1
    let value = query_count(&state);
    assert_eq!(1, value.count);

    let value = query_message(&state, 0);
    assert_eq!(String::from("Hello, World!"), value.message);
}

#[test]
fn hello_world() {
    let mut state = instantiated(0, "ADMIN");

    let msg = ExecuteMsg::SendMessage { message: String::from("Hello, World!") };
    execute(&mut state, String::from("USER"), MOCK_TIME_SECONDS, msg);
}

#[test]
fn count_follows_number_of_sends() {
    let mut state = instantiated(5, "creator");
    for i in 0..3u64 {
        let msg = ExecuteMsg::SendMessage { message: format!("message {}", i) };
        execute(&mut state, String::from("anyone"), MOCK_TIME_SECONDS, msg);
    }
    assert_eq!(8, count_of(&state));
}

#[test]
fn count_starts_negative() {
    let state = instantiated(-4, "creator");
    assert_eq!(-4, count_of(&state));
}

#[test]
fn messages_kept_in_send_order() {
    let mut state = instantiated(0, "creator");
    let texts = ["first", "second", "third"];
    for text in texts {
        let msg = ExecuteMsg::SendMessage { message: String::from(text) };
        execute(&mut state, String::from("anyone"), MOCK_TIME_SECONDS, msg);
    }
    for (i, text) in texts.iter().enumerate() {
        assert_eq!(String::from(*text), message_of(&state, i as u64));
    }
}

#[test]
fn out_of_bounds_index_answers_sentinel() {
    let mut state = instantiated(0, "creator");
    assert_eq!(String::from("Invalid Index"), message_of(&state, 0));
    assert_eq!(String::from("Invalid Index"), message_of(&state, u64::MAX));

    let msg = ExecuteMsg::SendMessage { message: String::from("only one") };
    execute(&mut state, String::from("anyone"), MOCK_TIME_SECONDS, msg);
    assert_eq!(String::from("only one"), message_of(&state, 0));
    assert_eq!(String::from("Invalid Index"), message_of(&state, 1));
    assert_eq!(String::from("Invalid Index"), message_of(&state, 2));
}

#[test]
fn send_records_sender_and_millisecond_timestamp() {
    let mut state = instantiated(0, "creator");
    try_send_message(&mut state, String::from("alice"), String::from("hi"), 2);
    assert_eq!(1, state.messages.len());
    assert_eq!(String::from("alice"), state.messages[0].sender);
    assert_eq!(String::from("hi"), state.messages[0].message);
    assert_eq!(2000, state.messages[0].timestamp);
    assert_eq!(String::from("creator"), state.owner);
}

#[test]
fn full_scenario() {
    let state = instantiated(17, "creator");
    assert_eq!(17, count_of(&state));

    let mut state = instantiated(0, "creator");
    assert_eq!(String::from("Invalid Index"), message_of(&state, 0));
    let msg = ExecuteMsg::SendMessage { message: String::from("Hello, World!") };
    execute(&mut state, String::from("anyone"), MOCK_TIME_SECONDS, msg);
    assert_eq!(1, count_of(&state));
    assert_eq!(String::from("Hello, World!"), message_of(&state, 0));
}

#[test]
fn repeated_queries_agree_and_leave_state_unchanged() {
    let mut state = instantiated(3, "creator");
    let msg = ExecuteMsg::SendMessage { message: String::from("hello") };
    execute(&mut state, String::from("anyone"), MOCK_TIME_SECONDS, msg);

    let before = state.clone();
    assert_eq!(count_of(&state), count_of(&state));
    assert_eq!(message_of(&state, 0), message_of(&state, 0));
    assert_eq!(message_of(&state, 9), message_of(&state, 9));
    assert_eq!(before, state);
}
