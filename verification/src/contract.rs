use vstd::prelude::*;
use vstd::string::StringExecFns;

use crate::msg::{
    ExecuteMsg, GetCountResponse, GetMessageResponse, InstantiateMsg, QueryAnswer, QueryMsg,
};
use crate::state::{
    count_answer, init_state, message_answer, send_transition, Message, MessageModel, State,
    StateModel,
};

verus! {

/// What one execute message does to the state. The single variant appends
/// the message and increments the counter; the recorded timestamp is the
/// block time converted from seconds to milliseconds.
pub open spec fn execute_transition(
    s: StateModel,
    sender: Seq<char>,
    msg: ExecuteMsg,
    time_seconds: u64,
) -> StateModel {
    match msg {
        ExecuteMsg::SendMessage { message } => send_transition(
            s,
            sender,
            message@,
            time_seconds * 1000,
        ),
    }
}

/// Creates the contract state: the counter starts at `msg.count`, the caller
/// becomes the owner, and the message log is empty. Persisting the record
/// and emitting the observability attributes are the host shim's part.
pub fn instantiate(msg: InstantiateMsg, sender: String) -> (st: State)
    ensures
        st@ == init_state(msg.count as int, sender@),
{
    let st = State { count: msg.count, owner: sender, messages: Vec::new() };
    proof {
        assert(st@.messages =~= init_state(msg.count as int, sender@).messages);
    }
    st
}

/// Appends one message to the log and increments the counter. This is the
/// modify step of the one load-modify-store that a send performs; the host
/// shim loads the record before and stores it after.
pub fn try_send_message(state: &mut State, sender: String, message: String, time_seconds: u64)
    requires
        old(state).count < i32::MAX,
        time_seconds <= u64::MAX / 1000,
    ensures
        final(state)@ == send_transition(old(state)@, sender@, message@, time_seconds * 1000),
{
    let timestamp: u64 = time_seconds * 1000;
    let new_msg = Message { sender: sender, message: message, timestamp: timestamp };
    let ghost mv = new_msg@;
    state.count = state.count + 1;
    state.messages.push(new_msg);
    proof {
        assert(state@.messages =~= old(state)@.messages.push(mv));
    }
}

/// Applies one execute message to the state: dispatches to the send handler.
pub fn execute(state: &mut State, sender: String, time_seconds: u64, msg: ExecuteMsg)
    requires
        old(state).count < i32::MAX,
        time_seconds <= u64::MAX / 1000,
    ensures
        final(state)@ == execute_transition(old(state)@, sender@, msg, time_seconds),
{
    match msg {
        ExecuteMsg::SendMessage { message } => try_send_message(state, sender, message, time_seconds),
    }
}

/// Answers `GetCount`: the current value of the counter.
pub fn query_count(state: &State) -> (r: GetCountResponse)
    ensures
        r.count as int == count_answer(state@),
{
    GetCountResponse { count: state.count }
}

/// Answers `GetMessage`: the text of the message at `index`, or the literal
/// string `"Invalid Index"` when no message has that index. An out-of-bounds
/// index is answered with the sentinel, never refused.
pub fn query_message(state: &State, index: u64) -> (r: GetMessageResponse)
    ensures
        r.message@ == message_answer(state@, index as int),
{
    let n = state.messages.len();
    if index < n as u64 {
        let i = index as usize;
        GetMessageResponse { message: state.messages[i].message.clone() }
    } else {
        GetMessageResponse { message: String::from_str("Invalid Index") }
    }
}

/// Dispatches one query message. Queries take the state by shared reference
/// and so cannot change it; each answer is a function of the state alone.
pub fn query(state: &State, msg: QueryMsg) -> (ans: QueryAnswer)
    ensures
        (match msg {
            QueryMsg::GetCount {} => ans matches QueryAnswer::Count(r)
                && r.count as int == count_answer(state@),
            QueryMsg::GetMessage { index } => ans matches QueryAnswer::Message(r)
                && r.message@ == message_answer(state@, index as int),
        }),
{
    match msg {
        QueryMsg::GetCount {} => QueryAnswer::Count(query_count(state)),
        QueryMsg::GetMessage { index } => QueryAnswer::Message(query_message(state, index)),
    }
}

} // verus!
