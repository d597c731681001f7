use vstd::prelude::*;

verus! {

/// One entry of the message log: who sent it, its text, and the block time
/// (in milliseconds) at which it was sent. Immutable once appended.
#[derive(Clone, Debug, PartialEq)]
pub struct Message {
    pub sender: String,
    pub message: String,
    pub timestamp: u64,
}

/// The single persisted record of the contract: the counter, the address
/// that instantiated the contract, and the append-only message log.
#[derive(Clone, Debug, PartialEq)]
pub struct State {
    pub count: i32,
    pub owner: String,
    pub messages: Vec<Message>,
}

/// Mathematical model of a `Message`.
pub struct MessageModel {
    pub sender: Seq<char>,
    pub message: Seq<char>,
    pub timestamp: int,
}

/// Mathematical model of the contract `State`.
pub struct StateModel {
    pub count: int,
    pub owner: Seq<char>,
    pub messages: Seq<MessageModel>,
}

impl View for Message {
    type V = MessageModel;

    open spec fn view(&self) -> MessageModel {
        MessageModel {
            sender: self.sender@,
            message: self.message@,
            timestamp: self.timestamp as int,
        }
    }
}

impl View for State {
    type V = StateModel;

    open spec fn view(&self) -> StateModel {
        StateModel {
            count: self.count as int,
            owner: self.owner@,
            messages: self.messages@.map(|i: int, m: Message| m@),
        }
    }
}

/// The state that `instantiate` creates: the given count, the caller as
/// owner, and an empty message log.
pub open spec fn init_state(count: int, owner: Seq<char>) -> StateModel {
    StateModel { count: count, owner: owner, messages: Seq::empty() }
}

/// The state after one successful `SendMessage`: the counter goes up by one
/// and exactly one message is appended at the end of the log.
pub open spec fn send_transition(
    s: StateModel,
    sender: Seq<char>,
    text: Seq<char>,
    timestamp: int,
) -> StateModel {
    StateModel {
        count: s.count + 1,
        owner: s.owner,
        messages: s.messages.push(
            MessageModel { sender: sender, message: text, timestamp: timestamp },
        ),
    }
}

/// What `GetCount` answers in a given state.
pub open spec fn count_answer(s: StateModel) -> int {
    s.count
}

/// What `GetMessage` answers in a given state: the text of the message at
/// `index`, or the sentinel `"Invalid Index"` when the index is out of
/// bounds of the log.
pub open spec fn message_answer(s: StateModel, index: int) -> Seq<char> {
    if 0 <= index < s.messages.len() {
        s.messages[index].message
    } else {
        "Invalid Index"@
    }
}

} // verus!
