use vstd::prelude::*;

use crate::state::{
    count_answer, init_state, message_answer, send_transition, MessageModel, StateModel,
};

verus! {

/// One `SendMessage` call, as its model: who sent it, the text, and the
/// millisecond timestamp the host reported for it.
pub struct SendEvent {
    pub sender: Seq<char>,
    pub text: Seq<char>,
    pub timestamp: int,
}

/// The message that one send appends to the log.
pub open spec fn sent_message(e: SendEvent) -> MessageModel {
    MessageModel { sender: e.sender, message: e.text, timestamp: e.timestamp }
}

/// The state after a sequence of `SendMessage` calls, applied in order.
pub open spec fn apply_sends(s: StateModel, events: Seq<SendEvent>) -> StateModel
    decreases events.len(),
{
    if events.len() == 0 {
        s
    } else {
        apply_sends(
            send_transition(s, events[0].sender, events[0].text, events[0].timestamp),
            events.drop_first(),
        )
    }
}

/// After a sequence of sends the counter has gone up by exactly the number
/// of sends, the owner is unchanged, and the log holds the old messages
/// followed by the sent ones, in send order.
pub proof fn lemma_apply_sends(s: StateModel, events: Seq<SendEvent>)
    ensures
        apply_sends(s, events).count == s.count + events.len(),
        apply_sends(s, events).owner == s.owner,
        apply_sends(s, events).messages.len() == s.messages.len() + events.len(),
        forall|i: int|
            0 <= i < s.messages.len() ==> apply_sends(s, events).messages[i] == s.messages[i],
        forall|i: int|
            0 <= i < events.len() ==> apply_sends(s, events).messages[s.messages.len() + i]
                == sent_message(events[i]),
    decreases events.len(),
{
    if events.len() > 0 {
        let s1 = send_transition(s, events[0].sender, events[0].text, events[0].timestamp);
        let rest = events.drop_first();
        lemma_apply_sends(s1, rest);
        assert forall|i: int|
            0 <= i < s.messages.len() implies apply_sends(s, events).messages[i]
            == s.messages[i] by {
            assert(apply_sends(s1, rest).messages[i] == s1.messages[i]);
            assert(s1.messages[i] == s.messages[i]);
        }
        assert forall|i: int|
            0 <= i < events.len() implies apply_sends(s, events).messages[s.messages.len() + i]
            == sent_message(events[i]) by {
            if i == 0 {
                assert(apply_sends(s, events).messages[s.messages.len() as int]
                    == s1.messages[s.messages.len() as int]);
            } else {
                assert(rest[i - 1] == events[i]);
                assert(apply_sends(s1, rest).messages[s1.messages.len() + (i - 1)]
                    == sent_message(rest[i - 1]));
            }
        }
    }
}

/// Instantiating with count `c` and then asking `GetCount` answers `c`.
pub proof fn lemma_instantiate_then_count(c: int, owner: Seq<char>)
    ensures
        count_answer(init_state(c, owner)) == c,
{
}

/// After instantiating with count `c0` and any sequence of `n` sends,
/// `GetCount` answers `c0 + n`.
pub proof fn lemma_count_after_sends(c0: int, owner: Seq<char>, events: Seq<SendEvent>)
    ensures
        count_answer(apply_sends(init_state(c0, owner), events)) == c0 + events.len(),
{
    lemma_apply_sends(init_state(c0, owner), events);
}

/// After instantiating and then `n` sends, `GetMessage` at any index
/// `i < n` answers the text of the `i`-th send, in send order.
pub proof fn lemma_message_after_sends(c0: int, owner: Seq<char>, events: Seq<SendEvent>, i: int)
    requires
        0 <= i < events.len(),
    ensures
        message_answer(apply_sends(init_state(c0, owner), events), i) == events[i].text,
{
    lemma_apply_sends(init_state(c0, owner), events);
}

/// After instantiating and then `n` sends — on a freshly instantiated
/// contract too, where `n` is zero — `GetMessage` at any index `i >= n`
/// answers the sentinel `"Invalid Index"`.
pub proof fn lemma_message_out_of_bounds(c0: int, owner: Seq<char>, events: Seq<SendEvent>, i: int)
    requires
        i >= events.len(),
    ensures
        message_answer(apply_sends(init_state(c0, owner), events), i) == "Invalid Index"@,
{
    lemma_apply_sends(init_state(c0, owner), events);
}

/// Queries answer as a function of the state alone and leave it unchanged
/// (they take the state by shared reference): repeated identical queries on
/// an unchanged state give identical results.
pub proof fn lemma_queries_repeatable(s1: StateModel, s2: StateModel, i: int)
    requires
        s1 == s2,
    ensures
        count_answer(s1) == count_answer(s2),
        message_answer(s1, i) == message_answer(s2, i),
{
}

} // verus!
