use vstd::prelude::*;

verus! {

/// The instantiate message: the initial value of the counter.
#[derive(Clone, Debug, PartialEq)]
pub struct InstantiateMsg {
    pub count: i32,
}

/// The execute messages. The single variant appends one message to the log.
#[derive(Clone, Debug, PartialEq)]
pub enum ExecuteMsg {
    SendMessage { message: String },
}

/// The query messages: read the counter, or read one message's text by
/// its index in the log.
#[derive(Clone, Debug, PartialEq)]
pub enum QueryMsg {
    GetCount {},
    GetMessage { index: u64 },
}

/// The answer to `GetCount`.
#[derive(Clone, Debug, PartialEq)]
pub struct GetCountResponse {
    pub count: i32,
}

/// The answer to `GetMessage`. Only the text is exposed: sender and
/// timestamp stay inside the state record.
#[derive(Clone, Debug, PartialEq)]
pub struct GetMessageResponse {
    pub message: String,
}

/// The answer to a query, one variant per query message.
#[derive(Clone, Debug, PartialEq)]
pub enum QueryAnswer {
    Count(GetCountResponse),
    Message(GetMessageResponse),
}

} // verus!
