//! Messages of the subject-addressed channel, and how a request on it ends.

use vstd::prelude::*;
use vstd::string::*;

verus! {

/// Longest time, in seconds, to wait for the reply to a message.
pub const REPLY_TIMEOUT_SECS: u64 = 60;

/// A message on the channel.
#[derive(Clone, Debug, PartialEq, Eq)]
pub struct WSMessage {
    /// Subject the message is addressed to.
    pub sub: String,
    pub payload: Option<String>,
    /// Subject on which the sender awaits the reply, if it awaits one.
    pub reply_sub: Option<String>,
    pub error: Option<String>,
}

/// How the wait for a reply ended.
#[derive(Debug, PartialEq, Eq)]
pub enum ReplyWait {
    /// The reply arrived.
    Received(WSMessage),
    /// The channel was closed before any reply.
    Closed,
    /// The time ran out.
    TimedOut,
}

/// Whether `message` is the stand-in result of a send that awaits no reply.
pub open spec fn is_no_reply(message: WSMessage) -> bool {
    &&& message.sub@ == "NoReplyExpected"@
    &&& message.payload is None
    &&& message.reply_sub is None
    &&& message.error is None
}

/// What a send hands back once `message` is on its way: `None` when a reply
/// has to be awaited on `reply_sub`, else the stand-in result.
pub fn sent_without_reply(message: &WSMessage) -> (done: Option<WSMessage>)
    ensures
        done is None <==> message.reply_sub is Some,
        done matches Some(m) ==> is_no_reply(m),
{
    match message.reply_sub {
        Some(_) => None,
        None => Some(
            WSMessage {
                sub: String::from_str("NoReplyExpected"),
                payload: None,
                reply_sub: None,
                error: None,
            },
        ),
    }
}

/// The result of a request from how its wait ended: the reply itself, or the
/// reason why there is none.
pub fn settle(wait: ReplyWait) -> (result: Result<WSMessage, String>)
    ensures
        match wait {
            ReplyWait::Received(reply) => result == Ok::<WSMessage, String>(reply),
            ReplyWait::Closed => result matches Err(e) && e@
                == "Reply channel closed unexpectedly"@,
            ReplyWait::TimedOut => result matches Err(e) && e@ == "Timeout waiting for reply"@,
        },
{
    match wait {
        ReplyWait::Received(reply) => Ok(reply),
        ReplyWait::Closed => Err(String::from_str("Reply channel closed unexpectedly")),
        ReplyWait::TimedOut => Err(String::from_str("Timeout waiting for reply")),
    }
}

} // verus!
