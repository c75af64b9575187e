use vstd::prelude::*;

use crate::message::{messages_view, MessageModel, OpenAIMessage};

verus! {

/// The conversation without its last two entries, or empty when it has fewer.
pub open spec fn undone(h: Seq<MessageModel>) -> Seq<MessageModel> {
    if h.len() >= 2 {
        h.subrange(0, h.len() - 2)
    } else {
        seq![]
    }
}

/// Forgets the whole conversation.
pub fn clear_history(history: &mut Vec<OpenAIMessage>)
    ensures
        final(history)@.len() == 0,
{
    history.clear();
}

/// Forgets the last two entries of the conversation, or all of them when there
/// are fewer.
pub fn undo_last_exchange(history: &mut Vec<OpenAIMessage>)
    ensures
        messages_view(final(history)@) == undone(messages_view(old(history)@)),
        final(history)@.len() == if old(history)@.len() >= 2 {
            old(history)@.len() - 2
        } else {
            0
        },
{
    let n = history.len();
    if n >= 2 {
        history.truncate(n - 2);
    } else {
        history.clear();
    }
    assert(messages_view(history@) =~= undone(messages_view(old(history)@)));
}

} // verus!
