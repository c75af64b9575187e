use vstd::prelude::*;
use vstd::string::*;

verus! {

/// The mathematical value of a chat message: who spoke, and what was said.
pub struct MessageModel {
    pub role: Seq<char>,
    pub content: Seq<char>,
}

/// The role of a turn typed by the person at the terminal.
pub open spec fn user_role() -> Seq<char> {
    seq!['u', 's', 'e', 'r']
}

/// The role that the remote model gives its replies.
pub open spec fn assistant_role() -> Seq<char> {
    seq!['a', 's', 's', 'i', 's', 't', 'a', 'n', 't']
}

/// One entry of a conversation, as it travels on the wire.
#[derive(Debug, Clone)]
pub struct OpenAIMessage {
    pub role: String,
    pub content: String,
}

impl View for OpenAIMessage {
    type V = MessageModel;

    open spec fn view(&self) -> MessageModel {
        MessageModel { role: self.role@, content: self.content@ }
    }
}

/// The models of a list of messages, in order.
pub open spec fn messages_view(ms: Seq<OpenAIMessage>) -> Seq<MessageModel> {
    ms.map_values(|m: OpenAIMessage| m@)
}

impl OpenAIMessage {
    /// A message with the given role and content.
    pub fn new(role: &str, content: &str) -> (r: OpenAIMessage)
        ensures
            r@ == (MessageModel { role: role@, content: content@ }),
    {
        OpenAIMessage { role: String::from_str(role), content: String::from_str(content) }
    }

    /// A turn of the user, with the given text.
    pub fn user(content: String) -> (r: OpenAIMessage)
        ensures
            r@ == (MessageModel { role: user_role(), content: content@ }),
    {
        proof {
            reveal_strlit("user");
        }
        let role = String::from_str("user");
        assert(role@ =~= user_role());
        OpenAIMessage { role, content }
    }

    /// A copy of the message with the same role and content.
    pub fn duplicate(&self) -> (r: OpenAIMessage)
        ensures
            r@ == self@,
    {
        OpenAIMessage { role: self.role.clone(), content: self.content.clone() }
    }
}

/// A copy of a list of messages, entry for entry.
pub fn copy_messages(ms: &Vec<OpenAIMessage>) -> (r: Vec<OpenAIMessage>)
    ensures
        messages_view(r@) == messages_view(ms@),
{
    let mut r: Vec<OpenAIMessage> = Vec::new();
    let mut i: usize = 0;
    while i < ms.len()
        invariant
            i <= ms@.len(),
            r@.len() == i,
            forall|j: int| 0 <= j < i ==> #[trigger] r@[j]@ == ms@[j]@,
        decreases ms@.len() - i,
    {
        r.push(ms[i].duplicate());
        i = i + 1;
    }
    assert(messages_view(r@) =~= messages_view(ms@));
    r
}

/// One candidate reply of the remote model.
#[derive(Debug)]
pub struct OpenAIChoice {
    pub message: OpenAIMessage,
}

/// What the remote model answered: its candidate replies, in order.
#[derive(Debug)]
pub struct OpenAIResponse {
    pub choices: Vec<OpenAIChoice>,
}

/// The messages of a list of choices, in order.
pub open spec fn choices_view(cs: Seq<OpenAIChoice>) -> Seq<MessageModel> {
    cs.map_values(|c: OpenAIChoice| c.message@)
}

impl View for OpenAIResponse {
    type V = Seq<MessageModel>;

    open spec fn view(&self) -> Seq<MessageModel> {
        choices_view(self.choices@)
    }
}

impl OpenAIResponse {
    /// The message of the first choice, if there is one.
    pub fn first_message(&self) -> (r: Option<&OpenAIMessage>)
        ensures
            self@.len() == 0 <==> r is None,
            r matches Some(m) ==> m@ == self@[0],
    {
        if self.choices.len() == 0 {
            None
        } else {
            Some(&self.choices[0].message)
        }
    }
}

} // verus!
