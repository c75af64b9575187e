use vstd::prelude::*;

use crate::codec::OpenAIRequest;
use crate::error::{description, ChatError};
use crate::history::{clear_history, undo_last_exchange, undone};
use crate::intent::{
    intent_from_trimmed, lemma_commands_distinct, parse_intent, trimmed, UserIntent,
};
use crate::message::{
    assistant_role, copy_messages, messages_view, user_role, MessageModel, OpenAIMessage,
    OpenAIResponse,
};

verus! {

/// The generation settings of a session, fixed when it starts.
///
/// `temperature` and `top_p` hold the text of a JSON number.
#[derive(Debug)]
pub struct GenerationConfig {
    pub model: String,
    pub temperature: String,
    pub max_tokens: i32,
    pub top_p: String,
    pub n: i32,
}

/// One chat session: its settings and the conversation so far.
#[derive(Debug)]
pub struct ChatSession {
    pub config: GenerationConfig,
    pub history: Vec<OpenAIMessage>,
}

/// What the loop around the session does after a line of input.
#[derive(Debug)]
pub enum TurnAction {
    /// End the session.
    Exit,
    /// Read the next line; nothing is sent.
    Continue,
    /// Send this request, then hand its outcome to `finish_turn`.
    Send(OpenAIRequest),
}

/// What the loop around the session shows after an exchange.
#[derive(Debug)]
pub enum TurnOutput {
    /// The reply, as markdown.
    Reply(String),
    /// A one-line notice of what went wrong.
    Failure(String),
    /// Nothing: the response held no choice.
    Silent,
}

/// The user's turn with the text `t`.
pub open spec fn user_turn(t: Seq<char>) -> MessageModel {
    MessageModel { role: user_role(), content: t }
}

/// Whether the trimmed line `t` is a turn to send rather than a command or blank.
pub open spec fn sends(t: Seq<char>) -> bool {
    t != "exit"@ && t != "clear"@ && t != "undo"@ && t.len() > 0
}

/// The conversation after the trimmed line `t` was handled.
pub open spec fn history_after(h: Seq<MessageModel>, t: Seq<char>) -> Seq<MessageModel> {
    if t == "clear"@ {
        seq![]
    } else if t == "undo"@ {
        undone(h)
    } else if sends(t) {
        h.push(user_turn(t))
    } else {
        h
    }
}

/// What an exchange came to: the replies received, or none when it failed.
pub open spec fn outcome_view(o: Result<OpenAIResponse, ChatError>) -> Option<Seq<MessageModel>> {
    match o {
        Ok(resp) => Some(resp@),
        Err(_) => None,
    }
}

/// The conversation after an exchange: the first reply is kept; a failure or an
/// empty list of replies leaves it as it was.
pub open spec fn history_finished(
    h: Seq<MessageModel>,
    replies: Option<Seq<MessageModel>>,
) -> Seq<MessageModel> {
    match replies {
        Some(rs) => if rs.len() > 0 {
            h.push(rs[0])
        } else {
            h
        },
        None => h,
    }
}

/// Whether `req` asks for the conversation `h` with the settings `cfg`.
pub open spec fn is_request_for(req: OpenAIRequest, cfg: GenerationConfig, h: Seq<MessageModel>) -> bool {
    &&& req.model@ == cfg.model@
    &&& messages_view(req.messages@) == h
    &&& req.temperature matches Some(t) && t@ == cfg.temperature@
    &&& req.max_tokens == Some(cfg.max_tokens)
    &&& req.top_p matches Some(p) && p@ == cfg.top_p@
    &&& req.n == Some(cfg.n)
}

impl GenerationConfig {
    /// A copy of the settings.
    pub fn duplicate(&self) -> (r: GenerationConfig)
        ensures
            r == *self,
    {
        GenerationConfig {
            model: self.model.clone(),
            temperature: self.temperature.clone(),
            max_tokens: self.max_tokens,
            top_p: self.top_p.clone(),
            n: self.n,
        }
    }
}

impl ChatSession {
    /// The conversation so far, as models.
    pub open spec fn history_view(&self) -> Seq<MessageModel> {
        messages_view(self.history@)
    }

    /// A session with these settings and no conversation yet.
    pub fn new(config: GenerationConfig) -> (r: ChatSession)
        ensures
            r.config == config,
            r.history@.len() == 0,
    {
        ChatSession { config, history: Vec::new() }
    }

    /// The request for the conversation as it stands.
    pub fn request(&self) -> (r: OpenAIRequest)
        ensures
            is_request_for(r, self.config, self.history_view()),
    {
        OpenAIRequest {
            model: self.config.model.clone(),
            messages: copy_messages(&self.history),
            temperature: Some(self.config.temperature.clone()),
            max_tokens: Some(self.config.max_tokens),
            top_p: Some(self.config.top_p.clone()),
            n: Some(self.config.n),
        }
    }

    /// Carries out what a line asked for. Only a turn to send is sent: it is
    /// appended to the conversation first, and the request holds the whole of it.
    pub fn apply_intent(&mut self, intent: UserIntent) -> (r: TurnAction)
        ensures
            final(self).config == old(self).config,
            r is Exit <==> intent is Exit,
            r is Send <==> intent is SendMessage,
            match intent {
                UserIntent::Exit => final(self).history_view() == old(self).history_view(),
                UserIntent::ClearHistory => final(self).history_view() == Seq::<MessageModel>::empty(),
                UserIntent::Undo => final(self).history_view() == undone(old(self).history_view()),
                UserIntent::Blank => final(self).history_view() == old(self).history_view(),
                UserIntent::SendMessage(t) => final(self).history_view() == old(
                    self,
                ).history_view().push(user_turn(t@)),
            },
            r matches TurnAction::Send(req) ==> is_request_for(
                req,
                final(self).config,
                final(self).history_view(),
            ),
    {
        match intent {
            UserIntent::Exit => TurnAction::Exit,
            UserIntent::ClearHistory => {
                clear_history(&mut self.history);
                assert(self.history_view() =~= Seq::<MessageModel>::empty());
                TurnAction::Continue
            },
            UserIntent::Undo => {
                undo_last_exchange(&mut self.history);
                TurnAction::Continue
            },
            UserIntent::Blank => TurnAction::Continue,
            UserIntent::SendMessage(t) => {
                self.history.push(OpenAIMessage::user(t));
                assert(self.history_view() =~= old(self).history_view().push(user_turn(t@)));
                TurnAction::Send(self.request())
            },
        }
    }

    /// Handles a line that is already trimmed.
    pub fn handle_trimmed(&mut self, t: String) -> (r: TurnAction)
        ensures
            final(self).config == old(self).config,
            final(self).history_view() == history_after(old(self).history_view(), t@),
            r is Exit <==> t@ == "exit"@,
            r is Send <==> sends(t@),
            r matches TurnAction::Send(req) ==> is_request_for(
                req,
                final(self).config,
                final(self).history_view(),
            ),
    {
        let intent = intent_from_trimmed(t);
        proof {
            lemma_commands_distinct();
        }
        self.apply_intent(intent)
    }

    /// Handles one line typed at the prompt: trims it, then carries out what it asks.
    pub fn begin_turn(&mut self, line: &str) -> (r: TurnAction)
        ensures
            final(self).config == old(self).config,
            final(self).history_view() == history_after(old(self).history_view(), trimmed(line@)),
            r is Exit <==> trimmed(line@) == "exit"@,
            r is Send <==> sends(trimmed(line@)),
            r matches TurnAction::Send(req) ==> is_request_for(
                req,
                final(self).config,
                final(self).history_view(),
            ),
    {
        let intent = parse_intent(line);
        proof {
            lemma_commands_distinct();
        }
        self.apply_intent(intent)
    }

    /// Takes the outcome of a request: the first reply joins the conversation and
    /// is shown; a failure is reported and the conversation is left as it is; a
    /// response without choices changes and shows nothing.
    pub fn finish_turn(&mut self, outcome: Result<OpenAIResponse, ChatError>) -> (r: TurnOutput)
        ensures
            final(self).config == old(self).config,
            final(self).history_view() == history_finished(
                old(self).history_view(),
                outcome_view(outcome),
            ),
            match outcome {
                Ok(resp) => if resp@.len() > 0 {
                    r matches TurnOutput::Reply(c) && c@ == resp@[0].content
                } else {
                    r is Silent
                },
                Err(e) => r matches TurnOutput::Failure(d) && d@ == description(e),
            },
    {
        match outcome {
            Ok(resp) => match resp.first_message() {
                Some(m) => {
                    let reply = m.duplicate();
                    let content = reply.content.clone();
                    self.history.push(reply);
                    assert(self.history_view() =~= old(self).history_view().push(resp@[0]));
                    TurnOutput::Reply(content)
                },
                None => TurnOutput::Silent,
            },
            Err(e) => TurnOutput::Failure(e.describe()),
        }
    }
}

/// The conversation after a run of exchanges from an empty one. Each exchange
/// is the trimmed line typed and what came back for it: the replies, or none
/// when the request failed.
pub open spec fn after_exchanges(
    xs: Seq<(Seq<char>, Option<Seq<MessageModel>>)>,
) -> Seq<MessageModel>
    decreases xs.len(),
{
    if xs.len() == 0 {
        seq![]
    } else {
        history_finished(history_after(after_exchanges(xs.drop_last()), xs.last().0), xs.last().1)
    }
}

/// Whether an exchange was a turn sent and answered by the assistant.
pub open spec fn answered_by_assistant(x: (Seq<char>, Option<Seq<MessageModel>>)) -> bool {
    &&& sends(x.0)
    &&& (x.1 matches Some(rs) && rs.len() > 0 && rs[0].role == assistant_role())
}

/// After N turns that were each sent and answered by the assistant, the
/// conversation holds 2N entries: each turn of the user followed by its reply,
/// so that the roles alternate user, assistant, user, ...
pub proof fn lemma_answered_turns_alternate(xs: Seq<(Seq<char>, Option<Seq<MessageModel>>)>)
    requires
        forall|i: int| 0 <= i < xs.len() ==> answered_by_assistant(#[trigger] xs[i]),
    ensures
        after_exchanges(xs).len() == 2 * xs.len(),
        forall|i: int|
            0 <= i < xs.len() ==> after_exchanges(xs)[2 * i] == user_turn(#[trigger] xs[i].0)
                && after_exchanges(xs)[2 * i + 1] == xs[i].1->Some_0[0],
        forall|k: int|
            0 <= k < 2 * xs.len() ==> (#[trigger] after_exchanges(xs)[k]).role == if k % 2 == 0 {
                user_role()
            } else {
                assistant_role()
            },
    decreases xs.len(),
{
    if xs.len() > 0 {
        let prev = xs.drop_last();
        assert forall|i: int| 0 <= i < prev.len() implies answered_by_assistant(#[trigger] prev[i]) by {
            assert(prev[i] == xs[i]);
        }
        lemma_answered_turns_alternate(prev);
        assert(answered_by_assistant(xs[xs.len() - 1]));
        let h = after_exchanges(xs);
        let p = after_exchanges(prev);
        assert(h == p.push(user_turn(xs.last().0)).push(xs.last().1->Some_0[0]));
        assert forall|i: int| 0 <= i < xs.len() implies h[2 * i] == user_turn(#[trigger] xs[i].0)
            && h[2 * i + 1] == xs[i].1->Some_0[0] by {
            if i < prev.len() {
                assert(prev[i] == xs[i]);
            }
        }
        assert forall|k: int| 0 <= k < 2 * xs.len() implies (#[trigger] h[k]).role == if k % 2
            == 0 {
            user_role()
        } else {
            assistant_role()
        } by {
            let i = k / 2;
            assert(0 <= i < xs.len());
            assert(h[2 * i] == user_turn(xs[i].0));
            assert(answered_by_assistant(xs[i]));
            if k % 2 == 0 {
                assert(k == 2 * i);
            } else {
                assert(k == 2 * i + 1);
            }
        }
    }
}

/// A turn whose request fails leaves the conversation one entry longer: the
/// turn of the user, with no reply after it.
pub proof fn lemma_failed_turn(h: Seq<MessageModel>, t: Seq<char>)
    requires
        sends(t),
    ensures
        history_finished(history_after(h, t), None) == h.push(user_turn(t)),
        history_finished(history_after(h, t), None).len() == h.len() + 1,
{
}

/// A turn answered with no choices leaves the conversation with the turn of the
/// user appended and nothing after it.
pub proof fn lemma_turn_without_choices(h: Seq<MessageModel>, t: Seq<char>)
    requires
        sends(t),
    ensures
        history_finished(history_after(h, t), Some(Seq::<MessageModel>::empty())) == h.push(
            user_turn(t),
        ),
{
}

/// `clear` and `undo` send nothing; `clear` empties the conversation and `undo`
/// drops its last two entries, or all of them when there are fewer.
pub proof fn lemma_commands_send_nothing(h: Seq<MessageModel>)
    ensures
        !sends("clear"@),
        !sends("undo"@),
        history_after(h, "clear"@).len() == 0,
        history_after(h, "undo"@) == undone(h),
        history_after(h, "undo"@).len() == if h.len() >= 2 {
            h.len() - 2
        } else {
            0
        },
{
    lemma_commands_distinct();
}

} // verus!
