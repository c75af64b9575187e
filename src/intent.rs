use vstd::prelude::*;
use vstd::string::*;

verus! {

/// The text without its leading and trailing whitespace.
pub uninterp spec fn trimmed(s: Seq<char>) -> Seq<char>;

/// Relies on `str::trim`: the text without leading and trailing whitespace,
/// which depends on the characters alone.
#[verifier::external_body]
fn trim_text(s: &str) -> (r: String)
    ensures
        r@ == trimmed(s@),
{
    s.trim().to_string()
}

/// What a line typed at the prompt asks for.
#[derive(Debug)]
pub enum UserIntent {
    /// End the session.
    Exit,
    /// Forget the whole conversation.
    ClearHistory,
    /// Forget the last exchange.
    Undo,
    /// Nothing was typed.
    Blank,
    /// Send this text as a turn of the user.
    SendMessage(String),
}

/// Whether `i` is what the trimmed line `t` asks for: the three commands match
/// exactly, case included; an empty line asks for nothing; any other text is a turn.
pub open spec fn is_intent_of(i: UserIntent, t: Seq<char>) -> bool {
    if t == "exit"@ {
        i is Exit
    } else if t == "clear"@ {
        i is ClearHistory
    } else if t == "undo"@ {
        i is Undo
    } else if t.len() == 0 {
        i is Blank
    } else {
        i matches UserIntent::SendMessage(s) && s@ == t
    }
}

/// The three commands are different words, none of them empty.
pub proof fn lemma_commands_distinct()
    ensures
        "exit"@ != "clear"@,
        "exit"@ != "undo"@,
        "clear"@ != "undo"@,
        "exit"@.len() > 0,
        "clear"@.len() > 0,
        "undo"@.len() > 0,
{
    reveal_strlit("exit");
    reveal_strlit("clear");
    reveal_strlit("undo");
    assert("exit"@[0] != "undo"@[0]);
}

/// What an already trimmed line asks for.
pub fn intent_from_trimmed(t: String) -> (r: UserIntent)
    ensures
        is_intent_of(r, t@),
{
    if t == String::from_str("exit") {
        UserIntent::Exit
    } else if t == String::from_str("clear") {
        UserIntent::ClearHistory
    } else if t == String::from_str("undo") {
        UserIntent::Undo
    } else if t.as_str().unicode_len() == 0 {
        UserIntent::Blank
    } else {
        UserIntent::SendMessage(t)
    }
}

/// What a line typed at the prompt asks for, once trimmed.
pub fn parse_intent(line: &str) -> (r: UserIntent)
    ensures
        is_intent_of(r, trimmed(line@)),
{
    intent_from_trimmed(trim_text(line))
}

} // verus!
