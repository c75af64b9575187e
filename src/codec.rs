use vstd::prelude::*;
use vstd::string::*;

use crate::error::ChatError;
use crate::json::{field, get_field, get_text_field, is_text, lookup, text_of, JsonValue};
use crate::message::{
    messages_view, MessageModel, OpenAIChoice, OpenAIMessage, OpenAIResponse,
};

verus! {

/// What is sent to the remote model: the model's name, the whole conversation,
/// and the generation parameters that are set.
///
/// `temperature` and `top_p` hold the text of a JSON number.
#[derive(Debug)]
pub struct OpenAIRequest {
    pub model: String,
    pub messages: Vec<OpenAIMessage>,
    pub temperature: Option<String>,
    pub max_tokens: Option<i32>,
    pub top_p: Option<String>,
    pub n: Option<i32>,
}

/// The value of one generation parameter.
pub enum ParamModel {
    Decimal(Seq<char>),
    Integer(int),
}

/// Whether `v` is the JSON form of the parameter value `p`.
pub open spec fn is_param_json(v: JsonValue, p: ParamModel) -> bool {
    match p {
        ParamModel::Decimal(t) => v matches JsonValue::Number(s) && s@ == t,
        ParamModel::Integer(i) => v matches JsonValue::Int(x) && x == i,
    }
}

/// The field for a decimal parameter, or none when it is not set.
pub open spec fn decimal_param(key: Seq<char>, o: Option<String>) -> Seq<(Seq<char>, ParamModel)> {
    match o {
        Some(t) => seq![(key, ParamModel::Decimal(t@))],
        None => seq![],
    }
}

/// The field for an integer parameter, or none when it is not set.
pub open spec fn integer_param(key: Seq<char>, o: Option<i32>) -> Seq<(Seq<char>, ParamModel)> {
    match o {
        Some(x) => seq![(key, ParamModel::Integer(x as int))],
        None => seq![],
    }
}

/// The generation parameters of a request that are set, in wire order.
pub open spec fn request_params(r: OpenAIRequest) -> Seq<(Seq<char>, ParamModel)> {
    decimal_param("temperature"@, r.temperature) + integer_param("max_tokens"@, r.max_tokens)
        + decimal_param("top_p"@, r.top_p) + integer_param("n"@, r.n)
}

/// Whether the fields of `fs` from `start` on are exactly the parameters `ps`.
pub open spec fn carries_params(
    fs: Seq<(String, JsonValue)>,
    start: int,
    ps: Seq<(Seq<char>, ParamModel)>,
) -> bool {
    &&& fs.len() == start + ps.len()
    &&& forall|i: int|
        0 <= i < ps.len() ==> #[trigger] fs[start + i].0@ == ps[i].0 && is_param_json(
            fs[start + i].1,
            ps[i].1,
        )
}

/// Whether `v` is the object `{"role": .., "content": ..}` of the message `m`.
pub open spec fn is_message_json(v: JsonValue, m: MessageModel) -> bool {
    v matches JsonValue::Object(fs) && fs@.len() == 2 && fs@[0].0@ == "role"@ && is_text(
        fs@[0].1,
        m.role,
    ) && fs@[1].0@ == "content"@ && is_text(fs@[1].1, m.content)
}

/// Whether `v` is the array of the messages `ms`, in order.
pub open spec fn is_messages_json(v: JsonValue, ms: Seq<MessageModel>) -> bool {
    v matches JsonValue::Array(items) && items@.len() == ms.len() && forall|i: int|
        0 <= i < ms.len() ==> is_message_json(#[trigger] items@[i], ms[i])
}

/// Whether `v` is the JSON form of the request `r`: its model, its messages,
/// then the parameters that are set.
pub open spec fn is_request_json(v: JsonValue, r: OpenAIRequest) -> bool {
    v matches JsonValue::Object(fs) && fs@.len() >= 2 && fs@[0].0@ == "model"@ && is_text(
        fs@[0].1,
        r.model@,
    ) && fs@[1].0@ == "messages"@ && is_messages_json(fs@[1].1, messages_view(r.messages@))
        && carries_params(fs@, 2, request_params(r))
}

/// Whether `v` is the object `{"message": ..}` of one choice.
pub open spec fn is_choice_json(v: JsonValue, m: MessageModel) -> bool {
    v matches JsonValue::Object(fs) && fs@.len() == 1 && fs@[0].0@ == "message"@
        && is_message_json(fs@[0].1, m)
}

/// Whether `v` is the array of the choices that hold the replies `ms`.
pub open spec fn is_choices_json(v: JsonValue, ms: Seq<MessageModel>) -> bool {
    v matches JsonValue::Array(items) && items@.len() == ms.len() && forall|i: int|
        0 <= i < ms.len() ==> is_choice_json(#[trigger] items@[i], ms[i])
}

/// Whether `v` is the object `{"choices": [..]}` of the replies `ms`.
pub open spec fn is_response_json(v: JsonValue, ms: Seq<MessageModel>) -> bool {
    v matches JsonValue::Object(fs) && fs@.len() == 1 && fs@[0].0@ == "choices"@
        && is_choices_json(fs@[0].1, ms)
}

/// The message that `v` holds: an object with string fields `role` and `content`.
pub open spec fn message_of(v: JsonValue) -> Option<MessageModel> {
    match (text_of(field(v, "role"@)), text_of(field(v, "content"@))) {
        (Some(r), Some(c)) => Some(MessageModel { role: r, content: c }),
        _ => None,
    }
}

/// The message of a choice: the message in its field `message`.
pub open spec fn choice_of(v: JsonValue) -> Option<MessageModel> {
    match field(v, "message"@) {
        Some(m) => message_of(m),
        None => None,
    }
}

/// The messages of a list of message objects, if each of them is one.
pub open spec fn message_list_of(items: Seq<JsonValue>) -> Option<Seq<MessageModel>> {
    if forall|i: int| 0 <= i < items.len() ==> #[trigger] message_of(items[i]) is Some {
        Some(Seq::new(items.len(), |i: int| message_of(items[i])->Some_0))
    } else {
        None
    }
}

/// The messages of a list of choices, if each of them holds one.
pub open spec fn choice_list_of(items: Seq<JsonValue>) -> Option<Seq<MessageModel>> {
    if forall|i: int| 0 <= i < items.len() ==> #[trigger] choice_of(items[i]) is Some {
        Some(Seq::new(items.len(), |i: int| choice_of(items[i])->Some_0))
    } else {
        None
    }
}

/// The messages of a JSON array of messages.
pub open spec fn messages_of(v: JsonValue) -> Option<Seq<MessageModel>> {
    match v {
        JsonValue::Array(items) => message_list_of(items@),
        _ => None,
    }
}

/// The replies that a response object holds, in order.
pub open spec fn response_of(v: JsonValue) -> Option<Seq<MessageModel>> {
    match field(v, "choices"@) {
        Some(JsonValue::Array(items)) => choice_list_of(items@),
        _ => None,
    }
}

/// The JSON object `{"role": .., "content": ..}` of a message.
pub fn message_to_json(m: &OpenAIMessage) -> (r: JsonValue)
    ensures
        is_message_json(r, m@),
{
    let mut fields: Vec<(String, JsonValue)> = Vec::new();
    fields.push((String::from_str("role"), JsonValue::Str(m.role.clone())));
    fields.push((String::from_str("content"), JsonValue::Str(m.content.clone())));
    JsonValue::Object(fields)
}

/// The JSON array of a list of messages, in order.
pub fn messages_to_json(ms: &Vec<OpenAIMessage>) -> (r: JsonValue)
    ensures
        is_messages_json(r, messages_view(ms@)),
{
    let mut items: Vec<JsonValue> = Vec::new();
    let mut i: usize = 0;
    while i < ms.len()
        invariant
            i <= ms@.len(),
            items@.len() == i,
            forall|j: int| 0 <= j < i ==> is_message_json(#[trigger] items@[j], ms@[j]@),
        decreases ms@.len() - i,
    {
        items.push(message_to_json(&ms[i]));
        i = i + 1;
    }
    JsonValue::Array(items)
}

/// Appends the field of a decimal parameter when it is set.
fn push_decimal_param(fields: &mut Vec<(String, JsonValue)>, key: &str, o: &Option<String>)
    ensures
        final(fields)@.subrange(0, old(fields)@.len() as int) == old(fields)@,
        carries_params(final(fields)@, old(fields)@.len() as int, decimal_param(key@, *o)),
{
    let ghost before = fields@;
    if let Some(t) = o {
        fields.push((String::from_str(key), JsonValue::Number(t.clone())));
    }
    assert(fields@.subrange(0, before.len() as int) =~= before);
}

/// Appends the field of an integer parameter when it is set.
fn push_integer_param(fields: &mut Vec<(String, JsonValue)>, key: &str, o: Option<i32>)
    ensures
        final(fields)@.subrange(0, old(fields)@.len() as int) == old(fields)@,
        carries_params(final(fields)@, old(fields)@.len() as int, integer_param(key@, o)),
{
    let ghost before = fields@;
    if let Some(x) = o {
        fields.push((String::from_str(key), JsonValue::Int(x as i64)));
    }
    assert(fields@.subrange(0, before.len() as int) =~= before);
}

/// Two runs of parameters, one after the other, make one run.
proof fn lemma_carries_append(
    fs1: Seq<(String, JsonValue)>,
    fs2: Seq<(String, JsonValue)>,
    start: int,
    a: Seq<(Seq<char>, ParamModel)>,
    b: Seq<(Seq<char>, ParamModel)>,
)
    requires
        0 <= start,
        carries_params(fs1, start, a),
        fs2.subrange(0, fs1.len() as int) == fs1,
        carries_params(fs2, fs1.len() as int, b),
    ensures
        carries_params(fs2, start, a + b),
{
    assert forall|i: int| 0 <= i < (a + b).len() implies #[trigger] fs2[start + i].0@ == (a
        + b)[i].0 && is_param_json(fs2[start + i].1, (a + b)[i].1) by {
        if i < a.len() {
            assert(fs2[start + i] == fs2.subrange(0, fs1.len() as int)[start + i]);
            assert(fs1[start + i].0@ == a[i].0);
        } else {
            let j = i - a.len();
            assert(fs2[fs1.len() + j].0@ == b[j].0);
            assert(fs1.len() + j == start + i);
        }
    }
}

/// The JSON object of a request: `model`, `messages`, then each parameter that
/// is set, in the order temperature, max_tokens, top_p, n.
pub fn request_to_json(req: &OpenAIRequest) -> (r: JsonValue)
    ensures
        is_request_json(r, *req),
{
    let mut fields: Vec<(String, JsonValue)> = Vec::new();
    fields.push((String::from_str("model"), JsonValue::Str(req.model.clone())));
    fields.push((String::from_str("messages"), messages_to_json(&req.messages)));
    let ghost f0 = fields@;
    assert(carries_params(f0, 2, seq![]));
    push_decimal_param(&mut fields, "temperature", &req.temperature);
    let ghost f1 = fields@;
    proof {
        lemma_carries_append(f0, f1, 2, seq![], decimal_param("temperature"@, req.temperature));
    }
    push_integer_param(&mut fields, "max_tokens", req.max_tokens);
    let ghost f2 = fields@;
    proof {
        lemma_carries_append(
            f1,
            f2,
            2,
            seq![] + decimal_param("temperature"@, req.temperature),
            integer_param("max_tokens"@, req.max_tokens),
        );
    }
    push_decimal_param(&mut fields, "top_p", &req.top_p);
    let ghost f3 = fields@;
    proof {
        lemma_carries_append(
            f2,
            f3,
            2,
            seq![] + decimal_param("temperature"@, req.temperature) + integer_param(
                "max_tokens"@,
                req.max_tokens,
            ),
            decimal_param("top_p"@, req.top_p),
        );
    }
    push_integer_param(&mut fields, "n", req.n);
    let ghost f4 = fields@;
    proof {
        lemma_carries_append(
            f3,
            f4,
            2,
            seq![] + decimal_param("temperature"@, req.temperature) + integer_param(
                "max_tokens"@,
                req.max_tokens,
            ) + decimal_param("top_p"@, req.top_p),
            integer_param("n"@, req.n),
        );
        assert(seq![] + decimal_param("temperature"@, req.temperature) + integer_param(
            "max_tokens"@,
            req.max_tokens,
        ) + decimal_param("top_p"@, req.top_p) + integer_param("n"@, req.n) =~= request_params(
            *req,
        ));
        assert forall|k: int| 0 <= k < 2 implies f4[k] == f0[k] by {
            assert(f4[k] == f4.subrange(0, f3.len() as int)[k]);
            assert(f3[k] == f3.subrange(0, f2.len() as int)[k]);
            assert(f2[k] == f2.subrange(0, f1.len() as int)[k]);
            assert(f1[k] == f1.subrange(0, f0.len() as int)[k]);
        }
    }
    JsonValue::Object(fields)
}

/// The JSON object `{"message": ..}` of one choice.
fn choice_to_json(c: &OpenAIChoice) -> (r: JsonValue)
    ensures
        is_choice_json(r, c.message@),
{
    let mut fields: Vec<(String, JsonValue)> = Vec::new();
    fields.push((String::from_str("message"), message_to_json(&c.message)));
    JsonValue::Object(fields)
}

/// The JSON object `{"choices": [{"message": ..}, ..]}` of a response.
pub fn response_to_json(resp: &OpenAIResponse) -> (r: JsonValue)
    ensures
        is_response_json(r, resp@),
{
    let mut items: Vec<JsonValue> = Vec::new();
    let mut i: usize = 0;
    while i < resp.choices.len()
        invariant
            i <= resp.choices@.len(),
            items@.len() == i,
            forall|j: int| 0 <= j < i ==> is_choice_json(#[trigger] items@[j], resp@[j]),
        decreases resp.choices@.len() - i,
    {
        items.push(choice_to_json(&resp.choices[i]));
        i = i + 1;
    }
    let mut fields: Vec<(String, JsonValue)> = Vec::new();
    fields.push((String::from_str("choices"), JsonValue::Array(items)));
    JsonValue::Object(fields)
}

/// Reads a message object: its string fields `role` and `content`.
pub fn message_from_json(v: &JsonValue) -> (r: Result<OpenAIMessage, ChatError>)
    ensures
        match r {
            Ok(m) => message_of(*v) == Some(m@),
            Err(e) => message_of(*v) is None && e is MalformedResponse,
        },
{
    let role = get_text_field(v, &String::from_str("role"));
    let content = get_text_field(v, &String::from_str("content"));
    match (role, content) {
        (Some(role), Some(content)) => Ok(OpenAIMessage { role, content }),
        _ => Err(ChatError::MalformedResponse),
    }
}

/// Reads a JSON array of message objects, in order.
pub fn messages_from_json(v: &JsonValue) -> (r: Result<Vec<OpenAIMessage>, ChatError>)
    ensures
        match r {
            Ok(ms) => messages_of(*v) == Some(messages_view(ms@)),
            Err(e) => messages_of(*v) is None && e is MalformedResponse,
        },
{
    let items = match v {
        JsonValue::Array(items) => items,
        _ => {
            return Err(ChatError::MalformedResponse);
        },
    };
    let mut out: Vec<OpenAIMessage> = Vec::new();
    let mut i: usize = 0;
    while i < items.len()
        invariant
            messages_of(*v) == message_list_of(items@),
            i <= items@.len(),
            out@.len() == i,
            forall|j: int| 0 <= j < i ==> message_of(#[trigger] items@[j]) == Some(out@[j]@),
        decreases items@.len() - i,
    {
        match message_from_json(&items[i]) {
            Ok(m) => out.push(m),
            Err(e) => {
                assert(message_of(items@[i as int]) is None);
                return Err(e);
            },
        }
        i = i + 1;
    }
    assert(messages_view(out@) =~= Seq::new(
        items@.len(),
        |j: int| message_of(items@[j])->Some_0,
    ));
    Ok(out)
}

/// Reads a response object: each element of its array `choices` holds a
/// message object in its field `message`.
pub fn response_from_json(v: &JsonValue) -> (r: Result<OpenAIResponse, ChatError>)
    ensures
        match r {
            Ok(resp) => response_of(*v) == Some(resp@),
            Err(e) => response_of(*v) is None && e is MalformedResponse,
        },
{
    let items = match get_field(v, &String::from_str("choices")) {
        Some(JsonValue::Array(items)) => items,
        _ => {
            return Err(ChatError::MalformedResponse);
        },
    };
    let mut choices: Vec<OpenAIChoice> = Vec::new();
    let mut i: usize = 0;
    while i < items.len()
        invariant
            field(*v, "choices"@) == Some(JsonValue::Array(*items)),
            i <= items@.len(),
            choices@.len() == i,
            forall|j: int|
                0 <= j < i ==> choice_of(#[trigger] items@[j]) == Some(choices@[j].message@),
        decreases items@.len() - i,
    {
        let inner = match get_field(&items[i], &String::from_str("message")) {
            Some(inner) => inner,
            None => {
                assert(choice_of(items@[i as int]) is None);
                return Err(ChatError::MalformedResponse);
            },
        };
        match message_from_json(inner) {
            Ok(m) => choices.push(OpenAIChoice { message: m }),
            Err(e) => {
                assert(choice_of(items@[i as int]) is None);
                return Err(e);
            },
        }
        i = i + 1;
    }
    let resp = OpenAIResponse { choices };
    assert(resp@ =~= Seq::new(items@.len(), |j: int| choice_of(items@[j])->Some_0));
    Ok(resp)
}

/// A message written as JSON reads back as the same message.
pub proof fn lemma_message_round_trip(v: JsonValue, m: MessageModel)
    requires
        is_message_json(v, m),
    ensures
        message_of(v) == Some(m),
{
    let fs = v->Object_0@;
    reveal_strlit("role");
    reveal_strlit("content");
    assert("role"@.len() != "content"@.len());
    assert(lookup(fs, "role"@) == Some(fs[0].1));
    assert(fs.drop_first()[0] == fs[1]);
    assert(lookup(fs.drop_first(), "content"@) == Some(fs[1].1));
}

/// Encoding a request and reading back its `messages` field gives the
/// conversation that was sent, in order, with every role and content unchanged.
pub proof fn lemma_request_round_trip(v: JsonValue, req: OpenAIRequest)
    requires
        is_request_json(v, req),
    ensures
        field(v, "messages"@) matches Some(ms) && messages_of(ms) == Some(messages_view(req.messages@)),
{
    let fs = v->Object_0@;
    reveal_strlit("model");
    reveal_strlit("messages");
    assert("model"@.len() != "messages"@.len());
    assert(fs.drop_first()[0] == fs[1]);
    assert(lookup(fs.drop_first(), "messages"@) == Some(fs[1].1));
    let items = fs[1].1->Array_0@;
    let want = messages_view(req.messages@);
    assert forall|i: int| 0 <= i < items.len() implies #[trigger] message_of(items[i]) == Some(
        want[i],
    ) by {
        lemma_message_round_trip(items[i], want[i]);
    }
    assert(Seq::new(items.len(), |i: int| message_of(items[i])->Some_0) =~= want);
}

/// Encoding a response and reading it back gives the same replies, in order.
pub proof fn lemma_response_round_trip(v: JsonValue, ms: Seq<MessageModel>)
    requires
        is_response_json(v, ms),
    ensures
        response_of(v) == Some(ms),
{
    let fs = v->Object_0@;
    reveal_strlit("choices");
    let items = fs[0].1->Array_0@;
    assert forall|i: int| 0 <= i < items.len() implies #[trigger] choice_of(items[i]) == Some(
        ms[i],
    ) by {
        reveal_strlit("message");
        lemma_message_round_trip(items[i]->Object_0@[0].1, ms[i]);
    }
    assert(Seq::new(items.len(), |i: int| choice_of(items[i])->Some_0) =~= ms);
}

} // verus!
