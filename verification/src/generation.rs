//! The response generator: the messages that are sent to the
//! chat-completion service and how its reply is read.

use crate::error::{text_result, ErrorModel, PipelineError};
use crate::http::{accept_document, accepted_document, HttpOutcome, OutcomeModel};
use crate::json::{item_trees, member_trees, Json, JsonTree, Member, MemberTree};
use crate::language::{language_of, parse_language, Language};
use crate::persona::{persona_for, persona_text, ModeFlags};
use crate::store::{turn_models, ChatTurn, Speaker, TurnModel};
use vstd::prelude::*;

verus! {

/// Who a message of the prompt is attributed to.
#[derive(Clone, Copy, Debug, PartialEq, Eq, Structural)]
pub enum MessageRole {
    System,
    User,
    Assistant,
}

/// One message of the prompt.
#[derive(Clone, Debug, PartialEq, Eq)]
pub struct PromptMessage {
    pub role: MessageRole,
    pub content: String,
}

/// The mathematical value of a [`PromptMessage`].
pub struct MessageModel {
    pub role: MessageRole,
    pub content: Seq<char>,
}

impl View for PromptMessage {
    type V = MessageModel;

    open spec fn view(&self) -> MessageModel {
        MessageModel { role: self.role, content: self.content@ }
    }
}

/// The values of a sequence of messages.
pub open spec fn message_models(messages: Seq<PromptMessage>) -> Seq<MessageModel> {
    messages.map_values(|message: PromptMessage| message@)
}

/// The name of a role on the wire.
pub open spec fn role_name(role: MessageRole) -> Seq<char> {
    match role {
        MessageRole::System => "system"@,
        MessageRole::User => "user"@,
        MessageRole::Assistant => "assistant"@,
    }
}

/// The message that repeats a turn of the history.
pub open spec fn turn_message(turn: TurnModel) -> MessageModel {
    MessageModel {
        role: match turn.role {
            Speaker::User => MessageRole::User,
            Speaker::Assistant => MessageRole::Assistant,
        },
        content: turn.content,
    }
}

/// The messages of a prompt: the instructions as the system message, then
/// the history in the order in which it was spoken, then the utterance of
/// the user.
pub open spec fn prompt_sequence(
    instructions: Seq<char>,
    history: Seq<TurnModel>,
    utterance: Seq<char>,
) -> Seq<MessageModel> {
    seq![MessageModel { role: MessageRole::System, content: instructions }] + history.map_values(
        |turn: TurnModel| turn_message(turn),
    ) + seq![MessageModel { role: MessageRole::User, content: utterance }]
}

/// A message on the wire.
pub open spec fn message_tree(message: MessageModel) -> JsonTree {
    JsonTree::Object(
        seq![
            MemberTree::text("role"@, role_name(message.role)),
            MemberTree::text("content"@, message.content),
        ],
    )
}

/// The body of the request that asks for a reply to the given messages:
/// the model, the messages in their order and the sampling temperature.
pub open spec fn generation_body(messages: Seq<MessageModel>) -> JsonTree {
    JsonTree::Object(
        seq![
            MemberTree::text("model"@, "gpt-4o-mini"@),
            MemberTree {
                name: "messages"@,
                value: JsonTree::Array(
                    messages.map_values(|message: MessageModel| message_tree(message)),
                ),
            },
            MemberTree { name: "temperature"@, value: JsonTree::Number("0.7"@) },
        ],
    )
}

/// The body of the request for an utterance in a language, with the persona
/// that language and mode flags give and with the history.
pub open spec fn generation_prompt(
    utterance: Seq<char>,
    language: Language,
    modes: ModeFlags,
    history: Seq<TurnModel>,
) -> JsonTree {
    generation_body(prompt_sequence(persona_text(language, modes), history, utterance))
}

/// The history that may be missing: none is an empty one.
pub open spec fn history_or_none(history: Option<&Vec<ChatTurn>>) -> Seq<TurnModel> {
    match history {
        Some(turns) => turn_models(turns@),
        None => Seq::empty(),
    }
}

/// The body of the request for a language given by its code;
/// `InvalidLanguage` where the code names no supported language.
pub open spec fn generation_of(
    utterance: Seq<char>,
    code: Seq<char>,
    modes: ModeFlags,
    history: Seq<TurnModel>,
) -> Result<JsonTree, ErrorModel> {
    match language_of(code) {
        Some(language) => Ok(generation_prompt(utterance, language, modes, history)),
        None => Err(ErrorModel::InvalidLanguage),
    }
}

/// Where the generated text stands in the document of a reply: the string
/// member `content` of the member `message` of the first element of the
/// member `choices`.
pub open spec fn generated_content(document: JsonTree) -> Option<Seq<char>> {
    match document.member("choices"@) {
        Some(choices) => match choices.element(0) {
            Some(choice) => match choice.member("message"@) {
                Some(message) => message.text_member("content"@),
                None => None,
            },
            None => None,
        },
        None => None,
    }
}

/// The generated text in the document of a reply. Where it is missing or
/// empty the reply is a `MalformedResponse`.
pub open spec fn generated_in(document: JsonTree) -> Result<Seq<char>, ErrorModel> {
    match generated_content(document) {
        Some(text) => if text.len() > 0 {
            Ok(text)
        } else {
            Err(ErrorModel::MalformedResponse)
        },
        None => Err(ErrorModel::MalformedResponse),
    }
}

/// The generated text that the outcome of a call gives.
pub open spec fn generated_of(outcome: OutcomeModel) -> Result<Seq<char>, ErrorModel> {
    match accepted_document(outcome) {
        Ok(document) => generated_in(document),
        Err(error) => Err(error),
    }
}

impl MessageRole {
    /// The name of this role on the wire.
    pub fn name(self) -> (name: &'static str)
        ensures
            name@ == role_name(self),
    {
        match self {
            MessageRole::System => "system",
            MessageRole::User => "user",
            MessageRole::Assistant => "assistant",
        }
    }
}

/// Puts the messages of a prompt in their order.
pub fn prompt_messages(instructions: String, history: &Vec<ChatTurn>, utterance: &str) -> (messages:
    Vec<PromptMessage>)
    ensures
        message_models(messages@) == prompt_sequence(
            instructions@,
            turn_models(history@),
            utterance@,
        ),
{
    let ghost system = MessageModel { role: MessageRole::System, content: instructions@ };
    let ghost turns = turn_models(history@);
    let mut messages: Vec<PromptMessage> = Vec::new();
    messages.push(PromptMessage { role: MessageRole::System, content: instructions });
    let mut i: usize = 0;
    proof {
        assert(message_models(messages@) =~= seq![system] + turns.take(0).map_values(
            |turn: TurnModel| turn_message(turn),
        ));
    }
    while i < history.len()
        invariant
            i <= history.len(),
            turns == turn_models(history@),
            message_models(messages@) == seq![system] + turns.take(i as int).map_values(
                |turn: TurnModel| turn_message(turn),
            ),
        decreases history.len() - i,
    {
        let turn = &history[i];
        let role = match turn.role {
            Speaker::User => MessageRole::User,
            Speaker::Assistant => MessageRole::Assistant,
        };
        let ghost before = message_models(messages@);
        let message = PromptMessage { role, content: turn.content.clone() };
        proof {
            assert(message@ == turn_message(turns[i as int]));
        }
        messages.push(message);
        proof {
            assert(message_models(messages@) =~= before.push(turn_message(turns[i as int])));
            assert(turns.take(i + 1).map_values(|turn: TurnModel| turn_message(turn))
                =~= turns.take(i as int).map_values(|turn: TurnModel| turn_message(turn)).push(
                turn_message(turns[i as int]),
            ));
            assert(message_models(messages@) =~= seq![system] + turns.take(i + 1).map_values(
                |turn: TurnModel| turn_message(turn),
            ));
        }
        i += 1;
    }
    let ghost before = message_models(messages@);
    messages.push(PromptMessage { role: MessageRole::User, content: String::from_str(utterance) });
    proof {
        assert(turns.take(history.len() as int) =~= turns);
        assert(message_models(messages@) =~= before.push(
            MessageModel { role: MessageRole::User, content: utterance@ },
        ));
        assert(message_models(messages@) =~= prompt_sequence(instructions@, turns, utterance@));
    }
    messages
}

/// Writes a message as it goes on the wire.
pub fn message_json(message: &PromptMessage) -> (json: Json)
    ensures
        json@ == message_tree(message@),
{
    let mut members: Vec<Member> = Vec::new();
    members.push(Member::text("role", message.role.name()));
    members.push(Member::text("content", message.content.as_str()));
    proof {
        assert(member_trees(members@) =~= message_tree(message@)->Object_0);
    }
    Json::object(members)
}

/// Makes the body of the request that asks for a reply to the given
/// messages.
pub fn body_for(messages: &Vec<PromptMessage>) -> (body: Json)
    ensures
        body@ == generation_body(message_models(messages@)),
{
    let ghost models = message_models(messages@);
    let mut items: Vec<Json> = Vec::new();
    let mut i: usize = 0;
    proof {
        assert(item_trees(items@) =~= models.take(0).map_values(
            |message: MessageModel| message_tree(message),
        ));
    }
    while i < messages.len()
        invariant
            i <= messages.len(),
            models == message_models(messages@),
            item_trees(items@) == models.take(i as int).map_values(
                |message: MessageModel| message_tree(message),
            ),
        decreases messages.len() - i,
    {
        let ghost before = item_trees(items@);
        let item = message_json(&messages[i]);
        items.push(item);
        proof {
            assert(item_trees(items@) =~= before.push(message_tree(models[i as int])));
            assert(models.take(i + 1).map_values(|message: MessageModel| message_tree(message))
                =~= models.take(i as int).map_values(
                |message: MessageModel| message_tree(message),
            ).push(message_tree(models[i as int])));
        }
        i += 1;
    }
    proof {
        assert(models.take(messages.len() as int) =~= models);
    }
    let mut members: Vec<Member> = Vec::new();
    members.push(Member::text("model", "gpt-4o-mini"));
    members.push(Member::new("messages", Json::array(items)));
    members.push(Member::new("temperature", Json::Number(String::from_str("0.7"))));
    proof {
        assert(member_trees(members@) =~= generation_body(models)->Object_0);
    }
    Json::object(members)
}

/// Makes the body of the request for an utterance in a language.
pub fn prompt_for(utterance: &str, language: Language, modes: ModeFlags, history: &Vec<ChatTurn>) -> (body:
    Json)
    ensures
        body@ == generation_prompt(utterance@, language, modes, turn_models(history@)),
{
    let messages = prompt_messages(persona_for(language, modes), history, utterance);
    body_for(&messages)
}

/// Makes the body of the request for an utterance in a language given by its
/// code, with an optional history. The code is validated before anything is
/// made: an unsupported one gives `InvalidLanguage` and no request.
pub fn generation_request(
    utterance: &str,
    language: &str,
    modes: ModeFlags,
    history: Option<&Vec<ChatTurn>>,
) -> (body: Result<Json, PipelineError>)
    ensures
        match body {
            Ok(body) => generation_of(utterance@, language@, modes, history_or_none(history))
                == Ok::<JsonTree, ErrorModel>(body@),
            Err(error) => generation_of(utterance@, language@, modes, history_or_none(history))
                == Err::<JsonTree, ErrorModel>(error@),
        },
{
    match parse_language(language) {
        Ok(known) => match history {
            Some(turns) => Ok(prompt_for(utterance, known, modes, turns)),
            None => {
                let none: Vec<ChatTurn> = Vec::new();
                proof {
                    assert(turn_models(none@) =~= Seq::<TurnModel>::empty());
                }
                Ok(prompt_for(utterance, known, modes, &none))
            },
        },
        Err(error) => Err(error),
    }
}

/// Takes the generated text out of the document of a reply.
pub fn generated_from(document: &Json) -> (text: Result<String, PipelineError>)
    ensures
        text_result(text) == generated_in(document@),
{
    let content = match document.member("choices") {
        Some(choices) => match choices.element(0) {
            Some(choice) => match choice.member("message") {
                Some(message) => message.text_member("content"),
                None => None,
            },
            None => None,
        },
        None => None,
    };
    match content {
        Some(text) => if text.unicode_len() > 0 {
            Ok(String::from_str(text))
        } else {
            Err(PipelineError::MalformedResponse)
        },
        None => Err(PipelineError::MalformedResponse),
    }
}

/// Reads the outcome of a call to the chat-completion service.
pub fn read_generation(outcome: HttpOutcome) -> (text: Result<String, PipelineError>)
    ensures
        text_result(text) == generated_of(outcome@),
{
    match accept_document(outcome) {
        Ok(document) => generated_from(&document),
        Err(error) => Err(error),
    }
}

/// The order of a prompt: the system message with the instructions comes
/// first, the utterance of the user comes last, and between them stands the
/// history, turn for turn in its own order.
pub proof fn lemma_prompt_order(
    instructions: Seq<char>,
    history: Seq<TurnModel>,
    utterance: Seq<char>,
)
    ensures
        prompt_sequence(instructions, history, utterance).len() == history.len() + 2,
        prompt_sequence(instructions, history, utterance).first() == (MessageModel {
            role: MessageRole::System,
            content: instructions,
        }),
        prompt_sequence(instructions, history, utterance).last() == (MessageModel {
            role: MessageRole::User,
            content: utterance,
        }),
        forall|i: int|
            0 <= i < history.len() ==> (#[trigger] prompt_sequence(
                instructions,
                history,
                utterance,
            )[i + 1]) == turn_message(history[i]),
{
}

} // verus!
