//! The chat flow: from a typed message to a generated reply, with the
//! conversation kept in the store. Like the voice flow it is a state
//! machine that says which call comes next and reads what the call gave.
//!
//! The stages follow one another in a fixed order: verify the identity,
//! validate the language, read the history, generate, write the turn of the
//! user, write the turn of the assistant. The first failure ends the flow.
//! The two writes are independent: where the second fails the first is not
//! taken back, and the caller is told of a failure although a reply was
//! generated.
//!
//! A record that is written carries the time at which the flow asked for the
//! write. Where the clock gives no time that can be written, the record
//! cannot be made and the flow ends as if the store could not be reached.

use crate::auth::{authorization_for, authorization_header, bearer_of, bearer_token, read_identity, resolved_identity};
use crate::error::{fault_for, ErrorModel, Fault, PipelineError};
use crate::generation::{generated_of, generation_prompt, prompt_for, read_generation};
use crate::http::{accepted_body, HttpOutcome, OutcomeModel};
use crate::json::{Json, JsonTree};
use crate::language::{language_of, parse_language, Language};
use crate::persona::ModeFlags;
use crate::store::{
    current_timestamp, history_of, history_query, history_query_text, read_history, read_store,
    record_tree, store_record, ChatTurn, Speaker, TurnModel,
};
use crate::text::view_of;
use vstd::prelude::*;

verus! {

/// A request of the chat flow.
#[derive(Clone, Debug, PartialEq, Eq)]
pub struct ChatRequest {
    pub message: String,
    pub language: String,
    pub modes: ModeFlags,
}

/// The mathematical value of a [`ChatRequest`].
pub struct ChatRequestModel {
    pub message: Seq<char>,
    pub language: Seq<char>,
    pub modes: ModeFlags,
}

impl View for ChatRequest {
    type V = ChatRequestModel;

    open spec fn view(&self) -> ChatRequestModel {
        ChatRequestModel { message: self.message@, language: self.language@, modes: self.modes }
    }
}

/// The response of the chat flow: the generated text.
#[derive(Clone, Debug, PartialEq, Eq)]
pub struct ChatResponse {
    pub response_text: String,
}

/// Where a chat flow stands: which outcome it waits for, and what it keeps
/// for the stages to come.
#[derive(Clone, Debug, PartialEq, Eq)]
pub enum ChatState {
    /// Waiting for the identity service.
    VerifyingIdentity { request: ChatRequest },
    /// Waiting for the history.
    ReadingHistory { user_id: String, language: Language, modes: ModeFlags, message: String },
    /// Waiting for the generated text.
    Generating { user_id: String, message: String },
    /// Waiting for the store to take the turn of the user.
    StoringUserTurn { user_id: String, response_text: String },
    /// Waiting for the store to take the turn of the assistant.
    StoringAssistantTurn { response_text: String },
    /// The flow has ended, with a response or a failure.
    Finished,
}

/// The mathematical value of a [`ChatState`].
pub enum ChatStateModel {
    VerifyingIdentity { request: ChatRequestModel },
    ReadingHistory { user_id: Seq<char>, language: Language, modes: ModeFlags, message: Seq<char> },
    Generating { user_id: Seq<char>, message: Seq<char> },
    StoringUserTurn { user_id: Seq<char>, response_text: Seq<char> },
    StoringAssistantTurn { response_text: Seq<char> },
    Finished,
}

impl View for ChatState {
    type V = ChatStateModel;

    open spec fn view(&self) -> ChatStateModel {
        match self {
            ChatState::VerifyingIdentity { request } => ChatStateModel::VerifyingIdentity {
                request: request@,
            },
            ChatState::ReadingHistory {
                user_id,
                language,
                modes,
                message,
            } => ChatStateModel::ReadingHistory {
                user_id: user_id@,
                language: *language,
                modes: *modes,
                message: message@,
            },
            ChatState::Generating { user_id, message } => ChatStateModel::Generating {
                user_id: user_id@,
                message: message@,
            },
            ChatState::StoringUserTurn { user_id, response_text } => ChatStateModel::StoringUserTurn {
                user_id: user_id@,
                response_text: response_text@,
            },
            ChatState::StoringAssistantTurn {
                response_text,
            } => ChatStateModel::StoringAssistantTurn { response_text: response_text@ },
            ChatState::Finished => ChatStateModel::Finished,
        }
    }
}

/// What the caller of the flow is to do next.
#[derive(Debug, PartialEq, Eq)]
pub enum ChatAction {
    /// Ask the identity service who presents this authorization header.
    VerifyIdentity { authorization: String },
    /// Get this query from the store.
    ReadHistory { query: String },
    /// Post the body to the chat-completion service.
    Generate { body: Json },
    /// Post the record to the store.
    Store { record: Json },
    /// Answer the request: the flow has succeeded.
    Respond(ChatResponse),
    /// Report the failure: the flow has failed.
    Fail(PipelineError),
    /// Do nothing: the flow has ended before.
    Nothing,
}

/// The mathematical value of a [`ChatAction`].
pub enum ChatActionModel {
    VerifyIdentity { authorization: Seq<char> },
    ReadHistory { query: Seq<char> },
    Generate { body: JsonTree },
    Store { record: JsonTree },
    Respond { response_text: Seq<char> },
    Fail(ErrorModel),
    Nothing,
}

impl View for ChatAction {
    type V = ChatActionModel;

    open spec fn view(&self) -> ChatActionModel {
        match self {
            ChatAction::VerifyIdentity { authorization } => ChatActionModel::VerifyIdentity {
                authorization: authorization@,
            },
            ChatAction::ReadHistory { query } => ChatActionModel::ReadHistory { query: query@ },
            ChatAction::Generate { body } => ChatActionModel::Generate { body: body@ },
            ChatAction::Store { record } => ChatActionModel::Store { record: record@ },
            ChatAction::Respond(response) => ChatActionModel::Respond {
                response_text: response.response_text@,
            },
            ChatAction::Fail(error) => ChatActionModel::Fail(error@),
            ChatAction::Nothing => ChatActionModel::Nothing,
        }
    }
}

/// The end of a flow that has failed.
pub open spec fn chat_failure(error: ErrorModel) -> (ChatStateModel, ChatActionModel) {
    (ChatStateModel::Finished, ChatActionModel::Fail(error))
}

/// How a chat flow begins: with the credential of the authorization header,
/// which is handed to the identity service. Without a credential the flow
/// ends at once, `Unauthorized`.
pub open spec fn chat_begin(authorization: Option<Seq<char>>, request: ChatRequestModel) -> (
    ChatStateModel,
    ChatActionModel,
) {
    match bearer_of(authorization) {
        Err(error) => chat_failure(error),
        Ok(token) => (
            ChatStateModel::VerifyingIdentity { request },
            ChatActionModel::VerifyIdentity { authorization: authorization_for(token) },
        ),
    }
}

/// The write of a turn: the state that waits for the store and the record
/// that is handed to it, stamped with `timestamp`. Without a timestamp no
/// record can be made, and the flow ends with a `TransportError`.
pub open spec fn chat_write(
    waiting: ChatStateModel,
    user_id: Seq<char>,
    turn: TurnModel,
    timestamp: Option<Seq<char>>,
) -> (ChatStateModel, ChatActionModel) {
    match timestamp {
        Some(stamp) => (waiting, ChatActionModel::Store { record: record_tree(user_id, turn, stamp) }),
        None => chat_failure(ErrorModel::TransportError),
    }
}

/// True for the states from which a record may be written: only there is
/// the time of the step asked for.
pub open spec fn awaits_write(state: ChatStateModel) -> bool {
    state is Generating || state is StoringUserTurn
}

/// How a chat flow goes on: the state that follows a state and the outcome
/// of the call that was asked for, and what the caller is to do next. A
/// record that is written carries `timestamp`.
pub open spec fn chat_next(
    state: ChatStateModel,
    outcome: OutcomeModel,
    timestamp: Option<Seq<char>>,
) -> (ChatStateModel, ChatActionModel) {
    match state {
        ChatStateModel::VerifyingIdentity { request } => match resolved_identity(outcome) {
            Err(error) => chat_failure(error),
            Ok(user_id) => match language_of(request.language) {
                None => chat_failure(ErrorModel::InvalidLanguage),
                Some(language) => (
                    ChatStateModel::ReadingHistory {
                        user_id,
                        language,
                        modes: request.modes,
                        message: request.message,
                    },
                    ChatActionModel::ReadHistory { query: history_query_text(user_id) },
                ),
            },
        },
        ChatStateModel::ReadingHistory { user_id, language, modes, message } => match history_of(
            outcome,
        ) {
            Err(error) => chat_failure(error),
            Ok(history) => (
                ChatStateModel::Generating { user_id, message },
                ChatActionModel::Generate {
                    body: generation_prompt(message, language, modes, history),
                },
            ),
        },
        ChatStateModel::Generating { user_id, message } => match generated_of(outcome) {
            Err(error) => chat_failure(error),
            Ok(response_text) => chat_write(
                ChatStateModel::StoringUserTurn { user_id, response_text },
                user_id,
                TurnModel { role: Speaker::User, content: message },
                timestamp,
            ),
        },
        ChatStateModel::StoringUserTurn { user_id, response_text } => match accepted_body(outcome) {
            Err(error) => chat_failure(error),
            Ok(_) => chat_write(
                ChatStateModel::StoringAssistantTurn { response_text },
                user_id,
                TurnModel { role: Speaker::Assistant, content: response_text },
                timestamp,
            ),
        },
        ChatStateModel::StoringAssistantTurn { response_text } => match accepted_body(outcome) {
            Err(error) => chat_failure(error),
            Ok(_) => (ChatStateModel::Finished, ChatActionModel::Respond { response_text }),
        },
        ChatStateModel::Finished => (ChatStateModel::Finished, ChatActionModel::Nothing),
    }
}

/// Begins a chat flow.
pub fn chat_start(authorization: Option<&str>, request: ChatRequest) -> (begun: (
    ChatState,
    ChatAction,
))
    ensures
        (begun.0@, begun.1@) == chat_begin(view_of(authorization), request@),
{
    match bearer_token(authorization) {
        Err(error) => (ChatState::Finished, ChatAction::Fail(error)),
        Ok(token) => (
            ChatState::VerifyingIdentity { request },
            ChatAction::VerifyIdentity { authorization: authorization_header(token.as_str()) },
        ),
    }
}

/// Takes a chat flow one step further; a record that this step writes
/// carries the given timestamp, and without one the write fails.
pub fn chat_step_at(state: ChatState, outcome: HttpOutcome, timestamp: Option<&str>) -> (next: (
    ChatState,
    ChatAction,
))
    ensures
        (next.0@, next.1@) == chat_next(state@, outcome@, view_of(timestamp)),
{
    match state {
        ChatState::VerifyingIdentity { request } => match read_identity(outcome) {
            Err(error) => (ChatState::Finished, ChatAction::Fail(error)),
            Ok(identity) => match parse_language(request.language.as_str()) {
                Err(error) => (ChatState::Finished, ChatAction::Fail(error)),
                Ok(language) => {
                    let query = history_query(identity.user_id.as_str());
                    (
                        ChatState::ReadingHistory {
                            user_id: identity.user_id,
                            language,
                            modes: request.modes,
                            message: request.message,
                        },
                        ChatAction::ReadHistory { query },
                    )
                },
            },
        },
        ChatState::ReadingHistory { user_id, language, modes, message } => match read_history(
            outcome,
        ) {
            Err(error) => (ChatState::Finished, ChatAction::Fail(error)),
            Ok(history) => {
                let body = prompt_for(message.as_str(), language, modes, &history);
                (ChatState::Generating { user_id, message }, ChatAction::Generate { body })
            },
        },
        ChatState::Generating { user_id, message } => match read_generation(outcome) {
            Err(error) => (ChatState::Finished, ChatAction::Fail(error)),
            Ok(response_text) => match timestamp {
                Some(stamp) => {
                    let turn = ChatTurn { role: Speaker::User, content: message };
                    let record = store_record(user_id.as_str(), &turn, stamp);
                    (
                        ChatState::StoringUserTurn { user_id, response_text },
                        ChatAction::Store { record },
                    )
                },
                None => (ChatState::Finished, ChatAction::Fail(PipelineError::TransportError)),
            },
        },
        ChatState::StoringUserTurn { user_id, response_text } => match read_store(outcome) {
            Err(error) => (ChatState::Finished, ChatAction::Fail(error)),
            Ok(_) => match timestamp {
                Some(stamp) => {
                    let turn = ChatTurn { role: Speaker::Assistant, content: response_text };
                    let record = store_record(user_id.as_str(), &turn, stamp);
                    (
                        ChatState::StoringAssistantTurn { response_text: turn.content },
                        ChatAction::Store { record },
                    )
                },
                None => (ChatState::Finished, ChatAction::Fail(PipelineError::TransportError)),
            },
        },
        ChatState::StoringAssistantTurn { response_text } => match read_store(outcome) {
            Err(error) => (ChatState::Finished, ChatAction::Fail(error)),
            Ok(_) => (ChatState::Finished, ChatAction::Respond(ChatResponse { response_text })),
        },
        ChatState::Finished => (ChatState::Finished, ChatAction::Nothing),
    }
}

/// Tells whether a record may be written from a state.
pub fn may_write(state: &ChatState) -> (writes: bool)
    ensures
        writes == awaits_write(state@),
{
    match state {
        ChatState::Generating { .. } => true,
        ChatState::StoringUserTurn { .. } => true,
        _ => false,
    }
}

/// Takes a chat flow one step further. The clock is read only in the two
/// states from which a record may be written; the record is stamped with
/// that time, and where the clock gives none the write fails. In every other
/// state the step is the one that [`chat_next`] gives without a timestamp.
pub fn chat_step(state: ChatState, outcome: HttpOutcome) -> (next: (ChatState, ChatAction))
    ensures
        exists|timestamp: Option<Seq<char>>|
            (next.0@, next.1@) == chat_next(state@, outcome@, timestamp),
        !awaits_write(state@) ==> (next.0@, next.1@) == chat_next(state@, outcome@, None),
{
    if may_write(&state) {
        match current_timestamp() {
            Some(timestamp) => chat_step_at(state, outcome, Some(timestamp.as_str())),
            None => chat_step_at(state, outcome, None),
        }
    } else {
        chat_step_at(state, outcome, None)
    }
}

/// Every failure of authorization ends the flow in the same way,
/// `Unauthorized`, before anything else is done: at the beginning where the
/// header holds no credential, and at the first step where the identity
/// service does not resolve it.
pub proof fn lemma_unauthorized_ends_chat_flow(
    authorization: Option<Seq<char>>,
    request: ChatRequestModel,
    outcome: OutcomeModel,
    timestamp: Option<Seq<char>>,
)
    ensures
        bearer_of(authorization) is Err ==> chat_begin(authorization, request) == chat_failure(
            ErrorModel::Unauthorized,
        ),
        resolved_identity(outcome) is Err ==> chat_next(
            ChatStateModel::VerifyingIdentity { request },
            outcome,
            timestamp,
        ) == chat_failure(ErrorModel::Unauthorized),
        fault_for(ErrorModel::Unauthorized) == Fault::Unauthorized,
{
}

/// A request in an unsupported language fails with `InvalidLanguage`, a
/// fault of the client, as soon as the identity is verified: neither the
/// store nor the generator is asked for.
pub proof fn lemma_unsupported_language_ends_chat_flow(
    request: ChatRequestModel,
    outcome: OutcomeModel,
    timestamp: Option<Seq<char>>,
)
    requires
        language_of(request.language) is None,
        resolved_identity(outcome) is Ok,
    ensures
        chat_next(ChatStateModel::VerifyingIdentity { request }, outcome, timestamp)
            == chat_failure(ErrorModel::InvalidLanguage),
        fault_for(ErrorModel::InvalidLanguage) == Fault::BadRequest,
{
}

/// The stages of a chat flow come in one order. Each action is asked for
/// from one state only, the one before it; the generator is reached only
/// through a verified identity and a history that was read; a failure ends
/// the flow; and a flow that has ended stays so and asks for nothing.
pub proof fn lemma_chat_stages_in_order(
    state: ChatStateModel,
    outcome: OutcomeModel,
    timestamp: Option<Seq<char>>,
)
    ensures
        !(chat_next(state, outcome, timestamp).1 is VerifyIdentity),
        chat_next(state, outcome, timestamp).1 is ReadHistory ==> state is VerifyingIdentity
            && resolved_identity(outcome) is Ok && chat_next(state, outcome, timestamp).0
            is ReadingHistory,
        chat_next(state, outcome, timestamp).1 is Generate ==> state is ReadingHistory
            && chat_next(state, outcome, timestamp).0 is Generating,
        chat_next(state, outcome, timestamp).1 is Store ==> (state is Generating && chat_next(
            state,
            outcome,
            timestamp,
        ).0 is StoringUserTurn) || (state is StoringUserTurn && chat_next(
            state,
            outcome,
            timestamp,
        ).0 is StoringAssistantTurn),
        chat_next(state, outcome, timestamp).1 is Respond ==> state is StoringAssistantTurn
            && chat_next(state, outcome, timestamp).0 is Finished,
        chat_next(state, outcome, timestamp).1 is Fail ==> chat_next(state, outcome, timestamp).0
            is Finished,
        chat_next(state, outcome, timestamp).1 is Nothing <==> state is Finished,
        state is Finished ==> chat_next(state, outcome, timestamp).0 is Finished,
{
}

/// The two turns of an exchange are written one after the other, the turn
/// of the user first: after the generator has replied the message of the
/// user is written, and after the store has taken it the generated text is
/// written as the turn of the assistant, for the same user.
pub proof fn lemma_turns_are_written_in_order(
    user_id: Seq<char>,
    message: Seq<char>,
    generated: OutcomeModel,
    written: OutcomeModel,
    timestamp: Seq<char>,
)
    requires
        generated_of(generated) is Ok,
        accepted_body(written) is Ok,
    ensures
        ({
            let first = chat_next(
                ChatStateModel::Generating { user_id, message },
                generated,
                Some(timestamp),
            );
            let second = chat_next(first.0, written, Some(timestamp));
            let third = chat_next(second.0, written, Some(timestamp));
            &&& first.1 == ChatActionModel::Store {
                record: record_tree(
                    user_id,
                    TurnModel { role: Speaker::User, content: message },
                    timestamp,
                ),
            }
            &&& second.1 == ChatActionModel::Store {
                record: record_tree(
                    user_id,
                    TurnModel {
                        role: Speaker::Assistant,
                        content: generated_of(generated)->Ok_0,
                    },
                    timestamp,
                ),
            }
            &&& third == (
                ChatStateModel::Finished,
                ChatActionModel::Respond { response_text: generated_of(generated)->Ok_0 },
            )
        }),
{
}

/// A write that fails is a fault of the server, although the reply was
/// generated: the caller gets the failure and not the text.
pub proof fn lemma_failed_write_fails_the_request(
    state: ChatStateModel,
    outcome: OutcomeModel,
    timestamp: Option<Seq<char>>,
)
    requires
        state is StoringUserTurn || state is StoringAssistantTurn,
        accepted_body(outcome) is Err,
    ensures
        chat_next(state, outcome, timestamp) == chat_failure(accepted_body(outcome)->Err_0),
        fault_for(accepted_body(outcome)->Err_0) == Fault::ServerFault,
{
}

/// The time counts for a write alone. A step that writes no record is the
/// same whatever the timestamp and without one: every step from a state that
/// awaits no write, and every step whose outcome is a failure. A step that
/// would write and has no timestamp ends the flow with a fault of the
/// server, and nothing is handed to the store.
pub proof fn lemma_time_counts_for_writes_alone(
    state: ChatStateModel,
    outcome: OutcomeModel,
    timestamp: Option<Seq<char>>,
)
    ensures
        !awaits_write(state) ==> chat_next(state, outcome, timestamp) == chat_next(
            state,
            outcome,
            None,
        ),
        state is Generating && generated_of(outcome) is Err ==> chat_next(
            state,
            outcome,
            timestamp,
        ) == chat_next(state, outcome, None),
        state is StoringUserTurn && accepted_body(outcome) is Err ==> chat_next(
            state,
            outcome,
            timestamp,
        ) == chat_next(state, outcome, None),
        !(chat_next(state, outcome, None).1 is Store),
        chat_next(state, outcome, timestamp).1 is Store ==> timestamp is Some && awaits_write(
            state,
        ),
        chat_next(state, outcome, None) != chat_next(state, outcome, timestamp) ==> chat_next(
            state,
            outcome,
            None,
        ) == chat_failure(ErrorModel::TransportError) && fault_for(ErrorModel::TransportError)
            == Fault::ServerFault,
{
}

} // verus!
