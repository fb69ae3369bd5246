//! The conversation store: the turns of a conversation, how a turn is
//! written to the store and read back, and how the history of a user is
//! taken from the store's reply.

use crate::error::{ErrorModel, PipelineError};
use crate::http::{accept, accept_document, accepted_body, accepted_document, HttpOutcome, OutcomeModel};
use crate::json::{first_named, member_trees, Json, JsonTree, Member, MemberTree};
use crate::text::{same_text, view_of};
use vstd::prelude::*;

verus! {

/// The history that goes into a prompt holds at most this many turns.
pub const HISTORY_LIMIT: usize = 10;

/// Who spoke a turn.
#[derive(Clone, Copy, Debug, PartialEq, Eq, Structural)]
pub enum Speaker {
    User,
    Assistant,
}

/// One turn of a conversation.
#[derive(Clone, Debug, PartialEq, Eq)]
pub struct ChatTurn {
    pub role: Speaker,
    pub content: String,
}

/// The mathematical value of a [`ChatTurn`].
pub struct TurnModel {
    pub role: Speaker,
    pub content: Seq<char>,
}

impl View for ChatTurn {
    type V = TurnModel;

    open spec fn view(&self) -> TurnModel {
        TurnModel { role: self.role, content: self.content@ }
    }
}

/// The values of a sequence of turns.
pub open spec fn turn_models(turns: Seq<ChatTurn>) -> Seq<TurnModel> {
    turns.map_values(|turn: ChatTurn| turn@)
}

/// The name under which a speaker is stored.
pub open spec fn speaker_name(speaker: Speaker) -> Seq<char> {
    match speaker {
        Speaker::User => "user"@,
        Speaker::Assistant => "assistant"@,
    }
}

/// The speaker that a stored name stands for.
pub open spec fn speaker_of(name: Seq<char>) -> Option<Speaker> {
    if name == "user"@ {
        Some(Speaker::User)
    } else if name == "assistant"@ {
        Some(Speaker::Assistant)
    } else {
        None
    }
}

/// A turn as the store holds it: an object with the string members `role`
/// and `content`.
pub open spec fn turn_tree(turn: TurnModel) -> JsonTree {
    JsonTree::Object(
        seq![
            MemberTree::text("role"@, speaker_name(turn.role)),
            MemberTree::text("content"@, turn.content),
        ],
    )
}

/// The turn with the given role and content, where both are there and the
/// role names a speaker.
pub open spec fn turn_with(role: Option<Seq<char>>, content: Option<Seq<char>>) -> Option<
    TurnModel,
> {
    match (role, content) {
        (Some(role), Some(content)) => match speaker_of(role) {
            Some(speaker) => Some(TurnModel { role: speaker, content }),
            None => None,
        },
        _ => None,
    }
}

/// The turn that a stored message holds. A message is an object with string
/// members `role` and `content`, or an array of exactly these two strings in
/// this order; anything else holds no turn.
pub open spec fn turn_of(message: JsonTree) -> Option<TurnModel> {
    match message {
        JsonTree::Object(_) => turn_with(
            message.text_member("role"@),
            message.text_member("content"@),
        ),
        JsonTree::Array(items) => if items.len() == 2 {
            turn_with(items[0].text(), items[1].text())
        } else {
            None
        },
        _ => None,
    }
}

/// The turn in the `message` member of a stored record.
pub open spec fn record_turn(record: JsonTree) -> Option<TurnModel> {
    match record.member("message"@) {
        Some(message) => turn_of(message),
        None => None,
    }
}

/// The turns of the records that hold one, in the order of the records.
pub open spec fn decoded_turns(records: Seq<JsonTree>) -> Seq<TurnModel>
    decreases records.len(),
{
    if records.len() == 0 {
        Seq::empty()
    } else {
        match record_turn(records[0]) {
            Some(turn) => seq![turn] + decoded_turns(records.drop_first()),
            None => decoded_turns(records.drop_first()),
        }
    }
}

/// The first records of a reply, up to the limit of the history.
pub open spec fn recent_records(records: Seq<JsonTree>) -> Seq<JsonTree> {
    if records.len() <= HISTORY_LIMIT {
        records
    } else {
        records.take(HISTORY_LIMIT as int)
    }
}

/// The history in the document of a reply. The store lists its records
/// newest first; the history holds the turns of the most recent records in
/// the order in which they were spoken. A record that holds no turn is left
/// out. A document that is no array is no reply of the store.
pub open spec fn history_in(document: JsonTree) -> Result<Seq<TurnModel>, ErrorModel> {
    match document {
        JsonTree::Array(records) => Ok(decoded_turns(recent_records(records)).reverse()),
        _ => Err(ErrorModel::TransportError),
    }
}

/// The history that the outcome of a read gives.
pub open spec fn history_of(outcome: OutcomeModel) -> Result<Seq<TurnModel>, ErrorModel> {
    match accepted_document(outcome) {
        Ok(document) => history_in(document),
        Err(error) => Err(error),
    }
}

/// What is asked of the store to read a history: the message of each record
/// of the user, newest first, ten at most.
pub open spec fn history_query_text(user_id: Seq<char>) -> Seq<char> {
    "/rest/v1/conversations?select=message&user_id=eq."@ + user_id
        + "&order=timestamp.desc&limit=10"@
}

/// The record that is written for a turn.
pub open spec fn record_tree(user_id: Seq<char>, turn: TurnModel, timestamp: Seq<char>) -> JsonTree {
    JsonTree::Object(
        seq![
            MemberTree::text("user_id"@, user_id),
            MemberTree { name: "message"@, value: turn_tree(turn) },
            MemberTree::text("timestamp"@, timestamp),
        ],
    )
}

/// What the outcome of a write gives: nothing, or the error.
pub open spec fn stored(outcome: OutcomeModel) -> Result<(), ErrorModel> {
    match accepted_body(outcome) {
        Ok(_) => Ok(()),
        Err(error) => Err(error),
    }
}

impl Speaker {
    /// The name under which this speaker is stored.
    pub fn name(self) -> (name: &'static str)
        ensures
            name@ == speaker_name(self),
    {
        match self {
            Speaker::User => "user",
            Speaker::Assistant => "assistant",
        }
    }
}

/// Reads a speaker from its stored name.
pub fn parse_speaker(name: &str) -> (speaker: Option<Speaker>)
    ensures
        speaker == speaker_of(name@),
{
    if same_text(name, "user") {
        Some(Speaker::User)
    } else if same_text(name, "assistant") {
        Some(Speaker::Assistant)
    } else {
        None
    }
}

/// Writes a turn as the store holds it.
pub fn turn_json(turn: &ChatTurn) -> (json: Json)
    ensures
        json@ == turn_tree(turn@),
{
    let mut members: Vec<Member> = Vec::new();
    members.push(Member::text("role", turn.role.name()));
    members.push(Member::text("content", turn.content.as_str()));
    proof {
        assert(member_trees(members@) =~= turn_tree(turn@)->Object_0);
    }
    Json::object(members)
}

/// Makes the turn with the given role and content.
fn make_turn(role: Option<&str>, content: Option<&str>) -> (turn: Option<ChatTurn>)
    ensures
        match turn {
            Some(turn) => turn_with(view_of(role), view_of(content)) == Some(turn@),
            None => turn_with(view_of(role), view_of(content)) is None,
        },
{
    match (role, content) {
        (Some(role), Some(content)) => match parse_speaker(role) {
            Some(speaker) => Some(ChatTurn { role: speaker, content: String::from_str(content) }),
            None => None,
        },
        _ => None,
    }
}

/// Reads the turn that a stored message holds.
pub fn turn_from(message: &Json) -> (turn: Option<ChatTurn>)
    ensures
        match turn {
            Some(turn) => turn_of(message@) == Some(turn@),
            None => turn_of(message@) is None,
        },
{
    match message {
        Json::Object(_) => make_turn(message.text_member("role"), message.text_member("content")),
        Json::Array(_) => match message.items() {
            Some(items) => if items.len() == 2 {
                make_turn(items[0].text(), items[1].text())
            } else {
                None
            },
            None => None,
        },
        _ => None,
    }
}

/// Reads the turn in the `message` member of a stored record.
pub fn record_turn_from(record: &Json) -> (turn: Option<ChatTurn>)
    ensures
        match turn {
            Some(turn) => record_turn(record@) == Some(turn@),
            None => record_turn(record@) is None,
        },
{
    match record.member("message") {
        Some(message) => turn_from(message),
        None => None,
    }
}

/// Reversing a sequence with one more element in front appends that element
/// to the reversed sequence.
proof fn lemma_reverse_of_cons<T>(head: T, tail: Seq<T>)
    ensures
        (seq![head] + tail).reverse() == tail.reverse().push(head),
{
    assert((seq![head] + tail).reverse() =~= tail.reverse().push(head));
}

/// Takes the history out of the document of a reply.
pub fn history_from(document: &Json) -> (history: Result<Vec<ChatTurn>, PipelineError>)
    ensures
        match history {
            Ok(turns) => history_in(document@) == Ok::<Seq<TurnModel>, ErrorModel>(
                turn_models(turns@),
            ) && turns@.len() <= HISTORY_LIMIT,
            Err(error) => history_in(document@) == Err::<Seq<TurnModel>, ErrorModel>(error@),
        },
{
    match document.items() {
        None => Err(PipelineError::TransportError),
        Some(records) => {
            let ghost all = document@->Array_0;
            let ghost recent = recent_records(all);
            let count = if records.len() <= HISTORY_LIMIT {
                records.len()
            } else {
                HISTORY_LIMIT
            };
            let mut turns: Vec<ChatTurn> = Vec::new();
            let mut i = count;
            proof {
                assert(recent.skip(count as int) =~= Seq::<JsonTree>::empty());
                assert(turn_models(turns@) =~= Seq::<TurnModel>::empty().reverse());
            }
            while i > 0
                invariant
                    i <= count <= HISTORY_LIMIT,
                    count == recent.len(),
                    count <= records@.len(),
                    forall|k: int| 0 <= k < count ==> recent[k] == (#[trigger] records@[k])@,
                    turn_models(turns@) == decoded_turns(recent.skip(i as int)).reverse(),
                    turns@.len() <= count - i,
                decreases i,
            {
                i -= 1;
                let ghost rest = recent.skip(i + 1);
                let ghost before = turn_models(turns@);
                proof {
                    assert(recent.skip(i as int)[0] == recent[i as int]);
                    assert(recent.skip(i as int).drop_first() =~= rest);
                }
                match record_turn_from(&records[i]) {
                    Some(turn) => {
                        proof {
                            lemma_reverse_of_cons(turn@, decoded_turns(rest));
                        }
                        turns.push(turn);
                        proof {
                            assert(turn_models(turns@) =~= before.push(turn@));
                        }
                    },
                    None => {},
                }
            }
            proof {
                assert(recent.skip(0) =~= recent);
            }
            Ok(turns)
        },
    }
}

/// Takes the history out of the outcome of a read. An outcome that reports
/// no success fails as [`accepted_document`] says; no record can make the
/// read fail.
pub fn read_history(outcome: HttpOutcome) -> (history: Result<Vec<ChatTurn>, PipelineError>)
    ensures
        match history {
            Ok(turns) => history_of(outcome@) == Ok::<Seq<TurnModel>, ErrorModel>(
                turn_models(turns@),
            ) && turns@.len() <= HISTORY_LIMIT,
            Err(error) => history_of(outcome@) == Err::<Seq<TurnModel>, ErrorModel>(error@),
        },
{
    match accept_document(outcome) {
        Ok(document) => history_from(&document),
        Err(error) => Err(error),
    }
}

/// Says what is asked of the store to read the history of a user.
pub fn history_query(user_id: &str) -> (query: String)
    ensures
        query@ == history_query_text(user_id@),
{
    let mut query = String::from_str("/rest/v1/conversations?select=message&user_id=eq.");
    query.append(user_id);
    query.append("&order=timestamp.desc&limit=10");
    query
}

/// Makes the record that is written for a turn.
pub fn store_record(user_id: &str, turn: &ChatTurn, timestamp: &str) -> (record: Json)
    ensures
        record@ == record_tree(user_id@, turn@, timestamp@),
{
    let mut members: Vec<Member> = Vec::new();
    members.push(Member::text("user_id", user_id));
    members.push(Member::new("message", turn_json(turn)));
    members.push(Member::text("timestamp", timestamp));
    proof {
        assert(member_trees(members@) =~= record_tree(user_id@, turn@, timestamp@)->Object_0);
    }
    Json::object(members)
}

/// The time of the call, as the timestamp of a record; `None` where the
/// clock gives no time that can be written. Reads the clock with
/// `SystemTime::now`, takes the time since 1970 with `duration_since`, makes
/// the date with `chrono::DateTime::from_timestamp` and writes it with
/// `to_rfc3339`. A clock before 1970 and a time outside the dates that
/// `chrono` holds give `None`. Nothing is claimed of the text: it depends on
/// the clock.
#[verifier::external_body]
pub(crate) fn current_timestamp() -> Option<String> {
    let elapsed = std::time::SystemTime::now().duration_since(std::time::UNIX_EPOCH).ok()?;
    let seconds = i64::try_from(elapsed.as_secs()).ok()?;
    let moment = chrono::DateTime::from_timestamp(seconds, elapsed.subsec_nanos())?;
    Some(moment.to_rfc3339())
}

/// Makes the record that is written for a turn, stamped with the time of the
/// call; `None` where the clock gives no time that can be written.
pub fn store_record_now(user_id: &str, turn: &ChatTurn) -> (record: Option<Json>)
    ensures
        record matches Some(written) ==> exists|timestamp: Seq<char>|
            written@ == record_tree(user_id@, turn@, timestamp),
{
    match current_timestamp() {
        Some(timestamp) => Some(store_record(user_id, turn, timestamp.as_str())),
        None => None,
    }
}

/// Reads the outcome of a write.
pub fn read_store(outcome: HttpOutcome) -> (written: Result<(), PipelineError>)
    ensures
        match written {
            Ok(_) => stored(outcome@) == Ok::<(), ErrorModel>(()),
            Err(error) => stored(outcome@) == Err::<(), ErrorModel>(error@),
        },
{
    match accept(outcome) {
        Ok(_) => Ok(()),
        Err(error) => Err(error),
    }
}

/// Each speaker is the one that its own name stands for.
pub proof fn lemma_speaker_round_trip(speaker: Speaker)
    ensures
        speaker_of(speaker_name(speaker)) == Some(speaker),
{
    reveal_strlit("user");
    reveal_strlit("assistant");
    assert("user"@.len() != "assistant"@.len());
}

/// A turn that is written as the store holds it reads back as the same turn.
pub proof fn lemma_turn_round_trip(turn: TurnModel)
    ensures
        turn_of(turn_tree(turn)) == Some(turn),
{
    let members = turn_tree(turn)->Object_0;
    reveal_strlit("role");
    reveal_strlit("content");
    assert("role"@.len() != "content"@.len());
    reveal_with_fuel(first_named, 2);
    assert(first_named(members, "role"@) == Some(members[0].value));
    assert(members.drop_first()[0] == members[1]);
    assert(first_named(members, "content"@) == Some(members[1].value));
    lemma_speaker_round_trip(turn.role);
}

/// The record that is written for a turn reads back as that turn, whoever
/// the user and whatever the timestamp.
pub proof fn lemma_record_round_trip(user_id: Seq<char>, turn: TurnModel, timestamp: Seq<char>)
    ensures
        record_turn(record_tree(user_id, turn, timestamp)) == Some(turn),
{
    let members = record_tree(user_id, turn, timestamp)->Object_0;
    reveal_strlit("user_id");
    reveal_strlit("message");
    assert("user_id"@[0] != "message"@[0]);
    reveal_with_fuel(first_named, 2);
    assert(members.drop_first()[0] == members[1]);
    assert(first_named(members, "message"@) == Some(members[1].value));
    lemma_turn_round_trip(turn);
}

/// The turns of two runs of records, one after the other, are the turns of
/// the first run followed by those of the second.
pub proof fn lemma_decoded_turns_concat(first: Seq<JsonTree>, second: Seq<JsonTree>)
    ensures
        decoded_turns(first + second) == decoded_turns(first) + decoded_turns(second),
    decreases first.len(),
{
    if first.len() == 0 {
        assert(first + second =~= second);
        assert(decoded_turns(first) + decoded_turns(second) =~= decoded_turns(second));
    } else {
        assert((first + second).drop_first() =~= first.drop_first() + second);
        lemma_decoded_turns_concat(first.drop_first(), second);
        match record_turn(first[0]) {
            Some(turn) => {
                assert(seq![turn] + (decoded_turns(first.drop_first()) + decoded_turns(second))
                    =~= (seq![turn] + decoded_turns(first.drop_first())) + decoded_turns(second));
            },
            None => {},
        }
    }
}

/// A record that holds no turn is left out and changes nothing else: the
/// turns around it are read as if it were not there.
pub proof fn lemma_undecodable_record_is_left_out(
    before: Seq<JsonTree>,
    record: JsonTree,
    after: Seq<JsonTree>,
)
    requires
        record_turn(record) is None,
    ensures
        decoded_turns(before + seq![record] + after) == decoded_turns(before + after),
{
    lemma_decoded_turns_concat(before + seq![record], after);
    lemma_decoded_turns_concat(before, seq![record]);
    lemma_decoded_turns_concat(before, after);
    reveal_with_fuel(decoded_turns, 2);
    assert(seq![record].drop_first() =~= Seq::<JsonTree>::empty());
    assert(decoded_turns(seq![record]) =~= Seq::<TurnModel>::empty());
    assert(decoded_turns(before) + Seq::<TurnModel>::empty() =~= decoded_turns(before));
}

/// Where every record holds a turn, the decoded turns are those turns, one
/// for one.
pub proof fn lemma_decoded_turns_of_whole_records(records: Seq<JsonTree>, turns: Seq<TurnModel>)
    requires
        records.len() == turns.len(),
        forall|i: int| 0 <= i < records.len() ==> record_turn(#[trigger] records[i]) == Some(turns[i]),
    ensures
        decoded_turns(records) == turns,
    decreases records.len(),
{
    if records.len() == 0 {
        assert(turns =~= Seq::<TurnModel>::empty());
    } else {
        let rest = records.drop_first();
        assert forall|i: int| 0 <= i < rest.len() implies record_turn(#[trigger] rest[i]) == Some(
            turns.drop_first()[i],
        ) by {
            assert(rest[i] == records[i + 1]);
        }
        lemma_decoded_turns_of_whole_records(rest, turns.drop_first());
        assert(seq![turns[0]] + turns.drop_first() =~= turns);
    }
}

/// Reading back what was written keeps the order in which it was spoken:
/// where the store lists, newest first, one record for each of at most ten
/// turns, the history is those turns, oldest first.
pub proof fn lemma_history_round_trip(turns: Seq<TurnModel>, records: Seq<JsonTree>)
    requires
        turns.len() <= HISTORY_LIMIT,
        records.len() == turns.len(),
        forall|i: int|
            0 <= i < records.len() ==> record_turn(#[trigger] records[i]) == Some(
                turns[turns.len() - 1 - i],
            ),
    ensures
        history_in(JsonTree::Array(records)) == Ok::<Seq<TurnModel>, ErrorModel>(turns),
{
    lemma_decoded_turns_of_whole_records(records, turns.reverse());
    assert(turns.reverse().reverse() =~= turns);
}

/// No record can make a read fail, and no history is longer than the limit.
pub proof fn lemma_history_is_bounded(records: Seq<JsonTree>)
    ensures
        history_in(JsonTree::Array(records)) is Ok,
        history_in(JsonTree::Array(records))->Ok_0.len() <= HISTORY_LIMIT,
{
    lemma_decoded_turns_len(recent_records(records));
}

/// There are no more decoded turns than records.
pub proof fn lemma_decoded_turns_len(records: Seq<JsonTree>)
    ensures
        decoded_turns(records).len() <= records.len(),
    decreases records.len(),
{
    if records.len() > 0 {
        lemma_decoded_turns_len(records.drop_first());
    }
}

} // verus!
