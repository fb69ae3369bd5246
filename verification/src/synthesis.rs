//! The speech synthesizer: what is sent to the text-to-speech service and
//! how its reply is read.

use crate::error::{bytes_result, ErrorModel, PipelineError};
use crate::http::{accept, accepted_body, HttpOutcome, OutcomeModel};
use crate::json::{member_trees, Json, JsonTree, Member, MemberTree};
use crate::language::{language_of, parse_language, Language};
use vstd::prelude::*;

verus! {

/// The voice in which a language is spoken. All languages share one voice,
/// so that the persona sounds the same in each.
pub open spec fn voice_of(language: Language) -> Seq<char> {
    match language {
        Language::English => "sage"@,
        Language::Hindi => "sage"@,
        Language::Punjabi => "sage"@,
    }
}

/// The body of the request that asks for speech: model, text, voice and the
/// encoding of the audio.
pub open spec fn synthesis_body(text: Seq<char>, language: Language) -> JsonTree {
    JsonTree::Object(
        seq![
            MemberTree::text("model"@, "tts-1"@),
            MemberTree::text("input"@, text),
            MemberTree::text("voice"@, voice_of(language)),
            MemberTree::text("response_format"@, "mp3"@),
        ],
    )
}

/// The body of the request for a language given by its code;
/// `InvalidLanguage` where the code names no supported language.
pub open spec fn synthesis_of(text: Seq<char>, code: Seq<char>) -> Result<JsonTree, ErrorModel> {
    match language_of(code) {
        Some(language) => Ok(synthesis_body(text, language)),
        None => Err(ErrorModel::InvalidLanguage),
    }
}

/// The audio that the outcome of a call gives: the body of a reply that
/// reports success.
pub open spec fn synthesized(outcome: OutcomeModel) -> Result<Seq<u8>, ErrorModel> {
    accepted_body(outcome)
}

/// Looks up the voice in which a language is spoken.
pub fn voice_for(language: Language) -> (voice: &'static str)
    ensures
        voice@ == voice_of(language),
{
    match language {
        Language::English => "sage",
        Language::Hindi => "sage",
        Language::Punjabi => "sage",
    }
}

/// Makes the body of the request that asks for speech.
pub fn speech_body(text: &str, language: Language) -> (body: Json)
    ensures
        body@ == synthesis_body(text@, language),
{
    let mut members: Vec<Member> = Vec::new();
    members.push(Member::text("model", "tts-1"));
    members.push(Member::text("input", text));
    members.push(Member::text("voice", voice_for(language)));
    members.push(Member::text("response_format", "mp3"));
    proof {
        assert(member_trees(members@) =~= synthesis_body(text@, language)->Object_0);
    }
    Json::object(members)
}

/// Makes the body of the request for a language given by its code. The code
/// is validated before anything is made: an unsupported one gives
/// `InvalidLanguage` and no request.
pub fn synthesis_request(text: &str, language: &str) -> (body: Result<Json, PipelineError>)
    ensures
        match body {
            Ok(body) => synthesis_of(text@, language@) == Ok::<JsonTree, ErrorModel>(body@),
            Err(error) => synthesis_of(text@, language@) == Err::<JsonTree, ErrorModel>(error@),
        },
{
    match parse_language(language) {
        Ok(known) => Ok(speech_body(text, known)),
        Err(error) => Err(error),
    }
}

/// Reads the outcome of a call to the synthesis service.
pub fn read_synthesis(outcome: HttpOutcome) -> (audio: Result<Vec<u8>, PipelineError>)
    ensures
        bytes_result(audio) == synthesized(outcome@),
{
    accept(outcome)
}

} // verus!
