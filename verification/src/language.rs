//! The languages that the service speaks.

use crate::error::{ErrorModel, PipelineError};
use crate::text::same_text;
use vstd::prelude::*;

verus! {

/// A supported language.
#[derive(Clone, Copy, Debug, PartialEq, Eq, Structural)]
pub enum Language {
    English,
    Hindi,
    Punjabi,
}

/// The code by which requests name a language.
pub open spec fn language_code(language: Language) -> Seq<char> {
    match language {
        Language::English => "en"@,
        Language::Hindi => "hi"@,
        Language::Punjabi => "pa"@,
    }
}

/// The language that a code names, if it names one.
pub open spec fn language_of(code: Seq<char>) -> Option<Language> {
    if code == "en"@ {
        Some(Language::English)
    } else if code == "hi"@ {
        Some(Language::Hindi)
    } else if code == "pa"@ {
        Some(Language::Punjabi)
    } else {
        None
    }
}

/// What validating a language code gives: the language, or `InvalidLanguage`.
pub open spec fn checked_language(code: Seq<char>) -> Result<Language, ErrorModel> {
    match language_of(code) {
        Some(language) => Ok(language),
        None => Err(ErrorModel::InvalidLanguage),
    }
}

/// Each language is the one that its own code names.
pub proof fn lemma_code_names_language(language: Language)
    ensures
        language_of(language_code(language)) == Some(language),
{
    reveal_strlit("en");
    reveal_strlit("hi");
    reveal_strlit("pa");
    assert("en"@[0] == 'e' && "hi"@[0] == 'h' && "pa"@[0] == 'p');
}

impl Language {
    /// The code by which requests name this language.
    pub fn code(self) -> (code: &'static str)
        ensures
            code@ == language_code(self),
    {
        match self {
            Language::English => "en",
            Language::Hindi => "hi",
            Language::Punjabi => "pa",
        }
    }
}

/// Validates a language code: `en`, `hi` and `pa` are accepted, every other
/// text is refused with `InvalidLanguage`.
pub fn parse_language(code: &str) -> (parsed: Result<Language, PipelineError>)
    ensures
        match parsed {
            Ok(language) => checked_language(code@) == Ok::<Language, ErrorModel>(language),
            Err(error) => checked_language(code@) == Err::<Language, ErrorModel>(error@),
        },
{
    if same_text(code, "en") {
        Ok(Language::English)
    } else if same_text(code, "hi") {
        Ok(Language::Hindi)
    } else if same_text(code, "pa") {
        Ok(Language::Punjabi)
    } else {
        Err(PipelineError::InvalidLanguage)
    }
}

} // verus!
