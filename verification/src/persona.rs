//! The persona: the instruction text that tells the generator how to speak.
//! It is composed from the fixed texts of [`crate::corpus`] by language and
//! mode flags alone.

use crate::corpus::{
    lemma_base_en, lemma_base_hi, lemma_base_pa, lemma_guidance_en, lemma_guidance_hi,
    lemma_guidance_pa, lemma_overlay_en, lemma_overlay_hi, lemma_overlay_pa,
    lemma_sarcastic_en, lemma_sarcastic_hi, lemma_sarcastic_pa, lemma_seductive_en,
    lemma_seductive_hi, lemma_seductive_pa, lemma_shenanigan_en, lemma_shenanigan_hi,
    lemma_shenanigan_pa, BASE_EN, BASE_HI, BASE_PA, GUIDANCE_EN, GUIDANCE_HI, GUIDANCE_PA,
    OVERLAY_EN, OVERLAY_HI, OVERLAY_PA, PREAMBLE, SARCASTIC_EN, SARCASTIC_HI, SARCASTIC_PA,
    SEDUCTIVE_EN, SEDUCTIVE_HI, SEDUCTIVE_PA, SHENANIGAN_EN, SHENANIGAN_HI, SHENANIGAN_PA,
};
use crate::error::{ErrorModel, PipelineError};
use crate::language::{
    language_code, language_of, lemma_code_names_language, parse_language, Language,
};
use vstd::prelude::*;

verus! {

/// The mode flags of a request. The three tone flags are read by priority,
/// not as independent switches; `gen_z` is an overlay on whichever tone wins.
#[derive(Clone, Copy, Debug, PartialEq, Eq, Structural)]
pub struct ModeFlags {
    pub gen_z: bool,
    pub sarcastic: bool,
    pub shenanigan: bool,
    pub seductive: bool,
}

/// The four tones, of which a persona carries exactly one.
#[derive(Clone, Copy, Debug, PartialEq, Eq, Structural)]
pub enum Tone {
    Base,
    Sarcastic,
    Shenanigan,
    Seductive,
}

/// The tone that the flags select: seductive before shenanigan before
/// sarcastic, and the base tone where none of the three is set.
pub open spec fn selected_tone(modes: ModeFlags) -> Tone {
    if modes.seductive {
        Tone::Seductive
    } else if modes.shenanigan {
        Tone::Shenanigan
    } else if modes.sarcastic {
        Tone::Sarcastic
    } else {
        Tone::Base
    }
}

/// The guidance on phrasing for a language.
pub open spec fn guidance_text(language: Language) -> Seq<char> {
    match language {
        Language::English => GUIDANCE_EN@,
        Language::Hindi => GUIDANCE_HI@,
        Language::Punjabi => GUIDANCE_PA@,
    }
}

/// The text of a tone in a language.
pub open spec fn tone_text(language: Language, tone: Tone) -> Seq<char> {
    match (language, tone) {
        (Language::English, Tone::Base) => BASE_EN@,
        (Language::Hindi, Tone::Base) => BASE_HI@,
        (Language::Punjabi, Tone::Base) => BASE_PA@,
        (Language::English, Tone::Sarcastic) => SARCASTIC_EN@,
        (Language::Hindi, Tone::Sarcastic) => SARCASTIC_HI@,
        (Language::Punjabi, Tone::Sarcastic) => SARCASTIC_PA@,
        (Language::English, Tone::Shenanigan) => SHENANIGAN_EN@,
        (Language::Hindi, Tone::Shenanigan) => SHENANIGAN_HI@,
        (Language::Punjabi, Tone::Shenanigan) => SHENANIGAN_PA@,
        (Language::English, Tone::Seductive) => SEDUCTIVE_EN@,
        (Language::Hindi, Tone::Seductive) => SEDUCTIVE_HI@,
        (Language::Punjabi, Tone::Seductive) => SEDUCTIVE_PA@,
    }
}

/// The Gen Z overlay for a language.
pub open spec fn overlay_text(language: Language) -> Seq<char> {
    match language {
        Language::English => OVERLAY_EN@,
        Language::Hindi => OVERLAY_HI@,
        Language::Punjabi => OVERLAY_PA@,
    }
}

/// What the overlay flag adds behind the tone: the overlay, or nothing.
pub open spec fn overlay_part(language: Language, gen_z: bool) -> Seq<char> {
    if gen_z {
        overlay_text(language)
    } else {
        Seq::empty()
    }
}

/// The persona for a language and mode flags: the shared preamble, the
/// guidance for the language, the one selected tone and, where `gen_z` is
/// set, the overlay, in this order.
pub open spec fn persona_text(language: Language, modes: ModeFlags) -> Seq<char> {
    PREAMBLE@ + guidance_text(language) + tone_text(language, selected_tone(modes)) + overlay_part(
        language,
        modes.gen_z,
    )
}

/// The persona for a language given by its code; `InvalidLanguage` where the
/// code names no supported language.
pub open spec fn persona_of_code(code: Seq<char>, modes: ModeFlags) -> Result<Seq<char>, ErrorModel> {
    match language_of(code) {
        Some(language) => Ok(persona_text(language, modes)),
        None => Err(ErrorModel::InvalidLanguage),
    }
}

/// Selects the tone by the fixed priority.
pub fn select_tone(modes: ModeFlags) -> (tone: Tone)
    ensures
        tone == selected_tone(modes),
{
    if modes.seductive {
        Tone::Seductive
    } else if modes.shenanigan {
        Tone::Shenanigan
    } else if modes.sarcastic {
        Tone::Sarcastic
    } else {
        Tone::Base
    }
}

/// Looks up the guidance on phrasing for a language.
pub fn guidance_block(language: Language) -> (block: &'static str)
    ensures
        block@ == guidance_text(language),
{
    match language {
        Language::English => GUIDANCE_EN,
        Language::Hindi => GUIDANCE_HI,
        Language::Punjabi => GUIDANCE_PA,
    }
}

/// Looks up the text of a tone in a language.
pub fn tone_block(language: Language, tone: Tone) -> (block: &'static str)
    ensures
        block@ == tone_text(language, tone),
{
    match tone {
        Tone::Base => match language {
            Language::English => BASE_EN,
            Language::Hindi => BASE_HI,
            Language::Punjabi => BASE_PA,
        },
        Tone::Sarcastic => match language {
            Language::English => SARCASTIC_EN,
            Language::Hindi => SARCASTIC_HI,
            Language::Punjabi => SARCASTIC_PA,
        },
        Tone::Shenanigan => match language {
            Language::English => SHENANIGAN_EN,
            Language::Hindi => SHENANIGAN_HI,
            Language::Punjabi => SHENANIGAN_PA,
        },
        Tone::Seductive => match language {
            Language::English => SEDUCTIVE_EN,
            Language::Hindi => SEDUCTIVE_HI,
            Language::Punjabi => SEDUCTIVE_PA,
        },
    }
}

/// Looks up the Gen Z overlay for a language.
pub fn overlay_block(language: Language) -> (block: &'static str)
    ensures
        block@ == overlay_text(language),
{
    match language {
        Language::English => OVERLAY_EN,
        Language::Hindi => OVERLAY_HI,
        Language::Punjabi => OVERLAY_PA,
    }
}

/// Composes the persona for a language and mode flags.
pub fn persona_for(language: Language, modes: ModeFlags) -> (persona: String)
    ensures
        persona@ == persona_text(language, modes),
{
    let mut persona = String::new();
    persona.append(PREAMBLE);
    persona.append(guidance_block(language));
    persona.append(tone_block(language, select_tone(modes)));
    if modes.gen_z {
        persona.append(overlay_block(language));
    }
    proof {
        assert(persona@ =~= persona_text(language, modes));
    }
    persona
}

/// Composes the persona for a language given by its code. It fails with
/// `InvalidLanguage` on every code but `en`, `hi` and `pa`, and on those three
/// it always succeeds.
pub fn build_persona(language: &str, modes: ModeFlags) -> (persona: Result<String, PipelineError>)
    ensures
        match persona {
            Ok(text) => persona_of_code(language@, modes) == Ok::<Seq<char>, ErrorModel>(text@),
            Err(error) => persona_of_code(language@, modes) == Err::<Seq<char>, ErrorModel>(error@),
        },
{
    match parse_language(language) {
        Ok(known) => Ok(persona_for(known, modes)),
        Err(error) => Err(error),
    }
}

/// The length of each tone text exceeds 18, and its character at index 18
/// depends on the tone alone.
pub proof fn lemma_tone_mark(language: Language, tone: Tone)
    ensures
        tone_text(language, tone).len() > 18,
        tone_text(language, tone)[18] == match tone {
            Tone::Base => ',',
            Tone::Sarcastic => 'v',
            Tone::Shenanigan => 'a',
            Tone::Seductive => 'l',
        },
{
    lemma_base_en();
    lemma_base_hi();
    lemma_base_pa();
    lemma_sarcastic_en();
    lemma_sarcastic_hi();
    lemma_sarcastic_pa();
    lemma_shenanigan_en();
    lemma_shenanigan_hi();
    lemma_shenanigan_pa();
    lemma_seductive_en();
    lemma_seductive_hi();
    lemma_seductive_pa();
}

/// The length of each guidance text exceeds 18, and its character at index 18
/// depends on the language alone.
pub proof fn lemma_guidance_mark(language: Language)
    ensures
        guidance_text(language).len() > 18,
        guidance_text(language)[18] == match language {
            Language::English => 'E',
            Language::Hindi => 'H',
            Language::Punjabi => 'P',
        },
{
    lemma_guidance_en();
    lemma_guidance_hi();
    lemma_guidance_pa();
}

/// No overlay is empty.
pub proof fn lemma_overlay_not_empty(language: Language)
    ensures
        overlay_text(language).len() > 0,
{
    lemma_overlay_en();
    lemma_overlay_hi();
    lemma_overlay_pa();
}

/// The tones are selected by priority: a set `seductive` flag wins whatever
/// else is set, then `shenanigan`, then `sarcastic`; the base tone is selected
/// exactly where none of the three is set.
pub proof fn lemma_tone_priority(modes: ModeFlags)
    ensures
        selected_tone(modes) == Tone::Seductive <==> modes.seductive,
        selected_tone(modes) == Tone::Shenanigan <==> !modes.seductive && modes.shenanigan,
        selected_tone(modes) == Tone::Sarcastic <==> !modes.seductive && !modes.shenanigan
            && modes.sarcastic,
        selected_tone(modes) == Tone::Base <==> !modes.seductive && !modes.shenanigan
            && !modes.sarcastic,
{
}

/// Exactly one tone text stands in a persona: behind preamble and guidance
/// comes the text of the selected tone, and the text of no other tone of that
/// language is a prefix of what stands there.
pub proof fn lemma_exactly_one_tone(language: Language, modes: ModeFlags, other: Tone)
    ensures
        tone_text(language, selected_tone(modes)).is_prefix_of(
            persona_text(language, modes).skip(
                (PREAMBLE@.len() + guidance_text(language).len()) as int,
            ),
        ),
        other != selected_tone(modes) ==> !tone_text(language, other).is_prefix_of(
            persona_text(language, modes).skip(
                (PREAMBLE@.len() + guidance_text(language).len()) as int,
            ),
        ),
{
    let head = PREAMBLE@ + guidance_text(language);
    let tone = tone_text(language, selected_tone(modes));
    let tail = tone + overlay_part(language, modes.gen_z);
    let rest = persona_text(language, modes).skip(head.len() as int);
    assert(persona_text(language, modes) =~= head + tail);
    assert(rest =~= tail);
    assert(tail.subrange(0, tone.len() as int) =~= tone);
    lemma_tone_mark(language, selected_tone(modes));
    lemma_tone_mark(language, other);
    if other != selected_tone(modes) && tone_text(language, other).is_prefix_of(rest) {
        let wrong = tone_text(language, other);
        assert(rest.subrange(0, wrong.len() as int)[18] == wrong[18]);
        assert(rest[18] == tone[18]);
    }
}

/// The overlay is appended if and only if `gen_z` is set, whichever tone is
/// selected: with the flag the persona is the persona without it followed by
/// the overlay, which is not empty.
pub proof fn lemma_overlay_iff_gen_z(language: Language, modes: ModeFlags)
    ensures
        persona_text(language, modes) == persona_text(
            language,
            ModeFlags { gen_z: false, ..modes },
        ) + overlay_part(language, modes.gen_z),
        overlay_part(language, modes.gen_z).len() > 0 <==> modes.gen_z,
        selected_tone(ModeFlags { gen_z: !modes.gen_z, ..modes }) == selected_tone(modes),
{
    let plain = ModeFlags { gen_z: false, ..modes };
    lemma_overlay_not_empty(language);
    assert(persona_text(language, plain) =~= PREAMBLE@ + guidance_text(language) + tone_text(
        language,
        selected_tone(modes),
    ));
    assert(persona_text(language, modes) =~= persona_text(language, plain) + overlay_part(
        language,
        modes.gen_z,
    ));
}

/// Every persona begins with the shared preamble and is not empty.
pub proof fn lemma_persona_begins_with_preamble(language: Language, modes: ModeFlags)
    ensures
        PREAMBLE@.is_prefix_of(persona_text(language, modes)),
        persona_text(language, modes).len() > 0,
{
    let rest = guidance_text(language) + tone_text(language, selected_tone(modes)) + overlay_part(
        language,
        modes.gen_z,
    );
    assert(persona_text(language, modes) =~= PREAMBLE@ + rest);
    assert((PREAMBLE@ + rest).subrange(0, PREAMBLE@.len() as int) =~= PREAMBLE@);
    lemma_tone_mark(language, selected_tone(modes));
}

/// The persona is determined by its inputs, and of the mode flags only the
/// selected tone and the overlay flag count: requests that agree in language,
/// selected tone and overlay flag get the same text, whatever else their
/// flags hold.
pub proof fn lemma_persona_is_determined(
    language: Language,
    first_modes: ModeFlags,
    second_modes: ModeFlags,
)
    requires
        selected_tone(first_modes) == selected_tone(second_modes),
        first_modes.gen_z == second_modes.gen_z,
    ensures
        persona_text(language, first_modes) == persona_text(language, second_modes),
        persona_of_code(language_code(language), first_modes)
            == persona_of_code(language_code(language), second_modes),
        persona_of_code(language_code(language), first_modes) is Ok,
{
    lemma_code_names_language(language);
}

/// Two personas are the same text only where the language, the selected tone
/// and the overlay flag are the same.
pub proof fn lemma_persona_tells_its_inputs(
    first_language: Language,
    first_modes: ModeFlags,
    second_language: Language,
    second_modes: ModeFlags,
)
    requires
        persona_text(first_language, first_modes) == persona_text(second_language, second_modes),
    ensures
        first_language == second_language,
        selected_tone(first_modes) == selected_tone(second_modes),
        first_modes.gen_z == second_modes.gen_z,
{
    let p = PREAMBLE@;
    let g1 = guidance_text(first_language);
    let g2 = guidance_text(second_language);
    let t1 = tone_text(first_language, selected_tone(first_modes));
    let t2 = tone_text(second_language, selected_tone(second_modes));
    let o1 = overlay_part(first_language, first_modes.gen_z);
    let o2 = overlay_part(second_language, second_modes.gen_z);
    let s1 = persona_text(first_language, first_modes);
    let s2 = persona_text(second_language, second_modes);
    lemma_guidance_mark(first_language);
    lemma_guidance_mark(second_language);
    assert(s1[(p.len() + 18) as int] == g1[18]);
    assert(s2[(p.len() + 18) as int] == g2[18]);
    assert(first_language == second_language);
    lemma_tone_mark(first_language, selected_tone(first_modes));
    lemma_tone_mark(second_language, selected_tone(second_modes));
    assert(s1[(p.len() + g1.len() + 18) as int] == t1[18]);
    assert(s2[(p.len() + g2.len() + 18) as int] == t2[18]);
    assert(selected_tone(first_modes) == selected_tone(second_modes));
    lemma_overlay_not_empty(first_language);
    assert(s1.len() == p.len() + g1.len() + t1.len() + o1.len());
    assert(s2.len() == p.len() + g2.len() + t2.len() + o2.len());
}

} // verus!
