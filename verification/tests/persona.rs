use rusty_server::corpus::{
    BASE_EN, BASE_HI, BASE_PA, GUIDANCE_EN, GUIDANCE_HI, GUIDANCE_PA, OVERLAY_EN, OVERLAY_HI,
    OVERLAY_PA, PREAMBLE, SARCASTIC_EN, SARCASTIC_HI, SARCASTIC_PA, SEDUCTIVE_EN, SEDUCTIVE_HI,
    SEDUCTIVE_PA, SHENANIGAN_EN, SHENANIGAN_HI, SHENANIGAN_PA,
};
use rusty_server::error::PipelineError;
use rusty_server::language::{parse_language, Language};
use rusty_server::persona::{
    build_persona, guidance_block, overlay_block, persona_for, select_tone, tone_block, ModeFlags,
    Tone,
};

fn flags(gen_z: bool, sarcastic: bool, shenanigan: bool, seductive: bool) -> ModeFlags {
    ModeFlags { gen_z, sarcastic, shenanigan, seductive }
}

fn every_flag_combination() -> Vec<ModeFlags> {
    let mut all = Vec::new();
    for bits in 0..16u8 {
        all.push(flags(bits & 1 != 0, bits & 2 != 0, bits & 4 != 0, bits & 8 != 0));
    }
    all
}

fn tone_texts(language: &str) -> [&'static str; 4] {
    match language {
        "en" => [BASE_EN, SARCASTIC_EN, SHENANIGAN_EN, SEDUCTIVE_EN],
        "hi" => [BASE_HI, SARCASTIC_HI, SHENANIGAN_HI, SEDUCTIVE_HI],
        _ => [BASE_PA, SARCASTIC_PA, SHENANIGAN_PA, SEDUCTIVE_PA],
    }
}

#[test]
fn language_codes_are_parsed() {
    assert_eq!(parse_language("en"), Ok(Language::English));
    assert_eq!(parse_language("hi"), Ok(Language::Hindi));
    assert_eq!(parse_language("pa"), Ok(Language::Punjabi));
    assert_eq!(Language::English.code(), "en");
    assert_eq!(Language::Hindi.code(), "hi");
    assert_eq!(Language::Punjabi.code(), "pa");
}

#[test]
fn other_language_codes_are_refused() {
    for code in ["fr", "", "EN", "en ", " en", "eng", "e", "hindi", "pa\n"] {
        assert_eq!(parse_language(code), Err(PipelineError::InvalidLanguage), "{code:?}");
    }
}

#[test]
fn same_inputs_give_the_same_persona() {
    for language in ["en", "hi", "pa"] {
        for modes in every_flag_combination() {
            let first = build_persona(language, modes).unwrap();
            let second = build_persona(language, modes).unwrap();
            assert_eq!(first, second);
            assert_eq!(first.as_bytes(), second.as_bytes());
        }
    }
}

#[test]
fn tone_is_selected_by_priority() {
    assert_eq!(select_tone(flags(false, false, false, false)), Tone::Base);
    assert_eq!(select_tone(flags(true, false, false, false)), Tone::Base);
    assert_eq!(select_tone(flags(false, true, false, false)), Tone::Sarcastic);
    assert_eq!(select_tone(flags(false, false, true, false)), Tone::Shenanigan);
    assert_eq!(select_tone(flags(false, true, true, false)), Tone::Shenanigan);
    assert_eq!(select_tone(flags(false, false, false, true)), Tone::Seductive);
    assert_eq!(select_tone(flags(false, true, false, true)), Tone::Seductive);
    assert_eq!(select_tone(flags(false, false, true, true)), Tone::Seductive);
    assert_eq!(select_tone(flags(true, true, true, true)), Tone::Seductive);
}

#[test]
fn exactly_one_tone_text_appears() {
    for language in ["en", "hi", "pa"] {
        let tones = tone_texts(language);
        for modes in every_flag_combination() {
            let persona = build_persona(language, modes).unwrap();
            let expected = if modes.seductive {
                3
            } else if modes.shenanigan {
                2
            } else if modes.sarcastic {
                1
            } else {
                0
            };
            for (index, tone) in tones.iter().enumerate() {
                assert_eq!(persona.contains(tone), index == expected, "{language} {modes:?}");
            }
        }
    }
}

#[test]
fn overlay_follows_the_gen_z_flag_alone() {
    for (language, overlay) in [("en", OVERLAY_EN), ("hi", OVERLAY_HI), ("pa", OVERLAY_PA)] {
        for modes in every_flag_combination() {
            let persona = build_persona(language, modes).unwrap();
            assert_eq!(persona.contains(overlay), modes.gen_z);
            assert_eq!(persona.ends_with(overlay), modes.gen_z);
            let plain = build_persona(language, ModeFlags { gen_z: false, ..modes }).unwrap();
            if modes.gen_z {
                assert_eq!(persona, format!("{plain}{overlay}"));
            } else {
                assert_eq!(persona, plain);
            }
        }
    }
}

#[test]
fn persona_is_composed_in_order() {
    let persona = build_persona("hi", flags(true, true, false, false)).unwrap();
    assert_eq!(persona, format!("{PREAMBLE}{GUIDANCE_HI}{SARCASTIC_HI}{OVERLAY_HI}"));
    let persona = build_persona("pa", flags(false, false, true, false)).unwrap();
    assert_eq!(persona, format!("{PREAMBLE}{GUIDANCE_PA}{SHENANIGAN_PA}"));
    let persona = build_persona("en", flags(true, false, false, true)).unwrap();
    assert_eq!(persona, format!("{PREAMBLE}{GUIDANCE_EN}{SEDUCTIVE_EN}{OVERLAY_EN}"));
}

#[test]
fn base_persona_in_english_is_exact() {
    let persona = build_persona("en", flags(false, false, false, false)).unwrap();
    assert_eq!(persona.chars().count(), 394 + 157 + 384);
    assert!(persona.starts_with(
        "You are Hearthly, a therapist who listens and responds with natural emotional intelligence"
    ));
    assert!(persona.contains(
        "scripted.\n    Respond in fluent English. Use culturally resonant phrases like \"You're not alone\""
    ));
    assert!(persona.contains("Ensure tone feels natural in English.Adopt a calm, warm, and grounding tone."));
    assert!(persona.ends_with("nurturing for pain, uplifting for hope, steady for direction."));
}

#[test]
fn preamble_keeps_its_line_breaks_and_indentation() {
    assert!(PREAMBLE.contains("adaptive.\n\n    BEHAVIOR:\n    - Mirror the user\u{2019}s emotional tone.\n"));
    assert!(PREAMBLE.ends_with("unfiltered, not scripted.\n    "));
    assert_eq!(PREAMBLE.chars().count(), 394);
    assert_eq!(PREAMBLE.len(), 398);
}

#[test]
fn persona_is_never_empty() {
    for language in [Language::English, Language::Hindi, Language::Punjabi] {
        for modes in every_flag_combination() {
            let persona = persona_for(language, modes);
            assert!(!persona.is_empty());
            assert!(persona.starts_with(PREAMBLE));
        }
    }
}

#[test]
fn blocks_are_looked_up_by_language() {
    assert_eq!(guidance_block(Language::English), GUIDANCE_EN);
    assert_eq!(guidance_block(Language::Hindi), GUIDANCE_HI);
    assert_eq!(guidance_block(Language::Punjabi), GUIDANCE_PA);
    assert_eq!(overlay_block(Language::English), OVERLAY_EN);
    assert_eq!(overlay_block(Language::Hindi), OVERLAY_HI);
    assert_eq!(overlay_block(Language::Punjabi), OVERLAY_PA);
    assert_eq!(tone_block(Language::Hindi, Tone::Base), BASE_HI);
    assert_eq!(tone_block(Language::Punjabi, Tone::Seductive), SEDUCTIVE_PA);
    assert_eq!(tone_block(Language::English, Tone::Shenanigan), SHENANIGAN_EN);
    assert_eq!(tone_block(Language::English, Tone::Sarcastic), SARCASTIC_EN);
    assert!(GUIDANCE_HI.contains("\u{0906}\u{092a} \u{0905}\u{0915}\u{0947}\u{0932}\u{0947}"));
    assert!(OVERLAY_EN.starts_with("Incorporate Gen Z slang\u{2014}casual"));
}

#[test]
fn personas_differ_where_the_inputs_differ() {
    let mut seen: Vec<String> = Vec::new();
    for language in [Language::English, Language::Hindi, Language::Punjabi] {
        for tone_flags in [(false, false, false), (true, false, false), (false, true, false), (false, false, true)] {
            for gen_z in [false, true] {
                let persona = persona_for(language, flags(gen_z, tone_flags.0, tone_flags.1, tone_flags.2));
                assert!(!seen.contains(&persona));
                seen.push(persona);
            }
        }
    }
    assert_eq!(seen.len(), 24);
}

#[test]
fn persona_is_refused_for_an_unsupported_language() {
    for modes in every_flag_combination() {
        assert_eq!(build_persona("fr", modes), Err(PipelineError::InvalidLanguage));
        assert_eq!(build_persona("", modes), Err(PipelineError::InvalidLanguage));
    }
}
