use clarity::remote::ResolutionMode;
use clarity::settings::{
    default_prompt, language_name, parse_language, parse_resolution, prompt_key,
    requested_language, resolution_name, select_prompt, validate_model, validate_prompt,
    validate_summary_interval, Language, SessionConfig, SettingsError,
};

#[test]
fn interval_bounds() {
    assert_eq!(validate_summary_interval(9), Err(SettingsError::IntervalTooShort));
    assert_eq!(validate_summary_interval(10), Ok(10));
    assert_eq!(validate_summary_interval(3600), Ok(3600));
    assert_eq!(validate_summary_interval(3601), Err(SettingsError::IntervalTooLong));
    assert_eq!(
        SettingsError::IntervalTooLong.message(),
        "Summary interval must be at most 3600 seconds (1 hour)"
    );
}

#[test]
fn names_are_validated() {
    assert_eq!(parse_language("en"), Ok(Language::En));
    assert_eq!(parse_language("zh"), Ok(Language::Zh));
    assert_eq!(parse_language("fr"), Err(SettingsError::InvalidLanguage));
    assert_eq!(parse_resolution("low"), Ok(ResolutionMode::Low));
    assert_eq!(parse_resolution("default"), Ok(ResolutionMode::Default));
    assert_eq!(parse_resolution("high"), Err(SettingsError::InvalidResolution));
    assert_eq!(language_name(Language::En), "en");
    assert_eq!(resolution_name(ResolutionMode::Default), "default");
    assert_eq!(validate_model(""), Err(SettingsError::EmptyModel));
    assert_eq!(validate_model("m"), Ok(()));
    assert_eq!(validate_prompt(""), Err(SettingsError::EmptyPrompt));
}

#[test]
fn prompts_by_language() {
    assert_eq!(prompt_key(Some("zh")), "ai_prompt_zh");
    assert_eq!(prompt_key(Some("en")), "ai_prompt_en");
    assert_eq!(prompt_key(Some("de")), "ai_prompt");
    assert_eq!(prompt_key(None), "ai_prompt");
    assert_eq!(requested_language(Some("en")), Language::En);
    assert_eq!(requested_language(None), Language::Zh);
    assert!(default_prompt(Language::En).starts_with("Analyze this screen activity video"));
    assert!(default_prompt(Language::Zh).starts_with("分析这段屏幕活动视频"));
    assert_eq!(select_prompt(Some("mine".to_string()), Language::En), "mine");
    assert_eq!(select_prompt(None, Language::En), default_prompt(Language::En));
}

#[test]
fn stored_settings_fall_back_to_defaults() {
    let c = SessionConfig::from_stored(None, None, None, None, None);
    assert_eq!(c.summary_interval_seconds, 45);
    assert_eq!(c.model, "gemini-3-flash-preview");
    assert_eq!(c.resolution, ResolutionMode::Low);
    assert_eq!(c.language, Language::Zh);
    assert_eq!(c.api_key, None);
    let c = SessionConfig::from_stored(
        Some("k".to_string()),
        Some(120),
        Some("m2".to_string()),
        Some("default"),
        Some("en"),
    );
    assert_eq!(c.summary_interval_seconds, 120);
    assert_eq!(c.api_key.as_deref(), Some("k"));
    assert_eq!(c.model, "m2");
    assert_eq!(c.resolution, ResolutionMode::Default);
    assert_eq!(c.language, Language::En);
    let c = SessionConfig::from_stored(None, Some(5), None, Some("weird"), Some("xx"));
    assert_eq!(c.summary_interval_seconds, 45);
    assert_eq!(c.resolution, ResolutionMode::Low);
    assert_eq!(c.language, Language::Zh);
}
