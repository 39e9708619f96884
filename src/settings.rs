//! Validation and defaults of the user's settings: the summary interval,
//! the model, the resolution mode, the language and its prompt.

use vstd::prelude::*;
use crate::cycle::{MAX_INTERVAL_SECONDS, MIN_INTERVAL_SECONDS};
use crate::remote::ResolutionMode;

verus! {

/// The interval used when none valid is stored, in seconds.
pub const DEFAULT_INTERVAL_SECONDS: u64 = 45;

/// Language of the prompts and of the generated summaries.
#[derive(Debug, Clone, Copy, PartialEq, Eq, Structural)]
pub enum Language {
    En,
    Zh,
}

/// Why a setting was refused.
#[derive(Debug, Clone, Copy, PartialEq, Eq, Structural)]
pub enum SettingsError {
    IntervalTooShort,
    IntervalTooLong,
    EmptyModel,
    EmptyPrompt,
    InvalidResolution,
    InvalidLanguage,
}

impl SettingsError {
    /// The message shown to the user.
    pub fn message(&self) -> &'static str {
        match self {
            SettingsError::IntervalTooShort => "Summary interval must be at least 10 seconds",
            SettingsError::IntervalTooLong => "Summary interval must be at most 3600 seconds (1 hour)",
            SettingsError::EmptyModel => "Model cannot be empty",
            SettingsError::EmptyPrompt => "Prompt cannot be empty",
            SettingsError::InvalidResolution => "Resolution must be 'low' or 'default'",
            SettingsError::InvalidLanguage => "Language must be 'en' or 'zh'",
        }
    }
}

/// Whether two strings hold the same characters.
pub fn same_text(a: &str, b: &str) -> (r: bool)
    ensures
        r == (a@ == b@),
{
    String::from_str(a) == String::from_str(b)
}

/// Accepts a summary interval within 10 to 3600 seconds.
pub fn validate_summary_interval(seconds: u64) -> (r: Result<u64, SettingsError>)
    ensures
        seconds < MIN_INTERVAL_SECONDS ==> r == Err::<u64, SettingsError>(
            SettingsError::IntervalTooShort,
        ),
        seconds > MAX_INTERVAL_SECONDS ==> r == Err::<u64, SettingsError>(
            SettingsError::IntervalTooLong,
        ),
        MIN_INTERVAL_SECONDS <= seconds <= MAX_INTERVAL_SECONDS ==> r == Ok::<u64, SettingsError>(
            seconds,
        ),
{
    if seconds < MIN_INTERVAL_SECONDS {
        Err(SettingsError::IntervalTooShort)
    } else if seconds > MAX_INTERVAL_SECONDS {
        Err(SettingsError::IntervalTooLong)
    } else {
        Ok(seconds)
    }
}

/// Accepts any non-empty model identifier.
pub fn validate_model(model: &str) -> (r: Result<(), SettingsError>)
    ensures
        model@.len() == 0 <==> r == Err::<(), SettingsError>(SettingsError::EmptyModel),
        model@.len() > 0 <==> r is Ok,
{
    if model.unicode_len() == 0 {
        Err(SettingsError::EmptyModel)
    } else {
        Ok(())
    }
}

/// Accepts any non-empty prompt.
pub fn validate_prompt(prompt: &str) -> (r: Result<(), SettingsError>)
    ensures
        prompt@.len() == 0 <==> r == Err::<(), SettingsError>(SettingsError::EmptyPrompt),
        prompt@.len() > 0 <==> r is Ok,
{
    if prompt.unicode_len() == 0 {
        Err(SettingsError::EmptyPrompt)
    } else {
        Ok(())
    }
}

/// The resolution mode a setting names, if any: `low` or `default`.
pub open spec fn resolution_named(s: Seq<char>) -> Option<ResolutionMode> {
    if s == "low"@ {
        Some(ResolutionMode::Low)
    } else if s == "default"@ {
        Some(ResolutionMode::Default)
    } else {
        None
    }
}

/// Parses a resolution setting; anything but `low` or `default` is refused.
pub fn parse_resolution(s: &str) -> (r: Result<ResolutionMode, SettingsError>)
    ensures
        match resolution_named(s@) {
            Some(m) => r == Ok::<ResolutionMode, SettingsError>(m),
            None => r == Err::<ResolutionMode, SettingsError>(SettingsError::InvalidResolution),
        },
{
    if same_text(s, "low") {
        Ok(ResolutionMode::Low)
    } else if same_text(s, "default") {
        Ok(ResolutionMode::Default)
    } else {
        Err(SettingsError::InvalidResolution)
    }
}

/// The name of a resolution mode as stored.
pub fn resolution_name(m: ResolutionMode) -> (r: &'static str)
    ensures
        r@ == (match m {
            ResolutionMode::Low => "low"@,
            ResolutionMode::Default => "default"@,
        }),
{
    match m {
        ResolutionMode::Low => "low",
        ResolutionMode::Default => "default",
    }
}

/// The language a setting names, if any: `en` or `zh`.
pub open spec fn language_named(s: Seq<char>) -> Option<Language> {
    if s == "en"@ {
        Some(Language::En)
    } else if s == "zh"@ {
        Some(Language::Zh)
    } else {
        None
    }
}

/// Parses a language setting; anything but `en` or `zh` is refused.
pub fn parse_language(s: &str) -> (r: Result<Language, SettingsError>)
    ensures
        match language_named(s@) {
            Some(l) => r == Ok::<Language, SettingsError>(l),
            None => r == Err::<Language, SettingsError>(SettingsError::InvalidLanguage),
        },
{
    if same_text(s, "en") {
        Ok(Language::En)
    } else if same_text(s, "zh") {
        Ok(Language::Zh)
    } else {
        Err(SettingsError::InvalidLanguage)
    }
}

/// The name of a language as stored.
pub fn language_name(l: Language) -> (r: &'static str)
    ensures
        r@ == (match l {
            Language::En => "en"@,
            Language::Zh => "zh"@,
        }),
{
    match l {
        Language::En => "en",
        Language::Zh => "zh",
    }
}

/// The language asked for by an optional language argument: English only
/// when it is `en`, Chinese otherwise.
pub fn requested_language(language: Option<&str>) -> (r: Language)
    ensures
        r == (if language matches Some(s) && s@ == "en"@ {
            Language::En
        } else {
            Language::Zh
        }),
{
    match language {
        Some(s) => if same_text(s, "en") {
            Language::En
        } else {
            Language::Zh
        },
        None => Language::Zh,
    }
}

/// The settings key under which the prompt of a language is stored.
pub fn prompt_key(language: Option<&str>) -> (r: &'static str)
    ensures
        r@ == (if language matches Some(s) && s@ == "zh"@ {
            "ai_prompt_zh"@
        } else if language matches Some(s) && s@ == "en"@ {
            "ai_prompt_en"@
        } else {
            "ai_prompt"@
        }),
{
    match language {
        Some(s) => if same_text(s, "zh") {
            "ai_prompt_zh"
        } else if same_text(s, "en") {
            "ai_prompt_en"
        } else {
            "ai_prompt"
        },
        None => "ai_prompt",
    }
}

/// The built-in instruction for summarizing a screen-activity video.
pub open spec fn default_prompt_spec(l: Language) -> Seq<char> {
    match l {
        Language::En => "Analyze this screen activity video and provide a concise activity summary. Focus on: 1) Main apps/websites used; 2) Activity type (work/entertainment/learning, etc.); 3) Any distractions or inefficient behaviors. Respond in English, keep it under 100 words."@,
        Language::Zh => "分析这段屏幕活动视频，提供简洁的活动摘要。重点关注：1) 主要使用的应用/网站；2) 活动类型（工作/娱乐/学习等）；3) 是否有分心或低效行为。用中文回答，控制在100字以内。"@,
    }
}

/// The built-in instruction for summarizing a screen-activity video.
pub fn default_prompt(l: Language) -> (r: &'static str)
    ensures
        r@ == default_prompt_spec(l),
{
    match l {
        Language::En => "Analyze this screen activity video and provide a concise activity summary. Focus on: 1) Main apps/websites used; 2) Activity type (work/entertainment/learning, etc.); 3) Any distractions or inefficient behaviors. Respond in English, keep it under 100 words.",
        Language::Zh => "分析这段屏幕活动视频，提供简洁的活动摘要。重点关注：1) 主要使用的应用/网站；2) 活动类型（工作/娱乐/学习等）；3) 是否有分心或低效行为。用中文回答，控制在100字以内。",
    }
}

/// The instruction to use for a language: the stored one, else the
/// built-in one.
pub fn select_prompt(stored: Option<String>, l: Language) -> (r: String)
    ensures
        r@ == (match stored {
            Some(p) => p@,
            None => default_prompt_spec(l),
        }),
{
    match stored {
        Some(p) => p,
        None => String::from_str(default_prompt(l)),
    }
}

/// The model used when none is stored.
pub fn default_model() -> (r: &'static str)
    ensures
        r@ == "gemini-3-flash-preview"@,
{
    "gemini-3-flash-preview"
}

/// The configuration the loops read, hot-reloadable field by field.
#[derive(Debug, Clone, PartialEq, Eq)]
pub struct SessionConfig {
    pub summary_interval_seconds: u64,
    pub api_key: Option<String>,
    pub model: String,
    pub resolution: ResolutionMode,
    pub language: Language,
}

impl SessionConfig {
    /// The interval is within its bounds.
    pub open spec fn wf(&self) -> bool {
        MIN_INTERVAL_SECONDS <= self.summary_interval_seconds <= MAX_INTERVAL_SECONDS
    }

    /// The configuration from what settings storage held: a stored interval
    /// outside its bounds is replaced by 45 seconds, a missing model by the
    /// default model, a missing resolution by `low` (any stored value but
    /// `default` reads as `low`), and a missing or unknown language by `zh`.
    pub fn from_stored(
        api_key: Option<String>,
        interval_seconds: Option<u64>,
        model: Option<String>,
        resolution: Option<&str>,
        language: Option<&str>,
    ) -> (r: SessionConfig)
        ensures
            r.wf(),
            r.api_key == api_key,
            r.summary_interval_seconds == (match interval_seconds {
                Some(v) => if MIN_INTERVAL_SECONDS <= v <= MAX_INTERVAL_SECONDS {
                    v
                } else {
                    DEFAULT_INTERVAL_SECONDS
                },
                None => DEFAULT_INTERVAL_SECONDS,
            }),
            r.model@ == (match model {
                Some(m) => m@,
                None => "gemini-3-flash-preview"@,
            }),
            r.resolution == (if resolution matches Some(s) && s@ == "default"@ {
                ResolutionMode::Default
            } else {
                ResolutionMode::Low
            }),
            r.language == (match language {
                Some(s) => match language_named(s@) {
                    Some(l) => l,
                    None => Language::Zh,
                },
                None => Language::Zh,
            }),
    {
        let summary_interval_seconds = match interval_seconds {
            Some(v) => match validate_summary_interval(v) {
                Ok(v) => v,
                Err(_) => DEFAULT_INTERVAL_SECONDS,
            },
            None => DEFAULT_INTERVAL_SECONDS,
        };
        let model = match model {
            Some(m) => m,
            None => String::from_str(default_model()),
        };
        let resolution = match resolution {
            Some(s) => if same_text(s, "default") {
                ResolutionMode::Default
            } else {
                ResolutionMode::Low
            },
            None => ResolutionMode::Low,
        };
        let language = match language {
            Some(s) => match parse_language(s) {
                Ok(l) => l,
                Err(_) => Language::Zh,
            },
            None => Language::Zh,
        };
        SessionConfig { summary_interval_seconds, api_key, model, resolution, language }
    }
}

} // verus!
