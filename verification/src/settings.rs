//! Resolution of the translator's settings from the command line, the
//! environment, an optional TOML config and built-in defaults.

use vstd::prelude::*;
use vstd::string::*;

use crate::text::{
    ascii_lower, chars_of, lemma_trim_end_char_done, lemma_trim_is_trimmed, lower_and_replace,
    replace_char, same_text, trim, trim_end, trim_end_char, trim_end_matches, trim_start,
    trim_text,
};

verus! {

/// Label of the popup window.
pub const WINDOW_LABEL: &'static str = "translation";

/// Target language used when none is configured.
pub const DEFAULT_LANG: &'static str = "ru";

/// Global shortcut used when none is configured.
pub const DEFAULT_HOTKEYS: &'static str = "CTRL+SHIFT+F7";

/// Gemini model used when Gemini is selected without a model.
pub const DEFAULT_GEMINI_MODEL: &'static str = "gemini-2.5-flash-lite";

/// Unofficial Google Translate endpoint.
pub const GOOGLE_TRANSLATE_URL: &'static str = "https://translate.googleapis.com/translate_a/single";

/// Gemini API base URL.
pub const GEMINI_API_URL: &'static str = "https://generativelanguage.googleapis.com/v1beta";

/// OpenRouter API base URL.
pub const OPENROUTER_API_URL: &'static str = "https://openrouter.ai/api/v1";

/// OpenAI API base URL.
pub const OPENAI_API_URL: &'static str = "https://api.openai.com/v1";

/// Environment variable that selects the translation source.
pub const ENV_SOURCE: &'static str = "EW_TRANSLATOR_SOURCE";

/// Environment variable that holds the API key.
pub const ENV_API_KEY: &'static str = "EW_TRANSLATOR_API_KEY";

/// Environment variable that holds the model ID.
pub const ENV_MODEL: &'static str = "EW_TRANSLATOR_MODEL";

/// Environment variable that holds the provider base URL.
pub const ENV_API_URL: &'static str = "EW_TRANSLATOR_API_URL";

/// Environment variable that holds the target language.
pub const ENV_LANG: &'static str = "EW_TRANSLATOR_LANG";

/// Environment variable that holds the global shortcut.
pub const ENV_HOTKEYS: &'static str = "EW_TRANSLATOR_HOTKEYS";

/// Environment variable that names an explicit config file.
pub const ENV_CONFIG: &'static str = "EW_TRANSLATOR_CONFIG";

/// Where translations come from. Selection is explicit: there is no fallback
/// from one source to another.
#[derive(Clone, Copy, Debug, PartialEq, Eq, Structural)]
pub enum TranslationSource {
    GoogleTranslate,
    Gemini,
    OpenRouter,
    OpenAi,
}

/// The canonical name of a source.
pub open spec fn source_name(source: TranslationSource) -> Seq<char> {
    match source {
        TranslationSource::GoogleTranslate => "google-translate"@,
        TranslationSource::Gemini => "gemini"@,
        TranslationSource::OpenRouter => "openrouter"@,
        TranslationSource::OpenAi => "openai"@,
    }
}

/// The human-readable name of a source.
pub open spec fn source_title(source: TranslationSource) -> Seq<char> {
    match source {
        TranslationSource::GoogleTranslate => "Google Translate"@,
        TranslationSource::Gemini => "Google Gemini"@,
        TranslationSource::OpenRouter => "OpenRouter"@,
        TranslationSource::OpenAi => "OpenAI-compatible API"@,
    }
}

/// How a source name is read: white space trimmed, ASCII letters lowered and
/// `_` taken as `-`.
pub open spec fn normalized_source(value: Seq<char>) -> Seq<char> {
    replace_char(ascii_lower(trim(value)), '_', '-')
}

/// The source that a normalized name selects, with its accepted aliases.
pub open spec fn source_named(name: Seq<char>) -> Option<TranslationSource> {
    if name == "google"@ || name == "google-translate"@ {
        Some(TranslationSource::GoogleTranslate)
    } else if name == "gemini"@ || name == "google-api"@ || name == "google-gemini"@ {
        Some(TranslationSource::Gemini)
    } else if name == "openrouter"@ {
        Some(TranslationSource::OpenRouter)
    } else if name == "openai"@ {
        Some(TranslationSource::OpenAi)
    } else {
        None
    }
}

/// The message for a source name that selects nothing.
pub open spec fn unknown_source_message(name: Seq<char>) -> Seq<char> {
    "unknown translation source `"@ + name
        + "`; expected google-translate, gemini, openrouter, or openai"@
}

/// What reading `value` as a source gives.
pub open spec fn parse_source(value: Seq<char>) -> Result<TranslationSource, Seq<char>> {
    let name = normalized_source(value);
    match source_named(name) {
        Some(source) => Ok(source),
        None => Err(unknown_source_message(name)),
    }
}

/// A configuration error, with its message.
#[derive(Debug)]
pub struct SettingsError {
    message: String,
}

impl View for SettingsError {
    type V = Seq<char>;

    closed spec fn view(&self) -> Seq<char> {
        self.message@
    }
}

impl SettingsError {
    /// An error with the given message.
    pub fn new(message: String) -> (res: SettingsError)
        ensures
            res@ == message@,
    {
        SettingsError { message }
    }

    /// The error's message.
    pub fn message(&self) -> (res: &str)
        ensures
            res@ == self@,
    {
        self.message.as_str()
    }
}

/// A result whose error is viewed as its message.
pub open spec fn outcome_view<T>(res: Result<T, SettingsError>) -> Result<T, Seq<char>> {
    match res {
        Ok(v) => Ok(v),
        Err(e) => Err(e@),
    }
}

impl TranslationSource {
    /// The canonical name: `google-translate`, `gemini`, `openrouter` or `openai`.
    pub fn as_str(self) -> (res: &'static str)
        ensures
            res@ == source_name(self),
    {
        match self {
            TranslationSource::GoogleTranslate => "google-translate",
            TranslationSource::Gemini => "gemini",
            TranslationSource::OpenRouter => "openrouter",
            TranslationSource::OpenAi => "openai",
        }
    }

    /// The name shown to users in messages.
    pub fn display_name(self) -> (res: &'static str)
        ensures
            res@ == source_title(self),
    {
        match self {
            TranslationSource::GoogleTranslate => "Google Translate",
            TranslationSource::Gemini => "Google Gemini",
            TranslationSource::OpenRouter => "OpenRouter",
            TranslationSource::OpenAi => "OpenAI-compatible API",
        }
    }

    /// Reads a source name (the parsing behind `str::parse`).
    pub fn from_name(value: &str) -> (res: Result<TranslationSource, SettingsError>)
        ensures
            outcome_view(res) == parse_source(value@),
    {
        let trimmed = trim_text(value);
        let name = lower_and_replace(trimmed.as_str(), '_', '-');
        let name_str = name.as_str();
        if same_text(name_str, "google") || same_text(name_str, "google-translate") {
            Ok(TranslationSource::GoogleTranslate)
        } else if same_text(name_str, "gemini") || same_text(name_str, "google-api")
            || same_text(name_str, "google-gemini") {
            Ok(TranslationSource::Gemini)
        } else if same_text(name_str, "openrouter") {
            Ok(TranslationSource::OpenRouter)
        } else if same_text(name_str, "openai") {
            Ok(TranslationSource::OpenAi)
        } else {
            let mut message = String::from_str("unknown translation source `");
            message.append(name_str);
            message.append("`; expected google-translate, gemini, openrouter, or openai");
            Err(SettingsError::new(message))
        }
    }
}

impl std::str::FromStr for TranslationSource {
    type Err = SettingsError;

    fn from_str(value: &str) -> (res: Result<TranslationSource, SettingsError>)
        ensures
            outcome_view(res) == parse_source(value@),
    {
        TranslationSource::from_name(value)
    }
}


/// The translation part of resolved settings.
#[derive(Clone, Debug)]
pub struct TranslationSettings {
    pub source: TranslationSource,
    pub api_key: Option<String>,
    pub model: Option<String>,
    pub api_url: String,
}

/// Resolved settings.
#[derive(Clone, Debug)]
pub struct Settings {
    pub target_lang: String,
    pub hotkeys: String,
    pub translation: TranslationSettings,
}

/// The translation settings as plain character sequences.
pub ghost struct TranslationModel {
    pub source: TranslationSource,
    pub api_key: Option<Seq<char>>,
    pub model: Option<Seq<char>>,
    pub api_url: Seq<char>,
}

/// Resolved settings as plain character sequences.
pub ghost struct SettingsModel {
    pub target_lang: Seq<char>,
    pub hotkeys: Seq<char>,
    pub translation: TranslationModel,
}

impl View for TranslationSettings {
    type V = TranslationModel;

    open spec fn view(&self) -> TranslationModel {
        TranslationModel {
            source: self.source,
            api_key: self.api_key.deep_view(),
            model: self.model.deep_view(),
            api_url: self.api_url@,
        }
    }
}

impl View for Settings {
    type V = SettingsModel;

    open spec fn view(&self) -> SettingsModel {
        SettingsModel {
            target_lang: self.target_lang@,
            hotkeys: self.hotkeys@,
            translation: self.translation@,
        }
    }
}

/// Settings as one layer gives them (command line, environment or config
/// file); every field may be missing.
#[derive(Clone, Debug)]
pub struct RawSettings {
    pub source: Option<String>,
    pub api_key: Option<String>,
    pub model: Option<String>,
    pub api_url: Option<String>,
    pub lang: Option<String>,
    pub hotkeys: Option<String>,
}

/// One settings layer as plain character sequences.
pub ghost struct RawModel {
    pub source: Option<Seq<char>>,
    pub api_key: Option<Seq<char>>,
    pub model: Option<Seq<char>>,
    pub api_url: Option<Seq<char>>,
    pub lang: Option<Seq<char>>,
    pub hotkeys: Option<Seq<char>>,
}

impl View for RawSettings {
    type V = RawModel;

    open spec fn view(&self) -> RawModel {
        RawModel {
            source: self.source.deep_view(),
            api_key: self.api_key.deep_view(),
            model: self.model.deep_view(),
            api_url: self.api_url.deep_view(),
            lang: self.lang.deep_view(),
            hotkeys: self.hotkeys.deep_view(),
        }
    }
}

impl Default for RawSettings {
    fn default() -> (res: RawSettings)
        ensures
            res.source is None,
            res.api_key is None,
            res.model is None,
            res.api_url is None,
            res.lang is None,
            res.hotkeys is None,
    {
        RawSettings {
            source: None,
            api_key: None,
            model: None,
            api_url: None,
            lang: None,
            hotkeys: None,
        }
    }
}

impl RawSettings {
    /// The command-line layer. It never carries an API key, so that keys stay
    /// out of shell history and process listings.
    pub fn command_line(
        source: Option<String>,
        model: Option<String>,
        api_url: Option<String>,
        lang: Option<String>,
        hotkeys: Option<String>,
    ) -> (res: RawSettings)
        ensures
            res.source == source,
            res.model == model,
            res.api_url == api_url,
            res.lang == lang,
            res.hotkeys == hotkeys,
            res.api_key is None,
    {
        RawSettings { source, api_key: None, model, api_url, lang, hotkeys }
    }
}

/// The first present value, in order of precedence.
pub open spec fn first_present<T>(
    cli: Option<T>,
    env: Option<T>,
    config: Option<T>,
    default: Option<T>,
) -> Option<T> {
    if cli is Some {
        cli
    } else if env is Some {
        env
    } else if config is Some {
        config
    } else {
        default
    }
}

/// The first present value: command line, then environment, then config,
/// then the default.
pub fn pick<T>(cli: Option<T>, env: Option<T>, config: Option<T>, default: Option<T>) -> (res:
    Option<T>)
    ensures
        res == first_present(cli, env, config, default),
{
    match cli {
        Some(value) => Some(value),
        None => match env {
            Some(value) => Some(value),
            None => match config {
                Some(value) => Some(value),
                None => default,
            },
        },
    }
}

/// A value trimmed of white space; blank or missing values count as missing.
pub open spec fn optional_text(value: Option<Seq<char>>) -> Option<Seq<char>> {
    match value {
        Some(text) => if trim(text).len() == 0 {
            None
        } else {
            Some(trim(text))
        },
        None => None,
    }
}

/// A value that must be present and not blank.
pub open spec fn required_text(name: Seq<char>, value: Option<Seq<char>>) -> Result<
    Seq<char>,
    Seq<char>,
> {
    match optional_text(value) {
        Some(text) => Ok(text),
        None => Err(name + " cannot be empty"@),
    }
}

/// Trims a value and drops it when blank.
pub fn optional_value(value: Option<String>) -> (res: Option<String>)
    ensures
        res.deep_view() == optional_text(value.deep_view()),
{
    match value {
        Some(text) => {
            let trimmed = trim_text(text.as_str());
            if trimmed.as_str().is_empty() {
                None
            } else {
                Some(trimmed)
            }
        },
        None => None,
    }
}

/// Trims a value that must not be missing or blank; `name` says which.
pub fn required_value(name: &str, value: Option<String>) -> (res: Result<String, SettingsError>)
    ensures
        match (res, required_text(name@, value.deep_view())) {
            (Ok(v), Ok(t)) => v@ == t,
            (Err(e), Err(m)) => e@ == m,
            _ => false,
        },
{
    match optional_value(value) {
        Some(text) => Ok(text),
        None => {
            let mut message = String::from_str(name);
            message.append(" cannot be empty");
            Err(SettingsError::new(message))
        },
    }
}

/// The message for a source that needs an API key and has none.
pub open spec fn missing_key_message(source: TranslationSource) -> Seq<char> {
    source_title(source) + " requires an API key; set EW_TRANSLATOR_API_KEY or `api_key` in the config"@
}

/// The message for a source that needs a model and has none.
pub open spec fn missing_model_message(source: TranslationSource) -> Seq<char> {
    source_title(source)
        + " requires a model; set EW_TRANSLATOR_MODEL, --model, or `model` in the config"@
}

/// Fails with [`missing_key_message`] when there is no API key.
pub fn require_api_key(api_key: &Option<String>, source: TranslationSource) -> (res: Result<
    (),
    SettingsError,
>)
    ensures
        api_key is Some ==> res is Ok,
        api_key is None ==> (res matches Err(e) && e@ == missing_key_message(source)),
{
    if api_key.is_some() {
        Ok(())
    } else {
        let mut message = String::from_str(source.display_name());
        message.append(" requires an API key; set EW_TRANSLATOR_API_KEY or `api_key` in the config");
        Err(SettingsError::new(message))
    }
}

/// The base URL of a source when none is configured.
pub open spec fn default_url(source: TranslationSource) -> Seq<char> {
    match source {
        TranslationSource::GoogleTranslate => GOOGLE_TRANSLATE_URL@,
        TranslationSource::Gemini => GEMINI_API_URL@,
        TranslationSource::OpenRouter => OPENROUTER_API_URL@,
        TranslationSource::OpenAi => OPENAI_API_URL@,
    }
}

/// Exec form of [`default_url`].
pub fn default_api_url(source: TranslationSource) -> (res: &'static str)
    ensures
        res@ == default_url(source),
{
    match source {
        TranslationSource::GoogleTranslate => GOOGLE_TRANSLATE_URL,
        TranslationSource::Gemini => GEMINI_API_URL,
        TranslationSource::OpenRouter => OPENROUTER_API_URL,
        TranslationSource::OpenAi => OPENAI_API_URL,
    }
}

/// The parts of a parsed URL that validation reads.
#[derive(Clone, Debug)]
pub struct UrlParts {
    pub scheme: String,
    pub host: Option<String>,
    pub username: String,
    pub password: Option<String>,
    pub query: Option<String>,
    pub fragment: Option<String>,
}

/// [`UrlParts`] as plain character sequences.
pub ghost struct UrlView {
    pub scheme: Seq<char>,
    pub host: Option<Seq<char>>,
    pub username: Seq<char>,
    pub password: Option<Seq<char>>,
    pub query: Option<Seq<char>>,
    pub fragment: Option<Seq<char>>,
}

impl View for UrlParts {
    type V = UrlView;

    open spec fn view(&self) -> UrlView {
        UrlView {
            scheme: self.scheme@,
            host: self.host.deep_view(),
            username: self.username@,
            password: self.password.deep_view(),
            query: self.query.deep_view(),
            fragment: self.fragment.deep_view(),
        }
    }
}

/// What WHATWG URL parsing (`url::Url::parse`) gives for a text: the URL's
/// parts, or the parse error's message.
pub uninterp spec fn parsed_url(text: Seq<char>) -> Result<UrlView, Seq<char>>;

/// A URL parse outcome with its parts and error message viewed as sequences.
pub open spec fn url_outcome(res: Result<UrlParts, String>) -> Result<UrlView, Seq<char>> {
    match res {
        Ok(parts) => Ok(parts@),
        Err(message) => Err(message@),
    }
}

/// Parses `value` with `reqwest::Url::parse` (the `url` crate) and reads its
/// scheme, host, user name, password, query and fragment, or the parse error's
/// `Display` text. The contract only names the outcome, [`parsed_url`], as a
/// function of the text: WHATWG parsing is not restated here.
#[verifier::external_body]
fn parse_url(value: &str) -> (res: Result<UrlParts, String>)
    ensures
        url_outcome(res) == parsed_url(value@),
{
    match reqwest::Url::parse(value) {
        Ok(url) => Ok(UrlParts {
            scheme: url.scheme().to_string(),
            host: url.host_str().map(|host| host.to_string()),
            username: url.username().to_string(),
            password: url.password().map(|password| password.to_string()),
            query: url.query().map(|query| query.to_string()),
            fragment: url.fragment().map(|fragment| fragment.to_string()),
        }),
        Err(error) => Err(error.to_string()),
    }
}

/// What is wrong with an API URL, given what parsing it gave; `None` when
/// it is acceptable.
pub open spec fn url_problem(value: Seq<char>, parsed: Result<UrlView, Seq<char>>) -> Option<
    Seq<char>,
> {
    match parsed {
        Err(error) => Some("invalid API URL `"@ + value + "`: "@ + error),
        Ok(url) => if !(url.scheme == "http"@ || url.scheme == "https"@) {
            Some("API URL must use http or https (http is useful for local compatible servers)"@)
        } else if url.host is None {
            Some("API URL must include a host"@)
        } else if url.username.len() != 0 || url.password is Some {
            Some("API URL must not contain credentials; use EW_TRANSLATOR_API_KEY"@)
        } else if url.query is Some || url.fragment is Some {
            Some("API URL must not contain a query string or fragment"@)
        } else {
            None
        },
    }
}

/// Judges an API URL from the outcome of parsing it.
pub fn check_api_url(value: &str, parsed: Result<UrlParts, String>) -> (res: Result<
    (),
    SettingsError,
>)
    ensures
        match url_problem(value@, url_outcome(parsed)) {
            None => res is Ok,
            Some(message) => res matches Err(e) && e@ == message,
        },
{
    match parsed {
        Err(error) => {
            let mut message = String::from_str("invalid API URL `");
            message.append(value);
            message.append("`: ");
            message.append(error.as_str());
            Err(SettingsError::new(message))
        },
        Ok(url) => {
            let scheme = url.scheme.as_str();
            if !(same_text(scheme, "http") || same_text(scheme, "https")) {
                Err(
                    SettingsError::new(
                        String::from_str(
                            "API URL must use http or https (http is useful for local compatible servers)",
                        ),
                    ),
                )
            } else if url.host.is_none() {
                Err(SettingsError::new(String::from_str("API URL must include a host")))
            } else if !url.username.as_str().is_empty() || url.password.is_some() {
                Err(
                    SettingsError::new(
                        String::from_str(
                            "API URL must not contain credentials; use EW_TRANSLATOR_API_KEY",
                        ),
                    ),
                )
            } else if url.query.is_some() || url.fragment.is_some() {
                Err(
                    SettingsError::new(
                        String::from_str("API URL must not contain a query string or fragment"),
                    ),
                )
            } else {
                Ok(())
            }
        },
    }
}

/// Checks that an API URL parses, uses http or https, names a host, and
/// carries no credentials, query or fragment.
pub fn validate_api_url(value: &str) -> (res: Result<(), SettingsError>)
    ensures
        match url_problem(value@, parsed_url(value@)) {
            None => res is Ok,
            Some(message) => res matches Err(e) && e@ == message,
        },
{
    check_api_url(value, parse_url(value))
}


/// What is missing for a source that needs credentials; `None` when nothing is.
pub open spec fn credential_problem(
    source: TranslationSource,
    api_key: Option<Seq<char>>,
    model: Option<Seq<char>>,
) -> Option<Seq<char>> {
    match source {
        TranslationSource::GoogleTranslate => None,
        TranslationSource::Gemini => if api_key is None {
            Some(missing_key_message(source))
        } else {
            None
        },
        _ => if api_key is None {
            Some(missing_key_message(source))
        } else if model is None {
            Some(missing_model_message(source))
        } else {
            None
        },
    }
}

/// The model in effect: Gemini falls back to [`DEFAULT_GEMINI_MODEL`].
pub open spec fn effective_model(source: TranslationSource, model: Option<Seq<char>>) -> Option<
    Seq<char>,
> {
    if source == TranslationSource::Gemini && model is None {
        Some(DEFAULT_GEMINI_MODEL@)
    } else {
        model
    }
}

/// The settings that three layers resolve to, or the message of the first
/// problem found. Each value is taken from the command line, else the
/// environment, else the config file, else a default; values are trimmed and a
/// blank value counts as missing. The API key has no command-line option and no
/// default. Required values are the target language, the hotkeys and the API
/// URL; the URL must pass [`url_problem`]; authenticated sources must have a
/// key, OpenRouter and OpenAI-compatible ones a model too; the stored URL has no
/// trailing `/`.
pub open spec fn resolution(cli: RawModel, env: RawModel, config: RawModel) -> Result<
    SettingsModel,
    Seq<char>,
> {
    let source_text = first_present(
        cli.source,
        env.source,
        config.source,
        Some("google-translate"@),
    ).unwrap();
    match parse_source(source_text) {
        Err(message) => Err(message),
        Ok(source) => match required_text(
            "target language"@,
            first_present(cli.lang, env.lang, config.lang, Some(DEFAULT_LANG@)),
        ) {
            Err(message) => Err(message),
            Ok(target_lang) => match required_text(
                "hotkeys"@,
                first_present(cli.hotkeys, env.hotkeys, config.hotkeys, Some(DEFAULT_HOTKEYS@)),
            ) {
                Err(message) => Err(message),
                Ok(hotkeys) => {
                    let api_key = optional_text(
                        first_present(cli.api_key, env.api_key, config.api_key, None),
                    );
                    let model = optional_text(
                        first_present(cli.model, env.model, config.model, None),
                    );
                    match required_text(
                        "API URL"@,
                        first_present(
                            cli.api_url,
                            env.api_url,
                            config.api_url,
                            Some(default_url(source)),
                        ),
                    ) {
                        Err(message) => Err(message),
                        Ok(api_url) => match url_problem(api_url, parsed_url(api_url)) {
                            Some(message) => Err(message),
                            None => match credential_problem(source, api_key, model) {
                                Some(message) => Err(message),
                                None => Ok(
                                    SettingsModel {
                                        target_lang,
                                        hotkeys,
                                        translation: TranslationModel {
                                            source,
                                            api_key,
                                            model: effective_model(source, model),
                                            api_url: trim_end_char(api_url, '/'),
                                        },
                                    },
                                ),
                            },
                        },
                    }
                },
            },
        },
    }
}

/// A resolution outcome viewed as plain sequences.
pub open spec fn settings_outcome(res: Result<Settings, SettingsError>) -> Result<
    SettingsModel,
    Seq<char>,
> {
    match res {
        Ok(settings) => Ok(settings@),
        Err(error) => Err(error@),
    }
}

/// Resolves settings from the command line, the environment and the config
/// file, in that order of precedence, then built-in defaults.
pub fn resolve(command_line: RawSettings, environment: RawSettings, config: RawSettings) -> (res:
    Result<Settings, SettingsError>)
    ensures
        settings_outcome(res) == resolution(command_line@, environment@, config@),
{
    let ghost cli = command_line@;
    let ghost env = environment@;
    let ghost cfg = config@;
    let source_text = pick(
        command_line.source,
        environment.source,
        config.source,
        Some(String::from_str("google-translate")),
    );
    let source = match source_text {
        Some(text) => match TranslationSource::from_name(text.as_str()) {
            Ok(source) => source,
            Err(error) => return Err(error),
        },
        None => {
            assert(false);
            return Err(SettingsError::new(String::new()));
        },
    };
    let target_lang = match required_value(
        "target language",
        pick(command_line.lang, environment.lang, config.lang, Some(String::from_str(DEFAULT_LANG))),
    ) {
        Ok(value) => value,
        Err(error) => return Err(error),
    };
    let hotkeys = match required_value(
        "hotkeys",
        pick(
            command_line.hotkeys,
            environment.hotkeys,
            config.hotkeys,
            Some(String::from_str(DEFAULT_HOTKEYS)),
        ),
    ) {
        Ok(value) => value,
        Err(error) => return Err(error),
    };
    let api_key = optional_value(
        pick(command_line.api_key, environment.api_key, config.api_key, None),
    );
    let model = optional_value(pick(command_line.model, environment.model, config.model, None));
    let api_url = match required_value(
        "API URL",
        pick(
            command_line.api_url,
            environment.api_url,
            config.api_url,
            Some(String::from_str(default_api_url(source))),
        ),
    ) {
        Ok(value) => value,
        Err(error) => return Err(error),
    };
    match validate_api_url(api_url.as_str()) {
        Ok(()) => {},
        Err(error) => return Err(error),
    }
    match source {
        TranslationSource::GoogleTranslate => {},
        TranslationSource::Gemini => match require_api_key(&api_key, source) {
            Ok(()) => {},
            Err(error) => return Err(error),
        },
        TranslationSource::OpenRouter | TranslationSource::OpenAi => {
            match require_api_key(&api_key, source) {
                Ok(()) => {},
                Err(error) => return Err(error),
            }
            if model.is_none() {
                let mut message = String::from_str(source.display_name());
                message.append(
                    " requires a model; set EW_TRANSLATOR_MODEL, --model, or `model` in the config",
                );
                return Err(SettingsError::new(message));
            }
        },
    }
    let model = if source == TranslationSource::Gemini && model.is_none() {
        Some(String::from_str(DEFAULT_GEMINI_MODEL))
    } else {
        model
    };
    let api_url = trim_end_matches(api_url.as_str(), '/');
    Ok(
        Settings {
            target_lang,
            hotkeys,
            translation: TranslationSettings { source, api_key, model, api_url },
        },
    )
}

/// Resolves settings once the config file has been read: a config that could
/// not be read or parsed is the error; otherwise [`resolve`].
pub fn load(
    command_line: RawSettings,
    environment: RawSettings,
    config: Result<RawSettings, SettingsError>,
) -> (res: Result<Settings, SettingsError>)
    ensures
        match config {
            Err(error) => res matches Err(e) && e == error,
            Ok(layer) => settings_outcome(res) == resolution(command_line@, environment@, layer@),
        },
{
    match config {
        Err(error) => Err(error),
        Ok(layer) => resolve(command_line, environment, layer),
    }
}


/// `part` appended to the path `base`, with a `/` between them unless `base`
/// is empty or already ends with one (`PathBuf::join` with a relative part).
pub open spec fn join_path(base: Seq<char>, part: Seq<char>) -> Seq<char> {
    if base.len() == 0 || base.last() == '/' {
        base + part
    } else {
        base + seq!['/'] + part
    }
}

/// Exec form of [`join_path`].
pub fn join_path_text(base: &str, part: &str) -> (res: String)
    ensures
        res@ == join_path(base@, part@),
{
    let mut out = String::from_str(base);
    if !(base.is_empty() || ends_with_slash(base)) {
        out.append("/");
    }
    out.append(part);
    proof {
        reveal_strlit("/");
    }
    out
}

fn ends_with_slash(s: &str) -> (res: bool)
    ensures
        res == (s@.len() > 0 && s@.last() == '/'),
{
    let chars = chars_of(s);
    chars.len() > 0 && chars[chars.len() - 1] == '/'
}

/// Whether an optional path is present and not empty.
pub open spec fn non_empty(path: Option<Seq<char>>) -> bool {
    path is Some && path.unwrap().len() > 0
}

/// Where the optional config file is and whether it was named explicitly:
/// `--config`, else a non-empty `EW_TRANSLATOR_CONFIG`, both explicit; else
/// `ew-translator/config.toml` under a non-empty `XDG_CONFIG_HOME`, else under
/// `.config` in a non-empty `HOME`; else no file.
pub open spec fn config_location(
    cli: Option<Seq<char>>,
    env: Option<Seq<char>>,
    xdg_config_home: Option<Seq<char>>,
    home: Option<Seq<char>>,
) -> (Option<Seq<char>>, bool) {
    if cli is Some {
        (cli, true)
    } else if non_empty(env) {
        (env, true)
    } else {
        let base = if non_empty(xdg_config_home) {
            xdg_config_home
        } else if non_empty(home) {
            Some(join_path(home.unwrap(), ".config"@))
        } else {
            None
        };
        match base {
            Some(dir) => (Some(join_path(dir, "ew-translator/config.toml"@)), false),
            None => (None, false),
        }
    }
}

/// Picks the config file path (see [`config_location`]) from the `--config`
/// option and the `EW_TRANSLATOR_CONFIG`, `XDG_CONFIG_HOME` and `HOME`
/// variables.
pub fn select_config_path(
    cli: Option<String>,
    env: Option<String>,
    xdg_config_home: Option<String>,
    home: Option<String>,
) -> (res: (Option<String>, bool))
    ensures
        (res.0.deep_view(), res.1) == config_location(
            cli.deep_view(),
            env.deep_view(),
            xdg_config_home.deep_view(),
            home.deep_view(),
        ),
{
    if let Some(path) = cli {
        return (Some(path), true);
    }
    if let Some(path) = env {
        if !path.as_str().is_empty() {
            return (Some(path), true);
        }
    }
    let base = match xdg_config_home {
        Some(dir) if !dir.as_str().is_empty() => Some(dir),
        _ => match home {
            Some(dir) if !dir.as_str().is_empty() => Some(join_path_text(dir.as_str(), ".config")),
            _ => None,
        },
    };
    match base {
        Some(dir) => (Some(join_path_text(dir.as_str(), "ew-translator/config.toml")), false),
        None => (None, false),
    }
}

/// The error for a config file that could not be read, or `None` when a
/// missing default file is simply skipped.
pub open spec fn config_read_problem(
    path: Seq<char>,
    explicit: bool,
    not_found: bool,
    detail: Seq<char>,
) -> Option<Seq<char>> {
    if !explicit && not_found {
        None
    } else {
        Some("cannot read config `"@ + path + "`: "@ + detail)
    }
}

/// Decides what a failed read of the config file at `path` means: a default
/// file that does not exist is skipped; any other failure is an error whose
/// message carries `detail`, the I/O error's text.
pub fn config_read_error(path: &str, explicit: bool, not_found: bool, detail: &str) -> (res:
    Option<SettingsError>)
    ensures
        match (res, config_read_problem(path@, explicit, not_found, detail@)) {
            (None, None) => true,
            (Some(e), Some(m)) => e@ == m,
            _ => false,
        },
{
    if !explicit && not_found {
        None
    } else {
        let mut message = String::from_str("cannot read config `");
        message.append(path);
        message.append("`: ");
        message.append(detail);
        Some(SettingsError::new(message))
    }
}

/// The error for a config file at `path` whose TOML was refused with `detail`.
pub fn invalid_config(path: &str, detail: &str) -> (res: SettingsError)
    ensures
        res@ == "invalid config `"@ + path@ + "`: "@ + detail@,
{
    let mut message = String::from_str("invalid config `");
    message.append(path);
    message.append("`: ");
    message.append(detail);
    SettingsError::new(message)
}

/// The lines that summarise resolved settings at start-up. The API key is
/// never among them.
pub open spec fn summary(settings: SettingsModel) -> Seq<Seq<char>> {
    let head = seq![
        "Target language: `"@ + settings.target_lang + "`"@,
        "Hotkeys: `"@ + settings.hotkeys + "`"@,
        "Translation source: `"@ + source_name(settings.translation.source) + "`"@,
    ];
    let model = match settings.translation.model {
        Some(model) => seq!["Model: `"@ + model + "`"@],
        None => Seq::empty(),
    };
    head + model + seq!["API URL: `"@ + settings.translation.api_url + "`"@]
}

fn quoted(label: &str, value: &str) -> (res: String)
    ensures
        res@ == label@ + value@ + "`"@,
{
    let mut line = String::from_str(label);
    line.append(value);
    line.append("`");
    line
}

impl Settings {
    /// The summary lines (see [`summary`]), one string per line.
    pub fn summary_lines(&self) -> (res: Vec<String>)
        ensures
            res@.map_values(|line: String| line@) == summary(self@),
    {
        let mut lines: Vec<String> = Vec::new();
        lines.push(quoted("Target language: `", self.target_lang.as_str()));
        lines.push(quoted("Hotkeys: `", self.hotkeys.as_str()));
        lines.push(quoted("Translation source: `", self.translation.source.as_str()));
        if let Some(model) = &self.translation.model {
            lines.push(quoted("Model: `", model.as_str()));
        }
        lines.push(quoted("API URL: `", self.translation.api_url.as_str()));
        assert(lines@.map_values(|line: String| line@) =~= summary(self@));
        lines
    }
}


proof fn lemma_plain_name(name: Seq<char>)
    requires
        name.len() > 0,
        forall|i: int|
            0 <= i < name.len() ==> ('a' <= #[trigger] name[i] && name[i] <= 'z') || name[i]
                == '-',
    ensures
        normalized_source(name) == name,
{
    assert(trim_start(name) == name);
    assert(trim_end(name) == name);
    assert(ascii_lower(name) =~= name);
    assert(replace_char(name, '_', '-') =~= name);
}

/// Reading the canonical name of a source gives that source back: the names
/// that `as_str` writes are the names that `from_name` reads.
pub proof fn source_name_round_trip(source: TranslationSource)
    ensures
        parse_source(source_name(source)) == Ok::<TranslationSource, Seq<char>>(source),
{
    reveal_strlit("google");
    reveal_strlit("google-translate");
    reveal_strlit("gemini");
    reveal_strlit("google-api");
    reveal_strlit("google-gemini");
    reveal_strlit("openrouter");
    reveal_strlit("openai");
    lemma_plain_name(source_name(source));
    let name = source_name(source);
    match source {
        TranslationSource::GoogleTranslate => {},
        TranslationSource::Gemini => {
            assert(name[1] != "google"@[1]);
            assert(name.len() != "google-translate"@.len());
        },
        TranslationSource::OpenRouter => {
            assert(name.len() != "google"@.len());
            assert(name.len() != "google-translate"@.len());
            assert(name.len() != "gemini"@.len());
            assert(name.len() != "google-api"@.len() || name[0] != 'g');
            assert(name.len() != "google-gemini"@.len());
        },
        TranslationSource::OpenAi => {
            assert(name[0] != 'g');
            assert(name.len() != "google-translate"@.len());
            assert(name.len() != "google-api"@.len());
            assert(name.len() != "google-gemini"@.len());
            assert(name.len() != "openrouter"@.len());
        },
    }
}

/// Each setting comes from the highest layer that gives it: the command line
/// over the environment over the config file over the default. A blank value
/// in a higher layer is not skipped in favour of a lower one.
pub proof fn higher_layer_wins(cli: RawModel, env: RawModel, config: RawModel)
    requires
        resolution(cli, env, config) is Ok,
    ensures
        ({
            let settings = resolution(cli, env, config)->Ok_0;
            &&& cli.source is Some ==> parse_source(cli.source.unwrap()) == Ok::<
                TranslationSource,
                Seq<char>,
            >(settings.translation.source)
            &&& cli.source is None && env.source is Some ==> parse_source(env.source.unwrap())
                == Ok::<TranslationSource, Seq<char>>(settings.translation.source)
            &&& cli.source is None && env.source is None && config.source is Some
                ==> parse_source(config.source.unwrap()) == Ok::<TranslationSource, Seq<char>>(
                settings.translation.source,
            )
            &&& cli.source is None && env.source is None && config.source is None
                ==> settings.translation.source == TranslationSource::GoogleTranslate
            &&& cli.lang is Some ==> settings.target_lang == trim(cli.lang.unwrap())
            &&& cli.lang is None && env.lang is Some ==> settings.target_lang == trim(
                env.lang.unwrap(),
            )
            &&& cli.lang is None && env.lang is None && config.lang is Some
                ==> settings.target_lang == trim(config.lang.unwrap())
            &&& cli.hotkeys is Some ==> settings.hotkeys == trim(cli.hotkeys.unwrap())
            &&& cli.hotkeys is None && env.hotkeys is Some ==> settings.hotkeys == trim(
                env.hotkeys.unwrap(),
            )
            &&& cli.hotkeys is None && env.hotkeys is None && config.hotkeys is Some
                ==> settings.hotkeys == trim(config.hotkeys.unwrap())
            &&& cli.api_key is Some ==> settings.translation.api_key == optional_text(cli.api_key)
            &&& cli.api_key is None && env.api_key is Some ==> settings.translation.api_key
                == optional_text(env.api_key)
            &&& cli.api_key is None && env.api_key is None ==> settings.translation.api_key
                == optional_text(config.api_key)
        }),
{
    source_name_round_trip(TranslationSource::GoogleTranslate);
}

/// Resolved settings that use Gemini, OpenRouter or an OpenAI-compatible API
/// always carry an API key and a model; Gemini without a configured model gets
/// [`DEFAULT_GEMINI_MODEL`].
pub proof fn authenticated_sources_have_key_and_model(cli: RawModel, env: RawModel, config: RawModel)
    requires
        resolution(cli, env, config) is Ok,
    ensures
        ({
            let translation = resolution(cli, env, config)->Ok_0.translation;
            &&& translation.source != TranslationSource::GoogleTranslate
                ==> translation.api_key is Some && translation.model is Some
            &&& translation.source == TranslationSource::Gemini && optional_text(
                first_present(cli.model, env.model, config.model, None),
            ) is None ==> translation.model == Some(DEFAULT_GEMINI_MODEL@)
        }),
{
}

/// A model given in any layer is kept as given (trimmed), whatever the
/// source: the Gemini default applies only when no layer gives a model, and
/// Google Translate without a model has none.
pub proof fn configured_model_is_kept(cli: RawModel, env: RawModel, config: RawModel)
    requires
        resolution(cli, env, config) is Ok,
    ensures
        ({
            let translation = resolution(cli, env, config)->Ok_0.translation;
            let given = optional_text(first_present(cli.model, env.model, config.model, None));
            &&& given is Some ==> translation.model == given
            &&& cli.model is Some && trim(cli.model.unwrap()).len() > 0 ==> translation.model
                == Some(trim(cli.model.unwrap()))
            &&& given is None && translation.source == TranslationSource::Gemini
                ==> translation.model == Some(DEFAULT_GEMINI_MODEL@)
            &&& given is None && translation.source != TranslationSource::Gemini
                ==> translation.model is None
        }),
{
}

/// The target language and hotkeys of resolved settings are trimmed and not
/// empty, and the API URL does not end with `/`.
pub proof fn resolved_values_are_clean(cli: RawModel, env: RawModel, config: RawModel)
    requires
        resolution(cli, env, config) is Ok,
    ensures
        ({
            let settings = resolution(cli, env, config)->Ok_0;
            &&& settings.target_lang.len() > 0 && trim(settings.target_lang)
                == settings.target_lang
            &&& settings.hotkeys.len() > 0 && trim(settings.hotkeys) == settings.hotkeys
            &&& settings.translation.api_url.len() > 0 ==> settings.translation.api_url.last()
                != '/'
        }),
{
    let settings = resolution(cli, env, config)->Ok_0;
    let lang = first_present(cli.lang, env.lang, config.lang, Some(DEFAULT_LANG@));
    let keys = first_present(cli.hotkeys, env.hotkeys, config.hotkeys, Some(DEFAULT_HOTKEYS@));
    lemma_trim_is_trimmed(lang.unwrap());
    lemma_trim_is_trimmed(keys.unwrap());
    let source = settings.translation.source;
    let url = first_present(cli.api_url, env.api_url, config.api_url, Some(default_url(source)));
    lemma_trim_end_char_done(trim(url.unwrap()), '/');
}

/// Where the config file is looked for: `--config` as given, else a
/// non-empty `EW_TRANSLATOR_CONFIG`, both explicit; otherwise, not explicit,
/// `ew-translator/config.toml` under a non-empty `XDG_CONFIG_HOME`, else under
/// `.config` in a non-empty `HOME` (an unset and an empty variable alike are
/// skipped), else nowhere.
pub proof fn config_file_location(
    cli: Option<Seq<char>>,
    env: Option<Seq<char>>,
    xdg_config_home: Option<Seq<char>>,
    home: Option<Seq<char>>,
)
    ensures
        cli is Some ==> config_location(cli, env, xdg_config_home, home) == (cli, true),
        cli is None && non_empty(env) ==> config_location(cli, env, xdg_config_home, home) == (
            env,
            true,
        ),
        cli is None && !non_empty(env) && non_empty(xdg_config_home) ==> config_location(
            cli,
            env,
            xdg_config_home,
            home,
        ) == (Some(join_path(xdg_config_home.unwrap(), "ew-translator/config.toml"@)), false),
        cli is None && !non_empty(env) && !non_empty(xdg_config_home) && non_empty(home)
            ==> config_location(cli, env, xdg_config_home, home) == (
            Some(join_path(join_path(home.unwrap(), ".config"@), "ew-translator/config.toml"@)),
            false,
        ),
        cli is None && !non_empty(env) && !non_empty(xdg_config_home) && non_empty(home)
            && home.unwrap().last() != '/' ==> config_location(cli, env, xdg_config_home, home).0
            == Some(home.unwrap() + "/.config/ew-translator/config.toml"@),
        cli is None && !non_empty(env) && !non_empty(xdg_config_home) && !non_empty(home)
            ==> config_location(cli, env, xdg_config_home, home) == (None::<Seq<char>>, false),
{
    reveal_strlit(".config");
    reveal_strlit("ew-translator/config.toml");
    reveal_strlit("/.config/ew-translator/config.toml");
    if cli is None && !non_empty(env) && !non_empty(xdg_config_home) && home is Some {
        let h = home.unwrap();
        if h.len() > 0 && h.last() != '/' {
            let first = join_path(h, ".config"@);
            assert(first == h + seq!['/'] + ".config"@);
            assert(first.last() == 'g');
            assert(join_path(first, "ew-translator/config.toml"@) =~= h
                + "/.config/ew-translator/config.toml"@);
        }
    }
}

/// The start-up summary does not depend on the API key: changing the key
/// changes no line.
pub proof fn summary_omits_api_key(settings: SettingsModel, other_key: Option<Seq<char>>)
    ensures
        summary(settings) == summary(
            SettingsModel {
                target_lang: settings.target_lang,
                hotkeys: settings.hotkeys,
                translation: TranslationModel {
                    source: settings.translation.source,
                    api_key: other_key,
                    model: settings.translation.model,
                    api_url: settings.translation.api_url,
                },
            },
        ),
{
}

} // verus!
