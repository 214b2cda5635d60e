//! The configuration of the local multi-agent service.
use crate::json::{
    JsonValue, JsonView, canonical, canonical_entries, compact_text, entry_views, insert_entry,
    is_braced, is_flat, json_parse, json_views, reads_as, sorted_entries,
};
use crate::opencode_server::wire::is_object;
use crate::ordered::{is_keyed, law_insert_keyed};
use crate::path::{PathStyle, is_plain_name, join_path, joined_path, lemma_joined_name};
use crate::server_url::{has_http_prefix, parse_url, url_parse, url_parts, url_text, write_url};
use crate::text::{
    blank, chars_of, clone_option, concat2, concat3, contains_same, decimal, decimal_of, distinct,
    is_blank, is_space, join, joined, law_distinct, lemma_text_lt_total, lemma_trim_empty,
    lemma_trim_idempotent, lower, lowered, opt_str_view, opt_view, parse_u64, same, same_option,
    split, split_on, text_lt, trim, trim_end, trim_end_char, trim_start, trimmed, trimmed_end_char,
    u64_of, views,
};
use crate::text_map::{
    TextMap, law_entry_is_found, text_entry_views, text_object, value_under, with_entry,
};
use vstd::prelude::*;

verus! {

pub const DEFAULT_OPENAI_BASE_URL: &'static str = "https://api.openai.com/v1";

/// The configuration of the service.
#[derive(Debug, PartialEq, Eq)]
pub struct LocalMultiAgentConfig {
    pub host: String,
    pub port: u16,
    pub openai_base_url: Option<String>,
    pub openai_model: Option<String>,
    pub local_model_aliases: String,
    pub local_model_list: String,
    pub local_enable_tools: bool,
    pub local_max_history_messages: u16,
    pub local_model_context_tokens: Option<String>,
    pub local_graphql_db_path: Option<String>,
    pub log_level: String,
    pub local_service_log_path: Option<String>,
    pub local_multi_agent_system_prompt: String,
}

/// The model of a `LocalMultiAgentConfig`.
pub struct AgentConfigView {
    pub host: Seq<char>,
    pub port: u16,
    pub openai_base_url: Option<Seq<char>>,
    pub openai_model: Option<Seq<char>>,
    pub local_model_aliases: Seq<char>,
    pub local_model_list: Seq<char>,
    pub local_enable_tools: bool,
    pub local_max_history_messages: u16,
    pub local_model_context_tokens: Option<Seq<char>>,
    pub local_graphql_db_path: Option<Seq<char>>,
    pub log_level: Seq<char>,
    pub local_service_log_path: Option<Seq<char>>,
    pub local_multi_agent_system_prompt: Seq<char>,
}

/// The values that a fresh configuration is made of. An empty text means that a value is not set.
#[derive(Debug, PartialEq, Eq)]
pub struct LocalMultiAgentConfigSchemaDefaults {
    pub host: String,
    pub port: u16,
    pub openai_base_url: String,
    pub openai_model: String,
    pub local_model_aliases: String,
    pub local_model_list: String,
    pub local_enable_tools: bool,
    pub local_max_history_messages: u16,
    pub local_model_context_tokens: String,
    pub local_graphql_db_path: String,
    pub log_level: String,
    pub local_service_log_path: String,
    pub local_multi_agent_system_prompt: String,
}

/// A text without surrounding space, where it is not blank.
pub open spec fn given(text: Seq<char>) -> Option<Seq<char>> {
    if trim(text).len() == 0 {
        None
    } else {
        Some(trim(text))
    }
}

/// An optional text without surrounding space, where it is not blank.
pub open spec fn given_option(text: Option<Seq<char>>) -> Option<Seq<char>> {
    match text {
        Some(text) => given(text),
        None => None,
    }
}

/// A text without surrounding space, where it is not blank.
pub fn non_empty_str<'a>(value: &'a str) -> (r: Option<&'a str>)
    ensures
        opt_str_view(r) == given(value@),
{
    let value = trimmed(value);
    if value.unicode_len() == 0 {
        None
    } else {
        Some(value)
    }
}

/// An optional text without surrounding space, where it is not blank.
pub fn non_empty_option<'a>(value: &'a Option<String>) -> (r: Option<&'a str>)
    ensures
        opt_str_view(r) == given_option(opt_view(*value)),
{
    match value {
        Some(value) => non_empty_str(value.as_str()),
        None => None,
    }
}

fn non_empty(value: &str) -> (r: Option<String>)
    ensures
        opt_view(r) == given(value@),
{
    match non_empty_str(value) {
        Some(value) => Some(value.to_owned()),
        None => None,
    }
}

/// The configuration that default values make.
pub open spec fn config_of_defaults(
    defaults: LocalMultiAgentConfigSchemaDefaults
) -> AgentConfigView {
    AgentConfigView {
        host: defaults.host@,
        port: defaults.port,
        openai_base_url: given(defaults.openai_base_url@),
        openai_model: given(defaults.openai_model@),
        local_model_aliases: defaults.local_model_aliases@,
        local_model_list: defaults.local_model_list@,
        local_enable_tools: defaults.local_enable_tools,
        local_max_history_messages: defaults.local_max_history_messages,
        local_model_context_tokens: given(defaults.local_model_context_tokens@),
        local_graphql_db_path: given(defaults.local_graphql_db_path@),
        log_level: defaults.log_level@,
        local_service_log_path: given(defaults.local_service_log_path@),
        local_multi_agent_system_prompt: defaults.local_multi_agent_system_prompt@,
    }
}

/// Why a configuration is refused.
#[derive(Debug, PartialEq, Eq)]
pub enum LocalMultiAgentConfigError {
    InvalidHost,
    InvalidPort,
    InvalidMaxHistoryMessages,
    InvalidLogLevel,
    InvalidOpenAiBaseUrl,
    InvalidModelAliases { source: String },
    ModelAliasesMustBeObject,
    InvalidContextTokens,
    InvalidContextTokensJson { source: String },
    InvalidRootUrl { source: String },
}

/// The model of a `LocalMultiAgentConfigError`.
pub enum ConfigErrorView {
    InvalidHost,
    InvalidPort,
    InvalidMaxHistoryMessages,
    InvalidLogLevel,
    InvalidOpenAiBaseUrl,
    InvalidModelAliases { source: Seq<char> },
    ModelAliasesMustBeObject,
    InvalidContextTokens,
    InvalidContextTokensJson { source: Seq<char> },
    InvalidRootUrl { source: Seq<char> },
}

/// What is said of an error.
pub open spec fn config_error_message(error: ConfigErrorView) -> Seq<char> {
    match error {
        ConfigErrorView::InvalidHost => "Host is required."@,
        ConfigErrorView::InvalidPort => "Port must be between 1 and 65535."@,
        ConfigErrorView::InvalidMaxHistoryMessages => {
            "Maximum history messages must be at least 4."@
        },
        ConfigErrorView::InvalidLogLevel => {
            "Log level must be one of error, warn, info, or debug."@
        },
        ConfigErrorView::InvalidOpenAiBaseUrl => {
            "OpenAI Base URL must be an absolute http(s) URL."@
        },
        ConfigErrorView::InvalidModelAliases { source } => {
            "Model aliases must be valid JSON: "@ + source
        },
        ConfigErrorView::ModelAliasesMustBeObject => "Model aliases must be a JSON object."@,
        ConfigErrorView::InvalidContextTokens => {
            "Context tokens must be a positive integer or a JSON object."@
        },
        ConfigErrorView::InvalidContextTokensJson { source } => {
            "Context tokens JSON is invalid: "@ + source
        },
        ConfigErrorView::InvalidRootUrl { source } => "Could not build local root URL: "@ + source,
    }
}

impl LocalMultiAgentConfigError {
    pub open spec fn view(&self) -> ConfigErrorView {
        match self {
            LocalMultiAgentConfigError::InvalidHost => ConfigErrorView::InvalidHost,
            LocalMultiAgentConfigError::InvalidPort => ConfigErrorView::InvalidPort,
            LocalMultiAgentConfigError::InvalidMaxHistoryMessages => {
                ConfigErrorView::InvalidMaxHistoryMessages
            },
            LocalMultiAgentConfigError::InvalidLogLevel => ConfigErrorView::InvalidLogLevel,
            LocalMultiAgentConfigError::InvalidOpenAiBaseUrl => {
                ConfigErrorView::InvalidOpenAiBaseUrl
            },
            LocalMultiAgentConfigError::InvalidModelAliases { source } => {
                ConfigErrorView::InvalidModelAliases { source: source@ }
            },
            LocalMultiAgentConfigError::ModelAliasesMustBeObject => {
                ConfigErrorView::ModelAliasesMustBeObject
            },
            LocalMultiAgentConfigError::InvalidContextTokens => {
                ConfigErrorView::InvalidContextTokens
            },
            LocalMultiAgentConfigError::InvalidContextTokensJson { source } => {
                ConfigErrorView::InvalidContextTokensJson { source: source@ }
            },
            LocalMultiAgentConfigError::InvalidRootUrl { source } => {
                ConfigErrorView::InvalidRootUrl { source: source@ }
            },
        }
    }

    /// What is said of the error.
    pub fn message(&self) -> (r: String)
        ensures
            r@ == config_error_message(self@),
    {
        match self {
            LocalMultiAgentConfigError::InvalidHost => "Host is required.".to_owned(),
            LocalMultiAgentConfigError::InvalidPort => {
                "Port must be between 1 and 65535.".to_owned()
            },
            LocalMultiAgentConfigError::InvalidMaxHistoryMessages => {
                "Maximum history messages must be at least 4.".to_owned()
            },
            LocalMultiAgentConfigError::InvalidLogLevel => {
                "Log level must be one of error, warn, info, or debug.".to_owned()
            },
            LocalMultiAgentConfigError::InvalidOpenAiBaseUrl => {
                "OpenAI Base URL must be an absolute http(s) URL.".to_owned()
            },
            LocalMultiAgentConfigError::InvalidModelAliases { source } => concat2(
                "Model aliases must be valid JSON: ",
                source.as_str(),
            ),
            LocalMultiAgentConfigError::ModelAliasesMustBeObject => {
                "Model aliases must be a JSON object.".to_owned()
            },
            LocalMultiAgentConfigError::InvalidContextTokens => {
                "Context tokens must be a positive integer or a JSON object.".to_owned()
            },
            LocalMultiAgentConfigError::InvalidContextTokensJson { source } => concat2(
                "Context tokens JSON is invalid: ",
                source.as_str(),
            ),
            LocalMultiAgentConfigError::InvalidRootUrl { source } => concat2(
                "Could not build local root URL: ",
                source.as_str(),
            ),
        }
    }
}

/// The text of the service's own address.
pub open spec fn root_text(config: AgentConfigView) -> Seq<char> {
    "http://"@ + trim(config.host) + ":"@ + decimal(config.port as nat)
}

/// The address is an HTTP address with a host.
pub open spec fn is_http_base(text: Seq<char>) -> bool {
    match url_parse(trim_end_char(trim(text), '/')) {
        Ok(url) => (url.scheme == "http"@ || url.scheme == "https"@) && url.host is Some,
        Err(_) => false,
    }
}

/// The text is the name of a log level, in capitals or not.
pub open spec fn is_log_level(text: Seq<char>) -> bool {
    let level = lower(trim(text));
    level == "error"@ || level == "warn"@ || level == "info"@ || level == "debug"@
}

/// What is wrong with the aliases, where something is.
pub open spec fn aliases_error(text: Seq<char>) -> Option<ConfigErrorView> {
    if trim(text).len() == 0 {
        None
    } else {
        match json_parse(text) {
            Ok(value) => if value is Object {
                None
            } else {
                Some(ConfigErrorView::ModelAliasesMustBeObject)
            },
            Err(source) => Some(ConfigErrorView::InvalidModelAliases { source }),
        }
    }
}

/// The text writes a positive number of 32 bits.
pub open spec fn is_token_count(text: Seq<char>) -> bool {
    match u64_of(text) {
        Some(n) => 0 < n <= u32::MAX,
        None => false,
    }
}

/// What is wrong with the context tokens, where something is.
pub open spec fn tokens_error(text: Seq<char>) -> Option<ConfigErrorView> {
    let value = trim(text);
    if value.len() == 0 || is_token_count(value) {
        None
    } else {
        match json_parse(value) {
            Ok(parsed) => if parsed is Object {
                None
            } else {
                Some(ConfigErrorView::InvalidContextTokens)
            },
            Err(source) => Some(ConfigErrorView::InvalidContextTokensJson { source }),
        }
    }
}

/// What is wrong with a configuration, where something is. The first fault counts.
pub open spec fn config_error(config: AgentConfigView) -> Option<ConfigErrorView> {
    if trim(config.host).len() == 0 {
        Some(ConfigErrorView::InvalidHost)
    } else if config.port == 0 {
        Some(ConfigErrorView::InvalidPort)
    } else if config.local_max_history_messages < 4 {
        Some(ConfigErrorView::InvalidMaxHistoryMessages)
    } else if !is_log_level(config.log_level) {
        Some(ConfigErrorView::InvalidLogLevel)
    } else if given_option(config.openai_base_url) is Some && !is_http_base(
        given_option(config.openai_base_url)->0,
    ) {
        Some(ConfigErrorView::InvalidOpenAiBaseUrl)
    } else if aliases_error(config.local_model_aliases) is Some {
        aliases_error(config.local_model_aliases)
    } else if config.local_model_context_tokens is Some && tokens_error(
        config.local_model_context_tokens->0,
    ) is Some {
        tokens_error(config.local_model_context_tokens->0)
    } else {
        match url_parse(root_text(config)) {
            Ok(_) => None,
            Err(source) => Some(ConfigErrorView::InvalidRootUrl { source }),
        }
    }
}

/// The model of an attempt that gives nothing but an error.
pub open spec fn check_view(r: Result<(), LocalMultiAgentConfigError>) -> Option<ConfigErrorView> {
    match r {
        Ok(_) => None,
        Err(error) => Some(error@),
    }
}

/// The address is an HTTP address with a host.
pub fn validate_absolute_http_url(value: &str) -> (r: Result<(), LocalMultiAgentConfigError>)
    ensures
        check_view(r) == (if is_http_base(value@) {
            None
        } else {
            Some(ConfigErrorView::InvalidOpenAiBaseUrl)
        }),
{
    match parse_url(trimmed_end_char(trimmed(value), '/')) {
        Ok(url) => {
            let parts = url_parts(&url);
            if (same(parts.scheme.as_str(), "http") || same(parts.scheme.as_str(), "https"))
                && parts.host.is_some() {
                Ok(())
            } else {
                Err(LocalMultiAgentConfigError::InvalidOpenAiBaseUrl)
            }
        },
        Err(_) => Err(LocalMultiAgentConfigError::InvalidOpenAiBaseUrl),
    }
}

fn validate_aliases(text: &str) -> (r: Result<(), LocalMultiAgentConfigError>)
    ensures
        check_view(r) == aliases_error(text@),
{
    if non_empty_str(text).is_none() {
        return Ok(());
    }
    match JsonValue::parse(text) {
        Ok(value) => {
            if is_object(&value) {
                Ok(())
            } else {
                Err(LocalMultiAgentConfigError::ModelAliasesMustBeObject)
            }
        },
        Err(source) => Err(LocalMultiAgentConfigError::InvalidModelAliases { source }),
    }
}

fn validate_context_tokens(value: &str) -> (r: Result<(), LocalMultiAgentConfigError>)
    ensures
        check_view(r) == tokens_error(value@),
{
    let value = trimmed(value);
    if value.unicode_len() == 0 {
        return Ok(());
    }
    if let Some(n) = parse_u64(value) {
        if 0 < n && n <= u32::MAX as u64 {
            return Ok(());
        }
    }
    match JsonValue::parse(value) {
        Ok(parsed) => {
            if is_object(&parsed) {
                Ok(())
            } else {
                Err(LocalMultiAgentConfigError::InvalidContextTokens)
            }
        },
        Err(source) => Err(LocalMultiAgentConfigError::InvalidContextTokensJson { source }),
    }
}

/// The aliases that a JSON object lists: texts without surrounding space, blank ones left out.
pub open spec fn alias_entries(entries: Seq<(Seq<char>, JsonView)>) -> Seq<(Seq<char>, Seq<char>)>
    decreases entries.len(),
{
    if entries.len() == 0 {
        Seq::empty()
    } else {
        let before = alias_entries(entries.drop_last());
        match given_option(entries.last().1.text()) {
            Some(model) => with_entry(before, entries.last().0, model),
            None => before,
        }
    }
}

/// The aliases that a text lists.
pub open spec fn aliases_of(text: Seq<char>) -> Result<Seq<(
    Seq<char>,
    Seq<char>,
)>, ConfigErrorView> {
    let value = trim(text);
    if value.len() == 0 {
        Ok(Seq::empty())
    } else {
        match json_parse(value) {
            Ok(JsonView::Object(entries)) => Ok(alias_entries(entries)),
            Ok(_) => Err(ConfigErrorView::ModelAliasesMustBeObject),
            Err(source) => Err(ConfigErrorView::InvalidModelAliases { source }),
        }
    }
}

/// The model of an attempt to read aliases.
pub open spec fn aliases_view(r: Result<TextMap, LocalMultiAgentConfigError>) -> Result<
    Seq<(Seq<char>, Seq<char>)>,
    ConfigErrorView,
> {
    match r {
        Ok(aliases) => Ok(aliases@),
        Err(error) => Err(error@),
    }
}

/// The aliases that a text lists.
pub fn parse_model_aliases(value: &str) -> (r: Result<TextMap, LocalMultiAgentConfigError>)
    ensures
        aliases_view(r) == aliases_of(value@),
{
    broadcast use {JsonValue::lemma_object_view, JsonValue::lemma_array_view};

    let value = trimmed(value);
    if value.unicode_len() == 0 {
        return Ok(TextMap::new());
    }
    let parsed = match JsonValue::parse(value) {
        Ok(parsed) => parsed,
        Err(source) => {
            return Err(LocalMultiAgentConfigError::InvalidModelAliases { source });
        },
    };
    match &parsed {
        JsonValue::Object(entries) => {
            let ghost all = entry_views(entries@);
            let mut r = TextMap::new();
            let mut i: usize = 0;
            while i < entries.len()
                invariant
                    i <= entries@.len(),
                    all == entry_views(entries@),
                    r@ == alias_entries(all.take(i as int)),
                decreases entries@.len() - i,
            {
                proof {
                    assert(all.take(i as int + 1).drop_last() =~= all.take(i as int));
                    assert(all.take(i as int + 1).last() == all[i as int]);
                }
                if let Some(model) = entries[i].1.as_str() {
                    if let Some(model) = non_empty_str(model) {
                        r.insert(entries[i].0.clone(), model.to_owned());
                    }
                }
                i = i + 1;
            }
            assert(all.take(i as int) =~= all);
            Ok(r)
        },
        _ => Err(LocalMultiAgentConfigError::ModelAliasesMustBeObject),
    }
}

/// The identifier of a model in a list: a string, or the `id` of an object.
pub open spec fn listed_model(item: JsonView) -> Option<Seq<char>> {
    match item {
        JsonView::Text(id) => Some(id),
        _ => item.get_text("id"@),
    }
}

/// The identifiers of the models in an array, without surrounding space, blank ones left out.
pub open spec fn listed_models(items: Seq<JsonView>) -> Seq<Seq<char>>
    decreases items.len(),
{
    if items.len() == 0 {
        Seq::empty()
    } else {
        let before = listed_models(items.drop_last());
        match given_option(listed_model(items.last())) {
            Some(id) => before.push(id),
            None => before,
        }
    }
}

/// The texts without surrounding space, blank ones left out.
pub open spec fn given_texts(texts: Seq<Seq<char>>) -> Seq<Seq<char>>
    decreases texts.len(),
{
    if texts.len() == 0 {
        Seq::empty()
    } else {
        let before = given_texts(texts.drop_last());
        match given(texts.last()) {
            Some(text) => before.push(text),
            None => before,
        }
    }
}

/// The identifiers that a list of models names: a JSON array, or texts with commas between them.
pub open spec fn model_ids_of(text: Seq<char>) -> Seq<Seq<char>> {
    let value = trim(text);
    if value.len() == 0 {
        Seq::empty()
    } else if value[0] == '[' {
        match json_parse(value) {
            Ok(JsonView::Array(items)) => listed_models(items),
            _ => Seq::empty(),
        }
    } else {
        given_texts(split(value, ','))
    }
}

/// The identifiers of the models in an array.
pub fn find_listed_models(items: &Vec<JsonValue>) -> (r: Vec<String>)
    ensures
        views(r@) == listed_models(json_views(items@)),
{
    let ghost all = json_views(items@);
    let mut r: Vec<String> = Vec::new();
    let mut i: usize = 0;
    assert(views(r@) =~= listed_models(all.take(0)));
    while i < items.len()
        invariant
            i <= items@.len(),
            all == json_views(items@),
            views(r@) == listed_models(all.take(i as int)),
        decreases items@.len() - i,
    {
        let ghost done = views(r@);
        proof {
            assert(all.take(i as int + 1).drop_last() =~= all.take(i as int));
            assert(all.take(i as int + 1).last() == items@[i as int]@);
        }
        let id = match items[i].as_str() {
            Some(id) => Some(id),
            None => items[i].get_str("id"),
        };
        if let Some(id) = id {
            if let Some(id) = non_empty_str(id) {
                r.push(id.to_owned());
                assert(views(r@) =~= done.push(id@));
            }
        }
        i = i + 1;
    }
    assert(all.take(i as int) =~= all);
    r
}

fn keep_given(texts: &Vec<String>) -> (r: Vec<String>)
    ensures
        views(r@) == given_texts(views(texts@)),
{
    let ghost all = views(texts@);
    let mut r: Vec<String> = Vec::new();
    let mut i: usize = 0;
    assert(views(r@) =~= given_texts(all.take(0)));
    while i < texts.len()
        invariant
            i <= texts@.len(),
            all == views(texts@),
            views(r@) == given_texts(all.take(i as int)),
        decreases texts@.len() - i,
    {
        let ghost done = views(r@);
        proof {
            assert(all.take(i as int + 1).drop_last() =~= all.take(i as int));
            assert(all.take(i as int + 1).last() == texts@[i as int]@);
        }
        if let Some(text) = non_empty_str(texts[i].as_str()) {
            r.push(text.to_owned());
            assert(views(r@) =~= done.push(text@));
        }
        i = i + 1;
    }
    assert(all.take(i as int) =~= all);
    r
}

/// The identifiers that a list of models names.
pub fn parse_model_list_ids(value: &str) -> (r: Vec<String>)
    ensures
        views(r@) == model_ids_of(value@),
{
    broadcast use {JsonValue::lemma_object_view, JsonValue::lemma_array_view};

    let value = trimmed(value);
    let chars = chars_of(value);
    if chars.len() == 0 {
        let r: Vec<String> = Vec::new();
        assert(views(r@) =~= Seq::empty());
        return r;
    }
    if chars[0] == '[' {
        if let Ok(JsonValue::Array(items)) = JsonValue::parse(value) {
            return find_listed_models(&items);
        }
        let r: Vec<String> = Vec::new();
        assert(views(r@) =~= Seq::empty());
        return r;
    }
    keep_given(&split_on(value, ','))
}

/// The aliases that every configuration has.
pub open spec fn alias_ids() -> Seq<Seq<char>> {
    seq!["auto"@, "auto-efficient"@, "auto-coding"@, "auto-reasoning"@]
}

/// The aliases that every configuration has.
pub fn local_model_alias_ids() -> (r: Vec<String>)
    ensures
        views(r@) == alias_ids(),
{
    let mut r: Vec<String> = Vec::new();
    r.push("auto".to_owned());
    r.push("auto-efficient".to_owned());
    r.push("auto-coding".to_owned());
    r.push("auto-reasoning".to_owned());
    assert(views(r@) =~= alias_ids());
    r
}

/// The alias stands for none of the models.
pub open spec fn is_stale_alias(
    aliases: Seq<(Seq<char>, Seq<char>)>,
    alias: Seq<char>,
    models: Seq<Seq<char>>,
) -> bool {
    match value_under(aliases, alias) {
        Some(model) => !models.contains(model),
        None => true,
    }
}

/// The aliases, with those of a list that stand for none of the models made to stand for the
/// first.
pub open spec fn mended_aliases(
    aliases: Seq<(Seq<char>, Seq<char>)>,
    ids: Seq<Seq<char>>,
    models: Seq<Seq<char>>,
) -> Seq<(Seq<char>, Seq<char>)>
    decreases ids.len(),
{
    if ids.len() == 0 {
        aliases
    } else {
        let before = mended_aliases(aliases, ids.drop_last(), models);
        if is_stale_alias(before, ids.last(), models) {
            with_entry(before, ids.last(), models[0])
        } else {
            before
        }
    }
}

/// One of the aliases of a list is mended.
pub open spec fn mends_alias(
    aliases: Seq<(Seq<char>, Seq<char>)>,
    ids: Seq<Seq<char>>,
    models: Seq<Seq<char>>,
) -> bool
    decreases ids.len(),
{
    ids.len() > 0 && (mends_alias(aliases, ids.drop_last(), models) || is_stale_alias(
        mended_aliases(aliases, ids.drop_last(), models),
        ids.last(),
        models,
    ))
}

/// The configuration with the models that the provider offers: its model and the fixed aliases
/// name offered models, and the list names all of them.
pub open spec fn with_discovered(config: AgentConfigView, models: Seq<Seq<char>>) -> (
    AgentConfigView,
    Result<bool, ConfigErrorView>,
) {
    if models.len() == 0 {
        (config, Ok(false))
    } else {
        let model_fits = config.openai_model is Some && models.contains(config.openai_model->0);
        let list = join(models, ","@);
        let named = AgentConfigView {
            openai_model: if model_fits {
                config.openai_model
            } else {
                Some(models[0])
            },
            local_model_list: list,
            ..config
        };
        match aliases_of(config.local_model_aliases) {
            Err(error) => (named, Err(error)),
            Ok(aliases) => {
                let changed = !model_fits || config.local_model_list != list || mends_alias(
                    aliases,
                    alias_ids(),
                    models,
                );
                if changed {
                    (
                        AgentConfigView {
                            local_model_aliases: compact_text(
                                canonical(
                                    text_object(mended_aliases(aliases, alias_ids(), models))
                                ),
                            ),
                            ..named
                        },
                        Ok(true),
                    )
                } else {
                    (named, Ok(false))
                }
            },
        }
    }
}

/// The model of an attempt that says whether something changed.
pub open spec fn change_view(r: Result<bool, LocalMultiAgentConfigError>) -> Result<
    bool,
    ConfigErrorView,
> {
    match r {
        Ok(changed) => Ok(changed),
        Err(error) => Err(error@),
    }
}

/// The values of the entries.
pub open spec fn entry_values(entries: Seq<(Seq<char>, Seq<char>)>) -> Seq<Seq<char>> {
    entries.map_values(|e: (Seq<char>, Seq<char>)| e.1)
}

/// The value of an option as a list.
pub open spec fn seq_of(value: Option<Seq<char>>) -> Seq<Seq<char>> {
    match value {
        Some(value) => seq![value],
        None => Seq::empty(),
    }
}

/// The models that aliases stand for, in the order of the aliases.
pub open spec fn aliased_models(config: AgentConfigView) -> Seq<Seq<char>> {
    match aliases_of(config.local_model_aliases) {
        Ok(aliases) => entry_values(aliases),
        Err(_) => Seq::empty(),
    }
}

/// The models that can be chosen: those that the provider offers, those of the list, the model
/// itself, and those that aliases stand for; each once.
pub open spec fn choices_of(config: AgentConfigView, discovered: Seq<Seq<char>>) -> Seq<Seq<char>> {
    distinct(
        given_texts(
            discovered + model_ids_of(config.local_model_list) + seq_of(config.openai_model)
                + aliased_models(config),
        ),
    )
}

/// The entries are in the order of their keys, each key once, and their values are neither blank
/// nor surrounded by space.
pub open spec fn are_aliases(entries: Seq<(Seq<char>, Seq<char>)>) -> bool {
    &&& is_keyed(entries, |e: (Seq<char>, Seq<char>)| e.0)
    &&& forall|i: int| 0 <= i < entries.len() ==> is_given((#[trigger] entries[i]).1)
}

/// The text is neither blank nor surrounded by space.
pub open spec fn is_given(text: Seq<char>) -> bool {
    given(text) == Some(text)
}

/// The texts are neither blank nor surrounded by space.
pub open spec fn are_given(texts: Seq<Seq<char>>) -> bool {
    forall|i: int| 0 <= i < texts.len() ==> is_given(#[trigger] texts[i])
}

/// A further alias leaves the aliases in order.
pub proof fn lemma_with_alias(
    entries: Seq<(Seq<char>, Seq<char>)>,
    key: Seq<char>,
    value: Seq<char>,
)
    requires
        are_aliases(entries),
        is_given(value),
    ensures
        are_aliases(with_entry(entries, key, value)),
{
    let key_of = |e: (Seq<char>, Seq<char>)| e.0;
    law_insert_keyed(entries, (key, value), key_of);
    let all = with_entry(entries, key, value);
    assert forall|i: int| 0 <= i < all.len() implies is_given((#[trigger] all[i]).1) by {
        assert(all.contains(all[i]));
        if all[i] != (key, value) {
            let j = choose|j: int| 0 <= j < entries.len() && entries[j] == all[i];
            assert(is_given(entries[j].1));
        }
    }
}

proof fn lemma_alias_entries(entries: Seq<(Seq<char>, JsonView)>)
    ensures
        are_aliases(alias_entries(entries)),
    decreases entries.len(),
{
    if entries.len() > 0 {
        lemma_alias_entries(entries.drop_last());
        let before = alias_entries(entries.drop_last());
        match entries.last().1.text() {
            Some(text) => {
                if given(text) is Some {
                    lemma_trim_idempotent(text);
                    lemma_with_alias(before, entries.last().0, given(text)->0);
                }
            },
            None => {},
        }
    }
}

/// What a text lists as aliases is in order.
pub proof fn lemma_aliases_of(text: Seq<char>)
    ensures
        aliases_of(text) matches Ok(aliases) ==> are_aliases(aliases),
{
    match json_parse(trim(text)) {
        Ok(JsonView::Object(entries)) => {
            lemma_alias_entries(entries);
        },
        _ => {},
    }
}

proof fn lemma_insert_last(entries: Seq<(Seq<char>, Seq<char>)>)
    requires
        is_keyed(entries, |e: (Seq<char>, Seq<char>)| e.0),
        entries.len() > 0,
    ensures
        with_entry(entries.drop_last(), entries.last().0, entries.last().1) == entries,
    decreases entries.len(),
{
    let front = entries.drop_last();
    if front.len() == 0 {
        assert(entries =~= seq![entries[0]]);
    } else {
        let key_of = |e: (Seq<char>, Seq<char>)| e.0;
        assert(text_lt(key_of(entries[0]), key_of(entries.last())));
        lemma_text_lt_total(entries[0].0, entries.last().0);
        let rest = entries.skip(1);
        assert forall|i: int, j: int| 0 <= i < j < rest.len() implies text_lt(
            key_of(#[trigger] rest[i]),
            key_of(#[trigger] rest[j]),
        ) by {
            assert(rest[i] == entries[i + 1] && rest[j] == entries[j + 1]);
        }
        lemma_insert_last(rest);
        assert(rest.drop_last() =~= front.skip(1));
        assert(seq![entries[0]] + rest =~= entries);
    }
}

/// The entries are in the order of their keys, and are those of the aliases but for space around
/// their values.
spec fn names_aliases(
    entries: Seq<(Seq<char>, Seq<char>)>,
    aliases: Seq<(Seq<char>, Seq<char>)>,
) -> bool {
    &&& is_keyed(entries, |e: (Seq<char>, Seq<char>)| e.0)
    &&& entries.len() == aliases.len()
    &&& forall|i: int|
        0 <= i < entries.len() ==> (#[trigger] entries[i]).0 == aliases[i].0 && given(entries[i].1)
            == Some(aliases[i].1)
}

proof fn lemma_front_names(
    entries: Seq<(Seq<char>, Seq<char>)>,
    aliases: Seq<(Seq<char>, Seq<char>)>,
)
    requires
        names_aliases(entries, aliases),
        entries.len() > 0,
    ensures
        names_aliases(entries.drop_last(), aliases.drop_last()),
        is_keyed(aliases, |e: (Seq<char>, Seq<char>)| e.0),
{
    let front = entries.drop_last();
    let key_of = |e: (Seq<char>, Seq<char>)| e.0;
    assert forall|i: int, j: int| 0 <= i < j < front.len() implies text_lt(
        key_of(#[trigger] front[i]),
        key_of(#[trigger] front[j]),
    ) by {
        assert(front[i] == entries[i] && front[j] == entries[j]);
    }
    assert forall|i: int, j: int| 0 <= i < j < aliases.len() implies text_lt(
        key_of(#[trigger] aliases[i]),
        key_of(#[trigger] aliases[j]),
    ) by {
        assert(text_lt(key_of(entries[i]), key_of(entries[j])));
    }
    assert forall|i: int| 0 <= i < front.len() implies (#[trigger] front[i]).0
        == aliases.drop_last()[i].0 && given(front[i].1) == Some(aliases.drop_last()[i].1) by {
        assert(front[i] == entries[i]);
    }
}

/// Aliases name themselves.
proof fn lemma_names_itself(aliases: Seq<(Seq<char>, Seq<char>)>)
    requires
        are_aliases(aliases),
    ensures
        names_aliases(aliases, aliases),
{
    assert forall|i: int| 0 <= i < aliases.len() implies given((#[trigger] aliases[i]).1) == Some(
        aliases[i].1,
    ) by {
        assert(is_given(aliases[i].1));
    }
}

/// A further entry names the alias for its model without the space around it.
proof fn lemma_entry_names_alias(
    aliases: Seq<(Seq<char>, Seq<char>)>,
    key: Seq<char>,
    model: Seq<char>,
)
    requires
        are_aliases(aliases),
        given(model) is Some,
    ensures
        names_aliases(with_entry(aliases, key, model), with_entry(aliases, key, trim(model))),
{
    law_insert_keyed(aliases, (key, model), |e: (Seq<char>, Seq<char>)| e.0);
    lemma_entries_alike(aliases, key, model);
}

proof fn lemma_entries_alike(
    aliases: Seq<(Seq<char>, Seq<char>)>,
    key: Seq<char>,
    model: Seq<char>,
)
    requires
        forall|i: int| 0 <= i < aliases.len() ==> is_given((#[trigger] aliases[i]).1),
        given(model) is Some,
    ensures
        with_entry(aliases, key, model).len() == with_entry(aliases, key, trim(model)).len(),
        forall|i: int|
            0 <= i < with_entry(aliases, key, model).len() ==> (#[trigger] with_entry(
                aliases,
                key,
                model,
            )[i]).0 == with_entry(aliases, key, trim(model))[i].0 && given(
                with_entry(aliases, key, model)[i].1,
            ) == Some(with_entry(aliases, key, trim(model))[i].1),
    decreases aliases.len(),
{
    let a = with_entry(aliases, key, model);
    let b = with_entry(aliases, key, trim(model));
    if aliases.len() > 0 {
        let rest = aliases.skip(1);
        assert forall|i: int| 0 <= i < rest.len() implies is_given((#[trigger] rest[i]).1) by {
            assert(rest[i] == aliases[i + 1]);
        }
        lemma_entries_alike(rest, key, model);
        assert forall|i: int| 0 <= i < a.len() implies (#[trigger] a[i]).0 == b[i].0 && given(
            a[i].1,
        ) == Some(b[i].1) by {
            if aliases[0].0 == key {
                if i > 0 {
                    assert(a[i] == rest[i - 1] && b[i] == rest[i - 1]);
                }
            } else if text_lt(key, aliases[0].0) {
                if i > 0 {
                    assert(a[i] == aliases[i - 1] && b[i] == aliases[i - 1]);
                }
            } else if i > 0 {
                assert(a[i] == with_entry(rest, key, model)[i - 1]);
                assert(b[i] == with_entry(rest, key, trim(model))[i - 1]);
            } else {
                assert(a[0] == aliases[0] && b[0] == aliases[0]);
            }
        }
    }
}

proof fn lemma_insert_text_entry(
    entries: Seq<(Seq<char>, Seq<char>)>,
    key: Seq<char>,
    value: Seq<char>,
)
    ensures
        insert_entry(text_object(entries)->Object_0, (key, JsonView::Text(value))) == text_object(
            with_entry(entries, key, value),
        )->Object_0,
    decreases entries.len(),
{
    let e = (key, JsonView::Text(value));
    let all = text_object(entries)->Object_0;
    let r = text_object(with_entry(entries, key, value))->Object_0;
    if entries.len() == 0 {
        assert(r =~= seq![e]);
    } else if entries[0].0 == key {
        assert(all.skip(1) =~= text_object(entries.skip(1))->Object_0);
        assert(r =~= seq![e] + all.skip(1));
    } else if text_lt(key, entries[0].0) {
        assert(r =~= seq![e] + all);
    } else {
        lemma_insert_text_entry(entries.skip(1), key, value);
        assert(all.skip(1) =~= text_object(entries.skip(1))->Object_0);
        assert(r =~= seq![all[0]] + insert_entry(all.skip(1), e));
    }
}

/// An object that names aliases is in the order in which it is written, and reads as those aliases.
proof fn lemma_alias_object(
    entries: Seq<(Seq<char>, Seq<char>)>,
    aliases: Seq<(Seq<char>, Seq<char>)>,
)
    requires
        names_aliases(entries, aliases),
    ensures
        canonical(text_object(entries)) == text_object(entries),
        is_flat(text_object(entries)),
        alias_entries(text_object(entries)->Object_0) == aliases,
    decreases entries.len(),
{
    let all = text_object(entries)->Object_0;
    if entries.len() == 0 {
        assert(canonical_entries(all) =~= Seq::empty());
        assert(sorted_entries(canonical_entries(all)) =~= all);
        assert(alias_entries(all) =~= aliases);
    } else {
        let front = entries.drop_last();
        lemma_front_names(entries, aliases);
        lemma_alias_object(front, aliases.drop_last());
        lemma_insert_last(entries);
        lemma_insert_last(aliases);
        assert(all.drop_last() =~= text_object(front)->Object_0);
        assert(all.last() == (entries.last().0, JsonView::Text(entries.last().1)));
        assert(given(entries[entries.len() - 1].1) == Some(aliases.last().1));
        lemma_insert_text_entry(front, entries.last().0, entries.last().1);
        reveal_with_fuel(canonical_entries, 2);
        reveal_with_fuel(canonical, 2);
        let written = canonical_entries(all);
        assert(written.drop_last() =~= canonical_entries(all.drop_last()));
        assert(written.last() == all.last());
        assert(sorted_entries(written) == all);
    }
}

proof fn lemma_trim_braced(text: Seq<char>)
    requires
        is_braced(text),
    ensures
        trim(text) == text,
{
    assert(!is_space(text[0]) && !is_space(text.last()));
    assert(trim_start(text) =~= text);
    assert(trim_end(text) =~= text);
}

/// The text of an object that names aliases lists those aliases.
proof fn lemma_aliases_read_back(
    entries: Seq<(Seq<char>, Seq<char>)>,
    aliases: Seq<(Seq<char>, Seq<char>)>,
    text: Seq<char>,
)
    requires
        names_aliases(entries, aliases),
        reads_as(text, text_object(entries)),
        is_braced(text),
    ensures
        aliases_of(text) == Ok::<Seq<(Seq<char>, Seq<char>)>, ConfigErrorView>(aliases),
{
    lemma_alias_object(entries, aliases);
    lemma_trim_braced(text);
}

/// Mending leaves aliases that stand for offered models, and the others as they were.
pub proof fn law_mended_aliases(
    aliases: Seq<(Seq<char>, Seq<char>)>,
    ids: Seq<Seq<char>>,
    models: Seq<Seq<char>>,
    alias: Seq<char>,
)
    requires
        models.len() > 0,
    ensures
        ids.contains(alias) ==> !is_stale_alias(
            mended_aliases(aliases, ids, models),
            alias,
            models,
        ),
        !ids.contains(alias) || !is_stale_alias(aliases, alias, models) ==> value_under(
            mended_aliases(aliases, ids, models),
            alias,
        ) == value_under(aliases, alias),
    decreases ids.len(),
{
    if ids.len() > 0 {
        let front = ids.drop_last();
        law_mended_aliases(aliases, front, models, alias);
        let before = mended_aliases(aliases, front, models);
        law_entry_is_found(before, ids.last(), models[0], alias);
        assert(models.contains(models[0]));
        if ids.contains(alias) && alias != ids.last() {
            let i = choose|i: int| 0 <= i < ids.len() && ids[i] == alias;
            assert(front[i] == alias);
        }
        if front.contains(alias) {
            let i = choose|i: int| 0 <= i < front.len() && front[i] == alias;
            assert(ids[i] == alias);
        }
        if alias == ids.last() {
            assert(ids[ids.len() - 1] == alias);
        }
    }
}

/// Where no alias of a list is stale, none is mended.
proof fn lemma_nothing_to_mend(
    aliases: Seq<(Seq<char>, Seq<char>)>,
    ids: Seq<Seq<char>>,
    models: Seq<Seq<char>>,
)
    requires
        forall|id: Seq<char>| #[trigger] ids.contains(id) ==> !is_stale_alias(aliases, id, models),
    ensures
        mended_aliases(aliases, ids, models) == aliases,
        !mends_alias(aliases, ids, models),
    decreases ids.len(),
{
    if ids.len() > 0 {
        let front = ids.drop_last();
        assert forall|id: Seq<char>| #[trigger] front.contains(id) implies !is_stale_alias(
            aliases,
            id,
            models,
        ) by {
            let i = choose|i: int| 0 <= i < front.len() && front[i] == id;
            assert(ids[i] == id);
            assert(ids.contains(id));
        }
        lemma_nothing_to_mend(aliases, front, models);
        assert(ids.contains(ids.last()));
    }
}

/// Where no alias is mended, the aliases stay as they were.
proof fn lemma_unmended(
    aliases: Seq<(Seq<char>, Seq<char>)>,
    ids: Seq<Seq<char>>,
    models: Seq<Seq<char>>,
)
    requires
        !mends_alias(aliases, ids, models),
    ensures
        mended_aliases(aliases, ids, models) == aliases,
    decreases ids.len(),
{
    if ids.len() > 0 {
        lemma_unmended(aliases, ids.drop_last(), models);
    }
}

proof fn lemma_mended_in_order(
    aliases: Seq<(Seq<char>, Seq<char>)>,
    ids: Seq<Seq<char>>,
    models: Seq<Seq<char>>,
)
    requires
        models.len() > 0,
        are_aliases(aliases),
        are_given(models),
    ensures
        are_aliases(mended_aliases(aliases, ids, models)),
    decreases ids.len(),
{
    if ids.len() > 0 {
        lemma_mended_in_order(aliases, ids.drop_last(), models);
        assert(is_given(models[0]));
        lemma_with_alias(
            mended_aliases(aliases, ids.drop_last(), models),
            ids.last(),
            models[0],
        );
    }
}

/// After aliases were mended, nothing is left to mend.
proof fn lemma_mended_once(
    aliases: Seq<(Seq<char>, Seq<char>)>,
    ids: Seq<Seq<char>>,
    models: Seq<Seq<char>>,
)
    requires
        models.len() > 0,
    ensures
        !mends_alias(mended_aliases(aliases, ids, models), ids, models),
{
    let mended = mended_aliases(aliases, ids, models);
    assert forall|id: Seq<char>| #[trigger] ids.contains(id) implies !is_stale_alias(
        mended,
        id,
        models,
    ) by {
        law_mended_aliases(aliases, ids, models, id);
    }
    lemma_nothing_to_mend(mended, ids, models);
}

/// No model is offered twice, none is blank, and every model of the configuration is offered.
pub proof fn law_choices(config: AgentConfigView, discovered: Seq<Seq<char>>, model: Seq<char>)
    ensures
        choices_of(config, discovered).no_duplicates(),
        choices_of(config, discovered).contains(model) ==> is_given(model),
        discovered.contains(model) && is_given(model) ==> choices_of(config, discovered).contains(
            model,
        ),
        config.openai_model == Some(model) && is_given(model) ==> choices_of(
            config,
            discovered,
        ).contains(model),
{
    let models = seq_of(config.openai_model);
    let listed = model_ids_of(config.local_model_list);
    let aliased = aliased_models(config);
    let all = discovered + listed + models + aliased;
    law_distinct(given_texts(all));
    lemma_given_texts(all, model);
    if discovered.contains(model) {
        let i = choose|i: int| 0 <= i < discovered.len() && discovered[i] == model;
        assert(all[i] == model);
    }
    if config.openai_model == Some(model) {
        assert(models[0] == model);
        assert(all[(discovered.len() + listed.len()) as int] == model);
    }
}

proof fn lemma_given_texts(texts: Seq<Seq<char>>, text: Seq<char>)
    ensures
        given_texts(texts).contains(text) ==> is_given(text),
        texts.contains(text) && is_given(text) ==> given_texts(texts).contains(text),
    decreases texts.len(),
{
    if texts.len() > 0 {
        let front = texts.drop_last();
        lemma_given_texts(front, text);
        lemma_trim_idempotent(texts.last());
        let before = given_texts(front);
        let all = given_texts(texts);
        if all.contains(text) && !before.contains(text) {
            assert(all.last() == text);
        }
        if before.contains(text) {
            let i = choose|i: int| 0 <= i < before.len() && before[i] == text;
            assert(all[i] == text);
        }
        if texts.contains(text) && is_given(text) {
            if text == texts.last() {
                assert(all.last() == text);
            } else {
                let i = choose|i: int| 0 <= i < texts.len() && texts[i] == text;
                assert(front[i] == text);
            }
        }
    }
}

/// Where the application keeps its files, and how the operating system writes paths.
pub struct PlacesView {
    pub path_style: PathStyle,
    pub data_dir: Seq<char>,
    pub log_dir: Option<Seq<char>>,
}

/// Where the application keeps its files: its data, and its logs where they lie elsewhere.
#[derive(Debug, PartialEq, Eq)]
pub struct ServicePlaces {
    pub path_style: PathStyle,
    pub data_dir: String,
    pub log_dir: Option<String>,
}

impl ServicePlaces {
    pub open spec fn view(&self) -> PlacesView {
        PlacesView {
            path_style: self.path_style,
            data_dir: self.data_dir@,
            log_dir: opt_view(self.log_dir),
        }
    }

    /// Where the service keeps its database and its log, unless it is told other places.
    fn default_paths(&self) -> (r: (String, String))
        ensures
            r.0@ == db_path_in(self@),
            r.1@ == log_path_in(self@),
    {
        reveal(db_path_in);
        reveal(log_path_in);
        let log_dir = match &self.log_dir {
            Some(directory) => Some(directory.as_str()),
            None => None,
        };
        (
            default_graphql_db_path(self.path_style, self.data_dir.as_str()),
            default_log_path(self.path_style, log_dir, self.data_dir.as_str()),
        )
    }
}

/// Where the service keeps its database, unless it is told another place.
pub fn default_graphql_db_path(path_style: PathStyle, data_dir: &str) -> (r: String)
    ensures
        r@ == joined_path(
            path_style,
            joined_path(path_style, data_dir@, "local-multi-agent"@),
            "local-graphql.sqlite"@,
        ),
{
    let directory = join_path(path_style, data_dir, "local-multi-agent");
    join_path(path_style, directory.as_str(), "local-graphql.sqlite")
}

/// Where the service keeps its log, unless it is told another place: where the application does,
/// or else with its data.
pub fn default_log_path(path_style: PathStyle, log_dir: Option<&str>, data_dir: &str) -> (r: String)
    ensures
        r@ == joined_path(
            path_style,
            match opt_str_view(log_dir) {
                Some(directory) => directory,
                None => data_dir@,
            },
            "local-multi-agent.log"@,
        ),
{
    let directory = match log_dir {
        Some(directory) => directory,
        None => data_dir,
    };
    join_path(path_style, directory, "local-multi-agent.log")
}

/// Where the service keeps its database, unless it is told another place.
#[verifier::opaque]
pub open spec fn db_path_in(places: PlacesView) -> Seq<char> {
    joined_path(
        places.path_style,
        joined_path(places.path_style, places.data_dir, "local-multi-agent"@),
        "local-graphql.sqlite"@,
    )
}

/// Where the service keeps its log, unless it is told another place.
#[verifier::opaque]
pub open spec fn log_path_in(places: PlacesView) -> Seq<char> {
    joined_path(
        places.path_style,
        match places.log_dir {
            Some(directory) => directory,
            None => places.data_dir,
        },
        "local-multi-agent.log"@,
    )
}

impl AgentConfigView {
    /// The value of a variable of the service's environment.
    pub open spec fn variable(
        self,
        name: Seq<char>,
        api_key: Option<Seq<char>>,
        places: PlacesView,
    ) -> Option<Seq<char>> {
        if name == "OPENAI_BASE_URL"@ && given_option(self.openai_base_url) is Some {
            given_option(self.openai_base_url)
        } else if name == "OPENAI_API_KEY"@ && given_option(api_key) is Some {
            given_option(api_key)
        } else if name == "LOCAL_MODEL_CONTEXT_TOKENS"@ && given_option(
            self.local_model_context_tokens,
        ) is Some {
            given_option(self.local_model_context_tokens)
        } else if name == "OPENAI_MODEL"@ && given_option(self.openai_model) is Some {
            given_option(self.openai_model)
        } else if name == "LOCAL_MULTI_AGENT_SYSTEM_PROMPT"@ {
            Some(self.local_multi_agent_system_prompt)
        } else if name == "LOCAL_SERVICE_LOG_PATH"@ {
            Some(path_or(self.local_service_log_path, log_path_in(places)))
        } else if name == "LOCAL_GRAPHQL_DB_PATH"@ {
            Some(path_or(self.local_graphql_db_path, db_path_in(places)))
        } else if name == "LOCAL_MODEL_LIST"@ {
            Some(trim(self.local_model_list))
        } else if name == "LOCAL_MODEL_ALIASES"@ {
            Some(trim(self.local_model_aliases))
        } else if name == "LOG_LEVEL"@ {
            Some(trim(self.log_level))
        } else if name == "LOCAL_MAX_HISTORY_MESSAGES"@ {
            Some(decimal(self.local_max_history_messages as nat))
        } else if name == "LOCAL_ENABLE_TOOLS"@ {
            Some(flag_text(self.local_enable_tools))
        } else if name == "PORT"@ {
            Some(decimal(self.port as nat))
        } else if name == "HOST"@ {
            Some(trim(self.host))
        } else {
            None
        }
    }
}

/// Unless the configuration names other places, the service keeps its database in a file that is
/// named as one, and so its log.
pub proof fn law_default_paths_named(places: PlacesView)
    ensures
        ".sqlite"@.is_suffix_of(db_path_in(places)),
        ".log"@.is_suffix_of(log_path_in(places)),
{
    reveal(db_path_in);
    reveal(log_path_in);
    reveal_strlit("local-graphql.sqlite");
    reveal_strlit("local-multi-agent.log");
    reveal_strlit(".sqlite");
    reveal_strlit(".log");
    let style = places.path_style;
    let db = "local-graphql.sqlite"@;
    let log = "local-multi-agent.log"@;
    assert(is_plain_name(db));
    assert(is_plain_name(log));
    let directory = joined_path(style, places.data_dir, "local-multi-agent"@);
    let log_directory = match places.log_dir {
        Some(directory) => directory,
        None => places.data_dir,
    };
    lemma_joined_name(style, directory, db);
    lemma_joined_name(style, log_directory, log);
    lemma_suffix(".sqlite"@, db, db_path_in(places));
    lemma_suffix(".log"@, log, log_path_in(places));
}

proof fn lemma_suffix(end: Seq<char>, name: Seq<char>, path: Seq<char>)
    requires
        end.len() <= name.len() <= path.len(),
        forall|i: int| 0 <= i < end.len() ==> end[i] == name[name.len() - end.len() + i],
        name.is_suffix_of(path),
    ensures
        end.is_suffix_of(path),
{
    assert forall|i: int| 0 <= i < name.len() implies name[i] == path[path.len() - name.len() + i] by {
        assert(path.subrange((path.len() - name.len()) as int, path.len() as int)[i] == name[i]);
    }
    assert(path.subrange((path.len() - end.len()) as int, path.len() as int) =~= end);
}

/// A flag as a word.
pub open spec fn flag_text(flag: bool) -> Seq<char> {
    if flag {
        "true"@
    } else {
        "false"@
    }
}

/// A flag as a word.
pub fn flag_word(flag: bool) -> (r: String)
    ensures
        r@ == flag_text(flag),
{
    if flag {
        "true".to_owned()
    } else {
        "false".to_owned()
    }
}

/// A configured path, or another where it is blank.
pub open spec fn path_or(path: Option<Seq<char>>, other: Seq<char>) -> Seq<char> {
    match path {
        Some(path) => if is_blank(path) {
            other
        } else {
            path
        },
        None => other,
    }
}

fn configured_path(path: &Option<String>, other: &str) -> (r: String)
    ensures
        r@ == path_or(opt_view(*path), other@),
{
    match path {
        Some(path) => {
            if blank(path.as_str()) {
                other.to_owned()
            } else {
                path.clone()
            }
        },
        None => other.to_owned(),
    }
}

fn add_given(texts: &Vec<String>, choices: &mut Vec<String>)
    ensures
        views(final(choices)@) == distinct_onto(views(old(choices)@), given_texts(views(texts@))),
{
    let kept = keep_given(texts);
    let ghost first = views(choices@);
    let ghost all = views(kept@);
    let mut i: usize = 0;
    assert(distinct_onto(first, all.take(0)) =~= first);
    while i < kept.len()
        invariant
            i <= kept@.len(),
            all == views(kept@),
            views(choices@) == distinct_onto(first, all.take(i as int)),
        decreases kept@.len() - i,
    {
        let ghost done = views(choices@);
        proof {
            assert(all.take(i as int + 1).drop_last() =~= all.take(i as int));
            assert(all.take(i as int + 1).last() == kept@[i as int]@);
        }
        if !contains_same(choices, kept[i].as_str()) {
            choices.push(kept[i].clone());
            assert(views(choices@) =~= done.push(kept@[i as int]@));
        }
        i = i + 1;
    }
    assert(all.take(i as int) =~= all);
}

/// A list with further texts, those left out that it already holds.
pub open spec fn distinct_onto(first: Seq<Seq<char>>, texts: Seq<Seq<char>>) -> Seq<Seq<char>>
    decreases texts.len(),
{
    if texts.len() == 0 {
        first
    } else {
        let before = distinct_onto(first, texts.drop_last());
        if before.contains(texts.last()) {
            before
        } else {
            before.push(texts.last())
        }
    }
}

proof fn lemma_distinct_onto(a: Seq<Seq<char>>, b: Seq<Seq<char>>)
    ensures
        distinct_onto(distinct(a), b) == distinct(a + b),
    decreases b.len(),
{
    if b.len() == 0 {
        assert(a + b =~= a);
    } else {
        lemma_distinct_onto(a, b.drop_last());
        assert((a + b).drop_last() =~= a + b.drop_last());
    }
}

proof fn lemma_given_texts_add(a: Seq<Seq<char>>, b: Seq<Seq<char>>)
    ensures
        given_texts(a + b) == given_texts(a) + given_texts(b),
    decreases b.len(),
{
    if b.len() == 0 {
        assert(a + b =~= a);
        assert(given_texts(a) + given_texts(b) =~= given_texts(a));
    } else {
        lemma_given_texts_add(a, b.drop_last());
        assert((a + b).drop_last() =~= a + b.drop_last());
        assert(given_texts(a + b) =~= given_texts(a) + given_texts(b));
    }
}

impl LocalMultiAgentConfig {
    pub open spec fn view(&self) -> AgentConfigView {
        AgentConfigView {
            host: self.host@,
            port: self.port,
            openai_base_url: opt_view(self.openai_base_url),
            openai_model: opt_view(self.openai_model),
            local_model_aliases: self.local_model_aliases@,
            local_model_list: self.local_model_list@,
            local_enable_tools: self.local_enable_tools,
            local_max_history_messages: self.local_max_history_messages,
            local_model_context_tokens: opt_view(self.local_model_context_tokens),
            local_graphql_db_path: opt_view(self.local_graphql_db_path),
            log_level: self.log_level@,
            local_service_log_path: opt_view(self.local_service_log_path),
            local_multi_agent_system_prompt: self.local_multi_agent_system_prompt@,
        }
    }

    /// The configuration that default values make.
    pub fn from_defaults(defaults: LocalMultiAgentConfigSchemaDefaults) -> (r: Self)
        ensures
            r@ == config_of_defaults(defaults),
    {
        LocalMultiAgentConfig {
            openai_base_url: non_empty(defaults.openai_base_url.as_str()),
            openai_model: non_empty(defaults.openai_model.as_str()),
            local_model_context_tokens: non_empty(defaults.local_model_context_tokens.as_str()),
            local_graphql_db_path: non_empty(defaults.local_graphql_db_path.as_str()),
            local_service_log_path: non_empty(defaults.local_service_log_path.as_str()),
            host: defaults.host,
            port: defaults.port,
            local_model_aliases: defaults.local_model_aliases,
            local_model_list: defaults.local_model_list,
            local_enable_tools: defaults.local_enable_tools,
            local_max_history_messages: defaults.local_max_history_messages,
            log_level: defaults.log_level,
            local_multi_agent_system_prompt: defaults.local_multi_agent_system_prompt,
        }
    }

    /// The two configurations say the same.
    pub fn says_same(&self, other: &Self) -> (r: bool)
        ensures
            r == (self@ == other@),
    {
        same(self.host.as_str(), other.host.as_str()) && self.port == other.port && same_option(
            &self.openai_base_url,
            &other.openai_base_url,
        ) && same_option(&self.openai_model, &other.openai_model) && same(
            self.local_model_aliases.as_str(),
            other.local_model_aliases.as_str(),
        ) && same(self.local_model_list.as_str(), other.local_model_list.as_str())
            && self.local_enable_tools == other.local_enable_tools
            && self.local_max_history_messages == other.local_max_history_messages && same_option(
            &self.local_model_context_tokens,
            &other.local_model_context_tokens,
        ) && same_option(&self.local_graphql_db_path, &other.local_graphql_db_path) && same(
            self.log_level.as_str(),
            other.log_level.as_str(),
        ) && same_option(&self.local_service_log_path, &other.local_service_log_path) && same(
            self.local_multi_agent_system_prompt.as_str(),
            other.local_multi_agent_system_prompt.as_str(),
        )
    }

    /// The service's own address.
    pub fn root_url(&self) -> (r: Result<String, LocalMultiAgentConfigError>)
        ensures
            root_view(r) == root_of(self@),
    {
        let text = concat3(
            concat2("http://", trimmed(self.host.as_str())).as_str(),
            ":",
            decimal_of(self.port as u128).as_str(),
        );
        assert(text@ =~= root_text(self@));
        assert(has_http_prefix(text@)) by {
            let rest = trim(self.host@) + ":"@ + decimal(self.port as nat);
            assert(text@ =~= "http://"@ + rest);
        }
        match parse_url(text.as_str()) {
            Ok(url) => Ok(write_url(&url)),
            Err(source) => Err(LocalMultiAgentConfigError::InvalidRootUrl { source }),
        }
    }

    /// Finds what is wrong with the configuration.
    pub fn validate(&self) -> (r: Result<(), LocalMultiAgentConfigError>)
        ensures
            check_view(r) == config_error(self@),
    {
        if non_empty_str(self.host.as_str()).is_none() {
            return Err(LocalMultiAgentConfigError::InvalidHost);
        }
        if self.port == 0 {
            return Err(LocalMultiAgentConfigError::InvalidPort);
        }
        if self.local_max_history_messages < 4 {
            return Err(LocalMultiAgentConfigError::InvalidMaxHistoryMessages);
        }
        let level = lowered(trimmed(self.log_level.as_str()));
        if !(same(level.as_str(), "error") || same(level.as_str(), "warn") || same(
            level.as_str(),
            "info",
        ) || same(level.as_str(), "debug")) {
            return Err(LocalMultiAgentConfigError::InvalidLogLevel);
        }
        if let Some(base_url) = non_empty_option(&self.openai_base_url) {
            if let Err(error) = validate_absolute_http_url(base_url) {
                return Err(error);
            }
        }
        if let Err(error) = validate_aliases(self.local_model_aliases.as_str()) {
            return Err(error);
        }
        if let Some(context_tokens) = &self.local_model_context_tokens {
            if let Err(error) = validate_context_tokens(context_tokens.as_str()) {
                return Err(error);
            }
        }
        match self.root_url() {
            Ok(_) => Ok(()),
            Err(error) => Err(error),
        }
    }

    /// The address of the provider of models.
    pub fn provider_base_url(&self) -> (r: &str)
        ensures
            r@ == base_url_of(self@),
    {
        match non_empty_option(&self.openai_base_url) {
            Some(base_url) => base_url,
            None => DEFAULT_OPENAI_BASE_URL,
        }
    }

    /// The models that aliases stand for.
    pub fn model_aliases(&self) -> (r: Result<TextMap, LocalMultiAgentConfigError>)
        ensures
            aliases_view(r) == aliases_of(self@.local_model_aliases),
    {
        parse_model_aliases(self.local_model_aliases.as_str())
    }

    /// Lets an alias stand for a model. Where the model's name is not blank, the aliases then read
    /// as they were, with this one for the name without the space around it.
    pub fn set_model_alias(&mut self, alias: &str, model: &str) -> (r: Result<
        (),
        LocalMultiAgentConfigError,
    >)
        ensures
            match aliases_of(old(self)@.local_model_aliases) {
                Ok(aliases) => r is Ok && final(self)@ == (AgentConfigView {
                    local_model_aliases: compact_text(
                        canonical(text_object(with_entry(aliases, alias@, model@))),
                    ),
                    ..old(self)@
                }) && (!is_blank(model@) ==> aliases_of(final(self)@.local_model_aliases) == Ok::<
                    Seq<(Seq<char>, Seq<char>)>,
                    ConfigErrorView,
                >(with_entry(aliases, alias@, trim(model@)))),
                Err(error) => check_view(r) == Some(error) && final(self)@ == old(self)@,
            },
    {
        let mut aliases = match self.model_aliases() {
            Ok(aliases) => aliases,
            Err(error) => {
                return Err(error);
            },
        };
        let ghost before = aliases@;
        aliases.insert(alias.to_owned(), model.to_owned());
        let text = aliases.to_json().compact();
        proof {
            lemma_aliases_of(self.local_model_aliases@);
            if !is_blank(model@) {
                lemma_trim_empty(model@);
                let named = with_entry(before, alias@, trim(model@));
                lemma_entry_names_alias(before, alias@, model@);
                lemma_alias_object(aliases@, named);
                lemma_aliases_read_back(aliases@, named, text@);
            }
        }
        self.local_model_aliases = text;
        Ok(())
    }

    /// Makes the configuration name models that the provider offers. Where those have proper names,
    /// the aliases then read as they were, the stale ones among the fixed aliases mended, and a
    /// second time changes nothing.
    pub fn apply_discovered_models(&mut self, models: &Vec<String>) -> (r: Result<
        bool,
        LocalMultiAgentConfigError,
    >)
        ensures
            (final(self)@, change_view(r)) == with_discovered(old(self)@, views(models@)),
            models@.len() > 0 && are_given(views(models@)) && r is Ok ==> aliases_of(
                final(self)@.local_model_aliases,
            ) == Ok::<Seq<(Seq<char>, Seq<char>)>, ConfigErrorView>(
                mended_aliases(
                    aliases_of(old(self)@.local_model_aliases)->Ok_0,
                    alias_ids(),
                    views(models@),
                ),
            ),
            are_given(views(models@)) && r is Ok ==> with_discovered(
                final(self)@,
                views(models@),
            ) == (final(self)@, Ok::<bool, ConfigErrorView>(false)),
    {
        let ghost all = views(models@);
        let ghost ids = alias_ids();
        let ghost first = self@;
        if models.len() == 0 {
            return Ok(false);
        }
        assert(all[0] == models@[0]@);
        let mut changed = false;
        let fits = match &self.openai_model {
            Some(model) => contains_same(models, model.as_str()),
            None => false,
        };
        if !fits {
            self.openai_model = Some(models[0].clone());
            changed = true;
        }
        let list = joined(models, ",");
        if !same(self.local_model_list.as_str(), list.as_str()) {
            self.local_model_list = list;
            changed = true;
        }
        let ghost renamed = changed;
        let mut aliases = match self.model_aliases() {
            Ok(aliases) => aliases,
            Err(error) => {
                return Err(error);
            },
        };
        let ghost before = aliases@;
        let fixed = local_model_alias_ids();
        let mut i: usize = 0;
        assert(ids.take(0) =~= Seq::empty());
        while i < fixed.len()
            invariant
                i <= fixed@.len(),
                ids == views(fixed@),
                all == views(models@),
                models@.len() > 0,
                aliases@ == mended_aliases(before, ids.take(i as int), all),
                changed == (renamed || mends_alias(before, ids.take(i as int), all)),
            decreases fixed@.len() - i,
        {
            proof {
                assert(ids.take(i as int + 1).drop_last() =~= ids.take(i as int));
                assert(ids.take(i as int + 1).last() == fixed@[i as int]@);
                assert(all[0] == models@[0]@);
            }
            let stale = match aliases.get(fixed[i].as_str()) {
                Some(model) => !contains_same(models, model),
                None => true,
            };
            if stale {
                aliases.insert(fixed[i].clone(), models[0].clone());
                changed = true;
            }
            i = i + 1;
        }
        assert(ids.take(i as int) =~= ids);
        proof {
            lemma_aliases_of(first.local_model_aliases);
            assert(are_aliases(before));
            lemma_mended_once(before, ids, all);
            if !mends_alias(before, ids, all) {
                lemma_unmended(before, ids, all);
            }
        }
        if changed {
            let text = aliases.to_json().compact();
            proof {
                if are_given(all) {
                    lemma_mended_in_order(before, ids, all);
                    lemma_names_itself(aliases@);
                    lemma_alias_object(aliases@, aliases@);
                    lemma_aliases_read_back(aliases@, aliases@, text@);
                }
                assert(all.contains(all[0]));
            }
            self.local_model_aliases = text;
        }
        Ok(changed)
    }

    /// The models that can be chosen.
    pub fn model_choices(&self, discovered_models: &Vec<String>) -> (r: Vec<String>)
        ensures
            views(r@) == choices_of(self@, views(discovered_models@)),
    {
        let ghost a = views(discovered_models@);
        let ghost b = model_ids_of(self@.local_model_list);
        let ghost c = seq_of(self@.openai_model);
        let ghost d = aliased_models(self@);
        let mut choices: Vec<String> = Vec::new();
        assert(views(choices@) =~= distinct(Seq::empty()));
        add_given(discovered_models, &mut choices);
        add_given(&parse_model_list_ids(self.local_model_list.as_str()), &mut choices);
        let mut own: Vec<String> = Vec::new();
        if let Some(model) = &self.openai_model {
            own.push(model.clone());
        }
        assert(views(own@) =~= c);
        add_given(&own, &mut choices);
        let mut aliased: Vec<String> = Vec::new();
        if let Ok(aliases) = self.model_aliases() {
            let entries = aliases.entries();
            let ghost all = text_entry_views(entries@);
            let mut i: usize = 0;
            assert(views(aliased@) =~= entry_values(all.take(0)));
            while i < entries.len()
                invariant
                    i <= entries@.len(),
                    all == text_entry_views(entries@),
                    views(aliased@) == entry_values(all.take(i as int)),
                decreases entries@.len() - i,
            {
                let ghost done = views(aliased@);
                aliased.push(entries[i].value.clone());
                assert(views(aliased@) =~= done.push(all[i as int].1));
                assert(entry_values(all.take(i as int + 1)) =~= done.push(all[i as int].1));
                i = i + 1;
            }
            assert(all.take(i as int) =~= all);
        }
        assert(views(aliased@) =~= d);
        add_given(&aliased, &mut choices);
        proof {
            let none = Seq::<Seq<char>>::empty();
            assert(none + given_texts(a) =~= given_texts(a));
            lemma_distinct_onto(none, given_texts(a));
            lemma_distinct_onto(given_texts(a), given_texts(b));
            lemma_given_texts_add(a, b);
            lemma_distinct_onto(given_texts(a + b), given_texts(c));
            lemma_given_texts_add(a + b, c);
            lemma_distinct_onto(given_texts(a + b + c), given_texts(d));
            lemma_given_texts_add(a + b + c, d);
        }
        choices
    }

    /// The environment that the service is started with.
    pub fn env(
        &self,
        openai_api_key: Option<&str>,
        places: &ServicePlaces,
    ) -> (r: TextMap)
        ensures
            forall|name: Seq<char>| #[trigger]
                value_under(r@, name) == self@.variable(
                    name,
                    opt_str_view(openai_api_key),
                    places@,
                ),
    {
        let (db_path, log_path) = places.default_paths();
        let mut env = TextMap::new();
        env.insert("HOST".to_owned(), trimmed(self.host.as_str()).to_owned());
        env.insert("PORT".to_owned(), decimal_of(self.port as u128));
        env.insert("LOCAL_ENABLE_TOOLS".to_owned(), flag_word(self.local_enable_tools));
        env.insert(
            "LOCAL_MAX_HISTORY_MESSAGES".to_owned(),
            decimal_of(self.local_max_history_messages as u128),
        );
        env.insert("LOG_LEVEL".to_owned(), trimmed(self.log_level.as_str()).to_owned());
        env.insert(
            "LOCAL_MODEL_ALIASES".to_owned(),
            trimmed(self.local_model_aliases.as_str()).to_owned(),
        );
        env.insert(
            "LOCAL_MODEL_LIST".to_owned(),
            trimmed(self.local_model_list.as_str()).to_owned(),
        );
        env.insert(
            "LOCAL_GRAPHQL_DB_PATH".to_owned(),
            configured_path(&self.local_graphql_db_path, db_path.as_str()),
        );
        env.insert(
            "LOCAL_SERVICE_LOG_PATH".to_owned(),
            configured_path(&self.local_service_log_path, log_path.as_str()),
        );
        env.insert(
            "LOCAL_MULTI_AGENT_SYSTEM_PROMPT".to_owned(),
            self.local_multi_agent_system_prompt.clone(),
        );
        if let Some(value) = non_empty_option(&self.openai_model) {
            env.insert("OPENAI_MODEL".to_owned(), value.to_owned());
        }
        if let Some(value) = non_empty_option(&self.local_model_context_tokens) {
            env.insert("LOCAL_MODEL_CONTEXT_TOKENS".to_owned(), value.to_owned());
        }
        if let Some(key) = openai_api_key {
            if let Some(value) = non_empty_str(key) {
                env.insert("OPENAI_API_KEY".to_owned(), value.to_owned());
            }
        }
        if let Some(value) = non_empty_option(&self.openai_base_url) {
            env.insert("OPENAI_BASE_URL".to_owned(), value.to_owned());
        }
        env
    }

    /// Takes over an address that was kept elsewhere, where the configuration has none.
    pub fn adopt_legacy_base_url(&mut self, legacy: Option<String>) -> (r: bool)
        ensures
            r == (old(self)@.openai_base_url is None && legacy is Some),
            final(self)@ == (if old(self)@.openai_base_url is None {
                AgentConfigView { openai_base_url: opt_view(legacy), ..old(self)@ }
            } else {
                old(self)@
            }),
    {
        if self.openai_base_url.is_none() && legacy.is_some() {
            self.openai_base_url = legacy;
            true
        } else {
            false
        }
    }
}

impl Clone for LocalMultiAgentConfig {
    fn clone(&self) -> (r: Self)
        ensures
            r@ == self@,
    {
        LocalMultiAgentConfig {
            host: self.host.clone(),
            port: self.port,
            openai_base_url: clone_option(&self.openai_base_url),
            openai_model: clone_option(&self.openai_model),
            local_model_aliases: self.local_model_aliases.clone(),
            local_model_list: self.local_model_list.clone(),
            local_enable_tools: self.local_enable_tools,
            local_max_history_messages: self.local_max_history_messages,
            local_model_context_tokens: clone_option(&self.local_model_context_tokens),
            local_graphql_db_path: clone_option(&self.local_graphql_db_path),
            log_level: self.log_level.clone(),
            local_service_log_path: clone_option(&self.local_service_log_path),
            local_multi_agent_system_prompt: self.local_multi_agent_system_prompt.clone(),
        }
    }
}

/// The service's own address, or why there is none.
pub open spec fn root_of(config: AgentConfigView) -> Result<Seq<char>, ConfigErrorView> {
    match url_parse(root_text(config)) {
        Ok(url) => Ok(url_text(url)),
        Err(source) => Err(ConfigErrorView::InvalidRootUrl { source }),
    }
}

/// The model of an attempt to find the service's own address.
pub open spec fn root_view(r: Result<String, LocalMultiAgentConfigError>) -> Result<
    Seq<char>,
    ConfigErrorView,
> {
    match r {
        Ok(url) => Ok(url@),
        Err(error) => Err(error@),
    }
}

/// The address of the provider of models.
pub open spec fn base_url_of(config: AgentConfigView) -> Seq<char> {
    match given_option(config.openai_base_url) {
        Some(base_url) => base_url,
        None => "https://api.openai.com/v1"@,
    }
}

} // verus!
