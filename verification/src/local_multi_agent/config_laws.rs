//! What holds of the configuration of the service.
use crate::json::{JsonView, json_parse};
use crate::local_multi_agent::config::{
    AgentConfigView, ConfigErrorView, PlacesView, alias_entries, aliased_models, aliases_error,
    aliases_of, base_url_of, choices_of, config_error, db_path_in, given_texts, is_given,
    is_http_base, is_log_level, is_stale_alias, listed_model, listed_models, log_path_in,
    mended_aliases, mends_alias, model_ids_of, root_of, root_text, seq_of, tokens_error,
    with_discovered,
};
use crate::ordered::{is_keyed, law_insert_keyed};
use crate::path::joined_path;
use crate::server_url::{url_parse, url_text};
use crate::text::{
    decimal, distinct, is_blank, join, law_distinct, lemma_trim_edges, lemma_trim_empty,
    lemma_trim_of_trimmed, lower, trim, u64_of,
};
use crate::text_laws::{law_decimal_reads_back, law_distinct_in_order, law_split_of_join};
use crate::text_map::{law_entry_is_found, value_under};
use vstd::prelude::*;

verus! {

proof fn lemma_variable_names()
    ensures
        "OPENAI_BASE_URL"@ != "OPENAI_API_KEY"@,
        "OPENAI_BASE_URL"@ != "LOCAL_MODEL_CONTEXT_TOKENS"@,
        "OPENAI_BASE_URL"@ != "OPENAI_MODEL"@,
        "OPENAI_BASE_URL"@ != "LOCAL_MULTI_AGENT_SYSTEM_PROMPT"@,
        "OPENAI_BASE_URL"@ != "LOCAL_SERVICE_LOG_PATH"@,
        "OPENAI_BASE_URL"@ != "LOCAL_GRAPHQL_DB_PATH"@,
        "OPENAI_BASE_URL"@ != "LOCAL_MODEL_LIST"@,
        "OPENAI_BASE_URL"@ != "LOCAL_MODEL_ALIASES"@,
        "OPENAI_BASE_URL"@ != "LOG_LEVEL"@,
        "OPENAI_BASE_URL"@ != "LOCAL_MAX_HISTORY_MESSAGES"@,
        "OPENAI_BASE_URL"@ != "LOCAL_ENABLE_TOOLS"@,
        "OPENAI_BASE_URL"@ != "PORT"@,
        "OPENAI_BASE_URL"@ != "HOST"@,
        "OPENAI_API_KEY"@ != "LOCAL_MODEL_CONTEXT_TOKENS"@,
        "OPENAI_API_KEY"@ != "OPENAI_MODEL"@,
        "OPENAI_API_KEY"@ != "LOCAL_MULTI_AGENT_SYSTEM_PROMPT"@,
        "OPENAI_API_KEY"@ != "LOCAL_SERVICE_LOG_PATH"@,
        "OPENAI_API_KEY"@ != "LOCAL_GRAPHQL_DB_PATH"@,
        "OPENAI_API_KEY"@ != "LOCAL_MODEL_LIST"@,
        "OPENAI_API_KEY"@ != "LOCAL_MODEL_ALIASES"@,
        "OPENAI_API_KEY"@ != "LOG_LEVEL"@,
        "OPENAI_API_KEY"@ != "LOCAL_MAX_HISTORY_MESSAGES"@,
        "OPENAI_API_KEY"@ != "LOCAL_ENABLE_TOOLS"@,
        "OPENAI_API_KEY"@ != "PORT"@,
        "OPENAI_API_KEY"@ != "HOST"@,
        "LOCAL_MODEL_CONTEXT_TOKENS"@ != "OPENAI_MODEL"@,
        "LOCAL_MODEL_CONTEXT_TOKENS"@ != "LOCAL_MULTI_AGENT_SYSTEM_PROMPT"@,
        "LOCAL_MODEL_CONTEXT_TOKENS"@ != "LOCAL_SERVICE_LOG_PATH"@,
        "LOCAL_MODEL_CONTEXT_TOKENS"@ != "LOCAL_GRAPHQL_DB_PATH"@,
        "LOCAL_MODEL_CONTEXT_TOKENS"@ != "LOCAL_MODEL_LIST"@,
        "LOCAL_MODEL_CONTEXT_TOKENS"@ != "LOCAL_MODEL_ALIASES"@,
        "LOCAL_MODEL_CONTEXT_TOKENS"@ != "LOG_LEVEL"@,
        "LOCAL_MODEL_CONTEXT_TOKENS"@ != "LOCAL_MAX_HISTORY_MESSAGES"@,
        "LOCAL_MODEL_CONTEXT_TOKENS"@ != "LOCAL_ENABLE_TOOLS"@,
        "LOCAL_MODEL_CONTEXT_TOKENS"@ != "PORT"@,
        "LOCAL_MODEL_CONTEXT_TOKENS"@ != "HOST"@,
        "OPENAI_MODEL"@ != "LOCAL_MULTI_AGENT_SYSTEM_PROMPT"@,
        "OPENAI_MODEL"@ != "LOCAL_SERVICE_LOG_PATH"@,
        "OPENAI_MODEL"@ != "LOCAL_GRAPHQL_DB_PATH"@,
        "OPENAI_MODEL"@ != "LOCAL_MODEL_LIST"@,
        "OPENAI_MODEL"@ != "LOCAL_MODEL_ALIASES"@,
        "OPENAI_MODEL"@ != "LOG_LEVEL"@,
        "OPENAI_MODEL"@ != "LOCAL_MAX_HISTORY_MESSAGES"@,
        "OPENAI_MODEL"@ != "LOCAL_ENABLE_TOOLS"@,
        "OPENAI_MODEL"@ != "PORT"@,
        "OPENAI_MODEL"@ != "HOST"@,
        "LOCAL_MULTI_AGENT_SYSTEM_PROMPT"@ != "LOCAL_SERVICE_LOG_PATH"@,
        "LOCAL_MULTI_AGENT_SYSTEM_PROMPT"@ != "LOCAL_GRAPHQL_DB_PATH"@,
        "LOCAL_MULTI_AGENT_SYSTEM_PROMPT"@ != "LOCAL_MODEL_LIST"@,
        "LOCAL_MULTI_AGENT_SYSTEM_PROMPT"@ != "LOCAL_MODEL_ALIASES"@,
        "LOCAL_MULTI_AGENT_SYSTEM_PROMPT"@ != "LOG_LEVEL"@,
        "LOCAL_MULTI_AGENT_SYSTEM_PROMPT"@ != "LOCAL_MAX_HISTORY_MESSAGES"@,
        "LOCAL_MULTI_AGENT_SYSTEM_PROMPT"@ != "LOCAL_ENABLE_TOOLS"@,
        "LOCAL_MULTI_AGENT_SYSTEM_PROMPT"@ != "PORT"@,
        "LOCAL_MULTI_AGENT_SYSTEM_PROMPT"@ != "HOST"@,
        "LOCAL_SERVICE_LOG_PATH"@ != "LOCAL_GRAPHQL_DB_PATH"@,
        "LOCAL_SERVICE_LOG_PATH"@ != "LOCAL_MODEL_LIST"@,
        "LOCAL_SERVICE_LOG_PATH"@ != "LOCAL_MODEL_ALIASES"@,
        "LOCAL_SERVICE_LOG_PATH"@ != "LOG_LEVEL"@,
        "LOCAL_SERVICE_LOG_PATH"@ != "LOCAL_MAX_HISTORY_MESSAGES"@,
        "LOCAL_SERVICE_LOG_PATH"@ != "LOCAL_ENABLE_TOOLS"@,
        "LOCAL_SERVICE_LOG_PATH"@ != "PORT"@,
        "LOCAL_SERVICE_LOG_PATH"@ != "HOST"@,
        "LOCAL_GRAPHQL_DB_PATH"@ != "LOCAL_MODEL_LIST"@,
        "LOCAL_GRAPHQL_DB_PATH"@ != "LOCAL_MODEL_ALIASES"@,
        "LOCAL_GRAPHQL_DB_PATH"@ != "LOG_LEVEL"@,
        "LOCAL_GRAPHQL_DB_PATH"@ != "LOCAL_MAX_HISTORY_MESSAGES"@,
        "LOCAL_GRAPHQL_DB_PATH"@ != "LOCAL_ENABLE_TOOLS"@,
        "LOCAL_GRAPHQL_DB_PATH"@ != "PORT"@,
        "LOCAL_GRAPHQL_DB_PATH"@ != "HOST"@,
        "LOCAL_MODEL_LIST"@ != "LOCAL_MODEL_ALIASES"@,
        "LOCAL_MODEL_LIST"@ != "LOG_LEVEL"@,
        "LOCAL_MODEL_LIST"@ != "LOCAL_MAX_HISTORY_MESSAGES"@,
        "LOCAL_MODEL_LIST"@ != "LOCAL_ENABLE_TOOLS"@,
        "LOCAL_MODEL_LIST"@ != "PORT"@,
        "LOCAL_MODEL_LIST"@ != "HOST"@,
        "LOCAL_MODEL_ALIASES"@ != "LOG_LEVEL"@,
        "LOCAL_MODEL_ALIASES"@ != "LOCAL_MAX_HISTORY_MESSAGES"@,
        "LOCAL_MODEL_ALIASES"@ != "LOCAL_ENABLE_TOOLS"@,
        "LOCAL_MODEL_ALIASES"@ != "PORT"@,
        "LOCAL_MODEL_ALIASES"@ != "HOST"@,
        "LOG_LEVEL"@ != "LOCAL_MAX_HISTORY_MESSAGES"@,
        "LOG_LEVEL"@ != "LOCAL_ENABLE_TOOLS"@,
        "LOG_LEVEL"@ != "PORT"@,
        "LOG_LEVEL"@ != "HOST"@,
        "LOCAL_MAX_HISTORY_MESSAGES"@ != "LOCAL_ENABLE_TOOLS"@,
        "LOCAL_MAX_HISTORY_MESSAGES"@ != "PORT"@,
        "LOCAL_MAX_HISTORY_MESSAGES"@ != "HOST"@,
        "LOCAL_ENABLE_TOOLS"@ != "PORT"@,
        "LOCAL_ENABLE_TOOLS"@ != "HOST"@,
        "PORT"@ != "HOST"@,
{
    reveal_strlit("OPENAI_BASE_URL");
    reveal_strlit("OPENAI_API_KEY");
    reveal_strlit("LOCAL_MODEL_CONTEXT_TOKENS");
    reveal_strlit("OPENAI_MODEL");
    reveal_strlit("LOCAL_MULTI_AGENT_SYSTEM_PROMPT");
    reveal_strlit("LOCAL_SERVICE_LOG_PATH");
    reveal_strlit("LOCAL_GRAPHQL_DB_PATH");
    reveal_strlit("LOCAL_MODEL_LIST");
    reveal_strlit("LOCAL_MODEL_ALIASES");
    reveal_strlit("LOG_LEVEL");
    reveal_strlit("LOCAL_MAX_HISTORY_MESSAGES");
    reveal_strlit("LOCAL_ENABLE_TOOLS");
    reveal_strlit("PORT");
    reveal_strlit("HOST");
    assert("OPENAI_BASE_URL"@.len() == 15);
    assert("OPENAI_API_KEY"@.len() == 14);
    assert("LOCAL_MODEL_CONTEXT_TOKENS"@.len() == 26);
    assert("OPENAI_MODEL"@.len() == 12);
    assert("LOCAL_MULTI_AGENT_SYSTEM_PROMPT"@.len() == 31);
    assert("LOCAL_SERVICE_LOG_PATH"@.len() == 22);
    assert("LOCAL_GRAPHQL_DB_PATH"@.len() == 21);
    assert("LOCAL_MODEL_LIST"@.len() == 16);
    assert("LOCAL_MODEL_ALIASES"@.len() == 19);
    assert("LOG_LEVEL"@.len() == 9);
    assert("LOCAL_MAX_HISTORY_MESSAGES"@.len() == 26);
    assert("LOCAL_ENABLE_TOOLS"@.len() == 18);
    assert("PORT"@.len() == 4);
    assert("HOST"@.len() == 4);
    assert("LOCAL_MODEL_CONTEXT_TOKENS"@[7] == 'O');
    assert("LOCAL_MAX_HISTORY_MESSAGES"@[7] == 'A');
    assert("PORT"@[0] == 'P');
    assert("HOST"@[0] == 'H');
}

/// The environment says what the configuration says: a flag is the word for it, a number reads back
/// as itself, and a text stands without the space around it.
pub proof fn law_environment_says_the_configuration(
    config: AgentConfigView,
    api_key: Option<Seq<char>>,
    places: PlacesView,
)
    ensures
        config.variable("LOCAL_ENABLE_TOOLS"@, api_key, places) == Some("true"@)
            <==> config.local_enable_tools,
        config.variable("LOCAL_ENABLE_TOOLS"@, api_key, places) == Some("false"@)
            <==> !config.local_enable_tools,
        config.variable("PORT"@, api_key, places) matches Some(text) && u64_of(text) == Some(
            config.port as u64,
        ),
        config.variable("LOCAL_MAX_HISTORY_MESSAGES"@, api_key, places) matches Some(text)
            && u64_of(text) == Some(config.local_max_history_messages as u64),
        config.variable("HOST"@, api_key, places) == Some(trim(config.host)),
        config.variable("LOG_LEVEL"@, api_key, places) == Some(trim(config.log_level)),
        config.variable("LOCAL_MODEL_ALIASES"@, api_key, places) == Some(
            trim(config.local_model_aliases),
        ),
        config.variable("LOCAL_MODEL_LIST"@, api_key, places) == Some(
            trim(config.local_model_list),
        ),
        config.variable("LOCAL_MULTI_AGENT_SYSTEM_PROMPT"@, api_key, places) == Some(
            config.local_multi_agent_system_prompt,
        ),
{
    lemma_variable_names();
    law_decimal_reads_back(config.port as u64);
    law_decimal_reads_back(config.local_max_history_messages as u64);
    reveal_strlit("true");
    reveal_strlit("false");
    assert("true"@.len() != "false"@.len());
}

/// What is not configured, or is blank, is not told to the service; the rest is, without the space
/// around it.
pub proof fn law_environment_tells_what_is_given(
    config: AgentConfigView,
    api_key: Option<Seq<char>>,
    places: PlacesView,
)
    ensures
        config.openai_base_url matches Some(text) ==> (!is_blank(text) ==> config.variable(
            "OPENAI_BASE_URL"@,
            api_key,
            places,
        ) == Some(trim(text))),
        config.openai_base_url is None ==> config.variable(
            "OPENAI_BASE_URL"@,
            api_key,
            places,
        ) is None,
        config.openai_base_url matches Some(text) ==> (is_blank(text) ==> config.variable(
            "OPENAI_BASE_URL"@,
            api_key,
            places,
        ) is None),
        api_key matches Some(text) ==> (!is_blank(text) ==> config.variable(
            "OPENAI_API_KEY"@,
            api_key,
            places,
        ) == Some(trim(text))),
        api_key is None ==> config.variable("OPENAI_API_KEY"@, api_key, places) is None,
        api_key matches Some(text) ==> (is_blank(text) ==> config.variable(
            "OPENAI_API_KEY"@,
            api_key,
            places,
        ) is None),
        config.local_model_context_tokens matches Some(text) ==> (!is_blank(text) ==> config.variable(
            "LOCAL_MODEL_CONTEXT_TOKENS"@,
            api_key,
            places,
        ) == Some(trim(text))),
        config.local_model_context_tokens is None ==> config.variable(
            "LOCAL_MODEL_CONTEXT_TOKENS"@,
            api_key,
            places,
        ) is None,
        config.local_model_context_tokens matches Some(text) ==> (is_blank(text) ==> config.variable(
            "LOCAL_MODEL_CONTEXT_TOKENS"@,
            api_key,
            places,
        ) is None),
        config.openai_model matches Some(text) ==> (!is_blank(text) ==> config.variable(
            "OPENAI_MODEL"@,
            api_key,
            places,
        ) == Some(trim(text))),
        config.openai_model is None ==> config.variable("OPENAI_MODEL"@, api_key, places) is None,
        config.openai_model matches Some(text) ==> (is_blank(text) ==> config.variable(
            "OPENAI_MODEL"@,
            api_key,
            places,
        ) is None),
{
    lemma_variable_names();
    if let Some(text) = config.openai_base_url {
        lemma_trim_empty(text);
    }
    if let Some(text) = api_key {
        lemma_trim_empty(text);
    }
    if let Some(text) = config.local_model_context_tokens {
        lemma_trim_empty(text);
    }
    if let Some(text) = config.openai_model {
        lemma_trim_empty(text);
    }
}

/// The service keeps its files where the configuration says, and in the places of the application
/// where it says nothing.
pub proof fn law_environment_names_the_files(
    config: AgentConfigView,
    api_key: Option<Seq<char>>,
    places: PlacesView,
)
    ensures
        config.local_graphql_db_path matches Some(path) ==> (!is_blank(path) ==> config.variable(
            "LOCAL_GRAPHQL_DB_PATH"@,
            api_key,
            places,
        ) == Some(path)),
        config.local_graphql_db_path is None ==> config.variable(
            "LOCAL_GRAPHQL_DB_PATH"@,
            api_key,
            places,
        ) == Some(
            joined_path(
                places.path_style,
                joined_path(places.path_style, places.data_dir, "local-multi-agent"@),
                "local-graphql.sqlite"@,
            ),
        ),
        config.local_service_log_path matches Some(path) ==> (!is_blank(path) ==> config.variable(
            "LOCAL_SERVICE_LOG_PATH"@,
            api_key,
            places,
        ) == Some(path)),
        config.local_service_log_path is None && places.log_dir is Some ==> config.variable(
            "LOCAL_SERVICE_LOG_PATH"@,
            api_key,
            places,
        ) == Some(
            joined_path(places.path_style, places.log_dir->0, "local-multi-agent.log"@),
        ),
        config.local_service_log_path is None && places.log_dir is None ==> config.variable(
            "LOCAL_SERVICE_LOG_PATH"@,
            api_key,
            places,
        ) == Some(joined_path(places.path_style, places.data_dir, "local-multi-agent.log"@)),
{
    lemma_variable_names();
    reveal(db_path_in);
    reveal(log_path_in);
}

/// A configuration is accepted exactly where each of its values is, and the value that is refused
/// is the one that the error names.
pub proof fn law_configuration_is_accepted(config: AgentConfigView)
    ensures
        config_error(config) is None <==> {
            &&& !is_blank(config.host)
            &&& config.port > 0
            &&& config.local_max_history_messages >= 4
            &&& is_log_level(config.log_level)
            &&& (config.openai_base_url matches Some(url) ==> is_blank(url) || is_http_base(
                trim(url),
            ))
            &&& aliases_error(config.local_model_aliases) is None
            &&& (config.local_model_context_tokens matches Some(tokens) ==> tokens_error(
                tokens,
            ) is None)
            &&& url_parse("http://"@ + trim(config.host) + ":"@ + decimal(config.port as nat)) is Ok
        },
        config_error(config) == Some(ConfigErrorView::InvalidHost) <==> is_blank(config.host),
        config_error(config) == Some(ConfigErrorView::InvalidPort) ==> config.port == 0,
        config_error(config) == Some(ConfigErrorView::InvalidMaxHistoryMessages)
            ==> config.local_max_history_messages < 4,
        config_error(config) == Some(ConfigErrorView::InvalidLogLevel) ==> !is_log_level(
            config.log_level,
        ),
        config_error(config) == Some(ConfigErrorView::InvalidOpenAiBaseUrl) ==> (
        config.openai_base_url matches Some(url) && !is_blank(url) && !is_http_base(trim(url))),
{
    lemma_trim_empty(config.host);
    if let Some(url) = config.openai_base_url {
        lemma_trim_empty(url);
    }
}

/// Aliases are accepted exactly where they are blank or write a JSON object; context tokens where
/// they are blank, a positive number of 32 bits, or write a JSON object.
pub proof fn law_texts_of_a_configuration(text: Seq<char>)
    ensures
        aliases_error(text) is None <==> is_blank(text) || (json_parse(text) matches Ok(value)
            && value is Object),
        tokens_error(text) is None <==> is_blank(text) || (u64_of(trim(text)) matches Some(n) && 0 < n
            <= u32::MAX) || (json_parse(trim(text)) matches Ok(value) && value is Object),
{
    lemma_trim_empty(text);
}

/// The levels of the log, in capitals or not and with or without space around them.
pub proof fn law_log_levels(text: Seq<char>, level: Seq<char>)
    requires
        lower(trim(text)) == level,
    ensures
        is_log_level(text) <==> level == "error"@ || level == "warn"@ || level == "info"@ || level
            == "debug"@,
{
}

/// The service answers on the host and the port of its configuration.
pub proof fn law_root_address(config: AgentConfigView)
    ensures
        root_text(config) == "http://"@ + trim(config.host) + ":"@ + decimal(config.port as nat),
        match url_parse(root_text(config)) {
            Ok(url) => root_of(config) == Ok::<Seq<char>, ConfigErrorView>(url_text(url)),
            Err(source) => root_of(config) == Err::<Seq<char>, ConfigErrorView>(
                ConfigErrorView::InvalidRootUrl { source },
            ),
        },
{
}

/// The provider is reached at the address that is configured, or at that of the usual provider
/// where none is.
pub proof fn law_provider_address(config: AgentConfigView)
    ensures
        config.openai_base_url matches Some(url) ==> (!is_blank(url) ==> base_url_of(config) == trim(
            url,
        )),
        config.openai_base_url is None ==> base_url_of(config) == "https://api.openai.com/v1"@,
        config.openai_base_url matches Some(url) ==> (is_blank(url) ==> base_url_of(config)
            == "https://api.openai.com/v1"@),
{
    if let Some(url) = config.openai_base_url {
        lemma_trim_empty(url);
    }
}

/// Of texts those that are not blank are kept, in order, without the space around them.
pub proof fn law_given_texts(texts: Seq<Seq<char>>)
    ensures
        given_texts(texts) == texts.filter(|t: Seq<char>| !is_blank(t)).map_values(
            |t: Seq<char>| trim(t),
        ),
    decreases texts.len(),
{
    reveal(Seq::filter);
    let keep = |t: Seq<char>| !is_blank(t);
    let cut = |t: Seq<char>| trim(t);
    if texts.len() > 0 {
        law_given_texts(texts.drop_last());
        lemma_trim_empty(texts.last());
        assert(texts.filter(keep).map_values(cut) =~= given_texts(texts));
    } else {
        assert(texts.filter(keep).map_values(cut) =~= Seq::empty());
    }
}

/// The name that an item of a list of models gives.
pub open spec fn model_name(item: JsonView) -> Seq<char> {
    match item {
        JsonView::Text(id) => id,
        _ => match item.get("id"@) {
            Some(JsonView::Text(id)) => id,
            _ => Seq::empty(),
        },
    }
}

/// Every item of a list that names a model is listed, in order, without the space around the name.
pub proof fn law_listed_models(items: Seq<JsonView>)
    ensures
        listed_models(items) == items.filter(|i: JsonView| !is_blank(model_name(i))).map_values(
            |i: JsonView| trim(model_name(i)),
        ),
    decreases items.len(),
{
    reveal(Seq::filter);
    let keep = |i: JsonView| !is_blank(model_name(i));
    let cut = |i: JsonView| trim(model_name(i));
    if items.len() > 0 {
        law_listed_models(items.drop_last());
        lemma_trim_empty(model_name(items.last()));
        assert(items.filter(keep).map_values(cut) =~= listed_models(items));
    } else {
        assert(items.filter(keep).map_values(cut) =~= Seq::empty());
    }
}

/// The models that are written with commas between them are read back.
pub proof fn law_model_list_reads_back(models: Seq<Seq<char>>)
    requires
        models.len() > 0,
        forall|i: int|
            0 <= i < models.len() ==> !(#[trigger] models[i]).contains(',') && is_given(models[i]),
        models[0][0] != '[',
    ensures
        model_ids_of(join(models, ","@)) == models,
{
    reveal_strlit(",");
    assert(","@ =~= seq![',']);
    let text = join(models, ","@);
    law_split_of_join(models, ',');
    law_given_texts(models);
    assert(models.filter(|t: Seq<char>| !is_blank(t)) =~= models) by {
        lemma_all_kept(models);
    }
    assert(models.map_values(|t: Seq<char>| trim(t)) =~= models) by {
        assert forall|i: int| 0 <= i < models.len() implies trim(models[i]) == models[i] by {
            assert(is_given(models[i]));
        }
    }
    lemma_join_edges(models, ","@);
    let last = models[models.len() - 1];
    assert(is_given(models[0]) && is_given(last));
    lemma_trim_edges(models[0]);
    lemma_trim_edges(last);
    lemma_trim_of_trimmed(text);
}

proof fn lemma_all_kept(models: Seq<Seq<char>>)
    requires
        forall|i: int| 0 <= i < models.len() ==> is_given(#[trigger] models[i]),
    ensures
        models.filter(|t: Seq<char>| !is_blank(t)) == models,
    decreases models.len(),
{
    reveal(Seq::filter);
    let keep = |t: Seq<char>| !is_blank(t);
    if models.len() > 0 {
        let front = models.drop_last();
        assert forall|i: int| 0 <= i < front.len() implies is_given(#[trigger] front[i]) by {
            assert(front[i] == models[i]);
        }
        lemma_all_kept(front);
        assert(is_given(models[models.len() - 1]));
        lemma_trim_empty(models.last());
        assert(models.filter(keep) =~= models);
    } else {
        assert(models.filter(keep) =~= models);
    }
}

proof fn lemma_join_edges(parts: Seq<Seq<char>>, sep: Seq<char>)
    requires
        parts.len() > 0,
        parts[0].len() > 0,
        parts.last().len() > 0,
    ensures
        join(parts, sep).len() > 0,
        join(parts, sep)[0] == parts[0][0],
        join(parts, sep).last() == parts.last().last(),
    decreases parts.len(),
{
    if parts.len() > 1 {
        lemma_join_starts(parts.drop_last(), sep);
    }
}

proof fn lemma_join_starts(parts: Seq<Seq<char>>, sep: Seq<char>)
    requires
        parts.len() > 0,
        parts[0].len() > 0,
    ensures
        join(parts, sep).len() > 0,
        join(parts, sep)[0] == parts[0][0],
    decreases parts.len(),
{
    if parts.len() > 1 {
        lemma_join_starts(parts.drop_last(), sep);
    }
}

/// Of the aliases that an object lists each stands for a text under its name that is not
/// blank, without the space around it.
pub proof fn law_aliases_are_read(entries: Seq<(Seq<char>, JsonView)>, alias: Seq<char>)
    ensures
        match value_under(alias_entries(entries), alias) {
            Some(model) => exists|i: int|
                0 <= i < entries.len() && (#[trigger] entries[i]).0 == alias && (
                entries[i].1 matches JsonView::Text(text) && !is_blank(text) && trim(text)
                    == model),
            None => forall|i: int|
                0 <= i < entries.len() && (#[trigger] entries[i]).0 == alias ==> !(
                entries[i].1 matches JsonView::Text(text) && !is_blank(text)),
        },
    decreases entries.len(),
{
    if entries.len() > 0 {
        let front = entries.drop_last();
        let last = entries.last();
        law_aliases_are_read(front, alias);
        let before = alias_entries(front);
        let n = entries.len() - 1;
        assert(entries[n] == last);
        if let JsonView::Text(text) = last.1 {
            lemma_trim_empty(text);
            if !is_blank(text) {
                law_entry_is_found(before, last.0, trim(text), alias);
            }
        }
        match value_under(before, alias) {
            Some(model) => {
                let i = choose|i: int|
                    0 <= i < front.len() && (#[trigger] front[i]).0 == alias && (
                    front[i].1 matches JsonView::Text(text) && !is_blank(text) && trim(text)
                        == model);
                assert(entries[i] == front[i]);
            },
            None => {
                assert forall|i: int|
                    0 <= i < front.len() && (#[trigger] entries[i]).0 == alias implies !(
                entries[i].1 matches JsonView::Text(text) && !is_blank(text)) by {
                    assert(front[i] == entries[i]);
                }
            },
        }
    }
}

/// The models that the provider offers are taken over: the model of the configuration is one of
/// them, and stays where it was one; the list names all of them; and nothing else of the
/// configuration changes but its aliases. Without offered models nothing changes.
pub proof fn law_offered_models_are_taken_over(config: AgentConfigView, models: Seq<Seq<char>>)
    ensures
        models.len() == 0 ==> with_discovered(config, models) == (config, Ok::<
            bool,
            ConfigErrorView,
        >(false)),
        models.len() > 0 ==> (with_discovered(config, models).0.openai_model matches Some(model)
            && models.contains(model)),
        models.len() > 0 ==> with_discovered(config, models).0.local_model_list == join(
            models,
            ","@,
        ),
        config.openai_model matches Some(model) ==> (models.contains(model) ==> with_discovered(
            config,
            models,
        ).0.openai_model == Some(model)),
        models.len() > 0 && !(config.openai_model is Some && models.contains(
            config.openai_model->0,
        )) ==> with_discovered(config, models).0.openai_model == Some(models[0]),
        with_discovered(config, models).1 == Ok::<bool, ConfigErrorView>(false)
            ==> with_discovered(config, models).0 == config,
        with_discovered(config, models).0 == (AgentConfigView {
            openai_model: with_discovered(config, models).0.openai_model,
            local_model_list: with_discovered(config, models).0.local_model_list,
            local_model_aliases: with_discovered(config, models).0.local_model_aliases,
            ..config
        }),
        models.len() > 0 && aliases_of(config.local_model_aliases) is Err ==> with_discovered(
            config,
            models,
        ).1 is Err,
        models.len() > 0 && aliases_of(config.local_model_aliases) is Ok ==> with_discovered(
            config,
            models,
        ).1 is Ok,
{
    if models.len() > 0 {
        assert(models.contains(models[0]));
    }
}

/// The choices are exactly the models that are offered, listed, configured or stood for, and those
/// that are offered come first.
pub proof fn law_choices_are_complete(
    config: AgentConfigView,
    discovered: Seq<Seq<char>>,
    model: Seq<char>,
)
    requires
        is_given(model),
    ensures
        discovered.contains(model) || model_ids_of(config.local_model_list).contains(model)
            || config.openai_model == Some(model) || aliased_models(config).contains(model)
            ==> choices_of(config, discovered).contains(model),
        distinct(given_texts(discovered)).is_prefix_of(choices_of(config, discovered)),
{
    let a = discovered;
    let b = model_ids_of(config.local_model_list);
    let c = seq_of(config.openai_model);
    let d = aliased_models(config);
    let all = a + b + c + d;
    law_distinct(given_texts(all));
    lemma_given_kept(all, model);
    if a.contains(model) {
        let i = choose|i: int| 0 <= i < a.len() && a[i] == model;
        assert(all[i] == model);
    }
    if b.contains(model) {
        let i = choose|i: int| 0 <= i < b.len() && b[i] == model;
        assert(all[a.len() + i] == model);
    }
    if config.openai_model == Some(model) {
        assert(c[0] == model);
        assert(all[(a.len() + b.len()) as int] == model);
    }
    if d.contains(model) {
        let i = choose|i: int| 0 <= i < d.len() && d[i] == model;
        assert(all[a.len() + b.len() + c.len() + i] == model);
    }
    lemma_given_add(a, b + c + d);
    assert(all =~= a + (b + c + d));
    law_distinct_in_order(given_texts(a), given_texts(b + c + d));
}

proof fn lemma_given_kept(texts: Seq<Seq<char>>, text: Seq<char>)
    requires
        is_given(text),
    ensures
        texts.contains(text) ==> given_texts(texts).contains(text),
    decreases texts.len(),
{
    if texts.contains(text) {
        let front = texts.drop_last();
        lemma_given_kept(front, text);
        let before = given_texts(front);
        let all = given_texts(texts);
        if texts.last() == text {
            assert(all.last() == text);
        } else {
            let i = choose|i: int| 0 <= i < texts.len() && texts[i] == text;
            assert(front[i] == text);
            let k = choose|k: int| 0 <= k < before.len() && before[k] == text;
            assert(all[k] == text);
        }
    }
}

proof fn lemma_given_add(a: Seq<Seq<char>>, b: Seq<Seq<char>>)
    ensures
        given_texts(a + b) == given_texts(a) + given_texts(b),
    decreases b.len(),
{
    if b.len() == 0 {
        assert(a + b =~= a);
        assert(given_texts(a) + given_texts(b) =~= given_texts(a));
    } else {
        lemma_given_add(a, b.drop_last());
        assert((a + b).drop_last() =~= a + b.drop_last());
        assert(given_texts(a + b) =~= given_texts(a) + given_texts(b));
    }
}

/// Every usual alias stands for an offered model once the aliases were mended: for its own where
/// that is offered, else for the first. No other alias changes.
pub proof fn law_aliases_are_mended(
    aliases: Seq<(Seq<char>, Seq<char>)>,
    ids: Seq<Seq<char>>,
    models: Seq<Seq<char>>,
    alias: Seq<char>,
)
    requires
        models.len() > 0,
        is_keyed(aliases, |e: (Seq<char>, Seq<char>)| e.0),
    ensures
        is_keyed(mended_aliases(aliases, ids, models), |e: (Seq<char>, Seq<char>)| e.0),
        !ids.contains(alias) ==> value_under(mended_aliases(aliases, ids, models), alias)
            == value_under(aliases, alias),
        ids.contains(alias) && is_stale_alias(aliases, alias, models) ==> value_under(
            mended_aliases(aliases, ids, models),
            alias,
        ) == Some(models[0]),
        ids.contains(alias) && !is_stale_alias(aliases, alias, models) ==> value_under(
            mended_aliases(aliases, ids, models),
            alias,
        ) == value_under(aliases, alias),
    decreases ids.len(),
{
    if ids.len() > 0 {
        let front = ids.drop_last();
        let last = ids.last();
        law_aliases_are_mended(aliases, front, models, alias);
        let before = mended_aliases(aliases, front, models);
        law_entry_is_found(before, last, models[0], alias);
        law_insert_keyed(before, (last, models[0]), |e: (Seq<char>, Seq<char>)| e.0);
        assert(models.contains(models[0]));
        assert(ids.contains(alias) <==> front.contains(alias) || alias == last) by {
            if ids.contains(alias) {
                let k = choose|k: int| 0 <= k < ids.len() && ids[k] == alias;
                if k < front.len() {
                    assert(front[k] == alias);
                }
            }
            if front.contains(alias) {
                let k = choose|k: int| 0 <= k < front.len() && front[k] == alias;
                assert(ids[k] == alias);
            }
            assert(ids[ids.len() - 1] == last);
        }
    }
}

/// The aliases need mending exactly where one of them stands for nothing that is offered.
pub proof fn law_mending_is_needed(
    aliases: Seq<(Seq<char>, Seq<char>)>,
    ids: Seq<Seq<char>>,
    models: Seq<Seq<char>>,
)
    requires
        models.len() > 0,
        is_keyed(aliases, |e: (Seq<char>, Seq<char>)| e.0),
    ensures
        mends_alias(aliases, ids, models) <==> exists|i: int|
            0 <= i < ids.len() && is_stale_alias(aliases, #[trigger] ids[i], models),
    decreases ids.len(),
{
    if ids.len() > 0 {
        let front = ids.drop_last();
        let last = ids.last();
        let n = ids.len() - 1;
        law_mending_is_needed(aliases, front, models);
        law_aliases_are_mended(aliases, front, models, last);
        assert(ids[n] == last);
        assert(models.contains(models[0]));
        assert(forall|i: int| 0 <= i < n ==> front[i] == #[trigger] ids[i]);
        if exists|i: int|
            0 <= i < front.len() && is_stale_alias(aliases, #[trigger] front[i], models) {
            let i = choose|i: int|
                0 <= i < front.len() && is_stale_alias(aliases, #[trigger] front[i], models);
            assert(is_stale_alias(aliases, ids[i], models));
        }
        if exists|i: int| 0 <= i < ids.len() && is_stale_alias(aliases, #[trigger] ids[i], models) {
            let i = choose|i: int|
                0 <= i < ids.len() && is_stale_alias(aliases, #[trigger] ids[i], models);
            if i < n {
                assert(is_stale_alias(aliases, front[i], models));
            } else {
                if front.contains(last) {
                    let k = choose|k: int| 0 <= k < front.len() && front[k] == last;
                    assert(is_stale_alias(aliases, front[k], models));
                }
            }
        }
        if is_stale_alias(mended_aliases(aliases, front, models), last, models) {
            assert(is_stale_alias(aliases, ids[n], models));
        }
    }
}

/// The models of a list are all those of its items that name one, in order, without the blanks
/// around their names.
pub proof fn law_models_of_a_list(items: Seq<JsonView>)
    ensures
        listed_models(items) == items.filter(
            |x: JsonView| listed_model(x) is Some && !is_blank(listed_model(x)->0),
        ).map_values(|x: JsonView| trim(listed_model(x)->0)),
    decreases items.len(),
{
    reveal(Seq::filter);
    let keep = |x: JsonView| listed_model(x) is Some && !is_blank(listed_model(x)->0);
    let make = |x: JsonView| trim(listed_model(x)->0);
    if items.len() > 0 {
        law_models_of_a_list(items.drop_last());
        if let Some(text) = listed_model(items.last()) {
            lemma_trim_empty(text);
        }
        assert(items.filter(keep).map_values(make) =~= listed_models(items));
    } else {
        assert(items.filter(keep).map_values(make) =~= Seq::empty());
    }
}

} // verus!
