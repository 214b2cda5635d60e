//! The stored form of the configuration, and its fingerprint.
use sha2::Digest;
use crate::decode::{
    flag, optional_text, read_flag, read_optional_text, read_small_number, read_text, small_number,
};
use crate::json::{JsonValue, JsonView, compact_text, quoted};
use crate::local_multi_agent::config::{
    AgentConfigView, LocalMultiAgentConfig, LocalMultiAgentConfigSchemaDefaults, config_of_defaults,
    flag_text, flag_word,
};
use crate::members::{members_parse, names_of, read_stated, stated};
use crate::text::{
    concat2, concat3, decimal, decimal_of, join, joined, opt_str_view, opt_view, trim, views,
};
use vstd::prelude::*;

verus! {

/// The SHA-256 digest of a text.
pub uninterp spec fn sha256_of(text: Seq<char>) -> Seq<u8>;

/// `sha2::Sha256::digest` over the UTF-8 bytes of a text: 32 bytes.
#[verifier::external_body]
fn sha256(text: &str) -> (r: Vec<u8>)
    ensures
        r@ == sha256_of(text@),
        r@.len() == 32,
{
    sha2::Sha256::digest(text.as_bytes()).to_vec()
}

/// A digit of a hexadecimal numeral.
pub open spec fn hex_digit(n: int) -> char {
    if n < 10 {
        ('0' as int + n) as char
    } else {
        ('a' as int + n - 10) as char
    }
}

/// The bytes as hexadecimal numerals of two digits each.
pub open spec fn hex_text(bytes: Seq<u8>) -> Seq<char>
    decreases bytes.len(),
{
    if bytes.len() == 0 {
        Seq::empty()
    } else {
        hex_text(bytes.drop_last()).push(hex_digit(bytes.last() as int / 16)).push(
            hex_digit(bytes.last() as int % 16),
        )
    }
}

/// `hex::encode`: each byte as two digits, the letters small.
#[verifier::external_body]
fn hex_of(bytes: Vec<u8>) -> (r: String)
    ensures
        r@ == hex_text(bytes@),
{
    hex::encode(bytes)
}

/// A text in JSON, or `null`.
pub open spec fn optional_json(text: Option<Seq<char>>) -> Seq<char> {
    match text {
        Some(text) => compact_text(JsonView::Text(text)),
        None => "null"@,
    }
}

fn quoted_option(text: &Option<String>) -> (r: String)
    ensures
        r@ == optional_json(opt_view(*text)),
{
    match text {
        Some(text) => quoted(text.as_str()),
        None => "null".to_owned(),
    }
}

/// The members of the configuration as a JSON object, in their order.
pub open spec fn config_members(config: AgentConfigView) -> Seq<Seq<char>> {
    seq![
        "\"host\":"@ + compact_text(JsonView::Text(config.host)),
        "\"port\":"@ + decimal(config.port as nat),
        "\"openai_base_url\":"@ + optional_json(config.openai_base_url),
        "\"openai_model\":"@ + optional_json(config.openai_model),
        "\"local_model_aliases\":"@ + compact_text(JsonView::Text(config.local_model_aliases)),
        "\"local_model_list\":"@ + compact_text(JsonView::Text(config.local_model_list)),
        "\"local_enable_tools\":"@ + flag_text(config.local_enable_tools),
        "\"local_max_history_messages\":"@ + decimal(config.local_max_history_messages as nat),
        "\"local_model_context_tokens\":"@ + optional_json(config.local_model_context_tokens),
        "\"local_graphql_db_path\":"@ + optional_json(config.local_graphql_db_path),
        "\"log_level\":"@ + compact_text(JsonView::Text(config.log_level)),
        "\"local_service_log_path\":"@ + optional_json(config.local_service_log_path),
        "\"local_multi_agent_system_prompt\":"@ + compact_text(
            JsonView::Text(config.local_multi_agent_system_prompt)
        ),
    ]
}

/// The configuration as the text of a JSON object.
pub open spec fn config_json(config: AgentConfigView) -> Seq<char> {
    "{"@ + join(config_members(config), ","@) + "}"@
}

/// The fingerprint of a configuration: the first eight bytes of the digest of its JSON text.
pub open spec fn fingerprint(config: AgentConfigView) -> Seq<char> {
    hex_text(sha256_of(config_json(config)).take(8))
}

/// The names of the configuration's members, in their order.
pub open spec fn config_names() -> Seq<Seq<char>> {
    seq![
        "host"@,
        "port"@,
        "openai_base_url"@,
        "openai_model"@,
        "local_model_aliases"@,
        "local_model_list"@,
        "local_enable_tools"@,
        "local_max_history_messages"@,
        "local_model_context_tokens"@,
        "local_graphql_db_path"@,
        "log_level"@,
        "local_service_log_path"@,
        "local_multi_agent_system_prompt"@,
    ]
}

/// The configuration that a JSON document describes.
pub open spec fn config_of_json(value: JsonView) -> Option<AgentConfigView> {
    match stated(value, config_names(), 13) {
        Some(value) => config_of_members(value),
        None => None,
    }
}

/// The same, of an object that states no member twice.
pub open spec fn config_of_members(value: JsonView) -> Option<AgentConfigView> {
    match (
        (
            value.get_text("host"@),
            small_number(value, "port"@),
            optional_text(value, "openai_base_url"@),
            optional_text(value, "openai_model"@),
            value.get_text("local_model_aliases"@),
        ),
        (
            value.get_text("local_model_list"@),
            flag(value, "local_enable_tools"@),
            small_number(value, "local_max_history_messages"@),
            optional_text(value, "local_model_context_tokens"@),
        ),
        (
            optional_text(value, "local_graphql_db_path"@),
            value.get_text("log_level"@),
            optional_text(value, "local_service_log_path"@),
            value.get_text("local_multi_agent_system_prompt"@),
        ),
    ) {
        (
            (
                Some(host),
                Some(port),
                Some(openai_base_url),
                Some(openai_model),
                Some(local_model_aliases),
            ),
            (
                Some(local_model_list),
                Some(local_enable_tools),
                Some(local_max_history_messages),
                Some(local_model_context_tokens),
            ),
            (
                Some(local_graphql_db_path),
                Some(log_level),
                Some(local_service_log_path),
                Some(local_multi_agent_system_prompt),
            ),
        ) => Some(
            AgentConfigView {
                host,
                port,
                openai_base_url,
                openai_model,
                local_model_aliases,
                local_model_list,
                local_enable_tools,
                local_max_history_messages,
                local_model_context_tokens,
                local_graphql_db_path,
                log_level,
                local_service_log_path,
                local_multi_agent_system_prompt,
            },
        ),
        _ => None,
    }
}

/// The model of an optional configuration.
pub open spec fn opt_config_view(config: Option<LocalMultiAgentConfig>) -> Option<AgentConfigView> {
    match config {
        Some(config) => Some(config@),
        None => None,
    }
}

/// The configuration that is stored, or the default where none is, or none that can be read.
pub open spec fn loaded_config(
    stored: Option<Seq<char>>,
    default: AgentConfigView,
) -> AgentConfigView {
    match stored {
        Some(text) => match members_parse(text) {
            Ok(value) => match config_of_json(value) {
                Some(config) => config,
                None => default,
            },
            Err(_) => default,
        },
        None => default,
    }
}

impl LocalMultiAgentConfig {
    /// The configuration as the text of a JSON object.
    pub fn to_json_text(&self) -> (r: String)
        ensures
            r@ == config_json(self@),
    {
        let mut members: Vec<String> = Vec::new();
        members.push(concat2("\"host\":", quoted(self.host.as_str()).as_str()));
        members.push(concat2("\"port\":", decimal_of(self.port as u128).as_str()));
        members.push(
            concat2("\"openai_base_url\":", quoted_option(&self.openai_base_url).as_str())
        );
        members.push(concat2("\"openai_model\":", quoted_option(&self.openai_model).as_str()));
        members.push(
            concat2("\"local_model_aliases\":", quoted(self.local_model_aliases.as_str()).as_str())
        );
        members.push(
            concat2("\"local_model_list\":", quoted(self.local_model_list.as_str()).as_str())
        );
        members.push(
            concat2("\"local_enable_tools\":", flag_word(self.local_enable_tools).as_str())
        );
        members.push(
            concat2(
                "\"local_max_history_messages\":",
                decimal_of(self.local_max_history_messages as u128).as_str(),
            )
        );
        members.push(
            concat2(
                "\"local_model_context_tokens\":",
                quoted_option(&self.local_model_context_tokens).as_str(),
            )
        );
        members.push(
            concat2(
                "\"local_graphql_db_path\":",
                quoted_option(&self.local_graphql_db_path).as_str(),
            )
        );
        members.push(concat2("\"log_level\":", quoted(self.log_level.as_str()).as_str()));
        members.push(
            concat2(
                "\"local_service_log_path\":",
                quoted_option(&self.local_service_log_path).as_str(),
            )
        );
        members.push(
            concat2(
                "\"local_multi_agent_system_prompt\":",
                quoted(self.local_multi_agent_system_prompt.as_str()).as_str(),
            )
        );
        assert(views(members@) =~= config_members(self@));
        concat3("{", joined(&members, ",").as_str(), "}")
    }

    /// The fingerprint of the configuration.
    pub fn config_hash(&self) -> (r: String)
        ensures
            r@ == fingerprint(self@),
    {
        let digest = sha256(self.to_json_text().as_str());
        let mut first: Vec<u8> = Vec::new();
        let mut i: usize = 0;
        while i < 8
            invariant
                i <= 8,
                digest@.len() == 32,
                first@ == digest@.take(i as int),
            decreases 8 - i,
        {
            first.push(digest[i]);
            assert(first@ =~= digest@.take(i as int + 1));
            i = i + 1;
        }
        hex_of(first)
    }

    /// The configuration that a JSON object describes.
    pub fn from_json(value: &JsonValue) -> (r: Option<Self>)
        ensures
            opt_config_view(r) == config_of_json(value@),
    {
        assert(names_of(["host", "port", "openai_base_url", "openai_model", "local_model_aliases", "local_model_list", "local_enable_tools", "local_max_history_messages", "local_model_context_tokens", "local_graphql_db_path", "log_level", "local_service_log_path", "local_multi_agent_system_prompt"]@) =~= config_names());
        let value = match read_stated(value, &["host", "port", "openai_base_url", "openai_model", "local_model_aliases", "local_model_list", "local_enable_tools", "local_max_history_messages", "local_model_context_tokens", "local_graphql_db_path", "log_level", "local_service_log_path", "local_multi_agent_system_prompt"], 13) {
            Some(value) => value,
            None => {
                return None;
            },
        };
        let host = match read_text(&value, "host") {
            Some(host) => host,
            None => {
                return None;
            },
        };
        let port = match read_small_number(&value, "port") {
            Some(port) => port,
            None => {
                return None;
            },
        };
        let openai_base_url = match read_optional_text(&value, "openai_base_url") {
            Some(openai_base_url) => openai_base_url,
            None => {
                return None;
            },
        };
        let openai_model = match read_optional_text(&value, "openai_model") {
            Some(openai_model) => openai_model,
            None => {
                return None;
            },
        };
        let local_model_aliases = match read_text(&value, "local_model_aliases") {
            Some(local_model_aliases) => local_model_aliases,
            None => {
                return None;
            },
        };
        let local_model_list = match read_text(&value, "local_model_list") {
            Some(local_model_list) => local_model_list,
            None => {
                return None;
            },
        };
        let local_enable_tools = match read_flag(&value, "local_enable_tools") {
            Some(local_enable_tools) => local_enable_tools,
            None => {
                return None;
            },
        };
        let local_max_history_messages = match read_small_number(
            &value,
            "local_max_history_messages",
        ) {
            Some(local_max_history_messages) => local_max_history_messages,
            None => {
                return None;
            },
        };
        let local_model_context_tokens = match read_optional_text(
            &value,
            "local_model_context_tokens",
        ) {
            Some(local_model_context_tokens) => local_model_context_tokens,
            None => {
                return None;
            },
        };
        let local_graphql_db_path = match read_optional_text(&value, "local_graphql_db_path") {
            Some(local_graphql_db_path) => local_graphql_db_path,
            None => {
                return None;
            },
        };
        let log_level = match read_text(&value, "log_level") {
            Some(log_level) => log_level,
            None => {
                return None;
            },
        };
        let local_service_log_path = match read_optional_text(&value, "local_service_log_path") {
            Some(local_service_log_path) => local_service_log_path,
            None => {
                return None;
            },
        };
        let local_multi_agent_system_prompt = match read_text(
            &value,
            "local_multi_agent_system_prompt",
        ) {
            Some(local_multi_agent_system_prompt) => local_multi_agent_system_prompt,
            None => {
                return None;
            },
        };
        Some(
            LocalMultiAgentConfig {
                host,
                port,
                openai_base_url,
                openai_model,
                local_model_aliases,
                local_model_list,
                local_enable_tools,
                local_max_history_messages,
                local_model_context_tokens,
                local_graphql_db_path,
                log_level,
                local_service_log_path,
                local_multi_agent_system_prompt,
            },
        )
    }

    /// The configuration that is stored, or the default where none is, or none that can be read.
    pub fn load(stored: Option<&str>) -> (r: Self)
        ensures
            r@ == loaded_config(opt_str_view(stored), default_config()),
    {
        if let Some(text) = stored {
            if let Ok(value) = JsonValue::parse_members(text) {
                if let Some(config) = Self::from_json(&value) {
                    return config;
                }
            }
        }
        LocalMultiAgentConfig::default()
    }
}

/// The configuration of a service that was not set up yet.
pub open spec fn default_config() -> AgentConfigView {
    AgentConfigView {
        host: "127.0.0.1"@,
        port: 8787,
        openai_base_url: None,
        openai_model: None,
        local_model_aliases: "{}"@,
        local_model_list: Seq::empty(),
        local_enable_tools: true,
        local_max_history_messages: 40,
        local_model_context_tokens: None,
        local_graphql_db_path: None,
        log_level: "info"@,
        local_service_log_path: None,
        local_multi_agent_system_prompt: Seq::empty(),
    }
}

/// The values that a fresh configuration is made of.
pub fn config_schema_defaults() -> (r: LocalMultiAgentConfigSchemaDefaults)
    ensures
        config_of_defaults(r) == default_config(),
{
    let r = LocalMultiAgentConfigSchemaDefaults {
        host: "127.0.0.1".to_owned(),
        port: 8787,
        openai_base_url: String::new(),
        openai_model: String::new(),
        local_model_aliases: "{}".to_owned(),
        local_model_list: String::new(),
        local_enable_tools: true,
        local_max_history_messages: 40,
        local_model_context_tokens: String::new(),
        local_graphql_db_path: String::new(),
        log_level: "info".to_owned(),
        local_service_log_path: String::new(),
        local_multi_agent_system_prompt: String::new(),
    };
    assert(trim(Seq::<char>::empty()) =~= Seq::empty());
    assert(r.local_model_list@ =~= Seq::empty());
    assert(r.local_multi_agent_system_prompt@ =~= Seq::empty());
    r
}

impl Default for LocalMultiAgentConfig {
    fn default() -> (r: Self)
        ensures
            r@ == default_config(),
    {
        LocalMultiAgentConfig::from_defaults(config_schema_defaults())
    }
}

} // verus!
