//! Talking to the service and to the provider of models.
use crate::decode::{flag, optional_text, read_flag, read_optional_text};
use crate::json::{JsonValue, JsonView, canonical_items, json_views};
use crate::local_multi_agent::config::{
    AgentConfigView, ConfigErrorView, LocalMultiAgentConfig, LocalMultiAgentConfigError, are_given,
    find_listed_models, given_option, is_given, is_http_base, listed_model, listed_models,
    non_empty_str, validate_absolute_http_url,
};
use crate::members::{members_parse, names_of, read_stated, settled_documents, stated};
use crate::server_url::{
    is_network_scheme, names_network_scheme, parse_url, url_parse, url_text, write_url,
};
use crate::shape::{
    Shape, find_flag_fault, find_list_fault, find_optional_text_fault, flag_fault, has_shape,
    list_fault, member_fits, optional_text_fault, say_undecodable, shape_error, shape_fault_of,
    undecodable,
};
use crate::text::{
    concat2, concat3, decimal, decimal_of, deduped, distinct, law_distinct, lemma_trim_idempotent,
    lower, lowered, opt_str_view, opt_view, same, trim_end_char, trimmed_end_char, views,
};
use crate::text_map::{TextMap, value_under};
use vstd::prelude::*;

verus! {

/// Why the service cannot be reached or started: what is said first, and what it came from.
#[derive(Debug, PartialEq, Eq)]
pub struct ServiceError {
    pub message: String,
    pub cause: Option<String>,
}

/// The model of a `ServiceError`.
pub struct ServiceErrorView {
    pub message: Seq<char>,
    pub cause: Option<Seq<char>>,
}

/// An error with all that it came from.
pub open spec fn whole_message(error: ServiceErrorView) -> Seq<char> {
    match error.cause {
        Some(cause) => error.message + ": "@ + cause,
        None => error.message,
    }
}

/// An error that came from nothing else.
pub open spec fn plain_error(message: Seq<char>) -> ServiceErrorView {
    ServiceErrorView { message, cause: None }
}

/// An error that came from another.
pub open spec fn caused_error(message: Seq<char>, cause: Seq<char>) -> ServiceErrorView {
    ServiceErrorView { message, cause: Some(cause) }
}

impl ServiceError {
    pub open spec fn view(&self) -> ServiceErrorView {
        ServiceErrorView { message: self.message@, cause: opt_view(self.cause) }
    }

    /// An error that came from nothing else.
    pub fn plain(message: String) -> (r: Self)
        ensures
            r@ == plain_error(message@),
    {
        ServiceError { message, cause: None }
    }

    /// An error that came from another.
    pub fn caused(message: String, cause: String) -> (r: Self)
        ensures
            r@ == caused_error(message@, cause@),
    {
        ServiceError { message, cause: Some(cause) }
    }

    /// The error with all that it came from.
    pub fn whole(&self) -> (r: String)
        ensures
            r@ == whole_message(self@),
    {
        match &self.cause {
            Some(cause) => concat3(self.message.as_str(), ": ", cause.as_str()),
            None => self.message.clone(),
        }
    }
}

/// The model of an attempt that gives nothing but an error.
pub open spec fn service_check_view(r: Result<(), ServiceError>) -> Option<ServiceErrorView> {
    match r {
        Ok(_) => None,
        Err(error) => Some(error@),
    }
}

/// What a service says of its health.
pub struct HealthShape;

impl Shape for HealthShape {
    open spec fn title() -> Seq<char> {
        "struct LocalMultiAgentHealthResponse"@
    }

    open spec fn names() -> Seq<Seq<char>> {
        seq!["ok"@, "version"@]
    }

    open spec fn needed() -> nat {
        2
    }

    open spec fn may_lack(name: Seq<char>) -> bool {
        name == "version"@
    }

    open spec fn fault(name: Seq<char>, member: JsonView) -> Option<Seq<char>> {
        if name == "ok"@ {
            flag_fault(name, member)
        } else {
            optional_text_fault(name, member)
        }
    }

    proof fn names_are_sound() {
        reveal_strlit("ok");
        reveal_strlit("version");
        assert("ok"@.len() != "version"@.len());
    }

    fn expected() -> (r: &'static str) {
        "struct LocalMultiAgentHealthResponse"
    }

    fn member_names() -> (r: Vec<&'static str>) {
        let r: Vec<&'static str> = vec!["ok", "version"];
        assert(names_of(r@) =~= Self::names());
        r
    }

    fn needed_count() -> (r: usize) {
        2
    }

    fn can_lack(name: &str) -> (r: bool) {
        same(name, "version")
    }

    fn find_fault(name: &str, member: &JsonValue) -> (r: Option<String>) {
        if same(name, "ok") {
            find_flag_fault(name, member)
        } else {
            find_optional_text_fault(name, member)
        }
    }
}

/// The answer names a service of this kind: it is well, and tells its version.
pub open spec fn names_service(value: JsonView) -> Option<bool> {
    match stated(value, seq!["ok"@, "version"@], 2) {
        Some(value) => match (flag(value, "ok"@), optional_text(value, "version"@)) {
            (Some(ok), Some(version)) => Some(ok && version is Some && version->0.len() > 0),
            _ => None,
        },
        None => None,
    }
}

/// What is wrong with the service's answer to the question after its health, where something is.
pub open spec fn health_error(
    is_success: bool,
    status: Seq<char>,
    body: Seq<char>,
) -> Option<ServiceErrorView> {
    if !is_success {
        Some(plain_error("HTTP "@ + status))
    } else {
        match members_parse(body) {
            Err(error) => Some(
                caused_error(
                    "health response was not Warp local service JSON"@,
                    undecodable(error),
                ),
            ),
            Ok(value) => match names_service(value) {
                None => Some(
                    caused_error(
                        "health response was not Warp local service JSON"@,
                        undecodable(shape_error::<HealthShape>(value)),
                    ),
                ),
                Some(true) => None,
                Some(false) => Some(
                    plain_error("health response did not identify a Warp local service"@),
                ),
            },
        }
    }
}

/// The answer of a service cannot be read exactly where it has not the shape of one.
pub proof fn law_health_shape(value: JsonView)
    ensures
        names_service(value) is None <==> !has_shape::<HealthShape>(value),
{
    let names = HealthShape::names();
    reveal_strlit("ok");
    reveal_strlit("version");
    assert("ok"@.len() != "version"@.len());
    assert(names[0] == "ok"@ && names[1] == "version"@);
    if let Some(object) = stated(value, names, 2) {
        if names_service(value) is Some {
            assert forall|k: int| 0 <= k < names.len() implies member_fits::<HealthShape>(
                object,
                #[trigger] names[k],
            ) by {
                assert(k == 0 || k == 1);
            }
        }
    }
}

/// The answer names a service of this kind.
fn read_health(value: &JsonValue) -> (r: Option<bool>)
    ensures
        r == names_service(value@),
{
    assert(names_of(["ok", "version"]@) =~= seq!["ok"@, "version"@]);
    let value = match read_stated(value, &["ok", "version"], 2) {
        Some(value) => value,
        None => {
            return None;
        },
    };
    match (read_flag(&value, "ok"), read_optional_text(&value, "version")) {
        (Some(ok), Some(version)) => {
            let known = match &version {
                Some(version) => version.as_str().unicode_len() > 0,
                None => false,
            };
            Some(ok && known)
        },
        _ => None,
    }
}

/// Reads the service's answer to the question after its health.
pub fn check_health_response(is_success: bool, status: &str, body: &str) -> (r: Result<
    (),
    ServiceError,
>)
    ensures
        service_check_view(r) == health_error(is_success, status@, body@),
{
    if !is_success {
        return Err(ServiceError::plain(concat2("HTTP ", status)));
    }
    let fault = match JsonValue::parse_members(body) {
        Ok(value) => match read_health(&value) {
            Some(true) => {
                return Ok(());
            },
            Some(false) => {
                return Err(
                    ServiceError::plain(
                        "health response did not identify a Warp local service".to_owned(),
                    ),
                );
            },
            None => {
                proof {
                    law_health_shape(value@);
                }
                shape_fault_of::<HealthShape>(&value)
            },
        },
        Err(error) => error,
    };
    Err(
        ServiceError::caused(
            "health response was not Warp local service JSON".to_owned(),
            say_undecodable(fault.as_str()),
        ),
    )
}

/// Whether a started service is waited for any longer: it has ten seconds.
pub fn waits_for_health(elapsed_millis: u64) -> (r: bool)
    ensures
        r == (elapsed_millis < 10000),
{
    elapsed_millis < 10000
}

/// What is said where a started service did not become healthy: the last failure, where there was
/// one.
pub open spec fn wait_error(last: Option<ServiceErrorView>) -> ServiceErrorView {
    match last {
        Some(error) => error,
        None => plain_error("Timed out waiting for local service health check"@),
    }
}

/// The model of an optional error.
pub open spec fn opt_error_view(error: Option<ServiceError>) -> Option<ServiceErrorView> {
    match error {
        Some(error) => Some(error@),
        None => None,
    }
}

/// What is said where a started service did not become healthy.
pub fn health_wait_error(last: Option<ServiceError>) -> (r: ServiceError)
    ensures
        r@ == wait_error(opt_error_view(last)),
{
    match last {
        Some(error) => error,
        None => ServiceError::plain("Timed out waiting for local service health check".to_owned()),
    }
}

/// Where the provider lists its models.
pub open spec fn models_url_of(base_url: Seq<char>) -> Seq<char> {
    trim_end_char(base_url, '/') + "/models"@
}

/// A request for the provider's models.
#[derive(Debug, PartialEq, Eq)]
pub struct ProviderModelsRequest {
    pub url: String,
    pub bearer: Option<String>,
}

/// Prepares the request for the provider's models.
pub fn provider_models_request(base_url: &str, api_key: Option<&str>) -> (r: Result<
    ProviderModelsRequest,
    LocalMultiAgentConfigError,
>)
    ensures
        match r {
            Ok(request) => is_http_base(base_url@) && request.url@ == models_url_of(base_url@)
                && opt_view(request.bearer) == given_option(opt_str_view(api_key)),
            Err(error) => !is_http_base(base_url@) && error@
                == ConfigErrorView::InvalidOpenAiBaseUrl,
        },
{
    if let Err(error) = validate_absolute_http_url(base_url) {
        return Err(error);
    }
    let bearer = match api_key {
        Some(key) => match non_empty_str(key) {
            Some(key) => Some(key.to_owned()),
            None => None,
        },
        None => None,
    };
    Ok(
        ProviderModelsRequest {
            url: concat2(trimmed_end_char(base_url, '/'), "/models"),
            bearer,
        },
    )
}

/// The provider's answer to the question after its models.
pub struct ModelsShape;

impl Shape for ModelsShape {
    open spec fn title() -> Seq<char> {
        "struct ProviderModelsResponse"@
    }

    open spec fn names() -> Seq<Seq<char>> {
        seq!["data"@]
    }

    open spec fn needed() -> nat {
        1
    }

    open spec fn may_lack(name: Seq<char>) -> bool {
        false
    }

    open spec fn fault(name: Seq<char>, member: JsonView) -> Option<Seq<char>> {
        list_fault(name, member)
    }

    proof fn names_are_sound() {
    }

    fn expected() -> (r: &'static str) {
        "struct ProviderModelsResponse"
    }

    fn member_names() -> (r: Vec<&'static str>) {
        let r: Vec<&'static str> = vec!["data"];
        assert(names_of(r@) =~= Self::names());
        r
    }

    fn needed_count() -> (r: usize) {
        1
    }

    fn can_lack(_name: &str) -> (r: bool) {
        false
    }

    fn find_fault(name: &str, member: &JsonValue) -> (r: Option<String>) {
        find_list_fault(name, member)
    }
}

/// The models that an answer states.
pub open spec fn stated_models(value: JsonView) -> Option<Seq<JsonView>> {
    match stated(value, seq!["data"@], 1) {
        Some(value) => match value.get_items("data"@) {
            Some(items) => Some(canonical_items(items)),
            None => None,
        },
        None => None,
    }
}

/// The models that the provider's answer lists, or what is wrong with it.
pub open spec fn offered_models(
    is_success: bool,
    status: Seq<char>,
    body: Seq<char>,
) -> Result<Seq<Seq<char>>, ServiceErrorView> {
    if !is_success {
        Err(plain_error("provider models request failed with HTTP "@ + status))
    } else {
        match members_parse(body) {
            Err(error) => Err(
                caused_error(
                    "provider models response was not OpenAI-compatible JSON"@,
                    undecodable(error),
                ),
            ),
            Ok(value) => match stated_models(value) {
                None => Err(
                    caused_error(
                        "provider models response was not OpenAI-compatible JSON"@,
                        undecodable(shape_error::<ModelsShape>(value)),
                    ),
                ),
                Some(items) => if listed_models(items).len() == 0 {
                    Err(plain_error("provider models response had no usable model IDs"@))
                } else {
                    Ok(distinct(listed_models(items)))
                },
            },
        }
    }
}

/// The model of an attempt to read the provider's models.
pub open spec fn offered_view(r: Result<Vec<String>, ServiceError>) -> Result<
    Seq<Seq<char>>,
    ServiceErrorView,
> {
    match r {
        Ok(models) => Ok(views(models@)),
        Err(error) => Err(error@),
    }
}

/// The provider's answer cannot be read exactly where it has not the shape of one.
pub proof fn law_models_shape(value: JsonView)
    ensures
        stated_models(value) is None <==> !has_shape::<ModelsShape>(value),
{
    let names = ModelsShape::names();
    assert(names[0] == "data"@);
}

/// The models that an answer states.
fn read_stated_models(value: &JsonValue) -> (r: Option<Vec<JsonValue>>)
    ensures
        match r {
            Some(items) => stated_models(value@) == Some(json_views(items@)),
            None => stated_models(value@) is None,
        },
{
    broadcast use {JsonValue::lemma_object_view, JsonValue::lemma_array_view};

    assert(names_of(["data"]@) =~= seq!["data"@]);
    let value = match read_stated(value, &["data"], 1) {
        Some(value) => value,
        None => {
            return None;
        },
    };
    match value.get("data") {
        Some(JsonValue::Array(items)) => Some(settled_documents(items)),
        _ => None,
    }
}

/// Reads the provider's answer to the question after its models.
pub fn read_provider_models(is_success: bool, status: &str, body: &str) -> (r: Result<
    Vec<String>,
    ServiceError,
>)
    ensures
        offered_view(r) == offered_models(is_success, status@, body@),
{
    if !is_success {
        return Err(
            ServiceError::plain(concat2("provider models request failed with HTTP ", status)),
        );
    }
    let fault = match JsonValue::parse_members(body) {
        Ok(value) => match read_stated_models(&value) {
            Some(items) => {
                let models = find_listed_models(&items);
                if models.len() == 0 {
                    return Err(
                        ServiceError::plain(
                            "provider models response had no usable model IDs".to_owned(),
                        ),
                    );
                }
                return Ok(deduped(&models));
            },
            None => {
                proof {
                    law_models_shape(value@);
                }
                shape_fault_of::<ModelsShape>(&value)
            },
        },
        Err(error) => error,
    };
    Err(
        ServiceError::caused(
            "provider models response was not OpenAI-compatible JSON".to_owned(),
            say_undecodable(fault.as_str()),
        ),
    )
}

/// The provider's models are named properly, each once, and there is at least one.
pub proof fn law_offered_models(is_success: bool, status: Seq<char>, body: Seq<char>)
    ensures
        offered_models(is_success, status, body) matches Ok(models) ==> models.len() > 0
            && are_given(models) && models.no_duplicates(),
{
    if is_success {
        match members_parse(body) {
            Ok(value) => match stated_models(value) {
                Some(items) => {
                    let listed = listed_models(items);
                    lemma_listed_models(items);
                    law_distinct(listed);
                    let models = distinct(listed);
                    if listed.len() > 0 {
                        assert(listed.contains(listed[0]));
                        assert(models.contains(listed[0]));
                        assert forall|i: int| 0 <= i < models.len() implies is_given(
                            #[trigger] models[i],
                        ) by {
                            assert(models.contains(models[i]));
                            let j = choose|j: int| 0 <= j < listed.len() && listed[j] == models[i];
                            assert(is_given(listed[j]));
                        }
                    }
                },
                None => {},
            },
            Err(_) => {},
        }
    }
}

proof fn lemma_listed_models(items: Seq<JsonView>)
    ensures
        are_given(listed_models(items)),
    decreases items.len(),
{
    if items.len() > 0 {
        lemma_listed_models(items.drop_last());
        if let Some(id) = listed_model(items.last()) {
            lemma_trim_idempotent(id);
        }
    }
}

/// A file of the service whose directory has to exist, and what is said where it cannot be made.
pub struct ServicePathView {
    pub path: Seq<char>,
    pub failure: Seq<char>,
}

/// A file of the service whose directory has to exist, and what is said where it cannot be made.
#[derive(Debug, PartialEq, Eq)]
pub struct ServicePath {
    pub path: String,
    pub failure: String,
}

impl ServicePath {
    pub open spec fn view(&self) -> ServicePathView {
        ServicePathView { path: self.path@, failure: self.failure@ }
    }
}

/// The models of a list of files.
pub open spec fn service_path_views(paths: Seq<ServicePath>) -> Seq<ServicePathView> {
    paths.map_values(|p: ServicePath| p@)
}

/// The file at the path, where there is one.
pub open spec fn service_path(path: Option<Seq<char>>, what: Seq<char>) -> Seq<ServicePathView> {
    match path {
        Some(path) => seq![ServicePathView { path, failure: what + " at "@ + path }],
        None => Seq::empty(),
    }
}

/// The files of the service, of those in its environment. A log path may say that there is no log.
pub open spec fn service_paths_of(env: Seq<(Seq<char>, Seq<char>)>) -> Seq<ServicePathView> {
    let db = given_option(value_under(env, "LOCAL_GRAPHQL_DB_PATH"@));
    let log = given_option(value_under(env, "LOCAL_SERVICE_LOG_PATH"@));
    service_path(db, "Failed to prepare local GraphQL DB path"@) + service_path(
        if log is Some && is_log_off(log->0) {
            None
        } else {
            log
        },
        "Failed to prepare local service log path"@,
    )
}

/// The log path says that there is no log.
pub open spec fn is_log_off(path: Seq<char>) -> bool {
    lower(path) == "false"@ || lower(path) == "off"@ || lower(path) == "0"@
}

fn path_to_prepare(path: &str, what: &str) -> (r: ServicePath)
    ensures
        r@ == (ServicePathView { path: path@, failure: what@ + " at "@ + path@ }),
{
    ServicePath { path: path.to_owned(), failure: concat3(what, " at ", path) }
}

/// The files whose directories have to exist before the service starts: the database first, and
/// the log.
pub fn prepare_service_paths(env: &TextMap) -> (r: Vec<ServicePath>)
    ensures
        service_path_views(r@) == service_paths_of(env@),
{
    let mut r: Vec<ServicePath> = Vec::new();
    if let Some(path) = env.get("LOCAL_GRAPHQL_DB_PATH") {
        if let Some(path) = non_empty_str(path) {
            r.push(path_to_prepare(path, "Failed to prepare local GraphQL DB path"));
        }
    }
    if let Some(path) = env.get("LOCAL_SERVICE_LOG_PATH") {
        if let Some(path) = non_empty_str(path) {
            let word = lowered(path);
            if !(same(word.as_str(), "false") || same(word.as_str(), "off") || same(
                word.as_str(),
                "0",
            )) {
                r.push(path_to_prepare(path, "Failed to prepare local service log path"));
            }
        }
    }
    assert(service_path_views(r@) =~= service_paths_of(env@));
    r
}

/// What is said where the service's port is taken.
pub open spec fn port_error(config: AgentConfigView, error: Seq<char>) -> ServiceErrorView {
    plain_error(
        "Port "@ + decimal(config.port as nat) + " on "@ + config.host
            + " is already in use and does not look like a healthy Warp local service: "@ + error,
    )
}

/// What is said where the service's port is taken.
pub fn port_in_use(config: &LocalMultiAgentConfig, error: &str) -> (r: ServiceError)
    ensures
        r@ == port_error(config@, error@),
{
    let place = concat3(
        concat2("Port ", decimal_of(config.port as u128).as_str()).as_str(),
        " on ",
        config.host.as_str(),
    );
    ServiceError::plain(
        concat3(
            place.as_str(),
            " is already in use and does not look like a healthy Warp local service: ",
            error,
        ),
    )
}

/// The address that the rest of the program reaches the service at: the one that was set, or the
/// built-in one where it is a network address.
pub open spec fn no_cloud_root(set: Option<Seq<char>>, built_in: Seq<char>) -> Option<Seq<char>> {
    match set {
        Some(url) => Some(url),
        None => match url_parse(built_in) {
            Ok(url) => if is_network_scheme(url.scheme) {
                Some(url_text(url))
            } else {
                None
            },
            Err(_) => None,
        },
    }
}

/// The address that the rest of the program reaches the service at.
pub fn local_no_cloud_root_url(set: Option<String>, built_in: &str) -> (r: Option<String>)
    ensures
        opt_view(r) == no_cloud_root(opt_view(set), built_in@),
{
    match set {
        Some(url) => Some(url),
        None => match parse_url(built_in) {
            Ok(url) => {
                if names_network_scheme(&url) {
                    Some(write_url(&url))
                } else {
                    None
                }
            },
            Err(_) => None,
        },
    }
}

} // verus!
