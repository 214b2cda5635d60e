//! Starting the service.
use crate::local_multi_agent::config::{
    ConfigErrorView, LocalMultiAgentConfig, LocalMultiAgentConfigError, ServicePlaces, config_error,
    root_of,
};
use crate::local_multi_agent::manager::{StartResultView, StartServiceResult};
use crate::local_multi_agent::service::{ServiceError, ServiceErrorView, caused_error, plain_error};
use crate::local_multi_agent::stored::fingerprint;
use crate::server_url::{
    UrlView, clear_url_fragment, clear_url_query, has_http_prefix, is_plain_path, parse_url, rooted,
    set_url_path, url_parse, url_text, write_url,
};
use crate::text::{concat3, opt_str_view};
use crate::text_map::{TextMap, value_under};
use vstd::prelude::*;

verus! {

/// What is known before the service is started.
#[derive(Debug, PartialEq, Eq)]
pub struct StartPlan {
    pub root_url: String,
    pub config_hash: String,
}

impl LocalMultiAgentConfig {
    /// Prepares the start of the service, where nothing is wrong with the configuration.
    pub fn plan_start(&self) -> (r: Result<StartPlan, LocalMultiAgentConfigError>)
        ensures
            match r {
                Ok(plan) => config_error(self@) is None && root_of(self@) == Ok::<
                    Seq<char>,
                    ConfigErrorView,
                >(plan.root_url@) && plan.config_hash@ == fingerprint(self@),
                Err(error) => config_error(self@) == Some(error@),
            },
    {
        if let Err(error) = self.validate() {
            return Err(error);
        }
        match self.root_url() {
            Ok(root_url) => Ok(StartPlan { root_url, config_hash: self.config_hash() }),
            Err(error) => Err(error),
        }
    }

    /// The environment that the process of the service is started with: that of the configuration,
    /// and the configuration's fingerprint.
    pub fn process_env(
        &self,
        openai_api_key: Option<&str>,
        places: &ServicePlaces,
    ) -> (r: TextMap)
        ensures
            forall|name: Seq<char>| #[trigger]
                value_under(r@, name) == (if name == "LOCAL_CONFIG_HASH"@ {
                    Some(fingerprint(self@))
                } else {
                    self@.variable(
                        name,
                        opt_str_view(openai_api_key),
                        places@,
                    )
                }),
    {
        let mut env = self.env(openai_api_key, places);
        env.insert("LOCAL_CONFIG_HASH".to_owned(), self.config_hash());
        env
    }
}

impl StartPlan {
    /// A healthy service was found: it is used, and no process is started.
    pub fn reused(self) -> (r: StartServiceResult)
        ensures
            r@ == (StartResultView {
                has_child: false,
                root_url: self.root_url@,
                pid: None,
                config_hash: self.config_hash@,
            }),
    {
        StartServiceResult {
            has_child: false,
            root_url: self.root_url,
            pid: None,
            config_hash: self.config_hash,
        }
    }

    /// A process was started, and is healthy.
    pub fn spawned(self, pid: u32) -> (r: StartServiceResult)
        ensures
            r@ == (StartResultView {
                has_child: true,
                root_url: self.root_url@,
                pid: Some(pid),
                config_hash: self.config_hash@,
            }),
    {
        StartServiceResult {
            has_child: true,
            root_url: self.root_url,
            pid: Some(pid),
            config_hash: self.config_hash,
        }
    }
}

/// Where the service answers the question after its health.
pub open spec fn health_url_of(root: UrlView) -> Seq<char> {
    url_text(UrlView { path: "/health"@, query: None, fragment: None, ..root })
}

/// Where the service answers the question after its health.
pub fn health_url(root_url: &str) -> (r: Result<String, ServiceError>)
    requires
        has_http_prefix(root_url@),
    ensures
        match url_parse(root_url@) {
            Ok(root) => r matches Ok(text) && text@ == health_url_of(root),
            Err(error) => r matches Err(e) && e@ == caused_error(
                "Failed to build local health URL"@,
                error,
            ),
        },
{
    match parse_url(root_url) {
        Ok(url) => {
            let mut url = url;
            proof {
                reveal_strlit("/health");
                assert(is_plain_path("/health"@));
                assert(rooted("/health"@) == "/health"@);
            }
            set_url_path(&mut url, "/health");
            clear_url_query(&mut url);
            clear_url_fragment(&mut url);
            Ok(write_url(&url))
        },
        Err(error) => Err(
            ServiceError::caused("Failed to build local health URL".to_owned(), error),
        ),
    }
}

/// What is said where the service's entry point is missing.
pub open spec fn entrypoint_error(path: Seq<char>) -> ServiceErrorView {
    plain_error(
        "Local multi-agent entrypoint not found at "@ + path
            + ". Build or bundle tools/local-multi-agent first."@,
    )
}

/// What is said where the service's entry point is missing.
pub fn missing_entrypoint(path: &str) -> (r: ServiceError)
    ensures
        r@ == entrypoint_error(path@),
{
    ServiceError::plain(
        concat3(
            "Local multi-agent entrypoint not found at ",
            path,
            ". Build or bundle tools/local-multi-agent first.",
        ),
    )
}

} // verus!
