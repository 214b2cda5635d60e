//! The slide of the first run on which the user connects an account or a provider of models.
//!
//! What the slide shows and what it does is decided here; drawing it, opening a browser and
//! talking to the account service are left to its surroundings, as effects.
use crate::local_multi_agent::config::{
    AgentConfigView, LocalMultiAgentConfig, choices_of, config_error, given, non_empty_str,
};
use crate::local_multi_agent::manager::{
    LocalMultiAgentManagerEvent, LocalMultiAgentTestStatus, TestStatusView,
};
use crate::text::{
    blank, concat2, concat3, contains_same, decimal, decimal_of, is_blank, opt_str_view, opt_view,
    same, same_option, trim, trim_end_char, trimmed, trimmed_end_char, views,
};
use vstd::prelude::*;

verus! {

pub const TOS_URL: &'static str = "https://www.warp.dev/terms-of-service";

/// What the user asks for.
#[derive(Debug, PartialEq, Eq)]
pub enum LoginSlideAction {
    Enter,
    ShowSkipDialog,
    ConfirmSkip,
    DismissDialog,
    DismissOverlayOrBack,
    Back,
    BackToSelectAuthPathway,
    CopyLoginUrl,
    EnterToken,
    ShowPrivacySettings,
    HideOverlay,
    ToggleTelemetry,
    ToggleCrashReporting,
    ToggleCloudConversationStorage,
    DismissNotification,
    PasteAuthUrl,
    TestProviderConnection,
    SetProviderDefaultModel(String),
}

/// What a text input of the slide tells.
#[derive(Clone, Copy, Debug, PartialEq, Eq, Structural)]
pub enum InputEvent {
    Edited,
    Paste,
    Enter,
    ShiftEnter,
    AltEnter,
    CmdEnter,
    Other,
}

impl InputEvent {
    /// What stands in the input is handed in.
    pub open spec fn hands_in(self) -> bool {
        self is Paste || self is Enter || self is ShiftEnter || self is AltEnter || self is CmdEnter
    }

    /// What stands in the input changed.
    pub open spec fn changes_text(self) -> bool {
        self is Edited || self is Paste
    }
}

/// What the slide tells those who watch it.
#[derive(Clone, Copy, Debug, PartialEq, Eq, Structural)]
pub enum LoginSlideEvent {
    BackToOnboarding,
    LoginLaterConfirmed,
}

/// How the user came to the slide. It says which step is shown first, and where the way back leads.
#[derive(Clone, Copy, Debug, PartialEq, Eq, Structural)]
pub enum LoginSlideSource {
    OnboardingFlow,
    LoginExistingUserFromWelcome,
    PrivacySettingsFromTerminalIntentionTheme,
}

/// What the user wants of the terminal.
#[derive(Clone, Copy, Debug, PartialEq, Eq, Structural)]
pub enum OnboardingIntention {
    AgentDrivenDevelopment,
    Terminal,
}

/// A step of the slide.
#[derive(Clone, Copy, Debug, PartialEq, Eq, Structural)]
pub enum LoginStep {
    SelectAuthPathway,
    BrowserOpen,
    PrivacySettings,
}

/// Why the last attempt to log in failed.
#[derive(Clone, Copy, Debug, PartialEq, Eq, Structural)]
pub enum LoginFailureReason {
    InvalidStateParameter,
    MissingStateParameter,
    FailedUserAuthentication,
    FailedMintCustomToken,
    InvalidRedirectUrl { was_pasted: bool },
}

/// Why a user was not recognised.
#[derive(Clone, Copy, Debug, PartialEq, Eq, Structural)]
pub enum UserAuthenticationError {
    InvalidStateParameter,
    MissingStateParameter,
    Other,
}

/// What the account service tells.
#[derive(Clone, Copy, Debug, PartialEq, Eq, Structural)]
pub enum AuthManagerEvent {
    AuthFailed(UserAuthenticationError),
    CreateAnonymousUserFailed,
    MintCustomTokenFailed,
    Other,
}

/// What is noted of the use of the slide.
#[derive(Clone, Copy, Debug, PartialEq, Eq, Structural)]
pub enum LoginTelemetry {
    LoginButtonClicked,
    LoginLaterButtonClicked,
    LoginLaterConfirmationButtonClicked,
    OpenAuthPrivacySettings,
}

/// What the slide asks of its surroundings.
#[derive(Debug, PartialEq, Eq)]
pub enum LoginSlideEffect {
    /// Draw the slide again.
    Notify,
    /// Give the slide the focus.
    FocusSelf,
    /// Note how the slide is used; `at_once` where the note must not be lost.
    Telemetry { event: LoginTelemetry, at_once: bool },
    /// Open the page on which the user signs up.
    OpenSignUpUrl,
    /// Put the address of the page on which the user signs in on the clipboard.
    CopySignInUrl,
    /// Paste into the input for the token.
    PasteIntoTokenInput,
    /// Read a text as the address that the account service redirects to.
    ReadAuthUrl { url: String },
    /// Log the user in with what the address that was read holds.
    InitializeUser,
    /// Say that the user did not log in.
    SkipLogin,
    /// Make an account without a name.
    CreateAnonymousUser,
    ToggleTelemetry,
    ToggleCrashReporting,
    ToggleCloudConversationStorage,
    /// Store the provider: its key, its address, and the service's configuration with that address.
    SaveProvider { base_url: String, api_key: Option<String> },
    /// Test the provider.
    TestBackend,
    /// Make a model the default.
    SetDefaultModel { model: String },
    /// Offer the models of the provider afresh.
    RefreshModels,
    Emit { event: LoginSlideEvent },
}

/// The model of a `LoginSlideEffect`.
pub enum LoginEffectView {
    Notify,
    FocusSelf,
    Telemetry { event: LoginTelemetry, at_once: bool },
    OpenSignUpUrl,
    CopySignInUrl,
    PasteIntoTokenInput,
    ReadAuthUrl { url: Seq<char> },
    InitializeUser,
    SkipLogin,
    CreateAnonymousUser,
    ToggleTelemetry,
    ToggleCrashReporting,
    ToggleCloudConversationStorage,
    SaveProvider { base_url: Seq<char>, api_key: Option<Seq<char>> },
    TestBackend,
    SetDefaultModel { model: Seq<char> },
    RefreshModels,
    Emit { event: LoginSlideEvent },
}

impl LoginSlideEffect {
    pub open spec fn view(&self) -> LoginEffectView {
        match self {
            LoginSlideEffect::Notify => LoginEffectView::Notify,
            LoginSlideEffect::FocusSelf => LoginEffectView::FocusSelf,
            LoginSlideEffect::Telemetry { event, at_once } => LoginEffectView::Telemetry {
                event: *event,
                at_once: *at_once,
            },
            LoginSlideEffect::OpenSignUpUrl => LoginEffectView::OpenSignUpUrl,
            LoginSlideEffect::CopySignInUrl => LoginEffectView::CopySignInUrl,
            LoginSlideEffect::PasteIntoTokenInput => LoginEffectView::PasteIntoTokenInput,
            LoginSlideEffect::ReadAuthUrl { url } => LoginEffectView::ReadAuthUrl { url: url@ },
            LoginSlideEffect::InitializeUser => LoginEffectView::InitializeUser,
            LoginSlideEffect::SkipLogin => LoginEffectView::SkipLogin,
            LoginSlideEffect::CreateAnonymousUser => LoginEffectView::CreateAnonymousUser,
            LoginSlideEffect::ToggleTelemetry => LoginEffectView::ToggleTelemetry,
            LoginSlideEffect::ToggleCrashReporting => LoginEffectView::ToggleCrashReporting,
            LoginSlideEffect::ToggleCloudConversationStorage => {
                LoginEffectView::ToggleCloudConversationStorage
            },
            LoginSlideEffect::SaveProvider { base_url, api_key } => LoginEffectView::SaveProvider {
                base_url: base_url@,
                api_key: opt_view(*api_key),
            },
            LoginSlideEffect::TestBackend => LoginEffectView::TestBackend,
            LoginSlideEffect::SetDefaultModel { model } => LoginEffectView::SetDefaultModel {
                model: model@,
            },
            LoginSlideEffect::RefreshModels => LoginEffectView::RefreshModels,
            LoginSlideEffect::Emit { event } => LoginEffectView::Emit { event: *event },
        }
    }
}

/// The models of a list of effects.
pub open spec fn login_effects(effects: Seq<LoginSlideEffect>) -> Seq<LoginEffectView> {
    effects.map_values(|e: LoginSlideEffect| e@)
}

/// What the slide has to know of its surroundings.
#[derive(Debug)]
pub struct LoginContext {
    pub product_name: String,
    pub base_url_input: String,
    pub api_key_input: String,
    pub stored_api_key: Option<String>,
    pub config: LocalMultiAgentConfig,
    pub test_status: LocalMultiAgentTestStatus,
    pub skips_anonymous_user: bool,
    pub clipboard: String,
}

/// The model of a `LoginContext`.
pub struct LoginContextView {
    pub product_name: Seq<char>,
    pub base_url_input: Seq<char>,
    pub api_key_input: Seq<char>,
    pub stored_api_key: Option<Seq<char>>,
    pub config: AgentConfigView,
    pub test_status: TestStatusView,
    pub skips_anonymous_user: bool,
    pub clipboard: Seq<char>,
}

impl LoginContext {
    pub open spec fn view(&self) -> LoginContextView {
        LoginContextView {
            product_name: self.product_name@,
            base_url_input: self.base_url_input@,
            api_key_input: self.api_key_input@,
            stored_api_key: opt_view(self.stored_api_key),
            config: self.config@,
            test_status: self.test_status@,
            skips_anonymous_user: self.skips_anonymous_user,
            clipboard: self.clipboard@,
        }
    }
}

/// What stands in the input for the provider's address at first: the stored address as it is, or
/// that of the usual provider.
pub fn initial_base_url(stored: Option<&str>) -> (r: String)
    ensures
        r@ == (match opt_str_view(stored) {
            Some(url) => url,
            None => "https://api.openai.com/v1"@,
        }),
{
    match stored {
        Some(url) => url.to_owned(),
        None => "https://api.openai.com/v1".to_owned(),
    }
}

/// What stands in the input for the provider's key at first: the stored key, where there is one.
pub fn initial_api_key(stored: Option<&str>) -> (r: String)
    ensures
        r@ == (match opt_str_view(stored) {
            Some(key) => key,
            None => Seq::empty(),
        }),
{
    match stored {
        Some(key) => key.to_owned(),
        None => {
            let r = String::new();
            assert(r@ =~= Seq::empty());
            r
        },
    }
}

/// The picture that is shown beside the slide.
pub open spec fn visual_path(
    intention: OnboardingIntention,
    theme_name: Seq<char>,
    use_vertical_tabs: bool,
) -> Seq<char> {
    "async/png/onboarding/"@ + (match intention {
        OnboardingIntention::AgentDrivenDevelopment => "agent_intention"@,
        OnboardingIntention::Terminal => "terminal_intention"@,
    }) + "/theme/theme_"@ + (if theme_name == "Phenomenon"@ {
        "phenomenon"@
    } else if theme_name == "Light"@ {
        "light"@
    } else if theme_name == "Adeberry"@ {
        "adeberry"@
    } else {
        "dark"@
    }) + (if use_vertical_tabs {
        "_vertical.png"@
    } else {
        "_horizontal.png"@
    })
}

/// The picture that is shown beside the slide.
pub fn resolve_visual_path(
    intention: OnboardingIntention,
    theme_name: &str,
    use_vertical_tabs: bool,
) -> (r: String)
    ensures
        r@ == visual_path(intention, theme_name@, use_vertical_tabs),
{
    let directory = match intention {
        OnboardingIntention::AgentDrivenDevelopment => "agent_intention",
        OnboardingIntention::Terminal => "terminal_intention",
    };
    let name = if same(theme_name, "Phenomenon") {
        "phenomenon"
    } else if same(theme_name, "Light") {
        "light"
    } else if same(theme_name, "Adeberry") {
        "adeberry"
    } else {
        "dark"
    };
    let ending = if use_vertical_tabs {
        "_vertical.png"
    } else {
        "_horizontal.png"
    };
    let place = concat3("async/png/onboarding/", directory, "/theme/theme_");
    concat3(place.as_str(), name, ending)
}

/// The state of the slide.
pub struct LoginView {
    pub ai_enabled: bool,
    pub intention: OnboardingIntention,
    pub visual_path: Seq<char>,
    pub step: LoginStep,
    pub dialog_open: bool,
    pub failure: Option<LoginFailureReason>,
    pub source: LoginSlideSource,
    pub token_input_shown: bool,
    pub setup_error: Option<Seq<char>>,
}

/// The step that is shown first.
pub open spec fn first_step(source: LoginSlideSource) -> LoginStep {
    match source {
        LoginSlideSource::OnboardingFlow => LoginStep::SelectAuthPathway,
        LoginSlideSource::LoginExistingUserFromWelcome => LoginStep::BrowserOpen,
        LoginSlideSource::PrivacySettingsFromTerminalIntentionTheme => LoginStep::PrivacySettings,
    }
}

/// The address of the provider in its input: without space and slashes at its end.
pub open spec fn entered_base_url(ctx: LoginContextView) -> Option<Seq<char>> {
    let url = trim_end_char(trim(ctx.base_url_input), '/');
    if url.len() == 0 {
        None
    } else {
        Some(url)
    }
}

/// The key for the provider in its input.
pub open spec fn entered_api_key(ctx: LoginContextView) -> Option<Seq<char>> {
    given(ctx.api_key_input)
}

/// The configuration with the address that was entered.
pub open spec fn config_with_url(ctx: LoginContextView, base_url: Seq<char>) -> AgentConfigView {
    AgentConfigView { openai_base_url: Some(base_url), ..ctx.config }
}

/// The slide goes back to the onboarding.
pub open spec fn back_to_onboarding() -> Seq<LoginEffectView> {
    seq![LoginEffectView::Emit { event: LoginSlideEvent::BackToOnboarding }]
}

impl LoginView {
    /// The user connects a provider of models in place of an account.
    pub open spec fn has_provider_setup(self) -> bool {
        self.ai_enabled && self.source == LoginSlideSource::OnboardingFlow
    }

    /// The input for the token is shown.
    pub open spec fn shows_token_input(self) -> bool {
        self.step == LoginStep::BrowserOpen && self.token_input_shown
    }

    /// Text inputs may have the focus.
    pub open spec fn allows_text_input(self) -> bool {
        self.shows_token_input() || (self.step == LoginStep::SelectAuthPathway
            && self.has_provider_setup())
    }

    /// The provider that was entered is the one that was tested, and a model is chosen.
    pub open spec fn connection_verified(self, ctx: LoginContextView) -> bool {
        &&& self.has_provider_setup()
        &&& ctx.test_status is Passed
        &&& ctx.config.openai_model is Some && !is_blank(ctx.config.openai_model->0)
        &&& entered_base_url(ctx) == (match ctx.config.openai_base_url {
            Some(url) => Some(trim_end_char(trim(url), '/')),
            None => None,
        })
        &&& entered_api_key(ctx) == ctx.stored_api_key
    }

    /// What was entered is stored, or what is wrong with it.
    pub open spec fn provider_persisted(self, require_api_key: bool, ctx: LoginContextView) -> (
        LoginView,
        Seq<LoginEffectView>,
        bool,
    ) {
        match entered_base_url(ctx) {
            None => (
                LoginView { setup_error: Some("OpenAI Base URL is required."@), ..self },
                Seq::empty(),
                false,
            ),
            Some(base_url) => if require_api_key && entered_api_key(ctx) is None {
                (
                    LoginView { setup_error: Some("OpenAI API key is required."@), ..self },
                    Seq::empty(),
                    false,
                )
            } else {
                let saved = seq![
                    LoginEffectView::SaveProvider { base_url, api_key: entered_api_key(ctx) },
                ];
                if config_error(config_with_url(ctx, base_url)) is Some {
                    (self, saved, false)
                } else {
                    (LoginView { setup_error: None, ..self }, saved, true)
                }
            },
        }
    }

    /// What was entered is stored; where that works, something follows.
    pub open spec fn persisted_then(
        self,
        require_api_key: bool,
        ctx: LoginContextView,
        follows: LoginEffectView,
    ) -> (LoginView, Seq<LoginEffectView>) {
        let (next, effects, ok) = self.provider_persisted(require_api_key, ctx);
        (
            next,
            (if ok {
                effects.push(follows)
            } else {
                effects
            }).push(LoginEffectView::Notify),
        )
    }

    /// The user logs in later.
    pub open spec fn login_later(self, ctx: LoginContextView) -> Seq<LoginEffectView> {
        seq![
            LoginEffectView::Telemetry {
                event: LoginTelemetry::LoginLaterConfirmationButtonClicked,
                at_once: true,
            },
            if ctx.skips_anonymous_user {
                LoginEffectView::SkipLogin
            } else {
                LoginEffectView::CreateAnonymousUser
            },
            LoginEffectView::Emit { event: LoginSlideEvent::LoginLaterConfirmed },
        ]
    }

    /// The first step is shown again.
    pub open spec fn to_select_auth(self) -> (LoginView, Seq<LoginEffectView>) {
        (
            LoginView { step: LoginStep::SelectAuthPathway, ..self },
            seq![LoginEffectView::FocusSelf, LoginEffectView::Notify],
        )
    }

    /// The user confirms.
    pub open spec fn entered(self, ctx: LoginContextView) -> (LoginView, Seq<LoginEffectView>) {
        if self.dialog_open {
            (LoginView { dialog_open: false, ..self }, self.login_later(ctx))
        } else if self.has_provider_setup() {
            self.persisted_then(
                false,
                ctx,
                if self.connection_verified(ctx) {
                    LoginEffectView::Emit { event: LoginSlideEvent::LoginLaterConfirmed }
                } else {
                    LoginEffectView::TestBackend
                },
            )
        } else {
            (
                LoginView { failure: None, step: LoginStep::BrowserOpen, ..self },
                seq![
                    LoginEffectView::Telemetry {
                        event: LoginTelemetry::LoginButtonClicked,
                        at_once: false,
                    },
                    LoginEffectView::OpenSignUpUrl,
                    LoginEffectView::Notify,
                ],
            )
        }
    }

    /// The user closes the dialog, or goes back from the step that is shown.
    pub open spec fn dismissed_or_back(self) -> (LoginView, Seq<LoginEffectView>) {
        if self.dialog_open {
            (LoginView { dialog_open: false, ..self }, seq![LoginEffectView::Notify])
        } else {
            match self.step {
                LoginStep::PrivacySettings => self.privacy_left(),
                LoginStep::BrowserOpen => self.browser_left(),
                LoginStep::SelectAuthPathway => (self, back_to_onboarding()),
            }
        }
    }

    /// The user leaves the privacy settings.
    pub open spec fn privacy_left(self) -> (LoginView, Seq<LoginEffectView>) {
        match self.source {
            LoginSlideSource::PrivacySettingsFromTerminalIntentionTheme => (
                self,
                back_to_onboarding(),
            ),
            _ => self.to_select_auth(),
        }
    }

    /// The user goes back from the browser step.
    pub open spec fn browser_left(self) -> (LoginView, Seq<LoginEffectView>) {
        match self.source {
            LoginSlideSource::OnboardingFlow => self.to_select_auth(),
            _ => (self, back_to_onboarding()),
        }
    }

    /// What follows what the user asks for.
    pub open spec fn after(self, action: LoginSlideAction, ctx: LoginContextView) -> (
        LoginView,
        Seq<LoginEffectView>,
    ) {
        match action {
            LoginSlideAction::Enter => self.entered(ctx),
            LoginSlideAction::ShowSkipDialog => (
                LoginView { dialog_open: true, ..self },
                seq![
                    LoginEffectView::Telemetry {
                        event: LoginTelemetry::LoginLaterButtonClicked,
                        at_once: false,
                    },
                    LoginEffectView::Notify,
                ],
            ),
            LoginSlideAction::ConfirmSkip => (
                LoginView { dialog_open: false, ..self },
                self.login_later(ctx),
            ),
            LoginSlideAction::DismissDialog => (
                LoginView { dialog_open: false, ..self },
                seq![LoginEffectView::Notify],
            ),
            LoginSlideAction::DismissOverlayOrBack => self.dismissed_or_back(),
            LoginSlideAction::Back => (self, back_to_onboarding()),
            LoginSlideAction::BackToSelectAuthPathway => self.browser_left(),
            LoginSlideAction::CopyLoginUrl => (self, seq![LoginEffectView::CopySignInUrl]),
            LoginSlideAction::EnterToken => (
                LoginView { token_input_shown: true, ..self },
                seq![LoginEffectView::PasteIntoTokenInput, LoginEffectView::Notify],
            ),
            LoginSlideAction::ShowPrivacySettings => if ctx.product_name == "Slipstream"@ {
                (self, Seq::empty())
            } else {
                (
                    LoginView { step: LoginStep::PrivacySettings, ..self },
                    seq![
                        LoginEffectView::Telemetry {
                            event: LoginTelemetry::OpenAuthPrivacySettings,
                            at_once: true,
                        },
                        LoginEffectView::Notify,
                    ],
                )
            },
            LoginSlideAction::HideOverlay => {
                LoginView { dialog_open: false, ..self }.privacy_left()
            },
            LoginSlideAction::ToggleTelemetry => (
                self,
                seq![LoginEffectView::ToggleTelemetry, LoginEffectView::Notify],
            ),
            LoginSlideAction::ToggleCrashReporting => (
                self,
                seq![LoginEffectView::ToggleCrashReporting, LoginEffectView::Notify],
            ),
            LoginSlideAction::ToggleCloudConversationStorage => (
                self,
                seq![LoginEffectView::ToggleCloudConversationStorage, LoginEffectView::Notify],
            ),
            LoginSlideAction::DismissNotification => (
                LoginView { failure: None, ..self },
                seq![LoginEffectView::Notify],
            ),
            LoginSlideAction::PasteAuthUrl => (
                LoginView { failure: None, ..self },
                if ctx.clipboard.len() == 0 {
                    Seq::empty()
                } else {
                    seq![LoginEffectView::ReadAuthUrl { url: ctx.clipboard }]
                },
            ),
            LoginSlideAction::TestProviderConnection => self.persisted_then(
                false,
                ctx,
                LoginEffectView::TestBackend,
            ),
            LoginSlideAction::SetProviderDefaultModel(model) => (
                LoginView { setup_error: None, ..self },
                seq![
                    LoginEffectView::SetDefaultModel { model: model@ },
                    LoginEffectView::Notify,
                ],
            ),
        }
    }
}

/// How a line of the form is coloured.
#[derive(Clone, Copy, Debug, PartialEq, Eq, Structural)]
pub enum StatusTone {
    Muted,
    Success,
    Failure,
}

/// The line under the form: what went wrong, or how the test of the provider goes.
pub open spec fn form_status(error: Option<Seq<char>>, status: TestStatusView) -> Option<
    (Seq<char>, StatusTone),
> {
    match (error, status) {
        (Some(error), _) => Some((error, StatusTone::Failure)),
        (None, TestStatusView::Testing) => Some(("Testing connection..."@, StatusTone::Muted)),
        (None, TestStatusView::Passed { model_count }) => Some(
            (
                "Connection verified. Found "@ + decimal(model_count) + " models."@,
                StatusTone::Success,
            ),
        ),
        (None, TestStatusView::Failed { message }) => Some(
            ("Connection failed: "@ + message, StatusTone::Failure),
        ),
        (None, TestStatusView::NotRun) => None,
    }
}

/// What the first step shows.
#[derive(Debug, PartialEq, Eq)]
pub struct SelectAuthContent {
    pub title: String,
    pub subtitle: String,
    /// The line on the terms, and whether the link to them follows it.
    pub terms: String,
    pub has_terms_link: bool,
    /// The line before the link to the privacy settings, where that is shown.
    pub privacy_prefix: Option<String>,
    /// The form for the provider, where it is shown.
    pub form: Option<ProviderForm>,
}

/// The form for the provider.
#[derive(Debug, PartialEq, Eq)]
pub struct ProviderForm {
    pub has_model_selector: bool,
    pub status: Option<(String, StatusTone)>,
}

/// The model of a `SelectAuthContent`.
pub struct SelectAuthView {
    pub title: Seq<char>,
    pub subtitle: Seq<char>,
    pub terms: Seq<char>,
    pub has_terms_link: bool,
    pub privacy_prefix: Option<Seq<char>>,
    pub form: Option<(bool, Option<(Seq<char>, StatusTone)>)>,
}

impl SelectAuthContent {
    pub open spec fn view(&self) -> SelectAuthView {
        SelectAuthView {
            title: self.title@,
            subtitle: self.subtitle@,
            terms: self.terms@,
            has_terms_link: self.has_terms_link,
            privacy_prefix: opt_view(self.privacy_prefix),
            form: match self.form {
                Some(form) => Some(
                    (
                        form.has_model_selector,
                        match form.status {
                            Some((text, tone)) => Some((text@, tone)),
                            None => None,
                        },
                    ),
                ),
                None => None,
            },
        }
    }
}

impl LoginView {
    /// What stands before the link to the privacy settings.
    pub open spec fn privacy_prefix(self) -> Seq<char> {
        if self.ai_enabled {
            "If you'd like to opt out of analytics and AI features, you can adjust your "@
        } else {
            "If you'd like to opt out of analytics, you can adjust your "@
        }
    }

    /// What the first step shows.
    pub open spec fn select_auth_content(self, product_name: Seq<char>, status: TestStatusView) -> SelectAuthView {
        let setup = self.has_provider_setup();
        let is_terminal = self.intention == OnboardingIntention::Terminal;
        SelectAuthView {
            title: if setup {
                "Connect your AI provider"@
            } else if is_terminal {
                "Get started with "@ + product_name + " Drive"@
            } else {
                "Get started with AI"@
            },
            subtitle: if setup {
                "Enter an OpenAI-compatible Base URL and API key. "@ + product_name
                    + " uses this connection locally for AI features."@
            } else if is_terminal {
                "Connect your account to save and share notebooks, workflows, and more across devices."@
            } else {
                "Connect your account to enable AI-powered planning, coding, and automation."@
            },
            terms: if setup {
                "Your API key is stored locally and sent only to your configured provider."@
            } else {
                "By continuing, you agree to "@ + product_name + "'s "@
            },
            has_terms_link: !setup,
            privacy_prefix: if product_name == "Slipstream"@ {
                None
            } else {
                Some(self.privacy_prefix())
            },
            form: if setup {
                Some((status is Passed, form_status(self.setup_error, status)))
            } else {
                None
            },
        }
    }
}

/// The buttons below the first step.
#[derive(Debug, PartialEq, Eq)]
pub enum SelectAuthNav {
    /// The provider is tested, and its use confirmed.
    Provider { test_label: String, can_test: bool, can_continue: bool },
    /// An account is skipped, or connected.
    Account { skip_label: String },
}

/// The model of a `SelectAuthNav`.
pub enum SelectAuthNavView {
    Provider { test_label: Seq<char>, can_test: bool, can_continue: bool },
    Account { skip_label: Seq<char> },
}

impl SelectAuthNav {
    pub open spec fn view(&self) -> SelectAuthNavView {
        match self {
            SelectAuthNav::Provider { test_label, can_test, can_continue } => {
                SelectAuthNavView::Provider {
                    test_label: test_label@,
                    can_test: *can_test,
                    can_continue: *can_continue,
                }
            },
            SelectAuthNav::Account { skip_label } => SelectAuthNavView::Account {
                skip_label: skip_label@,
            },
        }
    }
}

impl LoginView {
    /// The buttons below the first step. The provider can be tested once it has an address and
    /// while no test runs, and used once it is verified.
    pub open spec fn select_auth_nav(self, ctx: LoginContextView, drive_name: Seq<char>) -> SelectAuthNavView {
        if self.has_provider_setup() {
            SelectAuthNavView::Provider {
                test_label: match ctx.test_status {
                    TestStatusView::NotRun => "Test connection"@,
                    TestStatusView::Testing => "Testing..."@,
                    TestStatusView::Passed { .. } => "Retest connection"@,
                    TestStatusView::Failed { .. } => "Retry connection"@,
                },
                can_test: !(ctx.test_status is Testing) && entered_base_url(ctx) is Some,
                can_continue: self.connection_verified(ctx),
            }
        } else {
            SelectAuthNavView::Account {
                skip_label: if self.intention == OnboardingIntention::Terminal {
                    "Disable "@ + drive_name
                } else {
                    "Disable AI features"@
                },
            }
        }
    }
}

/// What stands where the token is entered. The slide is laid out twice, once for narrow windows;
/// the input itself must stand in one of the two only.
#[derive(Clone, Copy, Debug, PartialEq, Eq, Structural)]
pub enum TokenField {
    Link,
    Placeholder,
    Input,
}

/// What stands where the token is entered, and whether an input has been laid out after that.
pub open spec fn token_field(shown: bool, laid_out: bool) -> (TokenField, bool) {
    if !shown {
        (TokenField::Link, laid_out)
    } else if laid_out {
        (TokenField::Input, true)
    } else {
        (TokenField::Placeholder, true)
    }
}

/// Laid out twice, the slide holds one input for the token where it is shown, and no input
/// otherwise.
pub proof fn law_one_token_input(shown: bool)
    ensures
        ({
            let (first, laid_out) = token_field(shown, false);
            let (second, _) = token_field(shown, laid_out);
            first != TokenField::Input && (second == TokenField::Input) == shown
        }),
{
}

/// What the dialog that asks whether to skip says.
#[derive(Debug, PartialEq, Eq)]
pub struct SkipDialog {
    pub title: String,
    pub body: String,
    /// The features that are listed are those of the drive; otherwise those of the models.
    pub lists_drive_features: bool,
    pub cancel_label: String,
}

/// The model of a `SkipDialog`.
pub struct SkipDialogView {
    pub title: Seq<char>,
    pub body: Seq<char>,
    pub lists_drive_features: bool,
    pub cancel_label: Seq<char>,
}

impl SkipDialog {
    pub open spec fn view(&self) -> SkipDialogView {
        SkipDialogView {
            title: self.title@,
            body: self.body@,
            lists_drive_features: self.lists_drive_features,
            cancel_label: self.cancel_label@,
        }
    }
}

/// What the dialog that asks whether to skip says.
pub open spec fn skip_dialog_of(
    intention: OnboardingIntention,
    product_name: Seq<char>,
    drive_name: Seq<char>,
) -> SkipDialogView {
    match intention {
        OnboardingIntention::Terminal => SkipDialogView {
            title: "Are you sure you want to disable "@ + drive_name + "?"@,
            body: drive_name
                + " lets you save workflows and knowledge across devices and share them with your team. By continuing, you won't have access to the following features:"@,
            lists_drive_features: true,
            cancel_label: "Enable "@ + drive_name,
        },
        OnboardingIntention::AgentDrivenDevelopment => SkipDialogView {
            title: "Are you sure you want to disable AI features?"@,
            body: product_name
                + " is better with AI. By continuing, you won't have access to any of the following features:"@,
            lists_drive_features: false,
            cancel_label: "Enable AI features"@,
        },
    }
}

/// How the slide is laid out.
#[derive(Clone, Copy, Debug, PartialEq, Eq, Structural)]
pub struct SlideLayout {
    /// The content stands alone in the middle; otherwise beside a picture.
    pub is_centered: bool,
    pub shows_skip_dialog: bool,
    pub shows_failure: bool,
    /// How much the background covers its image, in percent, where it has one.
    pub overlay_opacity: Option<u8>,
}

/// How the slide is laid out.
pub open spec fn layout_of(view: LoginView, image_opacity: Option<u8>) -> SlideLayout {
    SlideLayout {
        is_centered: view.has_provider_setup() && view.step == LoginStep::SelectAuthPathway,
        shows_skip_dialog: view.dialog_open,
        shows_failure: view.failure is Some,
        overlay_opacity: match image_opacity {
            Some(opacity) => Some(
                if opacity >= 100 {
                    0u8
                } else {
                    (100 - opacity) as u8
                },
            ),
            None => None,
        },
    }
}

/// The list of models in the form: whether it can be used, what it offers and what is chosen.
#[derive(Debug, PartialEq, Eq)]
pub struct ModelDropdown {
    pub is_enabled: bool,
    pub choices: Vec<String>,
    pub selected: Option<String>,
}

/// The model that is chosen: that of the configuration where it is offered, or else the first.
pub open spec fn selected_choice(model: Option<Seq<char>>, choices: Seq<Seq<char>>) -> Option<
    Seq<char>,
> {
    if model is Some && choices.contains(model->0) {
        model
    } else if choices.len() > 0 {
        Some(choices[0])
    } else {
        None
    }
}

/// The list of models in the form.
pub fn provider_model_dropdown(
    config: &LocalMultiAgentConfig,
    discovered_models: &Vec<String>,
    test_status: &LocalMultiAgentTestStatus,
) -> (r: ModelDropdown)
    ensures
        views(r.choices@) == choices_of(config@, views(discovered_models@)),
        r.is_enabled == (test_status@ is Passed && r.choices@.len() > 0),
        opt_view(r.selected) == selected_choice(config@.openai_model, views(r.choices@)),
{
    let choices = config.model_choices(discovered_models);
    assert(views(choices@).len() == choices@.len());
    let own = match &config.openai_model {
        Some(model) => {
            if contains_same(&choices, model.as_str()) {
                Some(model.clone())
            } else {
                None
            }
        },
        None => None,
    };
    let selected = match own {
        Some(model) => Some(model),
        None => {
            if choices.len() > 0 {
                assert(views(choices@)[0] == choices@[0]@);
                Some(choices[0].clone())
            } else {
                None
            }
        },
    };
    let passed = has_passed(test_status);
    ModelDropdown { is_enabled: passed && choices.len() > 0, choices, selected }
}

fn has_passed(test_status: &LocalMultiAgentTestStatus) -> (r: bool)
    ensures
        r == (test_status@ is Passed),
{
    match test_status {
        LocalMultiAgentTestStatus::Passed { .. } => true,
        _ => false,
    }
}

/// What went wrong, as the account service tells it.
pub open spec fn failure_of(event: AuthManagerEvent) -> Option<LoginFailureReason> {
    match event {
        AuthManagerEvent::AuthFailed(UserAuthenticationError::InvalidStateParameter) => {
            Some(LoginFailureReason::InvalidStateParameter)
        },
        AuthManagerEvent::AuthFailed(UserAuthenticationError::MissingStateParameter) => {
            Some(LoginFailureReason::MissingStateParameter)
        },
        AuthManagerEvent::AuthFailed(UserAuthenticationError::Other) => {
            Some(LoginFailureReason::FailedUserAuthentication)
        },
        AuthManagerEvent::CreateAnonymousUserFailed => {
            Some(LoginFailureReason::FailedUserAuthentication)
        },
        AuthManagerEvent::MintCustomTokenFailed => {
            Some(LoginFailureReason::FailedMintCustomToken)
        },
        AuthManagerEvent::Other => None,
    }
}

/// The slide.
#[derive(Debug)]
pub struct LoginSlideView {
    ai_enabled: bool,
    intention: OnboardingIntention,
    theme_visual_path: String,
    step: LoginStep,
    dialog_open: bool,
    last_login_failure_reason: Option<LoginFailureReason>,
    source: LoginSlideSource,
    show_auth_token_input: bool,
    provider_setup_error: Option<String>,
}

fn push_login_effect(effects: &mut Vec<LoginSlideEffect>, effect: LoginSlideEffect)
    ensures
        login_effects(final(effects)@) == login_effects(old(effects)@).push(effect@),
{
    let ghost before = login_effects(effects@);
    effects.push(effect);
    assert(login_effects(effects@) =~= before.push(effect@));
}

fn one_effect(effect: LoginSlideEffect) -> (r: Vec<LoginSlideEffect>)
    ensures
        login_effects(r@) == seq![effect@],
{
    let mut r: Vec<LoginSlideEffect> = Vec::new();
    assert(login_effects(r@) =~= Seq::empty());
    push_login_effect(&mut r, effect);
    assert(login_effects(r@) =~= seq![effect@]);
    r
}

fn two_effects(a: LoginSlideEffect, b: LoginSlideEffect) -> (r: Vec<LoginSlideEffect>)
    ensures
        login_effects(r@) == seq![a@, b@],
{
    let mut r = one_effect(a);
    push_login_effect(&mut r, b);
    assert(login_effects(r@) =~= seq![a@, b@]);
    r
}

fn three_effects(a: LoginSlideEffect, b: LoginSlideEffect, c: LoginSlideEffect) -> (r: Vec<
    LoginSlideEffect,
>)
    ensures
        login_effects(r@) == seq![a@, b@, c@],
{
    let mut r = two_effects(a, b);
    push_login_effect(&mut r, c);
    assert(login_effects(r@) =~= seq![a@, b@, c@]);
    r
}

fn emit_back() -> (r: Vec<LoginSlideEffect>)
    ensures
        login_effects(r@) == back_to_onboarding(),
{
    one_effect(LoginSlideEffect::Emit { event: LoginSlideEvent::BackToOnboarding })
}

impl LoginContext {
    fn base_url(&self) -> (r: Option<String>)
        ensures
            opt_view(r) == entered_base_url(self@),
    {
        let url = trimmed_end_char(trimmed(self.base_url_input.as_str()), '/');
        if url.unicode_len() == 0 {
            None
        } else {
            Some(url.to_owned())
        }
    }

    fn api_key(&self) -> (r: Option<String>)
        ensures
            opt_view(r) == entered_api_key(self@),
    {
        match non_empty_str(self.api_key_input.as_str()) {
            Some(key) => Some(key.to_owned()),
            None => None,
        }
    }
}

impl LoginSlideView {
    pub closed spec fn view(&self) -> LoginView {
        LoginView {
            ai_enabled: self.ai_enabled,
            intention: self.intention,
            visual_path: self.theme_visual_path@,
            step: self.step,
            dialog_open: self.dialog_open,
            failure: self.last_login_failure_reason,
            source: self.source,
            token_input_shown: self.show_auth_token_input,
            setup_error: opt_view(self.provider_setup_error),
        }
    }

    /// A slide for a user who came from somewhere.
    pub fn new(
        ai_enabled: bool,
        theme_name: &str,
        use_vertical_tabs: bool,
        intention: OnboardingIntention,
        source: LoginSlideSource,
    ) -> (r: Self)
        ensures
            r@ == (LoginView {
                ai_enabled,
                intention,
                visual_path: visual_path(intention, theme_name@, use_vertical_tabs),
                step: first_step(source),
                dialog_open: false,
                failure: None,
                source,
                token_input_shown: false,
                setup_error: None,
            }),
    {
        LoginSlideView {
            ai_enabled,
            intention,
            theme_visual_path: resolve_visual_path(intention, theme_name, use_vertical_tabs),
            step: match source {
                LoginSlideSource::OnboardingFlow => LoginStep::SelectAuthPathway,
                LoginSlideSource::LoginExistingUserFromWelcome => LoginStep::BrowserOpen,
                LoginSlideSource::PrivacySettingsFromTerminalIntentionTheme => {
                    LoginStep::PrivacySettings
                },
            },
            dialog_open: false,
            last_login_failure_reason: None,
            source,
            show_auth_token_input: false,
            provider_setup_error: None,
        }
    }

    /// The step that is shown.
    pub fn step(&self) -> (r: LoginStep)
        ensures
            r == self@.step,
    {
        self.step
    }

    /// The picture that is shown beside the slide.
    pub fn theme_visual_path(&self) -> (r: &str)
        ensures
            r@ == self@.visual_path,
    {
        self.theme_visual_path.as_str()
    }

    /// Why the last attempt to log in failed.
    pub fn last_login_failure_reason(&self) -> (r: Option<LoginFailureReason>)
        ensures
            r == self@.failure,
    {
        self.last_login_failure_reason
    }

    /// What is wrong with the provider that was entered.
    pub fn provider_setup_error(&self) -> (r: Option<&str>)
        ensures
            opt_str_view(r) == self@.setup_error,
    {
        match &self.provider_setup_error {
            Some(error) => Some(error.as_str()),
            None => None,
        }
    }

    /// Takes up what the inputs for the provider's address and key tell: where something was typed,
    /// what is wrong with the provider is forgotten.
    pub fn handle_provider_input_event(&mut self, event: InputEvent) -> (r: Vec<LoginSlideEffect>)
        ensures
            (final(self)@, login_effects(r@)) == (if event.changes_text() {
                (LoginView { setup_error: None, ..old(self)@ }, seq![LoginEffectView::Notify])
            } else {
                (old(self)@, Seq::<LoginEffectView>::empty())
            }),
    {
        match event {
            InputEvent::Edited | InputEvent::Paste => {
                self.provider_setup_error = None;
                one_effect(LoginSlideEffect::Notify)
            },
            _ => {
                let effects: Vec<LoginSlideEffect> = Vec::new();
                assert(login_effects(effects@) =~= Seq::empty());
                effects
            },
        }
    }

    /// Takes up what the manager of the service tells: where the service or the test stands
    /// otherwise, what is wrong with the provider is forgotten, and its models are offered afresh.
    pub fn handle_service_event(&mut self, event: LocalMultiAgentManagerEvent) -> (r: Vec<
        LoginSlideEffect,
    >)
        ensures
            (final(self)@, login_effects(r@)) == (if event is ConfigChanged {
                (old(self)@, Seq::<LoginEffectView>::empty())
            } else {
                (
                    LoginView { setup_error: None, ..old(self)@ },
                    seq![LoginEffectView::RefreshModels, LoginEffectView::Notify],
                )
            }),
    {
        match event {
            LocalMultiAgentManagerEvent::ConfigChanged => {
                let effects: Vec<LoginSlideEffect> = Vec::new();
                assert(login_effects(effects@) =~= Seq::empty());
                effects
            },
            LocalMultiAgentManagerEvent::StatusChanged
            | LocalMultiAgentManagerEvent::TestStatusChanged => {
                self.provider_setup_error = None;
                two_effects(LoginSlideEffect::RefreshModels, LoginSlideEffect::Notify)
            },
        }
    }

    /// Takes up what the input for the token tells: what is handed in is read as the address that
    /// the account service redirects to.
    pub fn handle_token_input_event(&self, event: InputEvent, text: &str) -> (r: Vec<
        LoginSlideEffect,
    >)
        ensures
            login_effects(r@) == (if event.hands_in() {
                seq![LoginEffectView::ReadAuthUrl { url: text@ }, LoginEffectView::Notify]
            } else {
                seq![LoginEffectView::Notify]
            }),
    {
        match event {
            InputEvent::Paste
            | InputEvent::Enter
            | InputEvent::ShiftEnter
            | InputEvent::AltEnter
            | InputEvent::CmdEnter => two_effects(
                LoginSlideEffect::ReadAuthUrl { url: text.to_owned() },
                LoginSlideEffect::Notify,
            ),
            _ => one_effect(LoginSlideEffect::Notify),
        }
    }

    /// The input for the token is shown.
    pub fn is_auth_token_input_visible(&self) -> (r: bool)
        ensures
            r == self@.shows_token_input(),
    {
        self.step == LoginStep::BrowserOpen && self.show_auth_token_input
    }

    /// The user connects a provider of models in place of an account.
    pub fn should_render_provider_setup(&self) -> (r: bool)
        ensures
            r == self@.has_provider_setup(),
    {
        self.ai_enabled && self.source == LoginSlideSource::OnboardingFlow
    }

    /// Text inputs may have the focus.
    pub fn should_allow_text_input_focus(&self) -> (r: bool)
        ensures
            r == self@.allows_text_input(),
    {
        self.is_auth_token_input_visible() || (self.step == LoginStep::SelectAuthPathway
            && self.should_render_provider_setup())
    }

    /// The provider that was entered is the one that was tested, and a model is chosen.
    pub fn is_provider_connection_verified(&self, ctx: &LoginContext) -> (r: bool)
        ensures
            r == self@.connection_verified(ctx@),
    {
        if !self.should_render_provider_setup() || !has_passed(&ctx.test_status) {
            return false;
        }
        let has_model = match &ctx.config.openai_model {
            Some(model) => !blank(model.as_str()),
            None => false,
        };
        let stored = match &ctx.config.openai_base_url {
            Some(url) => Some(trimmed_end_char(trimmed(url.as_str()), '/').to_owned()),
            None => None,
        };
        has_model && same_option(&ctx.base_url(), &stored) && same_option(
            &ctx.api_key(),
            &ctx.stored_api_key,
        )
    }

    fn persist_provider_setup(
        &mut self,
        require_api_key: bool,
        ctx: &LoginContext,
        effects: &mut Vec<LoginSlideEffect>,
    ) -> (r: bool)
        ensures
            (final(self)@, r) == (
                old(self)@.provider_persisted(require_api_key, ctx@).0,
                old(self)@.provider_persisted(require_api_key, ctx@).2,
            ),
            login_effects(final(effects)@) == login_effects(old(effects)@)
                + old(self)@.provider_persisted(require_api_key, ctx@).1,
    {
        let ghost told = login_effects(effects@);
        let ghost more = self@.provider_persisted(require_api_key, ctx@).1;
        let api_key = ctx.api_key();
        match ctx.base_url() {
            None => {
                self.provider_setup_error = Some("OpenAI Base URL is required.".to_owned());
                assert(login_effects(effects@) =~= told + more);
                false
            },
            Some(base_url) => {
                if require_api_key && api_key.is_none() {
                    self.provider_setup_error = Some("OpenAI API key is required.".to_owned());
                    assert(login_effects(effects@) =~= told + more);
                    return false;
                }
                let mut config = ctx.config.clone();
                config.openai_base_url = Some(base_url.clone());
                push_login_effect(effects, LoginSlideEffect::SaveProvider { base_url, api_key });
                assert(login_effects(effects@) =~= told + more);
                if config.validate().is_err() {
                    return false;
                }
                self.provider_setup_error = None;
                true
            },
        }
    }

    fn persist_then(&mut self, ctx: &LoginContext, follows: LoginSlideEffect) -> (r: Vec<
        LoginSlideEffect,
    >)
        ensures
            (final(self)@, login_effects(r@)) == old(self)@.persisted_then(false, ctx@, follows@),
    {
        let ghost result = self@.persisted_then(false, ctx@, follows@);
        let mut effects: Vec<LoginSlideEffect> = Vec::new();
        assert(login_effects(effects@) =~= Seq::empty());
        if self.persist_provider_setup(false, ctx, &mut effects) {
            push_login_effect(&mut effects, follows);
        }
        push_login_effect(&mut effects, LoginSlideEffect::Notify);
        assert(login_effects(effects@) =~= result.1);
        effects
    }

    fn handle_login_later(&self, ctx: &LoginContext) -> (r: Vec<LoginSlideEffect>)
        ensures
            login_effects(r@) == self@.login_later(ctx@),
    {
        let account = if ctx.skips_anonymous_user {
            LoginSlideEffect::SkipLogin
        } else {
            LoginSlideEffect::CreateAnonymousUser
        };
        three_effects(
            LoginSlideEffect::Telemetry {
                event: LoginTelemetry::LoginLaterConfirmationButtonClicked,
                at_once: true,
            },
            account,
            LoginSlideEffect::Emit { event: LoginSlideEvent::LoginLaterConfirmed },
        )
    }

    fn show_select_auth(&mut self) -> (r: Vec<LoginSlideEffect>)
        ensures
            (final(self)@, login_effects(r@)) == old(self)@.to_select_auth(),
    {
        self.step = LoginStep::SelectAuthPathway;
        two_effects(LoginSlideEffect::FocusSelf, LoginSlideEffect::Notify)
    }

    fn leave_privacy(&mut self) -> (r: Vec<LoginSlideEffect>)
        ensures
            (final(self)@, login_effects(r@)) == old(self)@.privacy_left(),
    {
        match self.source {
            LoginSlideSource::PrivacySettingsFromTerminalIntentionTheme => emit_back(),
            _ => self.show_select_auth(),
        }
    }

    fn leave_browser(&mut self) -> (r: Vec<LoginSlideEffect>)
        ensures
            (final(self)@, login_effects(r@)) == old(self)@.browser_left(),
    {
        match self.source {
            LoginSlideSource::OnboardingFlow => self.show_select_auth(),
            _ => emit_back(),
        }
    }

    fn enter(&mut self, ctx: &LoginContext) -> (r: Vec<LoginSlideEffect>)
        ensures
            (final(self)@, login_effects(r@)) == old(self)@.entered(ctx@),
    {
        if self.dialog_open {
            self.dialog_open = false;
            return self.handle_login_later(ctx);
        }
        if self.should_render_provider_setup() {
            let follows = if self.is_provider_connection_verified(ctx) {
                LoginSlideEffect::Emit { event: LoginSlideEvent::LoginLaterConfirmed }
            } else {
                LoginSlideEffect::TestBackend
            };
            return self.persist_then(ctx, follows);
        }
        self.last_login_failure_reason = None;
        self.step = LoginStep::BrowserOpen;
        three_effects(
            LoginSlideEffect::Telemetry {
                event: LoginTelemetry::LoginButtonClicked,
                at_once: false,
            },
            LoginSlideEffect::OpenSignUpUrl,
            LoginSlideEffect::Notify,
        )
    }

    /// Does what the user asks for.
    pub fn handle_action(&mut self, action: LoginSlideAction, ctx: &LoginContext) -> (r: Vec<
        LoginSlideEffect,
    >)
        ensures
            (final(self)@, login_effects(r@)) == old(self)@.after(action, ctx@),
    {
        let ghost result = self@.after(action, ctx@);
        match action {
            LoginSlideAction::Enter => self.enter(ctx),
            LoginSlideAction::ShowSkipDialog => {
                self.dialog_open = true;
                two_effects(
                    LoginSlideEffect::Telemetry {
                        event: LoginTelemetry::LoginLaterButtonClicked,
                        at_once: false,
                    },
                    LoginSlideEffect::Notify,
                )
            },
            LoginSlideAction::ConfirmSkip => {
                self.dialog_open = false;
                self.handle_login_later(ctx)
            },
            LoginSlideAction::DismissDialog => {
                self.dialog_open = false;
                one_effect(LoginSlideEffect::Notify)
            },
            LoginSlideAction::DismissOverlayOrBack => {
                if self.dialog_open {
                    self.dialog_open = false;
                    one_effect(LoginSlideEffect::Notify)
                } else {
                    match self.step {
                        LoginStep::PrivacySettings => self.leave_privacy(),
                        LoginStep::BrowserOpen => self.leave_browser(),
                        LoginStep::SelectAuthPathway => emit_back(),
                    }
                }
            },
            LoginSlideAction::Back => emit_back(),
            LoginSlideAction::BackToSelectAuthPathway => self.leave_browser(),
            LoginSlideAction::CopyLoginUrl => one_effect(LoginSlideEffect::CopySignInUrl),
            LoginSlideAction::EnterToken => {
                self.show_auth_token_input = true;
                two_effects(LoginSlideEffect::PasteIntoTokenInput, LoginSlideEffect::Notify)
            },
            LoginSlideAction::ShowPrivacySettings => {
                if same(ctx.product_name.as_str(), "Slipstream") {
                    let effects: Vec<LoginSlideEffect> = Vec::new();
                    assert(login_effects(effects@) =~= result.1);
                    return effects;
                }
                self.step = LoginStep::PrivacySettings;
                two_effects(
                    LoginSlideEffect::Telemetry {
                        event: LoginTelemetry::OpenAuthPrivacySettings,
                        at_once: true,
                    },
                    LoginSlideEffect::Notify,
                )
            },
            LoginSlideAction::HideOverlay => {
                self.dialog_open = false;
                self.leave_privacy()
            },
            LoginSlideAction::ToggleTelemetry => two_effects(
                LoginSlideEffect::ToggleTelemetry,
                LoginSlideEffect::Notify,
            ),
            LoginSlideAction::ToggleCrashReporting => two_effects(
                LoginSlideEffect::ToggleCrashReporting,
                LoginSlideEffect::Notify,
            ),
            LoginSlideAction::ToggleCloudConversationStorage => two_effects(
                LoginSlideEffect::ToggleCloudConversationStorage,
                LoginSlideEffect::Notify,
            ),
            LoginSlideAction::DismissNotification => {
                self.last_login_failure_reason = None;
                one_effect(LoginSlideEffect::Notify)
            },
            LoginSlideAction::PasteAuthUrl => {
                self.last_login_failure_reason = None;
                if ctx.clipboard.as_str().unicode_len() == 0 {
                    let effects: Vec<LoginSlideEffect> = Vec::new();
                    assert(login_effects(effects@) =~= result.1);
                    return effects;
                }
                one_effect(LoginSlideEffect::ReadAuthUrl { url: ctx.clipboard.clone() })
            },
            LoginSlideAction::TestProviderConnection => self.persist_then(
                ctx,
                LoginSlideEffect::TestBackend,
            ),
            LoginSlideAction::SetProviderDefaultModel(model) => {
                self.provider_setup_error = None;
                two_effects(LoginSlideEffect::SetDefaultModel { model }, LoginSlideEffect::Notify)
            },
        }
    }

    /// Takes up whether a pasted text was such an address.
    pub fn handle_pasted_auth_url(&mut self, is_redirect: bool) -> (r: Vec<LoginSlideEffect>)
        ensures
            final(self)@ == (if is_redirect {
                old(self)@
            } else {
                LoginView {
                    failure: Some(LoginFailureReason::InvalidRedirectUrl { was_pasted: true }),
                    ..old(self)@
                }
            }),
            login_effects(r@) == (if is_redirect {
                seq![LoginEffectView::InitializeUser, LoginEffectView::Notify]
            } else {
                seq![LoginEffectView::Notify]
            }),
    {
        if is_redirect {
            two_effects(LoginSlideEffect::InitializeUser, LoginSlideEffect::Notify)
        } else {
            self.last_login_failure_reason = Some(
                LoginFailureReason::InvalidRedirectUrl { was_pasted: true },
            );
            one_effect(LoginSlideEffect::Notify)
        }
    }

    /// Takes up what the account service tells.
    pub fn handle_auth_manager_event(&mut self, event: AuthManagerEvent) -> (r: Vec<
        LoginSlideEffect,
    >)
        ensures
            final(self)@ == (match failure_of(event) {
                Some(reason) => LoginView { failure: Some(reason), ..old(self)@ },
                None => old(self)@,
            }),
            login_effects(r@) == seq![LoginEffectView::Notify],
    {
        match event {
            AuthManagerEvent::AuthFailed(error) => {
                self.last_login_failure_reason = match error {
                    UserAuthenticationError::InvalidStateParameter => Some(
                        LoginFailureReason::InvalidStateParameter,
                    ),
                    UserAuthenticationError::MissingStateParameter => Some(
                        LoginFailureReason::MissingStateParameter,
                    ),
                    UserAuthenticationError::Other => Some(
                        LoginFailureReason::FailedUserAuthentication,
                    ),
                };
            },
            AuthManagerEvent::CreateAnonymousUserFailed => {
                self.last_login_failure_reason = Some(LoginFailureReason::FailedUserAuthentication);
            },
            AuthManagerEvent::MintCustomTokenFailed => {
                self.last_login_failure_reason = Some(LoginFailureReason::FailedMintCustomToken);
            },
            AuthManagerEvent::Other => {},
        }
        one_effect(LoginSlideEffect::Notify)
    }

    fn form_status_line(&self, status: &LocalMultiAgentTestStatus) -> (r: Option<
        (String, StatusTone),
    >)
        ensures
            (match r {
                Some((text, tone)) => Some((text@, tone)),
                None => None,
            }) == form_status(self@.setup_error, status@),
    {
        if let Some(error) = &self.provider_setup_error {
            return Some((error.clone(), StatusTone::Failure));
        }
        match status {
            LocalMultiAgentTestStatus::Testing => Some(
                ("Testing connection...".to_owned(), StatusTone::Muted),
            ),
            LocalMultiAgentTestStatus::Passed { model_count } => Some(
                (
                    concat3(
                        "Connection verified. Found ",
                        decimal_of(*model_count as u128).as_str(),
                        " models.",
                    ),
                    StatusTone::Success,
                ),
            ),
            LocalMultiAgentTestStatus::Failed { message } => Some(
                (concat2("Connection failed: ", message.as_str()), StatusTone::Failure),
            ),
            LocalMultiAgentTestStatus::NotRun => None,
        }
    }

    /// What stands before the link to the privacy settings.
    pub fn privacy_disclaimer_prefix(&self) -> (r: &'static str)
        ensures
            r@ == self@.privacy_prefix(),
    {
        if self.ai_enabled {
            "If you'd like to opt out of analytics and AI features, you can adjust your "
        } else {
            "If you'd like to opt out of analytics, you can adjust your "
        }
    }

    /// What the first step shows.
    pub fn select_auth_content(&self, product_name: &str, status: &LocalMultiAgentTestStatus) -> (r:
        SelectAuthContent)
        ensures
            r@ == self@.select_auth_content(product_name@, status@),
    {
        let setup = self.should_render_provider_setup();
        let is_terminal = self.intention == OnboardingIntention::Terminal;
        let title = if setup {
            "Connect your AI provider".to_owned()
        } else if is_terminal {
            concat3("Get started with ", product_name, " Drive")
        } else {
            "Get started with AI".to_owned()
        };
        let subtitle = if setup {
            concat3(
                "Enter an OpenAI-compatible Base URL and API key. ",
                product_name,
                " uses this connection locally for AI features.",
            )
        } else if is_terminal {
            "Connect your account to save and share notebooks, workflows, and more across devices.".to_owned()
        } else {
            "Connect your account to enable AI-powered planning, coding, and automation.".to_owned()
        };
        let terms = if setup {
            "Your API key is stored locally and sent only to your configured provider.".to_owned()
        } else {
            concat3("By continuing, you agree to ", product_name, "'s ")
        };
        let privacy_prefix = if same(product_name, "Slipstream") {
            None
        } else {
            Some(self.privacy_disclaimer_prefix().to_owned())
        };
        let form = if setup {
            Some(
                ProviderForm {
                    has_model_selector: has_passed(status),
                    status: self.form_status_line(status),
                },
            )
        } else {
            None
        };
        SelectAuthContent { title, subtitle, terms, has_terms_link: !setup, privacy_prefix, form }
    }

    /// The buttons below the first step.
    pub fn select_auth_bottom_nav(&self, ctx: &LoginContext, drive_name: &str) -> (r: SelectAuthNav)
        ensures
            r@ == self@.select_auth_nav(ctx@, drive_name@),
    {
        if self.should_render_provider_setup() {
            let test_label = match &ctx.test_status {
                LocalMultiAgentTestStatus::NotRun => "Test connection",
                LocalMultiAgentTestStatus::Testing => "Testing...",
                LocalMultiAgentTestStatus::Passed { .. } => "Retest connection",
                LocalMultiAgentTestStatus::Failed { .. } => "Retry connection",
            };
            let is_testing = match &ctx.test_status {
                LocalMultiAgentTestStatus::Testing => true,
                _ => false,
            };
            return SelectAuthNav::Provider {
                test_label: test_label.to_owned(),
                can_test: !is_testing && ctx.base_url().is_some(),
                can_continue: self.is_provider_connection_verified(ctx),
            };
        }
        let skip_label = if self.intention == OnboardingIntention::Terminal {
            concat2("Disable ", drive_name)
        } else {
            "Disable AI features".to_owned()
        };
        SelectAuthNav::Account { skip_label }
    }

    /// What stands where the token is entered, with whether an input was laid out before; and
    /// whether one has been after that.
    pub fn token_field(&self, laid_out: bool) -> (r: (TokenField, bool))
        ensures
            r == token_field(self@.token_input_shown, laid_out),
    {
        if !self.show_auth_token_input {
            (TokenField::Link, laid_out)
        } else if laid_out {
            (TokenField::Input, true)
        } else {
            (TokenField::Placeholder, true)
        }
    }

    /// What the dialog that asks whether to skip says.
    pub fn skip_dialog(&self, product_name: &str, drive_name: &str) -> (r: SkipDialog)
        ensures
            r@ == skip_dialog_of(self@.intention, product_name@, drive_name@),
    {
        match self.intention {
            OnboardingIntention::Terminal => SkipDialog {
                title: concat3("Are you sure you want to disable ", drive_name, "?"),
                body: concat2(
                    drive_name,
                    " lets you save workflows and knowledge across devices and share them with your team. By continuing, you won't have access to the following features:",
                ),
                lists_drive_features: true,
                cancel_label: concat2("Enable ", drive_name),
            },
            OnboardingIntention::AgentDrivenDevelopment => SkipDialog {
                title: "Are you sure you want to disable AI features?".to_owned(),
                body: concat2(
                    product_name,
                    " is better with AI. By continuing, you won't have access to any of the following features:",
                ),
                lists_drive_features: false,
                cancel_label: "Enable AI features".to_owned(),
            },
        }
    }

    /// How the slide is laid out.
    pub fn layout(&self, image_opacity: Option<u8>) -> (r: SlideLayout)
        ensures
            r == layout_of(self@, image_opacity),
    {
        SlideLayout {
            is_centered: self.should_render_provider_setup() && self.step
                == LoginStep::SelectAuthPathway,
            shows_skip_dialog: self.dialog_open,
            shows_failure: self.last_login_failure_reason.is_some(),
            overlay_opacity: match image_opacity {
                Some(opacity) => Some(
                    if opacity >= 100 {
                        0
                    } else {
                        100 - opacity
                    },
                ),
                None => None,
            },
        }
    }
}

/// The user who came for the privacy settings alone is never shown another step by leaving them:
/// every way back leads to the onboarding.
pub proof fn law_privacy_visit_ends_in_onboarding(view: LoginView, ctx: LoginContextView)
    requires
        view.source == LoginSlideSource::PrivacySettingsFromTerminalIntentionTheme,
    ensures
        view.after(LoginSlideAction::HideOverlay, ctx).0.step == view.step,
        view.after(LoginSlideAction::HideOverlay, ctx).1 == back_to_onboarding(),
        view.after(LoginSlideAction::BackToSelectAuthPathway, ctx) == (
            view,
            back_to_onboarding(),
        ),
        !view.dialog_open ==> view.after(LoginSlideAction::DismissOverlayOrBack, ctx) == (
            view,
            back_to_onboarding(),
        ),
{
}

/// Escape closes an open dialog and does nothing else; a second time it goes back.
pub proof fn law_escape_closes_the_dialog_first(view: LoginView, ctx: LoginContextView)
    requires
        view.dialog_open,
    ensures
        ({
            let (next, effects) = view.after(LoginSlideAction::DismissOverlayOrBack, ctx);
            next == (LoginView { dialog_open: false, ..view }) && effects == seq![
                LoginEffectView::Notify,
            ]
        }),
{
}

/// With an open dialog, Enter does what confirming the dialog does.
pub proof fn law_enter_confirms_the_dialog(view: LoginView, ctx: LoginContextView)
    requires
        view.dialog_open,
    ensures
        view.after(LoginSlideAction::Enter, ctx) == view.after(LoginSlideAction::ConfirmSkip, ctx),
{
}

/// With a provider to set up, Enter ends the slide only where the connection is verified, and
/// otherwise tests it; without an address it does neither, and says so.
pub proof fn law_provider_is_tested_first(view: LoginView, ctx: LoginContextView)
    requires
        view.has_provider_setup(),
        !view.dialog_open,
    ensures
        ({
            let (next, effects) = view.after(LoginSlideAction::Enter, ctx);
            let done = LoginEffectView::Emit { event: LoginSlideEvent::LoginLaterConfirmed };
            &&& effects.contains(done) ==> view.connection_verified(ctx)
            &&& effects.contains(LoginEffectView::TestBackend) ==> !view.connection_verified(ctx)
            &&& entered_base_url(ctx) is None ==> effects == seq![LoginEffectView::Notify]
                && next.setup_error == Some("OpenAI Base URL is required."@)
        }),
{
    let (next, effects) = view.after(LoginSlideAction::Enter, ctx);
    assert(entered_base_url(ctx) is None ==> effects =~= seq![LoginEffectView::Notify]);
}

} // verus!
