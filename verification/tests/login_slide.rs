//! The slide that asks for a login or a provider.
use slipstream::local_multi_agent::config::LocalMultiAgentConfig;
use slipstream::local_multi_agent::manager::{
    LocalMultiAgentManagerEvent, LocalMultiAgentTestStatus,
};
use slipstream::login_slide::{
    initial_api_key, initial_base_url, provider_model_dropdown, resolve_visual_path,
    AuthManagerEvent, InputEvent, LoginContext,
    LoginFailureReason, LoginSlideAction, LoginSlideEffect, LoginSlideEvent, LoginSlideSource,
    LoginSlideView, LoginStep, OnboardingIntention, SelectAuthNav, TokenField,
    UserAuthenticationError,
};

fn context() -> LoginContext {
    LoginContext {
        product_name: "Slipstream".to_string(),
        base_url_input: "http://127.0.0.1:1234/v1".to_string(),
        api_key_input: String::new(),
        stored_api_key: None,
        config: LocalMultiAgentConfig::default(),
        test_status: LocalMultiAgentTestStatus::NotRun,
        skips_anonymous_user: true,
        clipboard: String::new(),
    }
}

fn slide(source: LoginSlideSource) -> LoginSlideView {
    LoginSlideView::new(
        true,
        "Dark",
        false,
        OnboardingIntention::AgentDrivenDevelopment,
        source,
    )
}

#[test]
fn privacy_visit_ends_in_onboarding() {
    let mut view = slide(LoginSlideSource::PrivacySettingsFromTerminalIntentionTheme);
    assert_eq!(view.step(), LoginStep::PrivacySettings);
    let effects = view.handle_action(LoginSlideAction::HideOverlay, &context());
    assert!(effects.contains(&LoginSlideEffect::Emit {
        event: LoginSlideEvent::BackToOnboarding
    }));
}

#[test]
fn escape_closes_the_dialog_first() {
    let mut view = slide(LoginSlideSource::OnboardingFlow);
    view.handle_action(LoginSlideAction::ShowSkipDialog, &context());
    assert!(view.layout(None).shows_skip_dialog);
    let effects = view.handle_action(LoginSlideAction::DismissOverlayOrBack, &context());
    assert!(!view.layout(None).shows_skip_dialog);
    assert!(!effects.contains(&LoginSlideEffect::Emit {
        event: LoginSlideEvent::BackToOnboarding
    }));
}

#[test]
fn provider_is_tested_before_it_is_used() {
    let mut view = slide(LoginSlideSource::OnboardingFlow);
    assert!(view.should_render_provider_setup());
    assert!(!view.is_provider_connection_verified(&context()));
    let effects = view.handle_action(LoginSlideAction::TestProviderConnection, &context());
    assert!(effects.contains(&LoginSlideEffect::TestBackend));
    assert!(effects.contains(&LoginSlideEffect::SaveProvider {
        base_url: "http://127.0.0.1:1234/v1".to_string(),
        api_key: None,
    }));
}

#[test]
fn provider_without_an_address_is_refused() {
    let mut view = slide(LoginSlideSource::OnboardingFlow);
    let mut ctx = context();
    ctx.base_url_input = "   ".to_string();
    view.handle_action(LoginSlideAction::TestProviderConnection, &ctx);
    assert!(view.provider_setup_error().is_some());
    view.handle_provider_input_event(InputEvent::Edited);
    assert!(view.provider_setup_error().is_none());
}

#[test]
fn login_failures_are_shown() {
    let mut view = slide(LoginSlideSource::LoginExistingUserFromWelcome);
    view.handle_auth_manager_event(AuthManagerEvent::AuthFailed(
        UserAuthenticationError::MissingStateParameter,
    ));
    assert_eq!(
        view.last_login_failure_reason(),
        Some(LoginFailureReason::MissingStateParameter)
    );
    view.handle_auth_manager_event(AuthManagerEvent::MintCustomTokenFailed);
    assert_eq!(
        view.last_login_failure_reason(),
        Some(LoginFailureReason::FailedMintCustomToken)
    );
    view.handle_action(LoginSlideAction::DismissNotification, &context());
    assert_eq!(view.last_login_failure_reason(), None);
}

#[test]
fn one_token_input_is_laid_out() {
    let mut view = slide(LoginSlideSource::LoginExistingUserFromWelcome);
    assert_eq!(view.token_field(false).0, TokenField::Link);
    view.handle_action(LoginSlideAction::EnterToken, &context());
    assert!(view.is_auth_token_input_visible());
    let (first, laid_out) = view.token_field(false);
    assert_eq!(first, TokenField::Placeholder);
    let (second, _) = view.token_field(laid_out);
    assert_eq!(second, TokenField::Input);
}

#[test]
fn models_are_offered_after_a_passed_test() {
    let models = vec!["a".to_string(), "b".to_string()];
    let config = LocalMultiAgentConfig::default();
    let before = provider_model_dropdown(&config, &models, &LocalMultiAgentTestStatus::NotRun);
    assert!(!before.is_enabled);
    let after = provider_model_dropdown(
        &config,
        &models,
        &LocalMultiAgentTestStatus::Passed { model_count: 2 },
    );
    assert!(after.is_enabled);
    assert!(after.choices.contains(&"a".to_string()));
}

#[test]
fn visuals_depend_on_theme_and_intention() {
    let agent = resolve_visual_path(OnboardingIntention::AgentDrivenDevelopment, "Dark", false);
    let terminal = resolve_visual_path(OnboardingIntention::Terminal, "Dark", false);
    assert_ne!(agent, terminal);
}

#[test]
fn pasted_address_must_be_a_redirect() {
    let mut view = slide(LoginSlideSource::LoginExistingUserFromWelcome);
    view.handle_pasted_auth_url(false);
    assert_eq!(
        view.last_login_failure_reason(),
        Some(LoginFailureReason::InvalidRedirectUrl { was_pasted: true })
    );
    let mut view = slide(LoginSlideSource::LoginExistingUserFromWelcome);
    let effects = view.handle_pasted_auth_url(true);
    assert!(effects.contains(&LoginSlideEffect::InitializeUser));
    assert_eq!(view.last_login_failure_reason(), None);
}

#[test]
fn provider_buttons_follow_the_test() {
    let view = slide(LoginSlideSource::OnboardingFlow);
    assert_eq!(
        view.select_auth_bottom_nav(&context(), "Drive"),
        SelectAuthNav::Provider {
            test_label: "Test connection".to_string(),
            can_test: true,
            can_continue: false,
        }
    );
    let mut ctx = context();
    ctx.test_status = LocalMultiAgentTestStatus::Testing;
    assert_eq!(
        view.select_auth_bottom_nav(&ctx, "Drive"),
        SelectAuthNav::Provider {
            test_label: "Testing...".to_string(),
            can_test: false,
            can_continue: false,
        }
    );
}

#[test]
fn skip_dialog_names_what_is_lost() {
    let view = slide(LoginSlideSource::OnboardingFlow);
    let dialog = view.skip_dialog("Slipstream", "Drive");
    assert_eq!(dialog.title, "Are you sure you want to disable AI features?");
    assert_eq!(dialog.cancel_label, "Enable AI features");
    let view = LoginSlideView::new(
        false,
        "Dark",
        false,
        OnboardingIntention::Terminal,
        LoginSlideSource::OnboardingFlow,
    );
    let dialog = view.skip_dialog("Slipstream", "Drive");
    assert_eq!(dialog.title, "Are you sure you want to disable Drive?");
    assert!(dialog.lists_drive_features);
    assert!(view.should_allow_text_input_focus() || !view.should_render_provider_setup());
}

/// A slide on which the provider was refused.
fn refused() -> LoginSlideView {
    let mut view = slide(LoginSlideSource::OnboardingFlow);
    let mut ctx = context();
    ctx.base_url_input = String::new();
    view.handle_action(LoginSlideAction::TestProviderConnection, &ctx);
    assert!(view.provider_setup_error().is_some());
    view
}

#[test]
fn inputs_start_with_the_stored_provider() {
    assert_eq!(initial_base_url(None), "https://api.openai.com/v1");
    assert_eq!(initial_base_url(Some("http://h/v1")), "http://h/v1");
    assert_eq!(initial_base_url(Some("")), "");
    assert_eq!(initial_api_key(None), "");
    assert_eq!(initial_api_key(Some("key")), "key");
}

#[test]
fn typing_forgets_what_was_wrong_with_the_provider() {
    for event in [InputEvent::Edited, InputEvent::Paste] {
        let mut view = refused();
        assert_eq!(
            view.handle_provider_input_event(event),
            vec![LoginSlideEffect::Notify]
        );
        assert_eq!(view.provider_setup_error(), None);
    }
    for event in [InputEvent::Enter, InputEvent::ShiftEnter, InputEvent::Other] {
        let mut view = refused();
        assert_eq!(view.handle_provider_input_event(event), vec![]);
        assert!(view.provider_setup_error().is_some());
    }
}

#[test]
fn news_of_the_service_refresh_the_models() {
    for event in [
        LocalMultiAgentManagerEvent::StatusChanged,
        LocalMultiAgentManagerEvent::TestStatusChanged,
    ] {
        let mut view = refused();
        assert_eq!(
            view.handle_service_event(event),
            vec![LoginSlideEffect::RefreshModels, LoginSlideEffect::Notify]
        );
        assert_eq!(view.provider_setup_error(), None);
    }
    let mut view = refused();
    assert_eq!(
        view.handle_service_event(LocalMultiAgentManagerEvent::ConfigChanged),
        vec![]
    );
    assert!(view.provider_setup_error().is_some());
}

#[test]
fn token_is_read_when_it_is_handed_in() {
    let view = slide(LoginSlideSource::LoginExistingUserFromWelcome);
    for event in [
        InputEvent::Paste,
        InputEvent::Enter,
        InputEvent::ShiftEnter,
        InputEvent::AltEnter,
        InputEvent::CmdEnter,
    ] {
        assert_eq!(
            view.handle_token_input_event(event, "app://auth"),
            vec![
                LoginSlideEffect::ReadAuthUrl {
                    url: "app://auth".to_string()
                },
                LoginSlideEffect::Notify,
            ]
        );
    }
    for event in [InputEvent::Edited, InputEvent::Other] {
        assert_eq!(
            view.handle_token_input_event(event, "app://auth"),
            vec![LoginSlideEffect::Notify]
        );
    }
}
